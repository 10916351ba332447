//! Per-stage view of the three standard streams.  A builtin writes its text
//! into the in-memory stdout and stderr buffers held here; the capture flags
//! say whether each output stream feeds a capture (a pipe buffer or a
//! redirected file) or the inherited terminal stream, and therefore whether a
//! child process gets a piped or an inherited stream at spawn time.

use vstd::prelude::*;

verus! {

/// How one standard stream of a child process is configured when it is
/// spawned.
#[derive(Clone, Copy, Debug, PartialEq, Eq, Structural)]
pub enum StdioCfg {
    Inherit,
    Piped,
}

/// The resolved standard streams of one pipeline stage.
pub struct ShellIO {
    /// Captured input bytes handed to the stage; `None` means the input
    /// stream is inherited from the interpreter.
    pub stdin: Option<Vec<u8>>,
    /// Text written to the stdout sink so far.
    pub stdout: String,
    /// Text written to the stderr sink so far.
    pub stderr: String,
    /// The stdout sink is a capture, not the terminal.
    pub capture_stdout: bool,
    /// The stderr sink is a capture, not the terminal.
    pub capture_stderr: bool,
}

impl ShellIO {
    /// A context with every stream inherited and nothing written yet.
    pub fn new() -> (r: ShellIO)
        ensures
            r.stdin is None,
            r.stdout@ == Seq::<char>::empty(),
            r.stderr@ == Seq::<char>::empty(),
            !r.capture_stdout,
            !r.capture_stderr,
    {
        ShellIO {
            stdin: None,
            stdout: String::new(),
            stderr: String::new(),
            capture_stdout: false,
            capture_stderr: false,
        }
    }

    /// The same context with its input replaced by captured bytes.
    pub fn with_stdin(self, data: Vec<u8>) -> (r: ShellIO)
        ensures
            r.stdin == Some(data),
            r.stdout == self.stdout,
            r.stderr == self.stderr,
            r.capture_stdout == self.capture_stdout,
            r.capture_stderr == self.capture_stderr,
    {
        ShellIO { stdin: Some(data), ..self }
    }

    /// The same context with its stdout turned into a capture.
    pub fn with_piped_stdout(self) -> (r: ShellIO)
        ensures
            r.stdin == self.stdin,
            r.stdout == self.stdout,
            r.stderr == self.stderr,
            r.capture_stdout,
            r.capture_stderr == self.capture_stderr,
    {
        ShellIO { capture_stdout: true, ..self }
    }

    /// A fresh context whose stdout is a capture.
    pub fn new_capture_stdout() -> (r: ShellIO)
        ensures
            r.stdin is None,
            r.stdout@ == Seq::<char>::empty(),
            r.stderr@ == Seq::<char>::empty(),
            r.capture_stdout,
            !r.capture_stderr,
    {
        ShellIO::new().with_piped_stdout()
    }

    /// A fresh context whose stderr is a capture.
    pub fn new_capture_stderr() -> (r: ShellIO)
        ensures
            r.stdin is None,
            r.stdout@ == Seq::<char>::empty(),
            r.stderr@ == Seq::<char>::empty(),
            !r.capture_stdout,
            r.capture_stderr,
    {
        ShellIO { capture_stderr: true, ..ShellIO::new() }
    }

    /// A fresh context whose stdout and stderr are both captures.
    pub fn new_capture_both() -> (r: ShellIO)
        ensures
            r.stdin is None,
            r.stdout@ == Seq::<char>::empty(),
            r.stderr@ == Seq::<char>::empty(),
            r.capture_stdout,
            r.capture_stderr,
    {
        ShellIO { capture_stderr: true, ..ShellIO::new_capture_stdout() }
    }

    /// The spawn configuration of the input stream: piped exactly when the
    /// stage has captured input to deliver.
    pub fn stdin_stdio(&self) -> (r: StdioCfg)
        ensures
            r == (if self.stdin is Some {
                StdioCfg::Piped
            } else {
                StdioCfg::Inherit
            }),
    {
        if self.stdin.is_some() {
            StdioCfg::Piped
        } else {
            StdioCfg::Inherit
        }
    }

    /// The spawn configuration of the output stream: piped exactly when
    /// stdout feeds a capture.
    pub fn stdout_stdio(&self) -> (r: StdioCfg)
        ensures
            r == (if self.capture_stdout {
                StdioCfg::Piped
            } else {
                StdioCfg::Inherit
            }),
    {
        if self.capture_stdout {
            StdioCfg::Piped
        } else {
            StdioCfg::Inherit
        }
    }

    /// The spawn configuration of the error stream: piped exactly when
    /// stderr feeds a capture.
    pub fn stderr_stdio(&self) -> (r: StdioCfg)
        ensures
            r == (if self.capture_stderr {
                StdioCfg::Piped
            } else {
                StdioCfg::Inherit
            }),
    {
        if self.capture_stderr {
            StdioCfg::Piped
        } else {
            StdioCfg::Inherit
        }
    }
}

} // verus!
