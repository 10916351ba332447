//! Redirection resolver: a single left-to-right pass over the terminal
//! stage's token list that recognizes the eight redirection operator tokens,
//! records which files must be opened (in scan order, so that an overridden
//! earlier redirect still truncates its file), routes stdout and stderr, and
//! returns the cleaned token list.  `2>&1` duplicates whatever stdout is
//! resolved to at that point of the scan; `&>` routes both streams to one
//! file through two independently owned handles, modelled as two streams
//! naming the same open request.

use vstd::prelude::*;

use crate::errors::{ParseError, RedirOp};
use crate::shellio::ShellIO;
use crate::strutil::str_eq;

verus! {

/// Where an output stream of the terminal stage is routed.
#[derive(Clone, Copy, Debug, PartialEq, Eq, Structural)]
pub enum RedirTarget {
    /// Inherited from the interpreter: the interactive stream.
    Inherited,
    /// The file named by the open request at this index.
    File { index: usize },
}

/// A file the resolver asks to be opened: created if missing, truncated
/// unless `append` is set.
#[derive(Clone, Debug)]
pub struct OpenRequest {
    pub path: String,
    pub append: bool,
}

/// The resolver's result: the stage's ordinary arguments with the
/// redirection tokens removed, the files to open in scan order, and the
/// final routing of the two output streams.
#[derive(Debug)]
pub struct RedirResolution {
    pub tokens: Vec<String>,
    pub opens: Vec<OpenRequest>,
    pub stdout: RedirTarget,
    pub stderr: RedirTarget,
}

/// Abstract resolver state: cleaned tokens, files opened so far as
/// (path, append) pairs, and the current routing of both output streams.
#[verifier::ext_equal]
pub struct RedirModel {
    pub clean: Seq<Seq<char>>,
    pub opens: Seq<(Seq<char>, bool)>,
    pub stdout: RedirTarget,
    pub stderr: RedirTarget,
}

pub open spec fn init_redir_model() -> RedirModel {
    RedirModel {
        clean: Seq::empty(),
        opens: Seq::empty(),
        stdout: RedirTarget::Inherited,
        stderr: RedirTarget::Inherited,
    }
}

pub open spec fn opens_model(s: Seq<OpenRequest>) -> Seq<(Seq<char>, bool)> {
    Seq::new(s.len(), |i: int| (s[i].path@, s[i].append))
}

/// The abstract state a resolution stands for.
pub open spec fn resolution_model(r: RedirResolution) -> RedirModel {
    RedirModel {
        clean: r.tokens.deep_view(),
        opens: opens_model(r.opens@),
        stdout: r.stdout,
        stderr: r.stderr,
    }
}

/// One left-to-right scan from token `i` in state `st`.  Every operator but
/// `2>&1` consumes the following token as a filename and fails when none
/// exists; a later operator for the same stream overrides an earlier one,
/// whose file is still opened; unrecognized tokens stay ordinary arguments.
pub open spec fn resolve_from(toks: Seq<Seq<char>>, i: int, st: RedirModel) -> Result<
    RedirModel,
    RedirOp,
>
    decreases toks.len() - i,
    when 0 <= i <= toks.len()
{
    if i >= toks.len() {
        Ok(st)
    } else {
        let t = toks[i];
        if t == ">"@ || t == "1>"@ {
            if i + 1 >= toks.len() {
                Err(RedirOp::OutTrunc)
            } else {
                resolve_from(
                    toks,
                    i + 2,
                    RedirModel {
                        opens: st.opens.push((toks[i + 1], false)),
                        stdout: RedirTarget::File { index: st.opens.len() as usize },
                        ..st
                    },
                )
            }
        } else if t == ">>"@ || t == "1>>"@ {
            if i + 1 >= toks.len() {
                Err(RedirOp::OutAppend)
            } else {
                resolve_from(
                    toks,
                    i + 2,
                    RedirModel {
                        opens: st.opens.push((toks[i + 1], true)),
                        stdout: RedirTarget::File { index: st.opens.len() as usize },
                        ..st
                    },
                )
            }
        } else if t == "2>"@ {
            if i + 1 >= toks.len() {
                Err(RedirOp::ErrTrunc)
            } else {
                resolve_from(
                    toks,
                    i + 2,
                    RedirModel {
                        opens: st.opens.push((toks[i + 1], false)),
                        stderr: RedirTarget::File { index: st.opens.len() as usize },
                        ..st
                    },
                )
            }
        } else if t == "2>>"@ {
            if i + 1 >= toks.len() {
                Err(RedirOp::ErrAppend)
            } else {
                resolve_from(
                    toks,
                    i + 2,
                    RedirModel {
                        opens: st.opens.push((toks[i + 1], true)),
                        stderr: RedirTarget::File { index: st.opens.len() as usize },
                        ..st
                    },
                )
            }
        } else if t == "&>"@ {
            if i + 1 >= toks.len() {
                Err(RedirOp::Both)
            } else {
                resolve_from(
                    toks,
                    i + 2,
                    RedirModel {
                        opens: st.opens.push((toks[i + 1], false)),
                        stdout: RedirTarget::File { index: st.opens.len() as usize },
                        stderr: RedirTarget::File { index: st.opens.len() as usize },
                        ..st
                    },
                )
            }
        } else if t == "2>&1"@ {
            resolve_from(toks, i + 1, RedirModel { stderr: st.stdout, ..st })
        } else {
            resolve_from(toks, i + 1, RedirModel { clean: st.clean.push(t), ..st })
        }
    }
}

/// Consumes the redirection operators of a terminal stage's token list,
/// producing the cleaned arguments, the files to open, and the routing of
/// stdout and stderr; fails when an operator stands without its filename.
pub fn setup_redirections(tokens: &Vec<String>) -> (r: Result<RedirResolution, ParseError>)
    ensures
        r matches Ok(res) ==> resolve_from(tokens.deep_view(), 0, init_redir_model()) == Ok::<
            RedirModel,
            RedirOp,
        >(resolution_model(res)),
        r matches Err(e) ==> e matches ParseError::MissingFilename { op } && resolve_from(
            tokens.deep_view(),
            0,
            init_redir_model(),
        ) == Err::<RedirModel, RedirOp>(op),
{
    let ghost dv = tokens.deep_view();
    let mut clean: Vec<String> = Vec::new();
    let mut opens: Vec<OpenRequest> = Vec::new();
    let mut stdout_t = RedirTarget::Inherited;
    let mut stderr_t = RedirTarget::Inherited;
    let mut i: usize = 0;
    proof {
        assert(RedirModel {
            clean: clean.deep_view(),
            opens: opens_model(opens@),
            stdout: stdout_t,
            stderr: stderr_t,
        } =~= init_redir_model());
    }
    while i < tokens.len()
        invariant
            i <= tokens.len(),
            dv == tokens.deep_view(),
            resolve_from(dv, 0, init_redir_model()) == resolve_from(
                dv,
                i as int,
                RedirModel {
                    clean: clean.deep_view(),
                    opens: opens_model(opens@),
                    stdout: stdout_t,
                    stderr: stderr_t,
                },
            ),
        decreases tokens.len() - i,
    {
        let ghost st = RedirModel {
            clean: clean.deep_view(),
            opens: opens_model(opens@),
            stdout: stdout_t,
            stderr: stderr_t,
        };
        proof {
            assert(dv[i as int] == tokens@[i as int]@);
        }
        let tok = &tokens[i];
        if str_eq(tok.as_str(), ">") || str_eq(tok.as_str(), "1>") {
            if i + 1 >= tokens.len() {
                return Err(ParseError::MissingFilename { op: RedirOp::OutTrunc });
            }
            let path = tokens[i + 1].clone();
            opens.push(OpenRequest { path, append: false });
            stdout_t = RedirTarget::File { index: opens.len() - 1 };
            i += 2;
            proof {
                assert(opens_model(opens@) =~= st.opens.push((dv[i - 1], false)));
            }
        } else if str_eq(tok.as_str(), ">>") || str_eq(tok.as_str(), "1>>") {
            if i + 1 >= tokens.len() {
                return Err(ParseError::MissingFilename { op: RedirOp::OutAppend });
            }
            let path = tokens[i + 1].clone();
            opens.push(OpenRequest { path, append: true });
            stdout_t = RedirTarget::File { index: opens.len() - 1 };
            i += 2;
            proof {
                assert(opens_model(opens@) =~= st.opens.push((dv[i - 1], true)));
            }
        } else if str_eq(tok.as_str(), "2>") {
            if i + 1 >= tokens.len() {
                return Err(ParseError::MissingFilename { op: RedirOp::ErrTrunc });
            }
            let path = tokens[i + 1].clone();
            opens.push(OpenRequest { path, append: false });
            stderr_t = RedirTarget::File { index: opens.len() - 1 };
            i += 2;
            proof {
                assert(opens_model(opens@) =~= st.opens.push((dv[i - 1], false)));
            }
        } else if str_eq(tok.as_str(), "2>>") {
            if i + 1 >= tokens.len() {
                return Err(ParseError::MissingFilename { op: RedirOp::ErrAppend });
            }
            let path = tokens[i + 1].clone();
            opens.push(OpenRequest { path, append: true });
            stderr_t = RedirTarget::File { index: opens.len() - 1 };
            i += 2;
            proof {
                assert(opens_model(opens@) =~= st.opens.push((dv[i - 1], true)));
            }
        } else if str_eq(tok.as_str(), "&>") {
            if i + 1 >= tokens.len() {
                return Err(ParseError::MissingFilename { op: RedirOp::Both });
            }
            let path = tokens[i + 1].clone();
            opens.push(OpenRequest { path, append: false });
            stdout_t = RedirTarget::File { index: opens.len() - 1 };
            stderr_t = RedirTarget::File { index: opens.len() - 1 };
            i += 2;
            proof {
                assert(opens_model(opens@) =~= st.opens.push((dv[i - 1], false)));
            }
        } else if str_eq(tok.as_str(), "2>&1") {
            stderr_t = stdout_t;
            i += 1;
        } else {
            let arg = tokens[i].clone();
            clean.push(arg);
            i += 1;
            proof {
                assert(clean.deep_view() =~= st.clean.push(dv[i - 1]));
            }
        }
    }
    let res = RedirResolution { tokens: clean, opens, stdout: stdout_t, stderr: stderr_t };
    Ok(res)
}

impl RedirResolution {
    /// The I/O context the resolved targets call for: each output stream is
    /// a capture exactly when it was routed to a file.
    pub fn shellio(&self) -> (r: ShellIO)
        ensures
            r.stdin is None,
            r.stdout@ == Seq::<char>::empty(),
            r.stderr@ == Seq::<char>::empty(),
            r.capture_stdout == (self.stdout is File),
            r.capture_stderr == (self.stderr is File),
    {
        match (&self.stdout, &self.stderr) {
            (RedirTarget::File { .. }, RedirTarget::File { .. }) => ShellIO::new_capture_both(),
            (RedirTarget::File { .. }, RedirTarget::Inherited) => ShellIO::new_capture_stdout(),
            (RedirTarget::Inherited, RedirTarget::File { .. }) => ShellIO::new_capture_stderr(),
            (RedirTarget::Inherited, RedirTarget::Inherited) => ShellIO::new(),
        }
    }
}

} // verus!
