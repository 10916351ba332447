//! The closed set of builtin commands and the text each handler produces.
//! A handler reads plain values (its tokens, and whatever the environment
//! lookup it depends on returned), writes its result to the context's output
//! sink and its failures to the error sink, and never aborts the
//! interpreter.

use vstd::prelude::*;
use vstd::string::StringExecFns;

use crate::shellio::ShellIO;
use crate::strutil::{append_decimal, dec_rep, str_eq};

verus! {

/// The closed, known set of builtin commands.
#[derive(Clone, Copy, Debug, PartialEq, Eq, Structural)]
pub enum BuiltinKind {
    Cd,
    Echo,
    Exit,
    History,
    Pwd,
    Type,
}

/// The builtin a command name selects, by exact match against the fixed
/// table; any other name resolves to an external command.
pub open spec fn spec_builtin_of(name: Seq<char>) -> Option<BuiltinKind> {
    if name == "cd"@ {
        Some(BuiltinKind::Cd)
    } else if name == "echo"@ {
        Some(BuiltinKind::Echo)
    } else if name == "exit"@ {
        Some(BuiltinKind::Exit)
    } else if name == "history"@ {
        Some(BuiltinKind::History)
    } else if name == "pwd"@ {
        Some(BuiltinKind::Pwd)
    } else if name == "type"@ {
        Some(BuiltinKind::Type)
    } else {
        None
    }
}

/// Looks a command name up in the builtin table.
pub fn builtin_of(name: &str) -> (r: Option<BuiltinKind>)
    ensures
        r == spec_builtin_of(name@),
{
    if str_eq(name, "cd") {
        Some(BuiltinKind::Cd)
    } else if str_eq(name, "echo") {
        Some(BuiltinKind::Echo)
    } else if str_eq(name, "exit") {
        Some(BuiltinKind::Exit)
    } else if str_eq(name, "history") {
        Some(BuiltinKind::History)
    } else if str_eq(name, "pwd") {
        Some(BuiltinKind::Pwd)
    } else if str_eq(name, "type") {
        Some(BuiltinKind::Type)
    } else {
        None
    }
}

/// Whether a command name selects a builtin.
pub fn is_builtin(name: &str) -> (r: bool)
    ensures
        r == (spec_builtin_of(name@) is Some),
{
    builtin_of(name).is_some()
}

/// The builtin names, in order, for the completion collaborator.
pub fn builtin_names() -> (r: Vec<String>)
    ensures
        r.deep_view() == seq!["cd"@, "echo"@, "exit"@, "history"@, "pwd"@, "type"@],
{
    let mut v: Vec<String> = Vec::new();
    v.push(String::from_str("cd"));
    v.push(String::from_str("echo"));
    v.push(String::from_str("exit"));
    v.push(String::from_str("history"));
    v.push(String::from_str("pwd"));
    v.push(String::from_str("type"));
    proof {
        assert(v.deep_view() =~= seq!["cd"@, "echo"@, "exit"@, "history"@, "pwd"@, "type"@]);
    }
    v
}

/// The arguments joined by single spaces.
pub open spec fn join_with_space(args: Seq<Seq<char>>) -> Seq<char>
    decreases args.len(),
{
    if args.len() == 0 {
        Seq::empty()
    } else if args.len() == 1 {
        args[0]
    } else {
        join_with_space(args.drop_last()) + " "@ + args.last()
    }
}

/// The line `echo` writes: every token after the command name, joined by
/// single spaces and newline-terminated.
pub open spec fn echo_output(tokens: Seq<Seq<char>>) -> Seq<char> {
    join_with_space(tokens.skip(1)) + "\n"@
}

proof fn lemma_join_push(s: Seq<Seq<char>>, x: Seq<char>)
    requires
        s.len() >= 1,
    ensures
        join_with_space(s.push(x)) == join_with_space(s) + " "@ + x,
{
    assert(s.push(x).drop_last() =~= s);
    assert(s.push(x).last() == x);
}

/// The `echo` builtin: writes its arguments, space-joined and
/// newline-terminated, to the output sink.
pub fn handle_echo(tokens: &Vec<String>, ctx: &mut ShellIO)
    requires
        tokens.len() >= 1,
    ensures
        final(ctx).stdout@ == old(ctx).stdout@ + echo_output(tokens.deep_view()),
        final(ctx).stderr == old(ctx).stderr,
        final(ctx).stdin == old(ctx).stdin,
        final(ctx).capture_stdout == old(ctx).capture_stdout,
        final(ctx).capture_stderr == old(ctx).capture_stderr,
{
    let ghost dv = tokens.deep_view();
    let mut line = String::new();
    let mut i: usize = 1;
    proof {
        assert(dv.subrange(1, 1) =~= Seq::<Seq<char>>::empty());
    }
    while i < tokens.len()
        invariant
            1 <= i,
            i <= tokens.len() || i == 1,
            dv == tokens.deep_view(),
            line@ == join_with_space(dv.subrange(1, i as int)),
        decreases tokens.len() - i,
    {
        if i > 1 {
            line.append(" ");
        }
        line.append(tokens[i].as_str());
        proof {
            let prev = dv.subrange(1, i as int);
            assert(dv.subrange(1, i + 1 as int) =~= prev.push(dv[i as int]));
            if i > 1 {
                lemma_join_push(prev, dv[i as int]);
            } else {
                assert(join_with_space(prev.push(dv[i as int])) == dv[i as int]);
            }
        }
        i += 1;
    }
    line.append("\n");
    proof {
        assert(dv.subrange(1, dv.len() as int) =~= dv.skip(1));
    }
    ctx.stdout.append(line.as_str());
}

/// The `type` builtin: names a builtin as such, otherwise reports the PATH
/// resolution handed in by the caller, otherwise fails on the error sink.
/// With no operand it writes nothing.
pub fn handle_type(tokens: &Vec<String>, resolved: &Option<String>, ctx: &mut ShellIO)
    ensures
        tokens.len() <= 1 ==> *final(ctx) == *old(ctx),
        tokens.len() > 1 && spec_builtin_of(tokens.deep_view()[1]) is Some ==> final(ctx).stdout@
            == old(ctx).stdout@ + tokens.deep_view()[1] + " is a shell builtin\n"@ && final(ctx).stderr == old(ctx).stderr,
        tokens.len() > 1 && spec_builtin_of(tokens.deep_view()[1]) is None ==> (resolved matches Some(p)
            ==> final(ctx).stdout@ == old(ctx).stdout@ + tokens.deep_view()[1] + " is "@ + p@
            + "\n"@ && final(ctx).stderr == old(ctx).stderr),
        tokens.len() > 1 && spec_builtin_of(tokens.deep_view()[1]) is None && resolved is None
            ==> final(ctx).stderr@ == old(ctx).stderr@ + tokens.deep_view()[1] + ": not found\n"@
            && final(ctx).stdout == old(ctx).stdout,
        final(ctx).stdin == old(ctx).stdin,
        final(ctx).capture_stdout == old(ctx).capture_stdout,
        final(ctx).capture_stderr == old(ctx).capture_stderr,
{
    if tokens.len() <= 1 {
        return ;
    }
    let target = &tokens[1];
    if is_builtin(target.as_str()) {
        let mut line = target.clone();
        line.append(" is a shell builtin\n");
        ctx.stdout.append(line.as_str());
    } else {
        match resolved {
            Some(path) => {
                let mut line = target.clone();
                line.append(" is ");
                line.append(path.as_str());
                line.append("\n");
                ctx.stdout.append(line.as_str());
            },
            None => {
                let mut line = target.clone();
                line.append(": not found\n");
                ctx.stderr.append(line.as_str());
            },
        }
    }
}

/// One line of `history` output: four spaces, the 1-based entry number, two
/// spaces, the entry, a newline.
pub open spec fn history_line(num: nat, entry: Seq<char>) -> Seq<char> {
    "    "@ + dec_rep(num) + "  "@ + entry + "\n"@
}

/// The full `history` listing, in insertion order.
pub open spec fn history_output(entries: Seq<Seq<char>>) -> Seq<char>
    decreases entries.len(),
{
    if entries.len() == 0 {
        Seq::empty()
    } else {
        history_output(entries.drop_last()) + history_line(entries.len(), entries.last())
    }
}

/// The `history` builtin: writes every prior command line, numbered from 1,
/// to the output sink.
pub fn handle_history(entries: &Vec<String>, ctx: &mut ShellIO)
    requires
        entries.len() < usize::MAX,
    ensures
        final(ctx).stdout@ == old(ctx).stdout@ + history_output(entries.deep_view()),
        final(ctx).stderr == old(ctx).stderr,
        final(ctx).stdin == old(ctx).stdin,
        final(ctx).capture_stdout == old(ctx).capture_stdout,
        final(ctx).capture_stderr == old(ctx).capture_stderr,
{
    let ghost dv = entries.deep_view();
    let ghost start = ctx.stdout@;
    let mut i: usize = 0;
    proof {
        assert(dv.subrange(0, 0) =~= Seq::<Seq<char>>::empty());
    }
    while i < entries.len()
        invariant
            i <= entries.len(),
            entries.len() < usize::MAX,
            dv == entries.deep_view(),
            ctx.stdout@ == start + history_output(dv.subrange(0, i as int)),
            ctx.stderr == old(ctx).stderr,
            ctx.stdin == old(ctx).stdin,
            ctx.capture_stdout == old(ctx).capture_stdout,
            ctx.capture_stderr == old(ctx).capture_stderr,
            start == old(ctx).stdout@,
        decreases entries.len() - i,
    {
        let mut line = String::from_str("    ");
        append_decimal(&mut line, i + 1);
        line.append("  ");
        line.append(entries[i].as_str());
        line.append("\n");
        ctx.stdout.append(line.as_str());
        proof {
            let sub = dv.subrange(0, i + 1 as int);
            assert(sub.drop_last() =~= dv.subrange(0, i as int));
            assert(sub.last() == dv[i as int]);
            assert(line@ == history_line((i + 1) as nat, dv[i as int]));
        }
        i += 1;
    }
    proof {
        assert(dv.subrange(0, dv.len() as int) =~= dv);
    }
}

/// The directory `cd` changes to: its operand, with a lone `~` replaced by
/// the home directory when one is known; `None` when `cd` has no operand and
/// does nothing.
pub fn cd_target(tokens: &Vec<String>, home: &Option<String>) -> (r: Option<String>)
    ensures
        tokens.len() <= 1 ==> r is None,
        tokens.len() > 1 && tokens.deep_view()[1] == "~"@ ==> (home matches Some(h) ==> (
        r matches Some(d) && d@ == h@)),
        tokens.len() > 1 && (tokens.deep_view()[1] != "~"@ || home is None) ==> (r matches Some(
        d) && d@ == tokens.deep_view()[1]),
{
    if tokens.len() <= 1 {
        return None;
    }
    if str_eq(tokens[1].as_str(), "~") {
        match home {
            Some(h) => {
                return Some(h.clone());
            },
            None => {},
        }
    }
    Some(tokens[1].clone())
}

/// The message `cd` reports when the directory cannot be entered.
pub fn cd_failure_message(dir: &str) -> (r: String)
    ensures
        r@ == "cd: "@ + dir@ + ": No such file or directory\n"@,
{
    let mut line = String::from_str("cd: ");
    line.append(dir);
    line.append(": No such file or directory\n");
    line
}

/// The `pwd` builtin: writes the working directory handed in by the caller
/// to the output sink, or a failure to the error sink when none could be
/// obtained.
pub fn handle_pwd(cwd: &Option<String>, ctx: &mut ShellIO)
    ensures
        cwd matches Some(p) ==> final(ctx).stdout@ == old(ctx).stdout@ + p@ + "\n"@ && final(ctx).stderr == old(ctx).stderr,
        cwd is None ==> final(ctx).stderr@ == old(ctx).stderr@
            + "pwd: can't obtain working directory\n"@ && final(ctx).stdout == old(ctx).stdout,
        final(ctx).stdin == old(ctx).stdin,
        final(ctx).capture_stdout == old(ctx).capture_stdout,
        final(ctx).capture_stderr == old(ctx).capture_stderr,
{
    match cwd {
        Some(path) => {
            let mut line = path.clone();
            line.append("\n");
            ctx.stdout.append(line.as_str());
        },
        None => {
            ctx.stderr.append("pwd: can't obtain working directory\n");
        },
    }
}

} // verus!
