use pipeshell::builtins::BuiltinKind;
use pipeshell::pipeline::{plan_pipeline, start_pipeline, step_pipeline, Action, Event};
use pipeshell::shellio::{ShellIO, StdioCfg};

#[test]
fn single_stage_external_action() {
    // A one-stage pipeline goes through the same stage machinery: stdin
    // inherited, nothing fed or captured, sinks inherited when unredirected.
    let plan = plan_pipeline("cat").unwrap();
    let (mut run, action) = start_pipeline(plan);
    match action {
        Action::Spawn { tokens, stdin, stdout, stderr, feed, capture, terminal } => {
            assert_eq!(tokens, vec!["cat".to_string()]);
            assert_eq!(stdin, StdioCfg::Inherit);
            assert_eq!(stdout, StdioCfg::Inherit);
            assert_eq!(stderr, StdioCfg::Inherit);
            assert!(feed.is_none());
            assert!(!capture);
            assert!(terminal);
        }
        _ => panic!("expected a spawn"),
    }
    let action = step_pipeline(&mut run, Event::SpawnOk);
    assert!(matches!(action, Action::Finish { error: None }));
    assert!(run.done);
}

#[test]
fn single_stage_builtin_action() {
    let plan = plan_pipeline("echo hi").unwrap();
    let (mut run, action) = start_pipeline(plan);
    match action {
        Action::RunBuiltin { kind, tokens, input, terminal } => {
            assert_eq!(kind, BuiltinKind::Echo);
            assert_eq!(tokens, vec!["echo".to_string(), "hi".to_string()]);
            assert!(input.is_none());
            assert!(terminal);
        }
        _ => panic!("expected a builtin run"),
    }
    let action = step_pipeline(&mut run, Event::BuiltinDone { output: None });
    assert!(matches!(action, Action::Finish { error: None }));
    assert!(run.done);
}

#[test]
fn external_to_external_uses_the_live_pipe() {
    // printf's stdout pipe becomes cat's stdin directly: no user-space copy,
    // so the downstream spawn carries no feed bytes.
    let plan = plan_pipeline("printf foo | cat").unwrap();
    let (mut run, action) = start_pipeline(plan);
    match action {
        Action::Spawn { tokens, stdin, stdout, feed, capture, terminal, .. } => {
            assert_eq!(tokens[0], "printf");
            assert_eq!(stdin, StdioCfg::Inherit);
            assert_eq!(stdout, StdioCfg::Piped);
            assert!(feed.is_none());
            assert!(!capture);
            assert!(!terminal);
        }
        _ => panic!("expected a spawn"),
    }
    let action = step_pipeline(&mut run, Event::SpawnOk);
    match action {
        Action::Spawn { tokens, stdin, stdout, feed, capture, terminal, .. } => {
            assert_eq!(tokens[0], "cat");
            assert_eq!(stdin, StdioCfg::Piped);
            assert_eq!(stdout, StdioCfg::Inherit);
            assert!(feed.is_none());
            assert!(!capture);
            assert!(terminal);
        }
        _ => panic!("expected a spawn"),
    }
    let action = step_pipeline(&mut run, Event::SpawnOk);
    assert!(matches!(action, Action::Finish { error: None }));
}

#[test]
fn builtin_to_external_bridges_through_a_buffer() {
    // echo runs in-process; its buffered bytes are fed to cat's stdin by the
    // concurrent feeder, byte-exact.
    let plan = plan_pipeline("echo foo | cat").unwrap();
    let (mut run, action) = start_pipeline(plan);
    let output = match action {
        Action::RunBuiltin { kind, tokens, input, terminal } => {
            assert_eq!(kind, BuiltinKind::Echo);
            assert!(input.is_none());
            assert!(!terminal);
            let mut ctx = ShellIO::new().with_piped_stdout();
            pipeshell::builtins::handle_echo(&tokens, &mut ctx);
            assert_eq!(ctx.stdout, "foo\n");
            ctx.stdout.into_bytes()
        }
        _ => panic!("expected a builtin run"),
    };
    let action = step_pipeline(&mut run, Event::BuiltinDone { output: Some(output) });
    match action {
        Action::Spawn { tokens, stdin, stdout, feed, terminal, .. } => {
            assert_eq!(tokens[0], "cat");
            assert_eq!(stdin, StdioCfg::Piped);
            assert_eq!(stdout, StdioCfg::Inherit);
            assert_eq!(feed, Some(b"foo\n".to_vec()));
            assert!(terminal);
        }
        _ => panic!("expected a spawn"),
    }
    let action = step_pipeline(&mut run, Event::SpawnOk);
    assert!(matches!(action, Action::Finish { error: None }));
}

#[test]
fn external_feeding_builtin_is_captured() {
    // The external stage's output cannot stay a live pipe: it is captured in
    // full and handed to the builtin after the child exits.
    let plan = plan_pipeline("printf x | echo hi").unwrap();
    let (mut run, action) = start_pipeline(plan);
    match &action {
        Action::Spawn { capture, terminal, .. } => {
            assert!(*capture);
            assert!(!*terminal);
        }
        _ => panic!("expected a spawn"),
    }
    let action = step_pipeline(&mut run, Event::Captured { data: b"x".to_vec() });
    match action {
        Action::RunBuiltin { kind, input, terminal, .. } => {
            assert_eq!(kind, BuiltinKind::Echo);
            assert_eq!(input, Some(b"x".to_vec()));
            assert!(terminal);
        }
        _ => panic!("expected a builtin run"),
    }
}

#[test]
fn spawn_failure_reports_and_stops_construction() {
    // cmd2 cannot be resolved: the error names cmd2, cmd3 is never
    // constructed, and the finishing action waits on cmd1.
    let plan = plan_pipeline("cmd1 | cmd2 | cmd3").unwrap();
    let (mut run, action) = start_pipeline(plan);
    match &action {
        Action::Spawn { tokens, .. } => assert_eq!(tokens[0], "cmd1"),
        _ => panic!("expected a spawn"),
    }
    let action = step_pipeline(&mut run, Event::SpawnOk);
    match &action {
        Action::Spawn { tokens, .. } => assert_eq!(tokens[0], "cmd2"),
        _ => panic!("expected a spawn"),
    }
    let action = step_pipeline(&mut run, Event::SpawnFail);
    match action {
        Action::Finish { error } => {
            assert_eq!(error, Some("cmd2: command not found".to_string()));
        }
        _ => panic!("expected the pipeline to finish"),
    }
    assert!(run.done);
}

#[test]
fn terminal_redirection_pipes_the_child_streams() {
    // A redirected terminal stream is captured (piped) so its bytes can be
    // written to the opened file; the other stream stays inherited.
    let plan = plan_pipeline("cat x > out.txt").unwrap();
    let (_, action) = start_pipeline(plan);
    match action {
        Action::Spawn { stdout, stderr, .. } => {
            assert_eq!(stdout, StdioCfg::Piped);
            assert_eq!(stderr, StdioCfg::Inherit);
        }
        _ => panic!("expected a spawn"),
    }
    let plan = plan_pipeline("cat x 2> err.txt").unwrap();
    let (_, action) = start_pipeline(plan);
    match action {
        Action::Spawn { stdout, stderr, .. } => {
            assert_eq!(stdout, StdioCfg::Inherit);
            assert_eq!(stderr, StdioCfg::Piped);
        }
        _ => panic!("expected a spawn"),
    }
}

#[test]
fn empty_plan_finishes_at_once() {
    let plan = plan_pipeline("").unwrap();
    let (run, action) = start_pipeline(plan);
    assert!(matches!(action, Action::Finish { error: None }));
    assert!(run.done);
}

#[test]
fn terminal_builtin_with_redirect_still_runs_in_process() {
    let plan = plan_pipeline("echo hi > out.txt").unwrap();
    assert_eq!(plan.opens.len(), 1);
    assert_eq!(plan.opens[0].path, "out.txt");
    let (_, action) = start_pipeline(plan);
    assert!(matches!(action, Action::RunBuiltin { terminal: true, .. }));
}
