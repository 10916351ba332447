use pipeshell::errors::{ParseError, RedirOp};
use pipeshell::redirect::{setup_redirections, RedirTarget};

fn toks(words: &[&str]) -> Vec<String> {
    words.iter().map(|w| w.to_string()).collect()
}

#[test]
fn stdout_truncate_opens_file() {
    let r = setup_redirections(&toks(&["echo", "hi", ">", "out.txt"])).unwrap();
    assert_eq!(r.tokens, vec!["echo".to_string(), "hi".to_string()]);
    assert_eq!(r.opens.len(), 1);
    assert_eq!(r.opens[0].path, "out.txt");
    assert!(!r.opens[0].append);
    assert_eq!(r.stdout, RedirTarget::File { index: 0 });
    assert_eq!(r.stderr, RedirTarget::Inherited);
}

#[test]
fn stdout_append_opens_file_in_append_mode() {
    let r = setup_redirections(&toks(&["echo", "bye", ">>", "out.txt"])).unwrap();
    assert_eq!(r.tokens, vec!["echo".to_string(), "bye".to_string()]);
    assert_eq!(r.opens.len(), 1);
    assert_eq!(r.opens[0].path, "out.txt");
    assert!(r.opens[0].append);
    assert_eq!(r.stdout, RedirTarget::File { index: 0 });
}

#[test]
fn digit_forms_match_bare_forms() {
    let a = setup_redirections(&toks(&["x", "1>", "f"])).unwrap();
    assert_eq!(a.stdout, RedirTarget::File { index: 0 });
    assert!(!a.opens[0].append);
    let b = setup_redirections(&toks(&["x", "1>>", "f"])).unwrap();
    assert_eq!(b.stdout, RedirTarget::File { index: 0 });
    assert!(b.opens[0].append);
}

#[test]
fn stderr_redirects() {
    let r = setup_redirections(&toks(&["x", "2>", "err.log"])).unwrap();
    assert_eq!(r.stdout, RedirTarget::Inherited);
    assert_eq!(r.stderr, RedirTarget::File { index: 0 });
    assert!(!r.opens[0].append);
    let r = setup_redirections(&toks(&["x", "2>>", "err.log"])).unwrap();
    assert_eq!(r.stderr, RedirTarget::File { index: 0 });
    assert!(r.opens[0].append);
}

#[test]
fn both_streams_share_one_open() {
    let r = setup_redirections(&toks(&["x", "&>", "all.log"])).unwrap();
    assert_eq!(r.opens.len(), 1);
    assert_eq!(r.stdout, RedirTarget::File { index: 0 });
    assert_eq!(r.stderr, RedirTarget::File { index: 0 });
}

#[test]
fn merge_with_unredirected_stdout_stays_interactive() {
    // stderr duplicates what stdout is resolved to at this point of the
    // scan: nothing was redirected, so stderr goes back to inherited and no
    // file is opened.
    let r = setup_redirections(&toks(&["echo", "hi", "2>&1"])).unwrap();
    assert_eq!(r.tokens, vec!["echo".to_string(), "hi".to_string()]);
    assert!(r.opens.is_empty());
    assert_eq!(r.stdout, RedirTarget::Inherited);
    assert_eq!(r.stderr, RedirTarget::Inherited);
    let io = r.shellio();
    assert!(!io.capture_stdout);
    assert!(!io.capture_stderr);
}

#[test]
fn merge_after_redirect_duplicates_the_file() {
    let r = setup_redirections(&toks(&["x", ">", "f", "2>&1"])).unwrap();
    assert_eq!(r.stdout, RedirTarget::File { index: 0 });
    assert_eq!(r.stderr, RedirTarget::File { index: 0 });
}

#[test]
fn merge_is_order_sensitive() {
    // `2>&1` before the stdout redirect sees the still-inherited stdout.
    let r = setup_redirections(&toks(&["x", "2>&1", ">", "f"])).unwrap();
    assert_eq!(r.stdout, RedirTarget::File { index: 0 });
    assert_eq!(r.stderr, RedirTarget::Inherited);
}

#[test]
fn later_redirect_overrides_but_still_opens() {
    let r = setup_redirections(&toks(&["x", ">", "f1", ">", "f2"])).unwrap();
    assert_eq!(r.opens.len(), 2);
    assert_eq!(r.opens[0].path, "f1");
    assert_eq!(r.opens[1].path, "f2");
    assert_eq!(r.stdout, RedirTarget::File { index: 1 });
}

#[test]
fn missing_filename_is_a_parse_error() {
    assert_eq!(
        setup_redirections(&toks(&["echo", "hi", ">"])).unwrap_err(),
        ParseError::MissingFilename { op: RedirOp::OutTrunc }
    );
    assert_eq!(
        setup_redirections(&toks(&["x", ">>"])).unwrap_err(),
        ParseError::MissingFilename { op: RedirOp::OutAppend }
    );
    assert_eq!(
        setup_redirections(&toks(&["x", "2>"])).unwrap_err(),
        ParseError::MissingFilename { op: RedirOp::ErrTrunc }
    );
    assert_eq!(
        setup_redirections(&toks(&["x", "2>>"])).unwrap_err(),
        ParseError::MissingFilename { op: RedirOp::ErrAppend }
    );
    assert_eq!(
        setup_redirections(&toks(&["x", "&>"])).unwrap_err(),
        ParseError::MissingFilename { op: RedirOp::Both }
    );
}

#[test]
fn missing_filename_messages() {
    assert_eq!(
        ParseError::MissingFilename { op: RedirOp::OutTrunc }.message(),
        "Missing filename for stdout"
    );
    assert_eq!(
        ParseError::MissingFilename { op: RedirOp::OutAppend }.message(),
        "Missing filename for stdout append"
    );
    assert_eq!(
        ParseError::MissingFilename { op: RedirOp::ErrTrunc }.message(),
        "Missing filename for stderr"
    );
    assert_eq!(
        ParseError::MissingFilename { op: RedirOp::ErrAppend }.message(),
        "Missing filename for stderr append"
    );
    assert_eq!(ParseError::MissingFilename { op: RedirOp::Both }.message(), "Missing filename for &>");
}

#[test]
fn unrecognized_tokens_stay_arguments() {
    let r = setup_redirections(&toks(&["grep", "->", "file"])).unwrap();
    assert_eq!(r.tokens, vec!["grep".to_string(), "->".to_string(), "file".to_string()]);
    assert!(r.opens.is_empty());
}

#[test]
fn shellio_capture_flags_follow_targets() {
    let r = setup_redirections(&toks(&["x", ">", "f"])).unwrap();
    let io = r.shellio();
    assert!(io.capture_stdout);
    assert!(!io.capture_stderr);
    let r = setup_redirections(&toks(&["x", "2>", "f"])).unwrap();
    let io = r.shellio();
    assert!(!io.capture_stdout);
    assert!(io.capture_stderr);
    let r = setup_redirections(&toks(&["x", "&>", "f"])).unwrap();
    let io = r.shellio();
    assert!(io.capture_stdout);
    assert!(io.capture_stderr);
}
