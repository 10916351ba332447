use pipeshell::segment::parse_pipeline;

fn segs(input: &str) -> Vec<String> {
    parse_pipeline(input)
}

#[test]
fn pipe_splits_stages() {
    assert_eq!(segs("a | b"), vec!["a".to_string(), "b".to_string()]);
}

#[test]
fn single_stage_no_pipe() {
    assert_eq!(segs("echo hi"), vec!["echo hi".to_string()]);
}

#[test]
fn pipe_inside_single_quotes_is_literal() {
    assert_eq!(segs("echo 'a | b'"), vec!["echo 'a | b'".to_string()]);
}

#[test]
fn pipe_inside_double_quotes_is_literal() {
    assert_eq!(segs("echo \"a|b\" | cat"), vec!["echo \"a|b\"".to_string(), "cat".to_string()]);
}

#[test]
fn single_quote_does_not_toggle_inside_double_quotes() {
    assert_eq!(
        segs("echo \"don't\" | cat"),
        vec!["echo \"don't\"".to_string(), "cat".to_string()]
    );
}

#[test]
fn empty_segments_are_dropped() {
    assert_eq!(segs("a | | b"), vec!["a".to_string(), "b".to_string()]);
}

#[test]
fn segments_are_trimmed() {
    assert_eq!(segs("  a  |  b  "), vec!["a".to_string(), "b".to_string()]);
}

#[test]
fn blank_input_yields_no_segments() {
    assert_eq!(segs("   "), Vec::<String>::new());
    assert_eq!(segs(""), Vec::<String>::new());
}

#[test]
fn trailing_pipe_yields_one_stage() {
    assert_eq!(segs("a |"), vec!["a".to_string()]);
}
