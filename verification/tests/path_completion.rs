use pipeshell::completion::complete_candidates;
use pipeshell::path::{collect_from_path, find_in_path, PathEntry};

fn entry(path: &str, name: &str) -> PathEntry {
    PathEntry { path: path.to_string(), name: name.to_string() }
}

#[test]
fn find_takes_the_first_match_in_path_order() {
    let entries = vec![
        entry("/usr/bin/ls", "ls"),
        entry("/bin/cat", "cat"),
        entry("/bin/ls", "ls"),
    ];
    assert_eq!(find_in_path("ls", &entries), Some("/usr/bin/ls".to_string()));
    assert_eq!(find_in_path("cat", &entries), Some("/bin/cat".to_string()));
}

#[test]
fn find_misses_when_no_name_matches() {
    let entries = vec![entry("/bin/cat", "cat")];
    assert_eq!(find_in_path("ls", &entries), None);
    assert_eq!(find_in_path("ca", &entries), None);
    assert_eq!(find_in_path("ls", &Vec::new()), None);
}

#[test]
fn collect_filters_by_prefix_and_deduplicates() {
    let entries = vec![
        entry("/usr/bin/ls", "ls"),
        entry("/usr/bin/lsblk", "lsblk"),
        entry("/bin/ls", "ls"),
        entry("/bin/cat", "cat"),
    ];
    assert_eq!(
        collect_from_path("ls", &entries),
        vec!["ls".to_string(), "lsblk".to_string()]
    );
    assert_eq!(collect_from_path("cat", &entries), vec!["cat".to_string()]);
    assert_eq!(collect_from_path("zz", &entries), Vec::<String>::new());
}

#[test]
fn collect_with_empty_prefix_lists_everything_once() {
    let entries = vec![entry("/a/x", "x"), entry("/b/x", "x"), entry("/b/y", "y")];
    assert_eq!(collect_from_path("", &entries), vec!["x".to_string(), "y".to_string()]);
}

#[test]
fn completion_offers_builtins_then_new_path_names() {
    let existing = vec!["env".to_string()];
    let path_names = vec!["env".to_string(), "emacs".to_string()];
    assert_eq!(
        complete_candidates(&existing, "e", &path_names),
        vec![
            "env".to_string(),
            "echo".to_string(),
            "exit".to_string(),
            "emacs".to_string(),
        ]
    );
}

#[test]
fn completion_without_matches_keeps_the_existing_list() {
    let existing = vec!["notes.txt".to_string()];
    assert_eq!(
        complete_candidates(&existing, "zz", &Vec::new()),
        vec!["notes.txt".to_string()]
    );
}

#[test]
fn completion_with_empty_prefix_offers_every_builtin() {
    let got = complete_candidates(&Vec::new(), "", &vec!["awk".to_string()]);
    assert_eq!(
        got,
        vec![
            "cd".to_string(),
            "echo".to_string(),
            "exit".to_string(),
            "history".to_string(),
            "pwd".to_string(),
            "type".to_string(),
            "awk".to_string(),
        ]
    );
}
