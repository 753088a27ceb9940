use mk::cache::{format_record, line_matches, lookup};
use mk::text::trim;

fn lines_of(raw: &[&str]) -> Vec<String> {
    raw.iter().map(|s| s.to_string()).collect()
}

#[test]
fn lookup_single_record() {
    let lines = lines_of(&["/proj /proj/.venv"]);
    assert_eq!(lookup(&lines, "/proj"), Some("/proj/.venv".to_string()));
}

#[test]
fn lookup_empty_store() {
    let lines: Vec<String> = Vec::new();
    assert_eq!(lookup(&lines, "/proj"), None);
}

#[test]
fn lookup_no_matching_record() {
    let lines = lines_of(&["/other /x", "/another /y"]);
    assert_eq!(lookup(&lines, "/proj"), None);
}

#[test]
fn lookup_last_match_wins() {
    let lines = lines_of(&["/proj /old", "/other /x", "/proj /new"]);
    assert_eq!(lookup(&lines, "/proj"), Some("/new".to_string()));
}

#[test]
fn lookup_ignores_directory_that_extends_the_key() {
    let lines = lines_of(&["/proj2 /x"]);
    assert_eq!(lookup(&lines, "/proj"), None);
}

#[test]
fn lookup_needs_the_separating_space() {
    let lines = lines_of(&["/proj"]);
    assert_eq!(lookup(&lines, "/proj"), None);
}

#[test]
fn lookup_empty_value_counts_as_miss() {
    let lines = lines_of(&["/proj   "]);
    assert_eq!(lookup(&lines, "/proj"), None);
}

#[test]
fn lookup_trims_the_recorded_value() {
    let lines = lines_of(&["/proj /proj/.venv\r"]);
    assert_eq!(lookup(&lines, "/proj"), Some("/proj/.venv".to_string()));
}

#[test]
fn format_record_joins_with_one_space() {
    assert_eq!(format_record("/proj", "/proj/.venv"), "/proj /proj/.venv");
}

#[test]
fn appended_record_is_found_again() {
    let mut lines = lines_of(&["/proj /stale"]);
    lines.push(format_record("/proj", "/fresh"));
    assert_eq!(lookup(&lines, "/proj"), Some("/fresh".to_string()));
    assert_eq!(lines[0], "/proj /stale");
}

#[test]
fn line_matches_exact_directory() {
    assert!(line_matches("/proj /x", "/proj"));
    assert!(!line_matches("/proj2 /x", "/proj"));
    assert!(!line_matches("/proj", "/proj"));
    assert!(!line_matches("/pro /x", "/proj"));
}

#[test]
fn trim_removes_surrounding_whitespace() {
    assert_eq!(trim("  a b \n\t"), "a b");
    assert_eq!(trim(""), "");
    assert_eq!(trim(" \r\n\t "), "");
    assert_eq!(trim("x"), "x");
    assert_eq!(trim("/proj/.venv\n"), "/proj/.venv");
}
