use mk::cache::format_record;
use mk::resolver::{after_liveness, after_primary, after_secondary, start, Step};

fn lines_of(raw: &[&str]) -> Vec<String> {
    raw.iter().map(|s| s.to_string()).collect()
}

const SECONDARY_COMMAND: &str = "poetry env info --path";

#[test]
fn cache_hit_resolves_without_tools() {
    let lines = lines_of(&["/proj /proj/.venv"]);
    let step = start(&lines, "/proj");
    let path = match step {
        Step::CheckCached { path } => path,
        _ => panic!("expected a liveness check for the cached path"),
    };
    assert_eq!(path, "/proj/.venv");
    match after_liveness(path, true) {
        Step::Done { path, fresh } => {
            assert_eq!(path, "/proj/.venv");
            assert!(!fresh);
        }
        _ => panic!("a live cached path must finish resolution"),
    }
}

#[test]
fn stale_cache_falls_back_and_persists() {
    let mut lines = lines_of(&["/proj /proj/.gone"]);
    let step = start(&lines, "/proj");
    let path = match step {
        Step::CheckCached { path } => path,
        _ => panic!("expected a liveness check for the cached path"),
    };
    assert!(matches!(after_liveness(path, false), Step::RunPrimary));
    match after_primary(true, "/proj/.venv\n") {
        Step::Done { path, fresh } => {
            assert_eq!(path, "/proj/.venv");
            assert!(fresh);
            lines.push(format_record("/proj", &path));
        }
        _ => panic!("a successful primary tool must finish resolution"),
    }
    assert_eq!(mk::cache::lookup(&lines, "/proj"), Some("/proj/.venv".to_string()));
    assert_eq!(lines[0], "/proj /proj/.gone");
}

#[test]
fn missing_cache_goes_to_primary_tool() {
    let lines: Vec<String> = Vec::new();
    assert!(matches!(start(&lines, "/proj"), Step::RunPrimary));
}

#[test]
fn primary_success_skips_secondary() {
    match after_primary(true, "/proj/.venv\n") {
        Step::Done { path, fresh } => {
            assert_eq!(path, "/proj/.venv");
            assert!(fresh);
        }
        _ => panic!("a successful primary tool must finish resolution"),
    }
}

#[test]
fn primary_nonzero_exit_escalates() {
    assert!(matches!(after_primary(false, "/proj/.venv"), Step::RunSecondary));
}

#[test]
fn primary_empty_output_escalates() {
    assert!(matches!(after_primary(true, "\n"), Step::RunSecondary));
}

#[test]
fn secondary_success_is_used_and_persisted() {
    assert!(matches!(after_primary(false, ""), Step::RunSecondary));
    match after_secondary(SECONDARY_COMMAND, true, "exit status: 0", "/proj/.venv\n") {
        Step::Done { path, fresh } => {
            assert_eq!(path, "/proj/.venv");
            assert!(fresh);
            let mut lines: Vec<String> = Vec::new();
            lines.push(format_record("/proj", &path));
            assert_eq!(mk::cache::lookup(&lines, "/proj"), Some("/proj/.venv".to_string()));
        }
        _ => panic!("a successful secondary tool must finish resolution"),
    }
}

#[test]
fn secondary_nonzero_exit_is_fatal() {
    assert!(matches!(after_primary(false, ""), Step::RunSecondary));
    match after_secondary(SECONDARY_COMMAND, false, "exit status: 1", "") {
        Step::Fail { message } => {
            assert_eq!(
                message,
                "mk: Command 'poetry env info --path' returned exit status: 1\n\n\
                 This usually means there is no venv."
            );
        }
        _ => panic!("a failing secondary tool must be fatal"),
    }
}

#[test]
fn secondary_empty_output_is_fatal() {
    match after_secondary(SECONDARY_COMMAND, true, "exit status: 0", " \n") {
        Step::Fail { message } => {
            assert_eq!(message, "mk: No venv found for current working directory.");
        }
        _ => panic!("an empty secondary answer must be fatal"),
    }
}
