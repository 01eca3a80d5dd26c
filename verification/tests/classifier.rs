use repman::status::classify_or_error;
use repman::status::classify_status;
use repman::status::label_text;
use repman::status::StatusLabel;

fn lines(ls: &[&str]) -> Vec<Vec<u8>> {
    ls.iter().map(|l| l.as_bytes().to_vec()).collect()
}

#[test]
fn ahead_marker_wins_over_dirty_lines() {
    let out = lines(&["## main...origin/main [ahead 1]", " M src/main.rs", "?? new.txt"]);
    assert_eq!(classify_status(true, &out), StatusLabel::Ahead);
}

#[test]
fn ahead_marker_alone_is_ahead() {
    let out = lines(&["## main...origin/main [ahead 2]"]);
    assert_eq!(classify_status(true, &out), StatusLabel::Ahead);
}

#[test]
fn behind_marker_is_behind() {
    let out = lines(&["## main...origin/main [behind 3]", " M lib.rs"]);
    assert_eq!(classify_status(true, &out), StatusLabel::Behind);
}

#[test]
fn change_lines_without_marker_are_dirty() {
    let out = lines(&["## main...origin/main", " M src/main.rs"]);
    assert_eq!(classify_status(true, &out), StatusLabel::Dirty);
}

#[test]
fn no_lines_is_clean() {
    let out: Vec<Vec<u8>> = Vec::new();
    assert_eq!(classify_status(true, &out), StatusLabel::Clean);
}

#[test]
fn branch_line_alone_is_clean() {
    let out = lines(&["## main...origin/main"]);
    assert_eq!(classify_status(true, &out), StatusLabel::Clean);
}

#[test]
fn blank_change_lines_are_clean() {
    let out = lines(&["## main...origin/main", "   ", "\t"]);
    assert_eq!(classify_status(true, &out), StatusLabel::Clean);
}

#[test]
fn failing_query_is_not_a_repo() {
    let out = lines(&["fatal: not a git repository"]);
    assert_eq!(classify_status(false, &out), StatusLabel::NotARepo);
}

#[test]
fn spawn_failure_degrades_to_error_label() {
    let out: Vec<Vec<u8>> = Vec::new();
    assert_eq!(classify_or_error(false, true, &out), StatusLabel::Error);
}

#[test]
fn spawn_success_classifies_normally() {
    let out = lines(&["## main...origin/main [ahead 1]"]);
    assert_eq!(classify_or_error(true, true, &out), StatusLabel::Ahead);
}

#[test]
fn label_texts_are_exact() {
    assert_eq!(label_text(StatusLabel::Clean), b"Clean".to_vec());
    assert_eq!(label_text(StatusLabel::Dirty), b"Dirty".to_vec());
    assert_eq!(label_text(StatusLabel::Ahead), b"Ahead".to_vec());
    assert_eq!(label_text(StatusLabel::Behind), b"Behind".to_vec());
    assert_eq!(label_text(StatusLabel::NotARepo), b"Not a git repository".to_vec());
    assert_eq!(label_text(StatusLabel::Error), b"Error".to_vec());
}
