use repman::errors::RepmanError;
use repman::paths::clone_url;
use repman::paths::repo_path;
use repman::paths::repo_root_path;
use repman::scan::scan;
use repman::scan::OwnerListing;
use repman::status::no_repos_message;
use repman::status::status_line;
use repman::status::status_report_lines;
use repman::status::StatusLabel;

#[test]
fn repository_root_is_repo_under_home() {
    assert_eq!(repo_root_path(&b"/home/u".to_vec()), b"/home/u/repo".to_vec());
}

#[test]
fn repo_path_is_root_owner_name() {
    assert_eq!(
        repo_path(&b"/home/u/repo".to_vec(), &b"alice".to_vec(), &b"foo".to_vec()),
        b"/home/u/repo/alice/foo".to_vec()
    );
}

#[test]
fn clone_url_is_templated() {
    assert_eq!(
        clone_url(&b"alice".to_vec(), &b"foo".to_vec()),
        b"git@github.com:alice/foo.git".to_vec()
    );
}

#[test]
fn status_line_is_exact() {
    assert_eq!(
        status_line(&b"alice".to_vec(), &b"foo".to_vec(), StatusLabel::Clean),
        b"alice/foo - Clean".to_vec()
    );
}

#[test]
fn empty_root_reports_no_repositories_found() {
    let root = b"/home/u/repo".to_vec();
    let owners: Vec<OwnerListing> = Vec::new();
    let refs = scan(&root, &owners);
    assert_eq!(refs.len(), 0);
    let labels: Vec<StatusLabel> = Vec::new();
    let report = status_report_lines(&root, &refs, &labels);
    assert_eq!(report, vec![b"No repositories found in /home/u/repo".to_vec()]);
}

#[test]
fn report_has_one_line_per_repository() {
    let root = b"/r".to_vec();
    let owners = vec![OwnerListing {
        name: b"alice".to_vec(),
        is_dir: true,
        entries: vec![
            repman::scan::DirEntry { name: b"foo".to_vec(), is_dir: true },
            repman::scan::DirEntry { name: b"bar".to_vec(), is_dir: true },
        ],
    }];
    let refs = scan(&root, &owners);
    let labels = vec![StatusLabel::Ahead, StatusLabel::Dirty];
    let report = status_report_lines(&root, &refs, &labels);
    assert_eq!(
        report,
        vec![b"alice/foo - Ahead".to_vec(), b"alice/bar - Dirty".to_vec()]
    );
}

#[test]
fn error_messages_are_exact() {
    assert_eq!(
        RepmanError::Config.describe(),
        b"Could not find home directory".to_vec()
    );
    assert_eq!(
        RepmanError::Io.describe(),
        b"Could not create repository root directory".to_vec()
    );
    assert_eq!(RepmanError::Process.describe(), b"Could not run git".to_vec());
    assert_eq!(
        RepmanError::CloneFailed(b"x".to_vec()).describe(),
        b"Failed to clone repository: x".to_vec()
    );
    assert_eq!(
        RepmanError::StageFailed(b"y".to_vec()).describe(),
        b"Failed to add changes: y".to_vec()
    );
    assert_eq!(
        RepmanError::CommitFailed(b"z".to_vec()).describe(),
        b"Failed to commit: z".to_vec()
    );
    assert_eq!(
        RepmanError::PushFailed(b"w".to_vec()).describe(),
        b"Failed to push: w".to_vec()
    );
    assert_eq!(
        RepmanError::NotFound(b"foo".to_vec()).describe(),
        b"Repository 'foo' not found".to_vec()
    );
}
