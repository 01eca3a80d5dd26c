use repman::commands::add_result;
use repman::commands::plan_add;
use repman::commands::stage_args;
use repman::commands::status_args;
use repman::commands::sync_step;
use repman::commands::sync_target;
use repman::commands::AddAction;
use repman::commands::SyncOutcome;
use repman::commands::SyncStage;
use repman::commands::SyncStep;
use repman::errors::RepmanError;

#[test]
fn add_of_existing_repository_is_a_no_op() {
    let a = plan_add(
        &b"/r".to_vec(),
        &b"alice".to_vec(),
        &b"foo".to_vec(),
        true,
        true,
    );
    assert!(matches!(a, AddAction::AlreadyPresent));
}

#[test]
fn second_add_after_clone_performs_no_clone() {
    let root = b"/r".to_vec();
    let owner = b"alice".to_vec();
    let name = b"foo".to_vec();
    let first = plan_add(&root, &owner, &name, false, false);
    let clones = matches!(first, AddAction::CloneRepo { .. });
    assert!(clones);
    let second = plan_add(&root, &owner, &name, true, true);
    assert!(matches!(second, AddAction::AlreadyPresent));
}

#[test]
fn add_of_missing_repository_clones_from_templated_url() {
    let a = plan_add(
        &b"/r".to_vec(),
        &b"alice".to_vec(),
        &b"foo".to_vec(),
        false,
        false,
    );
    match a {
        AddAction::CloneRepo { make_owner_dir, url, dest } => {
            assert!(make_owner_dir);
            assert_eq!(url, b"git@github.com:alice/foo.git".to_vec());
            assert_eq!(dest, b"/r/alice/foo".to_vec());
        }
        AddAction::AlreadyPresent => panic!("a missing repository must be cloned"),
    }
}

#[test]
fn add_keeps_existing_owner_directory() {
    let a = plan_add(
        &b"/r".to_vec(),
        &b"alice".to_vec(),
        &b"foo".to_vec(),
        false,
        true,
    );
    match a {
        AddAction::CloneRepo { make_owner_dir, .. } => assert!(!make_owner_dir),
        AddAction::AlreadyPresent => panic!("a missing repository must be cloned"),
    }
}

#[test]
fn failed_clone_surfaces_stderr() {
    let r = add_result(false, &b"boom".to_vec());
    match r {
        Err(RepmanError::CloneFailed(s)) => assert_eq!(s, b"boom".to_vec()),
        _ => panic!("a failed clone is a clone error"),
    }
    assert!(add_result(true, &b"".to_vec()).is_ok());
}

#[test]
fn staging_success_leads_to_diff_check() {
    match sync_step(SyncStage::Stage, true, &b"".to_vec()) {
        SyncStep::Run(s) => assert_eq!(s, SyncStage::DiffCheck),
        _ => panic!("after staging comes the diff check"),
    }
}

#[test]
fn staging_failure_aborts_with_stage_error() {
    match sync_step(SyncStage::Stage, false, &b"no".to_vec()) {
        SyncStep::Done(SyncOutcome::Failed(RepmanError::StageFailed(e))) => {
            assert_eq!(e, b"no".to_vec())
        }
        _ => panic!("a failed staging aborts the sync"),
    }
}

#[test]
fn empty_staged_diff_stops_without_commit_or_push() {
    match sync_step(SyncStage::DiffCheck, true, &b"".to_vec()) {
        SyncStep::Done(SyncOutcome::NothingToCommit) => {}
        _ => panic!("an empty staged diff stops the sync with nothing to commit"),
    }
}

#[test]
fn nonempty_staged_diff_leads_to_commit_then_push() {
    match sync_step(SyncStage::DiffCheck, false, &b"".to_vec()) {
        SyncStep::Run(s) => assert_eq!(s, SyncStage::Commit),
        _ => panic!("a nonempty staged diff is committed"),
    }
    match sync_step(SyncStage::Commit, true, &b"".to_vec()) {
        SyncStep::Run(s) => assert_eq!(s, SyncStage::Push),
        _ => panic!("after the commit comes the push"),
    }
}

#[test]
fn commit_failure_aborts_with_commit_error() {
    match sync_step(SyncStage::Commit, false, &b"bad".to_vec()) {
        SyncStep::Done(SyncOutcome::Failed(RepmanError::CommitFailed(e))) => {
            assert_eq!(e, b"bad".to_vec())
        }
        _ => panic!("a failed commit aborts the sync"),
    }
}

#[test]
fn push_ends_the_sync_either_way() {
    match sync_step(SyncStage::Push, true, &b"".to_vec()) {
        SyncStep::Done(SyncOutcome::Synced) => {}
        _ => panic!("a successful push ends the sync"),
    }
    match sync_step(SyncStage::Push, false, &b"refused".to_vec()) {
        SyncStep::Done(SyncOutcome::Failed(RepmanError::PushFailed(e))) => {
            assert_eq!(e, b"refused".to_vec())
        }
        _ => panic!("a failed push aborts the sync"),
    }
}

#[test]
fn missing_sync_target_is_not_found() {
    let r = sync_target(None, &b"ghost".to_vec());
    match r {
        Err(RepmanError::NotFound(n)) => assert_eq!(n, b"ghost".to_vec()),
        _ => panic!("a missing repository is a not-found error"),
    }
    let ok = sync_target(Some(b"/r/a/x".to_vec()), &b"x".to_vec());
    assert_eq!(ok.ok(), Some(b"/r/a/x".to_vec()));
}

#[test]
fn git_argument_lists_are_exact() {
    let msg = b"fix things".to_vec();
    assert_eq!(
        stage_args(SyncStage::Stage, &msg),
        vec![b"add".to_vec(), b".".to_vec()]
    );
    assert_eq!(
        stage_args(SyncStage::DiffCheck, &msg),
        vec![b"diff".to_vec(), b"--cached".to_vec(), b"--quiet".to_vec()]
    );
    assert_eq!(
        stage_args(SyncStage::Commit, &msg),
        vec![b"commit".to_vec(), b"-m".to_vec(), b"fix things".to_vec()]
    );
    assert_eq!(stage_args(SyncStage::Push, &msg), vec![b"push".to_vec()]);
    assert_eq!(
        status_args(),
        vec![b"status".to_vec(), b"--porcelain".to_vec(), b"--branch".to_vec()]
    );
}
