//! The decision rules of the `add` and `sync` commands.
//!
//! Both commands interleave git invocations with decisions. The
//! decisions live here as verified functions from plain values (what
//! exists on disk, how an invocation exited) to the next action; the
//! unverified driver around the library performs each action and hands
//! back its outcome.
use vstd::prelude::*;
use crate::bytes::copy_bytes;
use crate::errors::RepmanError;
use crate::paths::clone_url;
use crate::paths::clone_url_spec;
use crate::paths::repo_path;
use crate::paths::repo_path_spec;
use crate::paths::SLASH;
use crate::status::lines_view;

verus! {

/// What the `add` command must do, decided from what already exists.
pub enum AddAction {
    AlreadyPresent,
    CloneRepo { make_owner_dir: bool, url: Vec<u8>, dest: Vec<u8> },
}

/// Whether an `add` against a tree where the repository's presence is
/// `repo_exists` performs a clone.
pub open spec fn add_performs_clone(repo_exists: bool) -> bool {
    !repo_exists
}

/// Decides the `add` command. When `root/owner/name` already exists the
/// command is a success without work; otherwise the owner directory is
/// created if missing and the repository is cloned from
/// `git@github.com:<owner>/<name>.git` into `root/owner/name`.
pub fn plan_add(
    root: &Vec<u8>,
    owner: &Vec<u8>,
    name: &Vec<u8>,
    repo_exists: bool,
    owner_exists: bool,
) -> (a: AddAction)
    ensures
        repo_exists ==> a is AlreadyPresent,
        !repo_exists ==> (a matches AddAction::CloneRepo { make_owner_dir, url, dest }
            && make_owner_dir == !owner_exists && url@ == clone_url_spec(owner@, name@) && dest@
            == repo_path_spec(root@, owner@, name@)),
        (a is CloneRepo) == add_performs_clone(repo_exists),
{
    if repo_exists {
        AddAction::AlreadyPresent
    } else {
        AddAction::CloneRepo {
            make_owner_dir: !owner_exists,
            url: clone_url(owner, name),
            dest: repo_path(root, owner, name),
        }
    }
}

/// Turns the outcome of the clone invocation into the command's result:
/// success exactly when the clone succeeded, else the clone error
/// carrying the tool's stderr.
pub fn add_result(clone_ok: bool, stderr: &Vec<u8>) -> (r: Result<(), RepmanError>)
    ensures
        clone_ok ==> r is Ok,
        !clone_ok ==> (r matches Err(e) && e matches RepmanError::CloneFailed(s) && s@
            == stderr@),
{
    if clone_ok {
        Ok(())
    } else {
        Err(RepmanError::CloneFailed(copy_bytes(stderr)))
    }
}

/// The directory paths that exist after an `add` whose clone, if one
/// was performed, succeeded: the owner directory and the repository
/// path exist afterwards in every case.
pub open spec fn dirs_after_add(
    dirs: Set<Seq<u8>>,
    root: Seq<u8>,
    owner: Seq<u8>,
    name: Seq<u8>,
) -> Set<Seq<u8>> {
    dirs.insert(root + seq![SLASH] + owner).insert(repo_path_spec(root, owner, name))
}

/// Add is idempotent: after one successful `add` of `owner/name` the
/// repository path exists, so a second `add` of the same pair sees it
/// and performs no clone — whatever the tree held before.
pub proof fn lemma_add_idempotent(dirs: Set<Seq<u8>>, root: Seq<u8>, owner: Seq<u8>, name: Seq<u8>)
    ensures
        dirs_after_add(dirs, root, owner, name).contains(repo_path_spec(root, owner, name)),
        !add_performs_clone(
            dirs_after_add(dirs, root, owner, name).contains(repo_path_spec(root, owner, name)),
        ),
{
}

/// The steps of a sync, each one git invocation: staging all changes,
/// the check whether the staged diff is empty, the commit, the push.
#[derive(Clone, Copy, Debug, PartialEq, Eq, Structural)]
pub enum SyncStage {
    Stage,
    DiffCheck,
    Commit,
    Push,
}

/// How a finished sync ended.
pub enum SyncOutcome {
    Synced,
    NothingToCommit,
    Failed(RepmanError),
}

/// What the sync driver does next: run one more git step, or stop with
/// an outcome.
pub enum SyncStep {
    Run(SyncStage),
    Done(SyncOutcome),
}

/// The stage that follows `stage` when its invocation exits with `ok`,
/// or `None` when the sync stops there. The diff check exits
/// successfully exactly when the staged diff is empty, and then the
/// sync stops before any commit or push.
pub open spec fn next_stage(stage: SyncStage, ok: bool) -> Option<SyncStage> {
    match stage {
        SyncStage::Stage => if ok {
            Some(SyncStage::DiffCheck)
        } else {
            None
        },
        SyncStage::DiffCheck => if ok {
            None
        } else {
            Some(SyncStage::Commit)
        },
        SyncStage::Commit => if ok {
            Some(SyncStage::Push)
        } else {
            None
        },
        SyncStage::Push => None,
    }
}

/// Decides the sync's next move after `stage` ran: `ok` says whether
/// the git invocation exited successfully, `stderr` is its captured
/// stderr. A failing stage, commit or push aborts the whole sync with
/// that step's error; a successful diff check means the staged diff is
/// empty, and the sync stops with "nothing to commit".
pub fn sync_step(stage: SyncStage, ok: bool, stderr: &Vec<u8>) -> (r: SyncStep)
    ensures
        r matches SyncStep::Run(s) ==> next_stage(stage, ok) == Some(s),
        (r is Run) == (next_stage(stage, ok) is Some),
        stage == SyncStage::Stage && !ok ==> (r matches SyncStep::Done(
            SyncOutcome::Failed(RepmanError::StageFailed(e)),
        ) && e@ == stderr@),
        stage == SyncStage::DiffCheck && ok ==> (r matches SyncStep::Done(o) && o
            is NothingToCommit),
        stage == SyncStage::Commit && !ok ==> (r matches SyncStep::Done(
            SyncOutcome::Failed(RepmanError::CommitFailed(e)),
        ) && e@ == stderr@),
        stage == SyncStage::Push && ok ==> (r matches SyncStep::Done(o) && o is Synced),
        stage == SyncStage::Push && !ok ==> (r matches SyncStep::Done(
            SyncOutcome::Failed(RepmanError::PushFailed(e)),
        ) && e@ == stderr@),
{
    match stage {
        SyncStage::Stage => {
            if ok {
                SyncStep::Run(SyncStage::DiffCheck)
            } else {
                SyncStep::Done(SyncOutcome::Failed(RepmanError::StageFailed(copy_bytes(stderr))))
            }
        },
        SyncStage::DiffCheck => {
            if ok {
                SyncStep::Done(SyncOutcome::NothingToCommit)
            } else {
                SyncStep::Run(SyncStage::Commit)
            }
        },
        SyncStage::Commit => {
            if ok {
                SyncStep::Run(SyncStage::Push)
            } else {
                SyncStep::Done(SyncOutcome::Failed(RepmanError::CommitFailed(copy_bytes(stderr))))
            }
        },
        SyncStage::Push => {
            if ok {
                SyncStep::Done(SyncOutcome::Synced)
            } else {
                SyncStep::Done(SyncOutcome::Failed(RepmanError::PushFailed(copy_bytes(stderr))))
            }
        },
    }
}

/// The stages a sync driver visits from `stage` on, when the
/// successive git invocations exit as `events` says: `stage` itself,
/// then whatever follows until a step stops the sync or the events run
/// out.
pub open spec fn sync_trace(stage: SyncStage, events: Seq<bool>) -> Seq<SyncStage>
    decreases events.len(),
{
    seq![stage] + (if events.len() == 0 {
        Seq::empty()
    } else {
        match next_stage(stage, events[0]) {
            Some(s2) => sync_trace(s2, events.drop_first()),
            None => Seq::empty(),
        }
    })
}

/// A sync whose staging succeeds and whose staged diff turns out empty
/// stops right after the diff check with "nothing to commit": whatever
/// the later events would say, the run never reaches the commit or the
/// push stage.
pub proof fn lemma_empty_diff_commits_nothing(events: Seq<bool>)
    requires
        events.len() >= 2,
        events[0],
        events[1],
    ensures
        sync_trace(SyncStage::Stage, events) =~= seq![SyncStage::Stage, SyncStage::DiffCheck],
        !sync_trace(SyncStage::Stage, events).contains(SyncStage::Commit),
        !sync_trace(SyncStage::Stage, events).contains(SyncStage::Push),
{
    let rest = events.drop_first();
    assert(rest[0] == events[1]);
    assert(sync_trace(SyncStage::DiffCheck, rest) =~= seq![SyncStage::DiffCheck]);
    let t = sync_trace(SyncStage::Stage, events);
    assert(t =~= seq![SyncStage::Stage, SyncStage::DiffCheck]);
    assert(forall|k: int| 0 <= k < t.len() ==> t[k] != SyncStage::Commit && t[k] != SyncStage::Push);
}

/// The sync step that stops with the target missing: the handler's
/// `NotFound` error carrying the name it looked for.
pub fn sync_target(found: Option<Vec<u8>>, name: &Vec<u8>) -> (r: Result<Vec<u8>, RepmanError>)
    ensures
        found matches Some(p) ==> (r matches Ok(q) && q@ == p@),
        found is None ==> (r matches Err(e) && e matches RepmanError::NotFound(n) && n@
            == name@),
{
    match found {
        Some(p) => Ok(p),
        None => Err(RepmanError::NotFound(copy_bytes(name))),
    }
}

/// The git arguments of one sync stage; the commit stage carries the
/// user's message.
pub open spec fn stage_args_spec(stage: SyncStage, message: Seq<u8>) -> Seq<Seq<u8>> {
    match stage {
        SyncStage::Stage => seq![seq![97u8, 100, 100], seq![46u8]],
        SyncStage::DiffCheck => seq![
            seq![100u8, 105, 102, 102],
            seq![45u8, 45, 99, 97, 99, 104, 101, 100],
            seq![45u8, 45, 113, 117, 105, 101, 116],
        ],
        SyncStage::Commit => seq![seq![99u8, 111, 109, 109, 105, 116], seq![45u8, 109], message],
        SyncStage::Push => seq![seq![112u8, 117, 115, 104]],
    }
}

/// Builds the git argument list of one sync stage: `add .`,
/// `diff --cached --quiet`, `commit -m <message>`, or `push`.
pub fn stage_args(stage: SyncStage, message: &Vec<u8>) -> (r: Vec<Vec<u8>>)
    ensures
        lines_view(r@) == stage_args_spec(stage, message@),
{
    let r: Vec<Vec<u8>> = match stage {
        SyncStage::Stage => vec![vec![97u8, 100, 100], vec![46u8]],
        SyncStage::DiffCheck => vec![
            vec![100u8, 105, 102, 102],
            vec![45u8, 45, 99, 97, 99, 104, 101, 100],
            vec![45u8, 45, 113, 117, 105, 101, 116],
        ],
        SyncStage::Commit => vec![
            vec![99u8, 111, 109, 109, 105, 116],
            vec![45u8, 109],
            copy_bytes(message),
        ],
        SyncStage::Push => vec![vec![112u8, 117, 115, 104]],
    };
    proof {
        assert(lines_view(r@) =~~= stage_args_spec(stage, message@));
    }
    r
}

/// The git arguments of the status query run for each repository:
/// `status --porcelain --branch`.
pub open spec fn status_args_spec() -> Seq<Seq<u8>> {
    seq![
        seq![115u8, 116, 97, 116, 117, 115],
        seq![45u8, 45, 112, 111, 114, 99, 101, 108, 97, 105, 110],
        seq![45u8, 45, 98, 114, 97, 110, 99, 104],
    ]
}

/// Builds `status --porcelain --branch`, the status query arguments.
pub fn status_args() -> (r: Vec<Vec<u8>>)
    ensures
        lines_view(r@) == status_args_spec(),
{
    let r: Vec<Vec<u8>> = vec![
        vec![115u8, 116, 97, 116, 117, 115],
        vec![45u8, 45, 112, 111, 114, 99, 101, 108, 97, 105, 110],
        vec![45u8, 45, 98, 114, 97, 110, 99, 104],
    ];
    proof {
        assert(lines_view(r@) =~~= status_args_spec());
    }
    r
}

/// The git arguments of a clone: `clone <url> <dest>`.
pub open spec fn clone_args_spec(url: Seq<u8>, dest: Seq<u8>) -> Seq<Seq<u8>> {
    seq![seq![99u8, 108, 111, 110, 101], url, dest]
}

/// Builds `clone <url> <dest>`, the clone invocation's arguments.
pub fn clone_args(url: &Vec<u8>, dest: &Vec<u8>) -> (r: Vec<Vec<u8>>)
    ensures
        lines_view(r@) == clone_args_spec(url@, dest@),
{
    let r: Vec<Vec<u8>> = vec![
        vec![99u8, 108, 111, 110, 101],
        copy_bytes(url),
        copy_bytes(dest),
    ];
    proof {
        assert(lines_view(r@) =~~= clone_args_spec(url@, dest@));
    }
    r
}

} // verus!
