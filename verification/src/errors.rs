//! The error taxonomy of the repository manager and the exact message
//! each error is reported with.
use vstd::prelude::*;
use crate::bytes::push_all;

verus! {

/// The kinds of failure a command can end in. `Config` stands for an
/// unresolvable home directory, `Io` for a failed directory creation,
/// `Process` for a git executable that could not be started at all;
/// the four `*Failed` variants carry the stderr of a git invocation
/// that ran and reported failure, and `NotFound` carries the name a
/// sync looked for in vain.
pub enum RepmanError {
    Config,
    Io,
    Process,
    CloneFailed(Vec<u8>),
    StageFailed(Vec<u8>),
    CommitFailed(Vec<u8>),
    PushFailed(Vec<u8>),
    NotFound(Vec<u8>),
}

/// The bytes of `Could not find home directory`.
pub open spec fn config_msg() -> Seq<u8> {
    seq![67u8, 111, 117, 108, 100, 32, 110, 111, 116, 32, 102, 105, 110, 100, 32, 104, 111, 109, 101, 32, 100, 105, 114, 101, 99, 116, 111, 114, 121]
}

/// The bytes of `Could not create repository root directory`.
pub open spec fn io_msg() -> Seq<u8> {
    seq![67u8, 111, 117, 108, 100, 32, 110, 111, 116, 32, 99, 114, 101, 97, 116, 101, 32, 114, 101, 112, 111, 115, 105, 116, 111, 114, 121, 32, 114, 111, 111, 116, 32, 100, 105, 114, 101, 99, 116, 111, 114, 121]
}

/// The bytes of `Could not run git`.
pub open spec fn process_msg() -> Seq<u8> {
    seq![67u8, 111, 117, 108, 100, 32, 110, 111, 116, 32, 114, 117, 110, 32, 103, 105, 116]
}

/// The bytes of `Failed to clone repository: `.
pub open spec fn clone_failed_prefix() -> Seq<u8> {
    seq![70u8, 97, 105, 108, 101, 100, 32, 116, 111, 32, 99, 108, 111, 110, 101, 32, 114, 101, 112, 111, 115, 105, 116, 111, 114, 121, 58, 32]
}

/// The bytes of `Failed to add changes: `.
pub open spec fn stage_failed_prefix() -> Seq<u8> {
    seq![70u8, 97, 105, 108, 101, 100, 32, 116, 111, 32, 97, 100, 100, 32, 99, 104, 97, 110, 103, 101, 115, 58, 32]
}

/// The bytes of `Failed to commit: `.
pub open spec fn commit_failed_prefix() -> Seq<u8> {
    seq![70u8, 97, 105, 108, 101, 100, 32, 116, 111, 32, 99, 111, 109, 109, 105, 116, 58, 32]
}

/// The bytes of `Failed to push: `.
pub open spec fn push_failed_prefix() -> Seq<u8> {
    seq![70u8, 97, 105, 108, 101, 100, 32, 116, 111, 32, 112, 117, 115, 104, 58, 32]
}

/// The bytes of `Repository '`.
pub open spec fn not_found_prefix() -> Seq<u8> {
    seq![82u8, 101, 112, 111, 115, 105, 116, 111, 114, 121, 32, 39]
}

/// The bytes of `' not found`.
pub open spec fn not_found_suffix() -> Seq<u8> {
    seq![39u8, 32, 110, 111, 116, 32, 102, 111, 117, 110, 100]
}

/// The message each error is reported with.
pub open spec fn describe_spec(e: RepmanError) -> Seq<u8> {
    match e {
        RepmanError::Config => config_msg(),
        RepmanError::Io => io_msg(),
        RepmanError::Process => process_msg(),
        RepmanError::CloneFailed(s) => clone_failed_prefix() + s@,
        RepmanError::StageFailed(s) => stage_failed_prefix() + s@,
        RepmanError::CommitFailed(s) => commit_failed_prefix() + s@,
        RepmanError::PushFailed(s) => push_failed_prefix() + s@,
        RepmanError::NotFound(n) => not_found_prefix() + n@ + not_found_suffix(),
    }
}

impl RepmanError {
    /// Renders the user-facing message for this error.
    pub fn describe(&self) -> (r: Vec<u8>)
        ensures
            r@ == describe_spec(*self),
    {
        match self {
            RepmanError::Config => {

                let r: Vec<u8> = vec![67u8, 111, 117, 108, 100, 32, 110, 111, 116, 32, 102, 105, 110, 100, 32, 104, 111, 109, 101, 32, 100, 105, 114, 101, 99, 116, 111, 114, 121];
                proof {
                    assert(r@ =~= config_msg());
                }
                r
            }
            RepmanError::Io => {
                let r: Vec<u8> = vec![67u8, 111, 117, 108, 100, 32, 110, 111, 116, 32, 99, 114, 101, 97, 116, 101, 32, 114, 101, 112, 111, 115, 105, 116, 111, 114, 121, 32, 114, 111, 111, 116, 32, 100, 105, 114, 101, 99, 116, 111, 114, 121];
                proof {
                    assert(r@ =~= io_msg());
                }
                r
            }
            RepmanError::Process => {
                let r: Vec<u8> = vec![67u8, 111, 117, 108, 100, 32, 110, 111, 116, 32, 114, 117, 110, 32, 103, 105, 116];
                proof {
                    assert(r@ =~= process_msg());
                }
                r
            }
            RepmanError::CloneFailed(s) => {
                let mut r: Vec<u8> = vec![70u8, 97, 105, 108, 101, 100, 32, 116, 111, 32, 99, 108, 111, 110, 101, 32, 114, 101, 112, 111, 115, 105, 116, 111, 114, 121, 58, 32];
                proof {
                    assert(r@ =~= clone_failed_prefix());
                }
                push_all(&mut r, s);
                r
            }
            RepmanError::StageFailed(s) => {
                let mut r: Vec<u8> = vec![70u8, 97, 105, 108, 101, 100, 32, 116, 111, 32, 97, 100, 100, 32, 99, 104, 97, 110, 103, 101, 115, 58, 32];
                proof {
                    assert(r@ =~= stage_failed_prefix());
                }
                push_all(&mut r, s);
                r
            }
            RepmanError::CommitFailed(s) => {
                let mut r: Vec<u8> = vec![70u8, 97, 105, 108, 101, 100, 32, 116, 111, 32, 99, 111, 109, 109, 105, 116, 58, 32];
                proof {
                    assert(r@ =~= commit_failed_prefix());
                }
                push_all(&mut r, s);
                r
            }
            RepmanError::PushFailed(s) => {
                let mut r: Vec<u8> = vec![70u8, 97, 105, 108, 101, 100, 32, 116, 111, 32, 112, 117, 115, 104, 58, 32];
                proof {
                    assert(r@ =~= push_failed_prefix());
                }
                push_all(&mut r, s);
                r
            }
            RepmanError::NotFound(n) => {
                let mut r: Vec<u8> = vec![82u8, 101, 112, 111, 115, 105, 116, 111, 114, 121, 32, 39];
                proof {
                    assert(r@ =~= not_found_prefix());
                }
                push_all(&mut r, n);
                let tail: Vec<u8> = vec![39u8, 32, 110, 111, 116, 32, 102, 111, 117, 110, 100];
                push_all(&mut r, &tail);
                r
            }
        }
    }
}

} // verus!
