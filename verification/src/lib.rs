//! Verified core of a repository manager that organizes git checkouts
//! under a single root directory keyed by `owner/name`.
//!
//! The modules here hold the logic that can be stated and proved over
//! plain values: path and URL construction, the status classifier, the
//! directory-tree scanner, query matching for `cd`, and the decision
//! rules of the `add` and `sync` commands. Everything that touches the
//! filesystem, the environment or a subprocess lives outside this
//! library and hands it plain values.
#![verifier::loop_isolation(false)]

pub mod bytes;
pub mod commands;
pub mod errors;
pub mod locate;
pub mod status;
pub mod paths;
pub mod scan;
