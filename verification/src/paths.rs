//! Construction of the paths and the remote URL that the repository
//! manager works with: `<home>/repo`, `<root>/<owner>/<name>`, and
//! `git@github.com:<owner>/<name>.git`.
use vstd::prelude::*;
use crate::bytes::copy_bytes;
use crate::bytes::push_all;

verus! {

/// The path separator byte `'/'`.
pub const SLASH: u8 = 47;

/// The name of the fixed subdirectory of the home directory that holds
/// all managed repositories: `repo`.
pub open spec fn root_dir_name() -> Seq<u8> {
    seq![114u8, 101, 112, 111]
}

/// The repository root as a path: `<home>/repo`.
pub open spec fn repo_root_spec(home: Seq<u8>) -> Seq<u8> {
    home + seq![SLASH] + root_dir_name()
}

/// The path of one repository: `<root>/<owner>/<name>`.
pub open spec fn repo_path_spec(root: Seq<u8>, owner: Seq<u8>, name: Seq<u8>) -> Seq<u8> {
    root + seq![SLASH] + owner + seq![SLASH] + name
}

/// The fixed prefix of every clone URL: `git@github.com:`.
pub open spec fn url_prefix() -> Seq<u8> {
    seq![103u8, 105, 116, 64, 103, 105, 116, 104, 117, 98, 46, 99, 111, 109, 58]
}

/// The fixed suffix of every clone URL: `.git`.
pub open spec fn url_suffix() -> Seq<u8> {
    seq![46u8, 103, 105, 116]
}

/// The remote URL a repository is cloned from:
/// `git@github.com:<owner>/<name>.git`.
pub open spec fn clone_url_spec(owner: Seq<u8>, name: Seq<u8>) -> Seq<u8> {
    url_prefix() + owner + seq![SLASH] + name + url_suffix()
}

/// Builds `<home>/repo`, the repository root under the home directory.
pub fn repo_root_path(home: &Vec<u8>) -> (r: Vec<u8>)
    ensures
        r@ == repo_root_spec(home@),
{
    let mut r = copy_bytes(home);
    r.push(SLASH);
    let tail: Vec<u8> = vec![114u8, 101, 112, 111];
    push_all(&mut r, &tail);
    proof {
        assert(r@ =~= repo_root_spec(home@));
    }
    r
}

/// Builds `<root>/<owner>/<name>`, the path of one repository.
pub fn repo_path(root: &Vec<u8>, owner: &Vec<u8>, name: &Vec<u8>) -> (r: Vec<u8>)
    ensures
        r@ == repo_path_spec(root@, owner@, name@),
{
    let mut r = copy_bytes(root);
    r.push(SLASH);
    push_all(&mut r, owner);
    r.push(SLASH);
    push_all(&mut r, name);
    proof {
        assert(r@ =~= repo_path_spec(root@, owner@, name@));
    }
    r
}

/// Builds `git@github.com:<owner>/<name>.git`, the clone URL.
pub fn clone_url(owner: &Vec<u8>, name: &Vec<u8>) -> (r: Vec<u8>)
    ensures
        r@ == clone_url_spec(owner@, name@),
{
    let mut r: Vec<u8> = vec![103u8, 105, 116, 64, 103, 105, 116, 104, 117, 98, 46, 99, 111, 109, 58];
    push_all(&mut r, owner);
    r.push(SLASH);
    push_all(&mut r, name);
    let tail: Vec<u8> = vec![46u8, 103, 105, 116];
    push_all(&mut r, &tail);
    proof {
        assert(r@ =~= clone_url_spec(owner@, name@));
    }
    r
}

} // verus!
