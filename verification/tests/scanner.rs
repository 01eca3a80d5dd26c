use repman::scan::find_repo_by_name;
use repman::scan::scan;
use repman::scan::DirEntry;
use repman::scan::OwnerListing;

fn entry(name: &str, is_dir: bool) -> DirEntry {
    DirEntry { name: name.as_bytes().to_vec(), is_dir }
}

fn owner(name: &str, is_dir: bool, entries: Vec<DirEntry>) -> OwnerListing {
    OwnerListing { name: name.as_bytes().to_vec(), is_dir, entries }
}

#[test]
fn scan_yields_one_ref_per_leaf_directory() {
    let root = b"/home/u/repo".to_vec();
    let owners = vec![
        owner("alice", true, vec![entry("foo", true), entry("notes.txt", false)]),
        owner("README.md", false, vec![]),
        owner("bob", true, vec![entry("bar", true), entry("baz", true)]),
    ];
    let refs = scan(&root, &owners);
    assert_eq!(refs.len(), 3);
    assert_eq!(refs[0].owner, b"alice".to_vec());
    assert_eq!(refs[0].name, b"foo".to_vec());
    assert_eq!(refs[0].path, b"/home/u/repo/alice/foo".to_vec());
    assert_eq!(refs[1].owner, b"bob".to_vec());
    assert_eq!(refs[1].name, b"bar".to_vec());
    assert_eq!(refs[1].path, b"/home/u/repo/bob/bar".to_vec());
    assert_eq!(refs[2].owner, b"bob".to_vec());
    assert_eq!(refs[2].name, b"baz".to_vec());
    assert_eq!(refs[2].path, b"/home/u/repo/bob/baz".to_vec());
}

#[test]
fn scan_of_empty_root_yields_nothing() {
    let root = b"/home/u/repo".to_vec();
    let owners: Vec<OwnerListing> = Vec::new();
    let refs = scan(&root, &owners);
    assert_eq!(refs.len(), 0);
}

#[test]
fn scan_skips_files_at_both_levels() {
    let root = b"/r".to_vec();
    let owners = vec![
        owner("a.txt", false, vec![]),
        owner("alice", true, vec![entry("f1", false), entry("f2", false)]),
    ];
    let refs = scan(&root, &owners);
    assert_eq!(refs.len(), 0);
}

#[test]
fn find_repo_by_name_takes_first_owner_in_order() {
    let root = b"/r".to_vec();
    let owners = vec![
        owner("alice", true, vec![entry("proj", true)]),
        owner("bob", true, vec![entry("proj", true)]),
    ];
    let found = find_repo_by_name(&root, &owners, &b"proj".to_vec());
    assert_eq!(found, Some(b"/r/alice/proj".to_vec()));
}

#[test]
fn find_repo_by_name_skips_files_and_misses() {
    let root = b"/r".to_vec();
    let owners = vec![
        owner("alice", true, vec![entry("proj", false)]),
        owner("proj", false, vec![]),
    ];
    let found = find_repo_by_name(&root, &owners, &b"proj".to_vec());
    assert_eq!(found, None);
}
