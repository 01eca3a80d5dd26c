//! The repository scanner: it walks a two-level directory tree given as
//! plain listings (the entries under the root, and for each of them the
//! entries underneath) and yields one repository reference per pair of
//! nested directories, in listing order. Non-directory entries at
//! either level are skipped silently.
use vstd::prelude::*;
use crate::bytes::bytes_eq;
use crate::bytes::copy_bytes;
use crate::paths::repo_path;
use crate::paths::repo_path_spec;

verus! {

/// One entry of a directory listing: its name and whether it is itself
/// a directory.
pub struct DirEntry {
    pub name: Vec<u8>,
    pub is_dir: bool,
}

/// One entry directly under the repository root, together with the
/// listing of its own entries. For an entry that is not a directory the
/// inner listing is ignored.
pub struct OwnerListing {
    pub name: Vec<u8>,
    pub is_dir: bool,
    pub entries: Vec<DirEntry>,
}

/// A discovered repository: its owner, its name, and its path, which is
/// always `root/owner/name`.
pub struct RepoRef {
    pub owner: Vec<u8>,
    pub name: Vec<u8>,
    pub path: Vec<u8>,
}

/// The mathematical image of a `RepoRef`.
pub ghost struct RepoRefView {
    pub owner: Seq<u8>,
    pub name: Seq<u8>,
    pub path: Seq<u8>,
}

impl View for RepoRef {
    type V = RepoRefView;

    open spec fn view(&self) -> RepoRefView {
        RepoRefView { owner: self.owner@, name: self.name@, path: self.path@ }
    }
}

/// The view of a vector of refs.
pub open spec fn refs_view(rs: Seq<RepoRef>) -> Seq<RepoRefView> {
    rs.map_values(|r: RepoRef| r@)
}

/// The ref the scanner produces for the owner directory `owner` and the
/// repository directory `name` under `root`.
pub open spec fn ref_of(root: Seq<u8>, owner: Seq<u8>, name: Seq<u8>) -> RepoRefView {
    RepoRefView { owner, name, path: repo_path_spec(root, owner, name) }
}

/// A ref is well formed under `root` when its path is
/// `root/owner/name`.
pub open spec fn ref_wf(r: RepoRefView, root: Seq<u8>) -> bool {
    r.path == repo_path_spec(root, r.owner, r.name)
}

/// The refs contributed by the entries `cs` of the owner directory
/// named `owner`: one per entry that is a directory, in order.
pub open spec fn child_refs(root: Seq<u8>, owner: Seq<u8>, cs: Seq<DirEntry>) -> Seq<RepoRefView>
    decreases cs.len(),
{
    if cs.len() == 0 {
        Seq::empty()
    } else {
        child_refs(root, owner, cs.drop_last()) + (if cs.last().is_dir {
            seq![ref_of(root, owner, cs.last().name@)]
        } else {
            Seq::empty()
        })
    }
}

/// The refs contributed by one entry under the root: none when it is
/// not a directory, else one per directory among its entries.
pub open spec fn owner_refs(root: Seq<u8>, o: OwnerListing) -> Seq<RepoRefView> {
    if o.is_dir {
        child_refs(root, o.name@, o.entries@)
    } else {
        Seq::empty()
    }
}

/// All refs of the tree: the contributions of the root's entries, in
/// listing order.
pub open spec fn scan_spec(root: Seq<u8>, owners: Seq<OwnerListing>) -> Seq<RepoRefView>
    decreases owners.len(),
{
    if owners.len() == 0 {
        Seq::empty()
    } else {
        scan_spec(root, owners.drop_last()) + owner_refs(root, owners.last())
    }
}

/// Walks the two-level tree under `root` and yields one ref per
/// (owner directory, repository directory) pair, in listing order;
/// non-directory entries at either level contribute nothing.
pub fn scan(root: &Vec<u8>, owners: &Vec<OwnerListing>) -> (refs: Vec<RepoRef>)
    ensures
        refs_view(refs@) == scan_spec(root@, owners@),
{
    let mut refs: Vec<RepoRef> = Vec::new();
    let mut i: usize = 0;
    proof {
        assert(refs_view(refs@) =~= scan_spec(root@, owners@.take(0)));
    }
    while i < owners.len()
        invariant
            0 <= i <= owners@.len(),
            refs_view(refs@) == scan_spec(root@, owners@.take(i as int)),
        decreases owners@.len() - i,
    {
        let o = &owners[i];
        if o.is_dir {
            let mut j: usize = 0;
            proof {
                assert(refs_view(refs@) =~= scan_spec(root@, owners@.take(i as int)) + child_refs(
                    root@,
                    o.name@,
                    o.entries@.take(0),
                ));
            }
            while j < o.entries.len()
                invariant
                    0 <= j <= o.entries@.len(),
                    refs_view(refs@) == scan_spec(root@, owners@.take(i as int)) + child_refs(
                        root@,
                        o.name@,
                        o.entries@.take(j as int),
                    ),
                decreases o.entries@.len() - j,
            {
                let c = &o.entries[j];
                proof {
                    assert(o.entries@.take((j + 1) as int).drop_last() =~= o.entries@.take(
                        j as int,
                    ));
                    assert(o.entries@.take((j + 1) as int).last() == o.entries@[j as int]);
                }
                let ghost prev = refs@;
                if c.is_dir {
                    let rr = RepoRef {
                        owner: copy_bytes(&o.name),
                        name: copy_bytes(&c.name),
                        path: repo_path(root, &o.name, &c.name),
                    };
                    refs.push(rr);
                    proof {
                        assert(rr@ == ref_of(root@, o.name@, c.name@));
                        assert(refs_view(refs@) =~= refs_view(prev).push(rr@));
                        assert(child_refs(root@, o.name@, o.entries@.take((j + 1) as int))
                            =~= child_refs(root@, o.name@, o.entries@.take(j as int)) + seq![
                            ref_of(root@, o.name@, c.name@),
                        ]);
                    }
                } else {
                    proof {
                        assert(child_refs(root@, o.name@, o.entries@.take((j + 1) as int))
                            =~= child_refs(root@, o.name@, o.entries@.take(j as int)));
                    }
                }
                proof {
                    assert(refs_view(refs@) =~= scan_spec(root@, owners@.take(i as int))
                        + child_refs(root@, o.name@, o.entries@.take((j + 1) as int)));
                }
                j += 1;
            }
            proof {
                assert(o.entries@.take(o.entries@.len() as int) =~= o.entries@);
            }
        }
        proof {
            assert(owners@.take((i + 1) as int).drop_last() =~= owners@.take(i as int));
            assert(owners@.take((i + 1) as int).last() == owners@[i as int]);
            assert(refs_view(refs@) =~= scan_spec(root@, owners@.take((i + 1) as int)));
        }
        i += 1;
    }
    proof {
        assert(owners@.take(owners@.len() as int) =~= owners@);
    }
    refs
}

/// How many entries of `cs` are directories.
pub open spec fn dir_count(cs: Seq<DirEntry>) -> nat
    decreases cs.len(),
{
    if cs.len() == 0 {
        0
    } else {
        dir_count(cs.drop_last()) + (if cs.last().is_dir {
            1nat
        } else {
            0nat
        })
    }
}

/// How many (owner directory, repository directory) pairs the tree
/// holds: its leaf directories.
pub open spec fn dir_pair_count(owners: Seq<OwnerListing>) -> nat
    decreases owners.len(),
{
    if owners.len() == 0 {
        0
    } else {
        dir_pair_count(owners.drop_last()) + (if owners.last().is_dir {
            dir_count(owners.last().entries@)
        } else {
            0nat
        })
    }
}

proof fn lemma_child_refs_len(root: Seq<u8>, owner: Seq<u8>, cs: Seq<DirEntry>)
    ensures
        child_refs(root, owner, cs).len() == dir_count(cs),
    decreases cs.len(),
{
    if cs.len() != 0 {
        lemma_child_refs_len(root, owner, cs.drop_last());
    }
}

/// The scanner yields exactly one ref per leaf directory: its yield has
/// the length of the tree's count of nested directory pairs.
pub proof fn lemma_scan_len(root: Seq<u8>, owners: Seq<OwnerListing>)
    ensures
        scan_spec(root, owners).len() == dir_pair_count(owners),
    decreases owners.len(),
{
    if owners.len() != 0 {
        lemma_scan_len(root, owners.drop_last());
        if owners.last().is_dir {
            lemma_child_refs_len(root, owners.last().name@, owners.last().entries@);
        }
    }
}

proof fn lemma_child_refs_complete(root: Seq<u8>, owner: Seq<u8>, cs: Seq<DirEntry>, j: int)
    requires
        0 <= j < cs.len(),
        cs[j].is_dir,
    ensures
        child_refs(root, owner, cs).contains(ref_of(root, owner, cs[j].name@)),
    decreases cs.len(),
{
    let l = child_refs(root, owner, cs.drop_last());
    if j == cs.len() - 1 {
        assert(cs.last() == cs[j]);
        assert(child_refs(root, owner, cs)[l.len() as int] == ref_of(root, owner, cs[j].name@));
    } else {
        lemma_child_refs_complete(root, owner, cs.drop_last(), j);
        assert(cs.drop_last()[j] == cs[j]);
        let r = ref_of(root, owner, cs[j].name@);
        let t = choose|t: int| 0 <= t < l.len() && l[t] == r;
        assert(child_refs(root, owner, cs)[t] == r);
    }
}

proof fn lemma_scan_complete_one(root: Seq<u8>, owners: Seq<OwnerListing>, i: int, j: int)
    requires
        0 <= i < owners.len(),
        owners[i].is_dir,
        0 <= j < owners[i].entries@.len(),
        owners[i].entries@[j].is_dir,
    ensures
        scan_spec(root, owners).contains(
            ref_of(root, owners[i].name@, owners[i].entries@[j].name@),
        ),
    decreases owners.len(),
{
    let l = scan_spec(root, owners.drop_last());
    let r = ref_of(root, owners[i].name@, owners[i].entries@[j].name@);
    if i == owners.len() - 1 {
        lemma_child_refs_complete(root, owners[i].name@, owners[i].entries@, j);
        let c = child_refs(root, owners[i].name@, owners[i].entries@);
        let t = choose|t: int| 0 <= t < c.len() && c[t] == r;
        assert(scan_spec(root, owners)[l.len() + t] == r);
    } else {
        assert(owners.drop_last()[i] == owners[i]);
        lemma_scan_complete_one(root, owners.drop_last(), i, j);
        let t = choose|t: int| 0 <= t < l.len() && l[t] == r;
        assert(scan_spec(root, owners)[t] == r);
    }
}

/// Completeness of the scanner: every nested directory pair of the tree
/// contributes its ref to the yield.
pub proof fn lemma_scan_complete(root: Seq<u8>, owners: Seq<OwnerListing>)
    ensures
        forall|i: int, j: int|
            0 <= i < owners.len() && owners[i].is_dir && 0 <= j < owners[i].entries@.len() && (
            #[trigger] owners[i].entries@[j]).is_dir ==> scan_spec(root, owners).contains(
                ref_of(root, owners[i].name@, owners[i].entries@[j].name@),
            ),
{
    assert forall|i: int, j: int|
        0 <= i < owners.len() && owners[i].is_dir && 0 <= j < owners[i].entries@.len() && (
        #[trigger] owners[i].entries@[j]).is_dir implies scan_spec(root, owners).contains(
        ref_of(root, owners[i].name@, owners[i].entries@[j].name@),
    ) by {
        lemma_scan_complete_one(root, owners, i, j);
    }
}

/// `r` is the ref of some nested directory pair of the tree.
pub open spec fn is_pair_ref(root: Seq<u8>, owners: Seq<OwnerListing>, r: RepoRefView) -> bool {
    exists|i: int, j: int|
        0 <= i < owners.len() && owners[i].is_dir && 0 <= j < owners[i].entries@.len() && (
        #[trigger] owners[i].entries@[j]).is_dir && r == ref_of(
            root,
            owners[i].name@,
            owners[i].entries@[j].name@,
        )
}

proof fn lemma_child_refs_sound(root: Seq<u8>, owner: Seq<u8>, cs: Seq<DirEntry>, k: int)
    requires
        0 <= k < child_refs(root, owner, cs).len(),
    ensures
        exists|j: int|
            0 <= j < cs.len() && (#[trigger] cs[j]).is_dir && child_refs(root, owner, cs)[k]
                == ref_of(root, owner, cs[j].name@),
    decreases cs.len(),
{
    let c = child_refs(root, owner, cs);
    let l = child_refs(root, owner, cs.drop_last());
    if k < l.len() {
        lemma_child_refs_sound(root, owner, cs.drop_last(), k);
        let j = choose|j: int|
            0 <= j < cs.drop_last().len() && (#[trigger] cs.drop_last()[j]).is_dir && l[k]
                == ref_of(root, owner, cs.drop_last()[j].name@);
        assert(cs.drop_last()[j] == cs[j]);
        assert(c[k] == l[k]);
        assert(0 <= j < cs.len() && cs[j].is_dir && c[k] == ref_of(root, owner, cs[j].name@));
    } else {
        let j = cs.len() - 1;
        assert(cs.last().is_dir);
        assert(c[k] == ref_of(root, owner, cs[j].name@));
    }
}

proof fn lemma_scan_sound_one(root: Seq<u8>, owners: Seq<OwnerListing>, k: int)
    requires
        0 <= k < scan_spec(root, owners).len(),
    ensures
        is_pair_ref(root, owners, scan_spec(root, owners)[k]),
    decreases owners.len(),
{
    let s = scan_spec(root, owners);
    let l = scan_spec(root, owners.drop_last());
    let i0 = owners.len() - 1;
    if k < l.len() {
        lemma_scan_sound_one(root, owners.drop_last(), k);
        assert(s[k] == l[k]);
        let (i, j): (int, int) = choose|i: int, j: int|
            0 <= i < owners.drop_last().len() && owners.drop_last()[i].is_dir && 0 <= j
                < owners.drop_last()[i].entries@.len() && (#[trigger] owners.drop_last()[i].entries@[j]).is_dir
                && l[k] == ref_of(
                root,
                owners.drop_last()[i].name@,
                owners.drop_last()[i].entries@[j].name@,
            );
        assert(owners.drop_last()[i] == owners[i]);
        assert(0 <= i < owners.len() && owners[i].is_dir && 0 <= j < owners[i].entries@.len()
            && owners[i].entries@[j].is_dir && s[k] == ref_of(
            root,
            owners[i].name@,
            owners[i].entries@[j].name@,
        ));
    } else {
        assert(owners.last().is_dir);
        let c = child_refs(root, owners[i0].name@, owners[i0].entries@);
        lemma_child_refs_sound(root, owners[i0].name@, owners[i0].entries@, k - l.len());
        let j = choose|j: int|
            0 <= j < owners[i0].entries@.len() && (#[trigger] owners[i0].entries@[j]).is_dir && c[k
                - l.len()] == ref_of(root, owners[i0].name@, owners[i0].entries@[j].name@);
        assert(s[k] == c[k - l.len()]);
        assert(0 <= i0 < owners.len() && owners[i0].is_dir && 0 <= j
            < owners[i0].entries@.len() && owners[i0].entries@[j].is_dir && s[k] == ref_of(
            root,
            owners[i0].name@,
            owners[i0].entries@[j].name@,
        ));
    }
}

/// Soundness of the scanner: everything it yields is the ref of a
/// nested directory pair — non-directory entries at either level
/// contribute nothing — and every yielded ref is well formed: its path
/// is `root/owner/name`.
pub proof fn lemma_scan_sound(root: Seq<u8>, owners: Seq<OwnerListing>)
    ensures
        forall|k: int|
            0 <= k < scan_spec(root, owners).len() ==> is_pair_ref(
                root,
                owners,
                #[trigger] scan_spec(root, owners)[k],
            ),
        forall|k: int|
            0 <= k < scan_spec(root, owners).len() ==> ref_wf(
                #[trigger] scan_spec(root, owners)[k],
                root,
            ),
{
    assert forall|k: int| 0 <= k < scan_spec(root, owners).len() implies is_pair_ref(
        root,
        owners,
        scan_spec(root, owners)[k],
    ) && ref_wf(scan_spec(root, owners)[k], root) by {
        lemma_scan_sound_one(root, owners, k);
    }
}

/// True when `o` is a directory that holds a directory entry named
/// `name`.
pub open spec fn owner_has_repo(o: OwnerListing, name: Seq<u8>) -> bool {
    o.is_dir && exists|j: int|
        0 <= j < o.entries@.len() && (#[trigger] o.entries@[j]).is_dir && o.entries@[j].name@
            == name
}

/// True when `o` is a directory holding a directory entry named `name`.
fn listing_has_dir_named(o: &OwnerListing, name: &Vec<u8>) -> (r: bool)
    ensures
        r == owner_has_repo(*o, name@),
{
    if !o.is_dir {
        return false;
    }
    let mut j: usize = 0;
    while j < o.entries.len()
        invariant
            0 <= j <= o.entries@.len(),
            forall|t: int|
                0 <= t < j ==> !((#[trigger] o.entries@[t]).is_dir && o.entries@[t].name@
                    == name@),
        decreases o.entries@.len() - j,
    {
        let c = &o.entries[j];
        if c.is_dir && bytes_eq(&c.name, name) {
            return true;
        }
        j += 1;
    }
    false
}

/// Searches the owner directories in listing order for the first one
/// holding a repository directory literally named `name`. Returns the
/// path `root/owner/name` for that first owner, or `None` when no owner
/// directory holds such a repository.
pub fn find_repo_by_name(root: &Vec<u8>, owners: &Vec<OwnerListing>, name: &Vec<u8>) -> (r: Option<
    Vec<u8>,
>)
    ensures
        match r {
            Some(p) => exists|i: int|
                0 <= i < owners@.len() && #[trigger] owner_has_repo(owners@[i], name@) && (
                forall|k: int| 0 <= k < i ==> !owner_has_repo(owners@[k], name@)) && p@
                    == repo_path_spec(root@, owners@[i].name@, name@),
            None => forall|i: int|
                0 <= i < owners@.len() ==> !owner_has_repo(owners@[i], name@),
        },
{
    let mut i: usize = 0;
    while i < owners.len()
        invariant
            0 <= i <= owners@.len(),
            forall|k: int| 0 <= k < i ==> !owner_has_repo(owners@[k], name@),
        decreases owners@.len() - i,
    {
        let o = &owners[i];
        if listing_has_dir_named(o, name) {
            let p = repo_path(root, &o.name, name);
            return Some(p);
        }
        i += 1;
    }
    None
}

} // verus!
