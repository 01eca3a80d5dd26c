//! The logic of the `cd` command: how a query is read, which scanned
//! repositories it matches, and what the handler does with the match
//! set.
//!
//! A query with exactly one separator is an `owner/name` pair and is
//! resolved by a direct existence check, never by a scan. Any other
//! query is a bare name; it matches a repository whose directory name
//! equals it exactly or contains it as an ASCII-case-insensitive
//! substring, and both kinds of match stand in the same match set.
use vstd::prelude::*;
use crate::bytes::bytes_eq;
use crate::bytes::contains_bytes;
use crate::bytes::contains_seq;
use crate::bytes::copy_bytes;
use crate::bytes::copy_range;
use crate::bytes::lower_seq;
use crate::bytes::push_all;
use crate::bytes::to_lower;
use crate::paths::SLASH;
use crate::scan::refs_view;
use crate::scan::RepoRef;
use crate::scan::RepoRefView;

verus! {

/// How many separator bytes `s` holds.
pub open spec fn slash_count(s: Seq<u8>) -> nat
    decreases s.len(),
{
    if s.len() == 0 {
        0
    } else {
        slash_count(s.drop_last()) + (if s.last() == SLASH {
            1nat
        } else {
            0nat
        })
    }
}

/// `slash_count` adds up over concatenation.
proof fn lemma_slash_count_add(a: Seq<u8>, b: Seq<u8>)
    ensures
        slash_count(a + b) == slash_count(a) + slash_count(b),
    decreases b.len(),
{
    if b.len() == 0 {
        assert(a + b =~= a);
    } else {
        lemma_slash_count_add(a, b.drop_last());
        assert((a + b).drop_last() =~= a + b.drop_last());
        assert((a + b).last() == b.last());
    }
}

/// A parsed `cd` query: either an exact `owner/name` pair to resolve
/// directly, or a bare name to search for.
pub enum CdQuery {
    Direct { owner: Vec<u8>, name: Vec<u8> },
    Search { name: Vec<u8> },
}

/// Reads a `cd` query. A query with exactly one separator splits into
/// `owner/name` and is resolved without any scan; every other query is
/// kept whole as a name to search for.
pub fn parse_cd_query(q: &Vec<u8>) -> (r: CdQuery)
    ensures
        slash_count(q@) == 1 ==> (r matches CdQuery::Direct { owner, name } && q@ == owner@
            + seq![SLASH] + name@ && slash_count(owner@) == 0 && slash_count(name@) == 0),
        slash_count(q@) != 1 ==> (r matches CdQuery::Search { name } && name@ == q@),
{
    let mut i: usize = 0;
    let mut cnt: usize = 0;
    let mut first: usize = 0;
    while i < q.len()
        invariant
            0 <= i <= q@.len(),
            cnt <= i,
            cnt == slash_count(q@.take(i as int)),
            cnt > 0 ==> 0 <= first < i && q@[first as int] == SLASH && slash_count(
                q@.take(first as int),
            ) == 0,
        decreases q@.len() - i,
    {
        proof {
            assert(q@.take((i + 1) as int).drop_last() =~= q@.take(i as int));
            assert(q@.take((i + 1) as int).last() == q@[i as int]);
        }
        if q[i] == SLASH {
            if cnt == 0 {
                first = i;
            }
            cnt += 1;
        }
        i += 1;
    }
    proof {
        assert(q@.take(q@.len() as int) =~= q@);
    }
    if cnt == 1 {
        let owner = copy_range(q, 0, first);
        let name = copy_range(q, first + 1, q.len());
        proof {
            let pre = q@.take(first as int);
            let mid = seq![q@[first as int]];
            let post = q@.skip((first + 1) as int);
            assert(q@ =~= pre + mid + post);
            lemma_slash_count_add(pre + mid, post);
            lemma_slash_count_add(pre, mid);
            assert(mid.drop_last() =~= Seq::<u8>::empty());
            assert(slash_count(mid) == 1);
            assert(owner@ =~= pre);
            assert(name@ =~= post);
            assert(q@ =~= owner@ + seq![SLASH] + name@);
        }
        CdQuery::Direct { owner, name }
    } else {
        let name = copy_bytes(q);
        CdQuery::Search { name }
    }
}

/// A repository name matches a bare query when it equals it exactly or
/// contains it as an ASCII-case-insensitive substring.
pub open spec fn name_matches(name: Seq<u8>, query: Seq<u8>) -> bool {
    name == query || contains_seq(lower_seq(name), lower_seq(query))
}

/// True exactly when `name` matches `query`.
pub fn name_matches_exec(name: &Vec<u8>, query: &Vec<u8>) -> (r: bool)
    ensures
        r == name_matches(name@, query@),
{
    if bytes_eq(name, query) {
        return true;
    }
    let ln = to_lower(name);
    let lq = to_lower(query);
    contains_bytes(&ln, &lq)
}

/// The subsequence of `repos` whose names match `query`, in order.
pub open spec fn matches_spec(repos: Seq<RepoRefView>, query: Seq<u8>) -> Seq<RepoRefView> {
    repos.filter(|r: RepoRefView| name_matches(r.name, query))
}

/// The matches of a bare query among the scanned repositories: those
/// whose name matches, in scan order. An exact match does not suppress
/// substring matches found elsewhere.
pub fn find_matches(repos: &Vec<RepoRef>, query: &Vec<u8>) -> (ms: Vec<RepoRef>)
    ensures
        refs_view(ms@) == matches_spec(refs_view(repos@), query@),
{
    let ghost pred = |r: RepoRefView| name_matches(r.name, query@);
    let mut ms: Vec<RepoRef> = Vec::new();
    let mut i: usize = 0;
    proof {
        reveal(Seq::filter);
        assert(refs_view(ms@) =~= refs_view(repos@.take(0)).filter(pred));
    }
    while i < repos.len()
        invariant
            0 <= i <= repos@.len(),
            refs_view(ms@) == refs_view(repos@.take(i as int)).filter(pred),
        decreases repos@.len() - i,
    {
        let rp = &repos[i];
        let ghost before = refs_view(repos@.take(i as int));
        proof {
            reveal(Seq::filter);
            assert(refs_view(repos@.take((i + 1) as int)) =~= before.push(rp@));
            assert(before.push(rp@).drop_last() =~= before);
            assert(before.push(rp@).last() == rp@);
        }
        if name_matches_exec(&rp.name, query) {
            let ghost prev = ms@;
            let rr = RepoRef {
                owner: copy_bytes(&rp.owner),
                name: copy_bytes(&rp.name),
                path: copy_bytes(&rp.path),
            };
            ms.push(rr);
            proof {
                reveal(Seq::filter);
                assert(rr@ == rp@);
                assert(refs_view(ms@) =~= refs_view(prev).push(rp@));
                assert(refs_view(repos@.take((i + 1) as int)).filter(pred) =~= before.filter(
                    pred,
                ).push(rp@));
            }
        } else {
            proof {
                reveal(Seq::filter);
                assert(refs_view(repos@.take((i + 1) as int)).filter(pred) =~= before.filter(
                    pred,
                ));
            }
        }
        i += 1;
    }
    proof {
        assert(repos@.take(repos@.len() as int) =~= repos@);
    }
    ms
}

/// The match set holds exactly the matching repositories: every element
/// of it matches the query, and every scanned repository whose name
/// matches the query stands in it.
pub proof fn lemma_matches_characterized(repos: Seq<RepoRefView>, query: Seq<u8>)
    ensures
        forall|k: int|
            0 <= k < matches_spec(repos, query).len() ==> name_matches(
                (#[trigger] matches_spec(repos, query)[k]).name,
                query,
            ),
        forall|k: int|
            0 <= k < repos.len() && name_matches((#[trigger] repos[k]).name, query)
                ==> matches_spec(repos, query).contains(repos[k]),
{
    let pred = |r: RepoRefView| name_matches(r.name, query);
    assert forall|k: int| 0 <= k < repos.filter(pred).len() implies name_matches(
        repos.filter(pred)[k].name,
        query,
    ) by {
        repos.lemma_filter_pred(pred, k);
    }
    assert forall|k: int| 0 <= k < repos.len() && name_matches(repos[k].name, query) implies repos
        .filter(pred).contains(repos[k]) by {
        repos.lemma_filter_contains(pred, k);
    }
}

/// What the `cd` handler does with its match set: report that nothing
/// was found, emit the unique match's path, or list the candidates for
/// disambiguation.
pub enum CdOutcome {
    NotFound,
    Single { path: Vec<u8> },
    Multiple,
}

/// Decides the `cd` handler's behaviour from the match set.
pub fn cd_outcome(ms: &Vec<RepoRef>) -> (r: CdOutcome)
    ensures
        ms@.len() == 0 ==> r is NotFound,
        ms@.len() == 1 ==> (r matches CdOutcome::Single { path } && path@ == ms@[0].path@),
        ms@.len() > 1 ==> r is Multiple,
{
    if ms.len() == 0 {
        CdOutcome::NotFound
    } else if ms.len() == 1 {
        CdOutcome::Single { path: copy_bytes(&ms[0].path) }
    } else {
        CdOutcome::Multiple
    }
}

/// The line emitted for a resolved repository: `cd <path>`.
pub open spec fn cd_line_spec(path: Seq<u8>) -> Seq<u8> {
    seq![99u8, 100, 32] + path
}

/// Renders `cd <path>`, the line a shell integration consumes.
pub fn cd_line(path: &Vec<u8>) -> (r: Vec<u8>)
    ensures
        r@ == cd_line_spec(path@),
{
    let mut r: Vec<u8> = vec![99u8, 100, 32];
    push_all(&mut r, path);
    proof {
        assert(r@ =~= cd_line_spec(path@));
    }
    r
}

} // verus!
