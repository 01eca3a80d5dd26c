use repman::locate::cd_line;
use repman::locate::cd_outcome;
use repman::locate::find_matches;
use repman::locate::parse_cd_query;
use repman::locate::CdOutcome;
use repman::locate::CdQuery;
use repman::scan::RepoRef;

fn repo(owner: &str, name: &str, path: &str) -> RepoRef {
    RepoRef {
        owner: owner.as_bytes().to_vec(),
        name: name.as_bytes().to_vec(),
        path: path.as_bytes().to_vec(),
    }
}

#[test]
fn query_with_one_separator_is_resolved_directly() {
    let q = b"alice/foo".to_vec();
    match parse_cd_query(&q) {
        CdQuery::Direct { owner, name } => {
            assert_eq!(owner, b"alice".to_vec());
            assert_eq!(name, b"foo".to_vec());
        }
        CdQuery::Search { .. } => panic!("one separator must resolve directly, never by scan"),
    }
}

#[test]
fn bare_query_is_a_search() {
    let q = b"foo".to_vec();
    match parse_cd_query(&q) {
        CdQuery::Search { name } => assert_eq!(name, b"foo".to_vec()),
        CdQuery::Direct { .. } => panic!("a bare name is not owner/name"),
    }
}

#[test]
fn query_with_two_separators_is_a_search() {
    let q = b"a/b/c".to_vec();
    match parse_cd_query(&q) {
        CdQuery::Search { name } => assert_eq!(name, b"a/b/c".to_vec()),
        CdQuery::Direct { .. } => panic!("two separators are not owner/name"),
    }
}

#[test]
fn matches_exact_and_substring_but_not_others() {
    let repos = vec![
        repo("a", "foo", "/r/a/foo"),
        repo("b", "foobar", "/r/b/foobar"),
        repo("c", "baz", "/r/c/baz"),
    ];
    let ms = find_matches(&repos, &b"foo".to_vec());
    assert_eq!(ms.len(), 2);
    assert_eq!(ms[0].name, b"foo".to_vec());
    assert_eq!(ms[1].name, b"foobar".to_vec());
}

#[test]
fn substring_match_is_case_insensitive() {
    let repos = vec![repo("a", "FooBar", "/r/a/FooBar")];
    let ms = find_matches(&repos, &b"fOO".to_vec());
    assert_eq!(ms.len(), 1);
    assert_eq!(ms[0].name, b"FooBar".to_vec());
}

#[test]
fn no_match_for_unrelated_name() {
    let repos = vec![repo("a", "baz", "/r/a/baz")];
    let ms = find_matches(&repos, &b"foo".to_vec());
    assert_eq!(ms.len(), 0);
}

#[test]
fn outcome_of_no_matches_is_not_found() {
    let ms: Vec<RepoRef> = Vec::new();
    assert!(matches!(cd_outcome(&ms), CdOutcome::NotFound));
}

#[test]
fn outcome_of_one_match_is_its_path() {
    let ms = vec![repo("a", "foo", "/r/a/foo")];
    match cd_outcome(&ms) {
        CdOutcome::Single { path } => assert_eq!(path, b"/r/a/foo".to_vec()),
        _ => panic!("a unique match must yield its path"),
    }
}

#[test]
fn outcome_of_many_matches_asks_to_disambiguate() {
    let ms = vec![repo("a", "foo", "/r/a/foo"), repo("b", "foo", "/r/b/foo")];
    assert!(matches!(cd_outcome(&ms), CdOutcome::Multiple));
}

#[test]
fn cd_line_is_exact() {
    assert_eq!(cd_line(&b"/r/a/foo".to_vec()), b"cd /r/a/foo".to_vec());
}
