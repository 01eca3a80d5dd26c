//! The status classifier: it interprets the output of one
//! single-line-summary status query (`git status --porcelain --branch`)
//! for one repository as a label, and renders the per-repository status
//! lines.
//!
//! The classification rule, in order: a failing query means the
//! directory is not a git repository; no output lines mean a clean
//! repository; an `[ahead` marker in the first (branch-tracking) line
//! wins over everything else, then a `[behind` marker; otherwise any
//! non-blank change line after the first means dirty, and none means
//! clean. Ahead/behind deliberately take precedence over dirty.
use vstd::prelude::*;
use crate::bytes::contains_bytes;
use crate::bytes::contains_seq;
use crate::bytes::is_blank_line;
use crate::bytes::line_is_blank;
use crate::bytes::push_all;
use crate::paths::SLASH;

verus! {

/// The synchronization state of one repository relative to its remote.
#[derive(Clone, Copy, Debug, PartialEq, Eq, Structural)]
pub enum StatusLabel {
    Clean,
    Dirty,
    Ahead,
    Behind,
    NotARepo,
    Error,
}

/// The branch-line marker that signals a local branch ahead of
/// upstream: the bytes of `[ahead`.
pub open spec fn ahead_marker() -> Seq<u8> {
    seq![91u8, 97, 104, 101, 97, 100]
}

/// The branch-line marker that signals a local branch behind upstream:
/// the bytes of `[behind`.
pub open spec fn behind_marker() -> Seq<u8> {
    seq![91u8, 98, 101, 104, 105, 110, 100]
}

/// The view of a vector of byte lines as a sequence of byte sequences.
pub open spec fn lines_view(lines: Seq<Vec<u8>>) -> Seq<Seq<u8>> {
    lines.map_values(|l: Vec<u8>| l@)
}

/// The label for one repository, given whether the status query
/// succeeded and the lines it printed.
pub open spec fn classify_spec(query_ok: bool, lines: Seq<Seq<u8>>) -> StatusLabel {
    if !query_ok {
        StatusLabel::NotARepo
    } else if lines.len() == 0 {
        StatusLabel::Clean
    } else if contains_seq(lines[0], ahead_marker()) {
        StatusLabel::Ahead
    } else if contains_seq(lines[0], behind_marker()) {
        StatusLabel::Behind
    } else if exists|i: int| 1 <= i < lines.len() && !is_blank_line(lines[i]) {
        StatusLabel::Dirty
    } else {
        StatusLabel::Clean
    }
}

/// Classifies one repository from the outcome of its status query:
/// `query_ok` is whether the query exited successfully, `lines` is its
/// output split into lines.
pub fn classify_status(query_ok: bool, lines: &Vec<Vec<u8>>) -> (label: StatusLabel)
    ensures
        label == classify_spec(query_ok, lines_view(lines@)),
{
    if !query_ok {
        return StatusLabel::NotARepo;
    }
    if lines.len() == 0 {
        return StatusLabel::Clean;
    }
    let ahead: Vec<u8> = vec![91u8, 97, 104, 101, 97, 100];
    proof {
        assert(ahead@ =~= ahead_marker());
    }
    if contains_bytes(&lines[0], &ahead) {
        return StatusLabel::Ahead;
    }
    let behind: Vec<u8> = vec![91u8, 98, 101, 104, 105, 110, 100];
    proof {
        assert(behind@ =~= behind_marker());
    }
    if contains_bytes(&lines[0], &behind) {
        return StatusLabel::Behind;
    }
    let mut i: usize = 1;
    while i < lines.len()
        invariant
            1 <= i <= lines@.len(),
            forall|k: int| 1 <= k < i ==> is_blank_line(lines_view(lines@)[k]),
        decreases lines@.len() - i,
    {
        if !line_is_blank(&lines[i]) {
            proof {
                assert(!is_blank_line(lines_view(lines@)[i as int]));
            }
            return StatusLabel::Dirty;
        }
        i += 1;
    }
    StatusLabel::Clean
}

/// Classifies one repository during a bulk scan, where a git
/// invocation that could not run at all must not abort the scan:
/// `spawn_ok` is whether the query process could be started. A failure
/// to start degrades to the `Error` label.
pub fn classify_or_error(spawn_ok: bool, query_ok: bool, lines: &Vec<Vec<u8>>) -> (label:
    StatusLabel)
    ensures
        spawn_ok ==> label == classify_spec(query_ok, lines_view(lines@)),
        !spawn_ok ==> label == StatusLabel::Error,
{
    if spawn_ok {
        classify_status(query_ok, lines)
    } else {
        StatusLabel::Error
    }
}

/// The text a label is printed as.
pub open spec fn label_text_spec(label: StatusLabel) -> Seq<u8> {
    match label {
        StatusLabel::Clean => seq![67u8, 108, 101, 97, 110],
        StatusLabel::Dirty => seq![68u8, 105, 114, 116, 121],
        StatusLabel::Ahead => seq![65u8, 104, 101, 97, 100],
        StatusLabel::Behind => seq![66u8, 101, 104, 105, 110, 100],
        StatusLabel::NotARepo => seq![
            78u8, 111, 116, 32, 97, 32, 103, 105, 116, 32, 114, 101, 112, 111, 115, 105, 116,
            111, 114, 121,
        ],
        StatusLabel::Error => seq![69u8, 114, 114, 111, 114],
    }
}

/// Renders a label as its text (`Clean`, `Dirty`, `Ahead`, `Behind`,
/// `Not a git repository`, `Error`).
pub fn label_text(label: StatusLabel) -> (r: Vec<u8>)
    ensures
        r@ == label_text_spec(label),
{
    let r: Vec<u8> = match label {
        StatusLabel::Clean => vec![67u8, 108, 101, 97, 110],
        StatusLabel::Dirty => vec![68u8, 105, 114, 116, 121],
        StatusLabel::Ahead => vec![65u8, 104, 101, 97, 100],
        StatusLabel::Behind => vec![66u8, 101, 104, 105, 110, 100],
        StatusLabel::NotARepo => vec![
            78u8, 111, 116, 32, 97, 32, 103, 105, 116, 32, 114, 101, 112, 111, 115, 105, 116,
            111, 114, 121,
        ],
        StatusLabel::Error => vec![69u8, 114, 114, 111, 114],
    };
    proof {
        assert(r@ =~= label_text_spec(label));
    }
    r
}

/// One line of status output: `<owner>/<name> - <label>`.
pub open spec fn status_line_spec(owner: Seq<u8>, name: Seq<u8>, label: StatusLabel) -> Seq<u8> {
    owner + seq![SLASH] + name + seq![32u8, 45, 32] + label_text_spec(label)
}

/// Renders one status line, `<owner>/<name> - <label>`.
pub fn status_line(owner: &Vec<u8>, name: &Vec<u8>, label: StatusLabel) -> (r: Vec<u8>)
    ensures
        r@ == status_line_spec(owner@, name@, label),
{
    let mut r: Vec<u8> = Vec::new();
    push_all(&mut r, owner);
    r.push(SLASH);
    push_all(&mut r, name);
    let sep: Vec<u8> = vec![32u8, 45, 32];
    push_all(&mut r, &sep);
    let text = label_text(label);
    push_all(&mut r, &text);
    proof {
        assert(r@ =~= status_line_spec(owner@, name@, label));
    }
    r
}

/// The message printed when the scan found nothing:
/// `No repositories found in <root>`.
pub open spec fn no_repos_message_spec(root: Seq<u8>) -> Seq<u8> {
    seq![
        78u8, 111, 32, 114, 101, 112, 111, 115, 105, 116, 111, 114, 105, 101, 115, 32, 102, 111,
        117, 110, 100, 32, 105, 110, 32,
    ] + root
}

/// Renders `No repositories found in <root>`.
pub fn no_repos_message(root: &Vec<u8>) -> (r: Vec<u8>)
    ensures
        r@ == no_repos_message_spec(root@),
{
    let mut r: Vec<u8> = vec![
        78u8, 111, 32, 114, 101, 112, 111, 115, 105, 116, 111, 114, 105, 101, 115, 32, 102, 111,
        117, 110, 100, 32, 105, 110, 32,
    ];
    push_all(&mut r, root);
    proof {
        assert(r@ =~= no_repos_message_spec(root@));
    }
    r
}

/// The lines the `status` command prints, given the scanned
/// repositories and the label computed for each: one status line per
/// repository, or the single "no repositories found" message when the
/// scan yielded nothing.
pub open spec fn status_report_spec(
    root: Seq<u8>,
    refs: Seq<crate::scan::RepoRefView>,
    labels: Seq<StatusLabel>,
) -> Seq<Seq<u8>> {
    if refs.len() == 0 {
        seq![no_repos_message_spec(root)]
    } else {
        Seq::new(refs.len(), |k: int| status_line_spec(refs[k].owner, refs[k].name, labels[k]))
    }
}

/// Renders the `status` command's report: one `owner/name - label`
/// line per repository, or `No repositories found in <root>` when the
/// scan found none. An empty tree is an informational outcome, not an
/// error.
pub fn status_report_lines(
    root: &Vec<u8>,
    refs: &Vec<crate::scan::RepoRef>,
    labels: &Vec<StatusLabel>,
) -> (r: Vec<Vec<u8>>)
    requires
        refs@.len() == labels@.len(),
    ensures
        lines_view(r@) == status_report_spec(root@, crate::scan::refs_view(refs@), labels@),
{
    if refs.len() == 0 {
        let msg = no_repos_message(root);
        let r: Vec<Vec<u8>> = vec![msg];
        proof {
            assert(lines_view(r@) =~= status_report_spec(
                root@,
                crate::scan::refs_view(refs@),
                labels@,
            ));
        }
        return r;
    }
    let mut r: Vec<Vec<u8>> = Vec::new();
    let mut i: usize = 0;
    while i < refs.len()
        invariant
            refs@.len() == labels@.len(),
            0 <= i <= refs@.len(),
            r@.len() == i,
            forall|k: int|
                0 <= k < i ==> (#[trigger] r@[k])@ == status_line_spec(
                    refs@[k].owner@,
                    refs@[k].name@,
                    labels@[k],
                ),
        decreases refs@.len() - i,
    {
        let rp = &refs[i];
        let line = status_line(&rp.owner, &rp.name, labels[i]);
        r.push(line);
        proof {
            assert(r@[i as int]@ == status_line_spec(
                refs@[i as int].owner@,
                refs@[i as int].name@,
                labels@[i as int],
            ));
        }
        i += 1;
    }
    proof {
        assert(lines_view(r@) =~= status_report_spec(
            root@,
            crate::scan::refs_view(refs@),
            labels@,
        ));
    }
    r
}

} // verus!

