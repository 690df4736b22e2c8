use vstd::prelude::*;
use vstd::utf8::{valid_utf8, decode_utf8};
use crate::types::{ErrorKind, GitError, GitCommitChange, GitCommitFileDiff};

verus! {

#[verifier::external_type_specification]
#[verifier::external_body]
pub struct ExOid(git2::Oid);

#[verifier::external_type_specification]
#[verifier::external_body]
pub struct ExGitError(git2::Error);

/// The kind of change the store reports for one path of a tree-to-tree diff.
#[derive(PartialEq, Eq, Structural, Clone, Copy, Debug)]
pub enum DeltaKind {
    Unmodified,
    Added,
    Deleted,
    Modified,
    Renamed,
    Copied,
    Ignored,
    Untracked,
    Typechange,
    Unreadable,
    Conflicted,
}

/// One entry of a tree-to-tree diff: its kind and the paths on either side.
pub struct DeltaRecord {
    pub kind: DeltaKind,
    pub old_path: Option<String>,
    pub new_path: Option<String>,
}

pub open spec fn change_label(k: DeltaKind) -> Seq<char> {
    match k {
        DeltaKind::Added => "added"@,
        DeltaKind::Deleted => "deleted"@,
        DeltaKind::Modified => "modified"@,
        DeltaKind::Renamed => "renamed"@,
        DeltaKind::Copied => "copied"@,
        DeltaKind::Typechange => "typechange"@,
        _ => "unknown"@,
    }
}

/// The path a change is reported under: the new side, else the old side.
pub open spec fn change_path(d: DeltaRecord) -> Seq<char> {
    match d.new_path {
        Some(p) => p@,
        None => match d.old_path {
            Some(p) => p@,
            None => Seq::empty(),
        },
    }
}

/// The word a change kind is reported with.
pub fn change_kind_label(k: DeltaKind) -> (r: String)
    ensures
        r@ == change_label(k),
{
    match k {
        DeltaKind::Added => String::from_str("added"),
        DeltaKind::Deleted => String::from_str("deleted"),
        DeltaKind::Modified => String::from_str("modified"),
        DeltaKind::Renamed => String::from_str("renamed"),
        DeltaKind::Copied => String::from_str("copied"),
        DeltaKind::Typechange => String::from_str("typechange"),
        _ => String::from_str("unknown"),
    }
}

/// Reports each entry of a commit's diff against its first parent, in order,
/// under its new-side path (the old-side path for a deletion).
pub fn get_commit_changes(deltas: &Vec<DeltaRecord>) -> (r: Vec<GitCommitChange>)
    ensures
        r@.len() == deltas@.len(),
        forall|i: int|
            0 <= i < deltas@.len() ==> {
                &&& (#[trigger] r@[i]).path@ == change_path(deltas@[i])
                &&& r@[i].status@ == change_label(deltas@[i].kind)
            },
{
    let mut out: Vec<GitCommitChange> = Vec::new();
    let mut i: usize = 0;
    while i < deltas.len()
        invariant
            i <= deltas@.len(),
            out@.len() == i,
            forall|j: int|
                0 <= j < i ==> {
                    &&& (#[trigger] out@[j]).path@ == change_path(deltas@[j])
                    &&& out@[j].status@ == change_label(deltas@[j].kind)
                },
        decreases deltas.len() - i,
    {
        let d = &deltas[i];
        let path = match &d.new_path {
            Some(p) => p.clone(),
            None => match &d.old_path {
                Some(p) => p.clone(),
                None => String::new(),
            },
        };
        out.push(GitCommitChange { path, status: change_kind_label(d.kind) });
        i += 1;
    }
    out
}

/// When every entry of a diff is an addition, as against an empty tree,
/// every reported change reads "added".
pub proof fn all_added_reported_added(deltas: Seq<DeltaRecord>, r: Seq<GitCommitChange>)
    requires
        r.len() == deltas.len(),
        forall|i: int| 0 <= i < deltas.len() ==> (#[trigger] deltas[i]).kind == DeltaKind::Added,
        forall|i: int| 0 <= i < deltas.len() ==> (#[trigger] r[i]).status@ == change_label(deltas[i].kind),
    ensures
        forall|i: int| 0 <= i < r.len() ==> (#[trigger] r[i]).status@ == "added"@,
{
    assert forall|i: int| 0 <= i < r.len() implies (#[trigger] r[i]).status@ == "added"@ by {
        assert(deltas[i].kind == DeltaKind::Added);
    }
}

/// The old-side path, read only where the commit has a parent, and the
/// new-side path of a single-path diff.
pub open spec fn diff_paths_for(delta: Option<DeltaRecord>, has_parent: bool) -> (Option<String>, Option<String>) {
    match delta {
        Some(d) => (if has_parent { d.old_path } else { None }, d.new_path),
        None => (None, None),
    }
}

/// The paths to read for a single-path diff: the old side, read from the first
/// parent's tree when there is one, and the new side, read from the commit's tree.
pub fn file_diff_paths(delta: &Option<DeltaRecord>, has_parent: bool) -> (r: (Option<String>, Option<String>))
    ensures
        r == diff_paths_for(*delta, has_parent),
{
    match delta {
        Some(d) => {
            let old = if has_parent {
                d.old_path.clone()
            } else {
                None
            };
            (old, d.new_path.clone())
        },
        None => (None, None),
    }
}

/// Names the text that a lossy UTF-8 decoding makes of some bytes.
pub uninterp spec fn lossy_utf8(b: Seq<u8>) -> Seq<char>;

/// Relies on `String::from_utf8_lossy`: malformed sequences are replaced, and
/// valid UTF-8 decodes to exactly its characters.
#[verifier::external_body]
fn decode_lossy(b: &Vec<u8>) -> (r: String)
    ensures
        r@ == lossy_utf8(b@),
        valid_utf8(b@) ==> r@ == decode_utf8(b@),
{
    String::from_utf8_lossy(b.as_slice()).into_owned()
}

/// The text of one side of a file diff; an absent side is empty.
pub open spec fn side_text(content: Option<Vec<u8>>) -> Seq<char> {
    match content {
        Some(b) => lossy_utf8(b@),
        None => Seq::empty(),
    }
}

/// The texts of a file diff built from the blob contents of each side.
pub open spec fn file_diff_of(r: GitCommitFileDiff, original: Option<Vec<u8>>, modified: Option<Vec<u8>>) -> bool {
    &&& r.original@ == side_text(original)
    &&& r.modified@ == side_text(modified)
    &&& forall|b: Vec<u8>| original == Some(b) && valid_utf8(b@) ==> r.original@ == decode_utf8(b@)
    &&& forall|b: Vec<u8>| modified == Some(b) && valid_utf8(b@) ==> r.modified@ == decode_utf8(b@)
}

/// Builds the before-and-after text of one path from the blob contents read
/// on each side, an absent side giving an empty text.
pub fn get_commit_file_diff(original: &Option<Vec<u8>>, modified: &Option<Vec<u8>>) -> (r: GitCommitFileDiff)
    ensures
        file_diff_of(r, *original, *modified),
{
    let original = match original {
        Some(b) => decode_lossy(b),
        None => String::new(),
    };
    let modified = match modified {
        Some(b) => decode_lossy(b),
        None => String::new(),
    };
    GitCommitFileDiff { original, modified }
}

/// For a commit with a parent whose diff at a path is one modification of
/// that path: both sides are read at that path, and with the blob contents
/// read there, the original text is exactly the parent's blob and the
/// modified text exactly the commit's, wherever they are valid UTF-8.
pub proof fn modified_path_round_trip(
    delta: DeltaRecord,
    path: Seq<char>,
    paths: (Option<String>, Option<String>),
    parent_blob: Vec<u8>,
    commit_blob: Vec<u8>,
    r: GitCommitFileDiff,
)
    requires
        delta.kind == DeltaKind::Modified,
        delta.old_path is Some && delta.old_path->Some_0@ == path,
        delta.new_path is Some && delta.new_path->Some_0@ == path,
        paths == diff_paths_for(Some(delta), true),
        file_diff_of(r, Some(parent_blob), Some(commit_blob)),
        valid_utf8(parent_blob@),
        valid_utf8(commit_blob@),
    ensures
        paths.0 is Some && paths.0->Some_0@ == path,
        paths.1 is Some && paths.1->Some_0@ == path,
        r.original@ == decode_utf8(parent_blob@),
        r.modified@ == decode_utf8(commit_blob@),
{
}

pub open spec fn is_hex_char(c: char) -> bool {
    ('0' <= c && c <= '9') || ('a' <= c && c <= 'f') || ('A' <= c && c <= 'F')
}

/// Whether text is a (possibly abbreviated) object id: one to forty hex digits.
pub open spec fn valid_hash(s: Seq<char>) -> bool {
    &&& 1 <= s.len() <= 40
    &&& forall|i: int| 0 <= i < s.len() ==> is_hex_char(#[trigger] s[i])
}

/// Relies on `git2::Oid::from_str`: it accepts one to forty hex digits and
/// fails on anything else.
#[verifier::external_body]
fn oid_from_str(s: &str) -> (r: Result<git2::Oid, git2::Error>)
    ensures
        r.is_ok() <==> valid_hash(s@),
{
    git2::Oid::from_str(s)
}

/// Parses a commit hash, failing with `Malformed` where it is not one to forty
/// hex digits.
pub fn parse_commit_hash(hash: &str) -> (r: Result<git2::Oid, GitError>)
    ensures
        r.is_ok() <==> valid_hash(hash@),
        r.is_err() ==> r->Err_0.kind == ErrorKind::Malformed,
{
    match oid_from_str(hash) {
        Ok(oid) => Ok(oid),
        Err(_) => Err(
            GitError {
                kind: ErrorKind::Malformed,
                message: String::from_str("malformed commit hash: ").concat(hash),
            },
        ),
    }
}

} // verus!
