use vstd::prelude::*;
use crate::types::{GitStatus, text_or_empty, string_or_empty};

verus! {

/// The comparison flags the store reports for one path, against the index
/// and against the working directory.
#[derive(Clone, Copy, Debug)]
pub struct StatusFlags {
    pub index_new: bool,
    pub index_modified: bool,
    pub index_deleted: bool,
    pub wt_new: bool,
    pub wt_modified: bool,
    pub wt_deleted: bool,
}

/// One path of a status listing with its flags.
pub struct StatusEntry {
    pub path: Option<String>,
    pub flags: StatusFlags,
}

/// The working-tree vocabulary a path is reported with.
#[derive(PartialEq, Eq, Structural, Clone, Copy, Debug)]
pub enum WorkKind {
    New,
    Modified,
    Deleted,
    Unknown,
}

/// Classification by precedence: new, then modified, then deleted.
pub open spec fn work_kind(f: StatusFlags) -> WorkKind {
    if f.index_new || f.wt_new {
        WorkKind::New
    } else if f.index_modified || f.wt_modified {
        WorkKind::Modified
    } else if f.index_deleted || f.wt_deleted {
        WorkKind::Deleted
    } else {
        WorkKind::Unknown
    }
}

pub open spec fn work_label(k: WorkKind) -> Seq<char> {
    match k {
        WorkKind::New => "new"@,
        WorkKind::Modified => "modified"@,
        WorkKind::Deleted => "deleted"@,
        WorkKind::Unknown => "unknown"@,
    }
}

/// Classifies one path's flags.
pub fn status_kind(flags: &StatusFlags) -> (k: WorkKind)
    ensures
        k == work_kind(*flags),
{
    if flags.index_new || flags.wt_new {
        WorkKind::New
    } else if flags.index_modified || flags.wt_modified {
        WorkKind::Modified
    } else if flags.index_deleted || flags.wt_deleted {
        WorkKind::Deleted
    } else {
        WorkKind::Unknown
    }
}

/// The word a classification is reported with.
pub fn work_kind_label(k: WorkKind) -> (r: String)
    ensures
        r@ == work_label(k),
{
    match k {
        WorkKind::New => String::from_str("new"),
        WorkKind::Modified => String::from_str("modified"),
        WorkKind::Deleted => String::from_str("deleted"),
        WorkKind::Unknown => String::from_str("unknown"),
    }
}

/// Reports each path of a status listing, in order, with its classification.
/// A path that could not be read as text is reported empty.
pub fn get_status(entries: &Vec<StatusEntry>) -> (r: Vec<GitStatus>)
    ensures
        r@.len() == entries@.len(),
        forall|i: int|
            0 <= i < entries@.len() ==> {
                &&& (#[trigger] r@[i]).file_path@ == text_or_empty(entries@[i].path)
                &&& r@[i].status@ == work_label(work_kind(entries@[i].flags))
            },
{
    let mut out: Vec<GitStatus> = Vec::new();
    let mut i: usize = 0;
    while i < entries.len()
        invariant
            i <= entries@.len(),
            out@.len() == i,
            forall|j: int|
                0 <= j < i ==> {
                    &&& (#[trigger] out@[j]).file_path@ == text_or_empty(entries@[j].path)
                    &&& out@[j].status@ == work_label(work_kind(entries@[j].flags))
                },
        decreases entries.len() - i,
    {
        let entry = &entries[i];
        let kind = status_kind(&entry.flags);
        out.push(GitStatus { file_path: string_or_empty(&entry.path), status: work_kind_label(kind) });
        i += 1;
    }
    out
}

/// A path flagged both new and modified is reported as new.
pub proof fn new_takes_precedence_over_modified(f: StatusFlags)
    requires
        f.index_new || f.wt_new,
        f.index_modified || f.wt_modified,
    ensures
        work_kind(f) == WorkKind::New,
        work_label(work_kind(f)) == "new"@,
{
}

} // verus!
