use vstd::prelude::*;

verus! {

/// A local or remote-tracking branch.
pub struct GitBranch {
    pub name: String,
    pub is_current: bool,
    pub is_remote: bool,
}

/// A configured remote with its URL.
pub struct GitRemote {
    pub name: String,
    pub url: String,
}

/// A commit of the history, as shown to a user.
pub struct GitCommit {
    pub hash: String,
    pub author: String,
    /// Author time in seconds since the epoch, written in decimal.
    pub date: String,
    pub message: String,
    /// Parent hashes, first parent first.
    pub parents: Vec<String>,
}

/// One path touched by a commit, relative to its first parent.
pub struct GitCommitChange {
    pub path: String,
    pub status: String,
}

/// The full text of one path before and after a commit.
pub struct GitCommitFileDiff {
    pub original: String,
    pub modified: String,
}

/// The working-tree state of one path.
pub struct GitStatus {
    pub file_path: String,
    pub status: String,
}

/// A working tree of the repository.
pub struct Worktree {
    pub path: String,
    pub branch: String,
}

/// Structural summary of a repository and its storage footprint.
pub struct GitRepoInfo {
    pub repo_path: String,
    pub git_dir_path: String,
    pub worktree_path: String,
    pub is_bare: bool,
    pub total_size_bytes: u64,
    pub worktree_size_bytes: u64,
    pub git_metadata_size_bytes: u64,
    pub git_objects_size_bytes: u64,
    pub git_packfiles_size_bytes: u64,
    pub git_refs_size_bytes: u64,
    pub lfs_enabled: bool,
    pub lfs_objects_size_bytes: u64,
}

/// The kinds of failure a query reports.
#[derive(PartialEq, Eq, Structural, Clone, Copy, Debug)]
pub enum ErrorKind {
    /// A repository, branch, commit or remote does not exist.
    NotFound,
    /// HEAD cannot be resolved, as on an unborn branch.
    Unresolvable,
    /// An object id string is not a valid hash.
    Malformed,
    /// The store could not be accessed for another reason.
    IoFailure,
}

/// A failure with a message for the user.
pub struct GitError {
    pub kind: ErrorKind,
    pub message: String,
}

/// The text of an optional value read from the store; absent reads as empty.
pub open spec fn text_or_empty(s: Option<String>) -> Seq<char> {
    match s {
        Some(t) => t@,
        None => Seq::empty(),
    }
}

/// Copies an optional string, an absent one becoming empty.
pub fn string_or_empty(s: &Option<String>) -> (r: String)
    ensures
        r@ == text_or_empty(*s),
{
    match s {
        Some(t) => t.clone(),
        None => String::new(),
    }
}

} // verus!
