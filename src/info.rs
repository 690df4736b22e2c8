use vstd::prelude::*;
use crate::lfs::{detect_lfs_enabled, lfs_detected};
use crate::size::{FsNode, capped, dir_size, listing_bytes, skip_view};
use crate::types::GitRepoInfo;

verus! {

/// Name of the metadata directory inside a working tree.
pub const METADATA_DIR_NAME: &'static str = ".git";

/// Where a repository lives, as the store reports it.
pub struct RepoLayout {
    /// The path the query was made with.
    pub repo_path: String,
    /// The metadata directory.
    pub git_dir: String,
    /// The working-tree root; absent for a bare repository.
    pub workdir: Option<String>,
    pub is_bare: bool,
}

/// Directory listings read from disk, without following links: the working
/// tree (empty where there is none), the metadata directory, and in it the
/// object store, its packfile directory, the refs directory and the
/// large-file object directory (each empty where it is missing).
pub struct StorageListings {
    pub worktree: Vec<FsNode>,
    pub git_dir: Vec<FsNode>,
    pub objects: Vec<FsNode>,
    pub packfiles: Vec<FsNode>,
    pub refs: Vec<FsNode>,
    pub lfs_objects: Vec<FsNode>,
}

/// What the large-file detection reads: whether the configuration defines the
/// filter's clean and smudge drivers, and the attributes files' texts.
pub struct LfsSignals {
    pub config_clean: bool,
    pub config_smudge: bool,
    pub worktree_attributes: Option<String>,
    pub info_attributes: Option<String>,
}

pub open spec fn size_of(s: Seq<FsNode>) -> int {
    capped(listing_bytes(s, None))
}

/// The summary that `get_repo_info` gives for these inputs.
pub open spec fn describes(info: GitRepoInfo, layout: RepoLayout, listings: StorageListings, lfs: LfsSignals) -> bool {
    &&& info.repo_path@ == layout.repo_path@
    &&& info.git_dir_path@ == layout.git_dir@
    &&& info.worktree_path@ == (match layout.workdir {
        Some(w) => w@,
        None => layout.git_dir@,
    })
    &&& info.is_bare == layout.is_bare
    &&& info.worktree_size_bytes == (if layout.is_bare {
        0
    } else {
        capped(listing_bytes(listings.worktree@, Some(".git"@)))
    })
    &&& info.git_metadata_size_bytes == size_of(listings.git_dir@)
    &&& info.git_objects_size_bytes == size_of(listings.objects@)
    &&& info.git_packfiles_size_bytes == size_of(listings.packfiles@)
    &&& info.git_refs_size_bytes == size_of(listings.refs@)
    &&& info.lfs_objects_size_bytes == size_of(listings.lfs_objects@)
    &&& info.total_size_bytes == capped(info.worktree_size_bytes + info.git_metadata_size_bytes)
    &&& info.lfs_enabled == lfs_detected(
        lfs.config_clean,
        lfs.config_smudge,
        lfs.worktree_attributes,
        lfs.info_attributes,
    )
}

/// Summarises a repository: the size of the working tree without its
/// metadata directory (zero when bare), of the metadata directory and of its
/// object, packfile, refs and large-file object directories, their saturating
/// total, and whether large-file storage is active.
pub fn get_repo_info(layout: &RepoLayout, listings: &StorageListings, lfs: &LfsSignals) -> (r: GitRepoInfo)
    ensures
        describes(r, *layout, *listings, *lfs),
{
    proof {
        reveal_strlit(".git");
    }
    let worktree_size_bytes: u64 = if layout.is_bare {
        0
    } else {
        dir_size(&listings.worktree, Some(METADATA_DIR_NAME))
    };
    let git_metadata_size_bytes = dir_size(&listings.git_dir, None);
    let git_objects_size_bytes = dir_size(&listings.objects, None);
    let git_packfiles_size_bytes = dir_size(&listings.packfiles, None);
    let git_refs_size_bytes = dir_size(&listings.refs, None);
    let lfs_objects_size_bytes = dir_size(&listings.lfs_objects, None);
    let lfs_enabled = detect_lfs_enabled(
        lfs.config_clean,
        lfs.config_smudge,
        &lfs.worktree_attributes,
        &lfs.info_attributes,
    );
    let worktree_path = match &layout.workdir {
        Some(w) => w.clone(),
        None => layout.git_dir.clone(),
    };
    GitRepoInfo {
        repo_path: layout.repo_path.clone(),
        git_dir_path: layout.git_dir.clone(),
        worktree_path,
        is_bare: layout.is_bare,
        total_size_bytes: worktree_size_bytes.saturating_add(git_metadata_size_bytes),
        worktree_size_bytes,
        git_metadata_size_bytes,
        git_objects_size_bytes,
        git_packfiles_size_bytes,
        git_refs_size_bytes,
        lfs_enabled,
        lfs_objects_size_bytes,
    }
}

/// A bare repository reports no working-tree bytes, and its total is the
/// metadata directory's size.
pub proof fn bare_repository_totals(info: GitRepoInfo, layout: RepoLayout, listings: StorageListings, lfs: LfsSignals)
    requires
        describes(info, layout, listings, lfs),
        layout.is_bare,
    ensures
        info.worktree_size_bytes == 0,
        info.total_size_bytes == info.git_metadata_size_bytes,
{
}

} // verus!
