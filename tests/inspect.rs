use repo_inspect::diff::{
    file_diff_paths, get_commit_changes, get_commit_file_diff, parse_commit_hash, DeltaKind,
    DeltaRecord,
};
use repo_inspect::history::{
    commit_from_record, decimal_text, get_commits, walk_continues, CommitRecord, COMMIT_LIMIT,
};
use repo_inspect::info::{get_repo_info, LfsSignals, RepoLayout, StorageListings};
use repo_inspect::lfs::{contains_lfs_filter, detect_lfs_enabled};
use repo_inspect::refs::{checkout_branch, get_branches, get_remotes, BranchRef, RemoteEntry};
use repo_inspect::size::{dir_size, FsNode, NodeKind};
use repo_inspect::status::{get_status, status_kind, StatusEntry, StatusFlags, WorkKind};
use repo_inspect::types::ErrorKind;
use repo_inspect::worktree::get_worktrees;

fn file(name: &str, size: u64) -> FsNode {
    FsNode { name: name.to_string(), kind: NodeKind::File(size) }
}

fn link(name: &str, size: u64) -> FsNode {
    FsNode { name: name.to_string(), kind: NodeKind::Symlink(size) }
}

fn dir(name: &str, children: Vec<FsNode>) -> FsNode {
    FsNode { name: name.to_string(), kind: NodeKind::Dir(children) }
}

fn other(name: &str) -> FsNode {
    FsNode { name: name.to_string(), kind: NodeKind::Other }
}

fn flags(index_new: bool, index_modified: bool, index_deleted: bool, wt_new: bool, wt_modified: bool, wt_deleted: bool) -> StatusFlags {
    StatusFlags { index_new, index_modified, index_deleted, wt_new, wt_modified, wt_deleted }
}

fn record(hash: &str, seconds: i64, message: &str, parents: &[&str]) -> CommitRecord {
    CommitRecord {
        hash: hash.to_string(),
        author: Some("Ada".to_string()),
        seconds,
        message: Some(message.to_string()),
        parents: parents.iter().map(|p| p.to_string()).collect(),
    }
}

fn delta(kind: DeltaKind, old_path: Option<&str>, new_path: Option<&str>) -> DeltaRecord {
    DeltaRecord {
        kind,
        old_path: old_path.map(|p| p.to_string()),
        new_path: new_path.map(|p| p.to_string()),
    }
}

fn no_lfs() -> LfsSignals {
    LfsSignals { config_clean: false, config_smudge: false, worktree_attributes: None, info_attributes: None }
}

fn tree_for_sizes() -> Vec<FsNode> {
    vec![
        file("a.txt", 5),
        dir("src", vec![file("main.rs", 100), dir("deep", vec![file("x", 7)]), link("ln", 3)]),
        dir(".git", vec![file("HEAD", 23), dir("objects", vec![file("o", 1000)])]),
        other("sock"),
    ]
}

#[test]
fn dir_size_sums_nested_files_and_links() {
    assert_eq!(dir_size(&tree_for_sizes(), None), 5 + 100 + 7 + 3 + 23 + 1000);
}

#[test]
fn dir_size_skips_the_named_direct_child() {
    assert_eq!(dir_size(&tree_for_sizes(), Some(".git")), 5 + 100 + 7 + 3);
}

#[test]
fn dir_size_skip_applies_only_at_top_level() {
    let entries = vec![dir("sub", vec![file(".git", 40)]), file("b", 2)];
    assert_eq!(dir_size(&entries, Some(".git")), 42);
}

#[test]
fn dir_size_of_empty_or_unreadable_listing_is_zero() {
    assert_eq!(dir_size(&vec![], None), 0);
    assert_eq!(dir_size(&vec![other("denied"), dir("empty", vec![])], None), 0);
}

#[test]
fn dir_size_saturates_at_maximum() {
    let entries = vec![file("huge", u64::MAX - 1), dir("d", vec![file("a", 5), file("b", u64::MAX)])];
    assert_eq!(dir_size(&entries, None), u64::MAX);
}

#[test]
fn lfs_marker_found_in_attributes_text() {
    assert!(contains_lfs_filter("*.psd filter=lfs diff=lfs merge=lfs -text\n"));
    assert!(contains_lfs_filter("filter=lfs"));
    assert!(!contains_lfs_filter("*.psd filter=lf"));
    assert!(!contains_lfs_filter(""));
    assert!(!contains_lfs_filter("*.txt text eol=lf\n"));
}

#[test]
fn lfs_detection_combines_config_and_attributes() {
    assert!(detect_lfs_enabled(true, false, &None, &None));
    assert!(detect_lfs_enabled(false, true, &None, &None));
    assert!(detect_lfs_enabled(false, false, &Some("*.bin filter=lfs".to_string()), &None));
    assert!(detect_lfs_enabled(false, false, &None, &Some("*.bin filter=lfs".to_string())));
    assert!(!detect_lfs_enabled(false, false, &Some("*.bin binary".to_string()), &None));
    assert!(!detect_lfs_enabled(false, false, &None, &None));
}

#[test]
fn branches_flag_exactly_the_head_branch() {
    let local = vec![
        BranchRef { name: Some("main".to_string()), is_head: false },
        BranchRef { name: Some("feature".to_string()), is_head: true },
    ];
    let remote = vec![BranchRef { name: Some("origin/main".to_string()), is_head: true }];
    let r = get_branches(&local, &remote);
    assert_eq!(r.len(), 3);
    assert_eq!(r.iter().filter(|b| b.is_current).count(), 1);
    assert!(r[1].is_current && r[1].name == "feature" && !r[1].is_remote);
    assert!(!r[2].is_current && r[2].is_remote && r[2].name == "origin/main");
}

#[test]
fn branches_flag_none_when_head_detached() {
    let local = vec![
        BranchRef { name: Some("main".to_string()), is_head: false },
        BranchRef { name: None, is_head: false },
    ];
    let r = get_branches(&local, &vec![]);
    assert_eq!(r.iter().filter(|b| b.is_current).count(), 0);
    assert_eq!(r[1].name, "");
}

#[test]
fn remotes_without_url_are_skipped() {
    let entries = vec![
        RemoteEntry { name: Some("origin".to_string()), url: Some("https://example.com/r.git".to_string()) },
        RemoteEntry { name: Some("broken".to_string()), url: None },
        RemoteEntry { name: Some("blank".to_string()), url: Some(String::new()) },
        RemoteEntry { name: None, url: Some("https://example.com/x.git".to_string()) },
        RemoteEntry { name: Some("up".to_string()), url: Some("git@host:up.git".to_string()) },
    ];
    let r = get_remotes(&entries);
    assert_eq!(r.len(), 2);
    assert_eq!((r[0].name.as_str(), r[0].url.as_str()), ("origin", "https://example.com/r.git"));
    assert_eq!((r[1].name.as_str(), r[1].url.as_str()), ("up", "git@host:up.git"));
}

#[test]
fn commits_are_capped_at_the_limit() {
    let records: Vec<CommitRecord> = (0..60).map(|i| record(&format!("{:040x}", i), i, "m", &[])).collect();
    let r = get_commits(&records);
    assert_eq!(r.len(), 50);
    assert_eq!(COMMIT_LIMIT, 50);
    for (i, c) in r.iter().enumerate() {
        assert_eq!(c.hash, records[i].hash);
    }
    assert!(walk_continues(49));
    assert!(!walk_continues(50));
}

#[test]
fn commit_fields_are_shown() {
    let c = commit_from_record(&record("abc", 1700000000, "  fix the thing \n\n", &["p1", "p2"]));
    assert_eq!(c.hash, "abc");
    assert_eq!(c.author, "Ada");
    assert_eq!(c.date, "1700000000");
    assert_eq!(c.message, "fix the thing");
    assert_eq!(c.parents, vec!["p1".to_string(), "p2".to_string()]);
    let anon = commit_from_record(&CommitRecord {
        hash: "h".to_string(),
        author: None,
        seconds: 0,
        message: None,
        parents: vec![],
    });
    assert_eq!(anon.author, "");
    assert_eq!(anon.message, "");
    assert_eq!(anon.date, "0");
}

#[test]
fn decimal_text_of_extremes() {
    assert_eq!(decimal_text(0), "0");
    assert_eq!(decimal_text(-42), "-42");
    assert_eq!(decimal_text(i64::MAX), i64::MAX.to_string());
    assert_eq!(decimal_text(i64::MIN), i64::MIN.to_string());
}

#[test]
fn root_commit_changes_are_added() {
    let deltas = vec![
        delta(DeltaKind::Added, Some("a.txt"), Some("a.txt")),
        delta(DeltaKind::Added, Some("dir/b.txt"), Some("dir/b.txt")),
    ];
    let r = get_commit_changes(&deltas);
    assert_eq!(r.len(), 2);
    assert!(r.iter().all(|c| c.status == "added"));
    assert_eq!(r[1].path, "dir/b.txt");
}

#[test]
fn change_labels_and_path_fallback() {
    let deltas = vec![
        delta(DeltaKind::Deleted, Some("gone.txt"), None),
        delta(DeltaKind::Renamed, Some("old.txt"), Some("new.txt")),
        delta(DeltaKind::Copied, Some("a"), Some("b")),
        delta(DeltaKind::Typechange, Some("t"), Some("t")),
        delta(DeltaKind::Conflicted, None, None),
    ];
    let r = get_commit_changes(&deltas);
    assert_eq!((r[0].path.as_str(), r[0].status.as_str()), ("gone.txt", "deleted"));
    assert_eq!((r[1].path.as_str(), r[1].status.as_str()), ("new.txt", "renamed"));
    assert_eq!(r[2].status, "copied");
    assert_eq!(r[3].status, "typechange");
    assert_eq!((r[4].path.as_str(), r[4].status.as_str()), ("", "unknown"));
}

#[test]
fn file_diff_reads_both_sides_of_a_rename() {
    let d = Some(delta(DeltaKind::Renamed, Some("old.txt"), Some("new.txt")));
    let (old, new) = file_diff_paths(&d, true);
    assert_eq!(old.as_deref(), Some("old.txt"));
    assert_eq!(new.as_deref(), Some("new.txt"));
    let (old, _) = file_diff_paths(&d, false);
    assert_eq!(old, None);
    assert_eq!(file_diff_paths(&None, true), (None, None));
}

#[test]
fn file_diff_missing_side_is_empty_and_bad_bytes_replaced() {
    let r = get_commit_file_diff(&None, &Some(b"new file\n".to_vec()));
    assert_eq!(r.original, "");
    assert_eq!(r.modified, "new file\n");
    let r = get_commit_file_diff(&Some(vec![b'a', 0xff, b'b']), &None);
    assert_eq!(r.original, "a\u{FFFD}b");
    assert_eq!(r.modified, "");
}

#[test]
fn modify_scenario_lists_changes_and_texts() {
    let walk = vec![
        record("2222222222222222222222222222222222222222", 200, "modify", &["1111111111111111111111111111111111111111"]),
        record("1111111111111111111111111111111111111111", 100, "add", &[]),
    ];
    let commits = get_commits(&walk);
    assert_eq!(commits.len(), 2);
    assert_eq!(commits[0].parents, vec![commits[1].hash.clone()]);
    let deltas = vec![delta(DeltaKind::Modified, Some("a.txt"), Some("a.txt"))];
    let changes = get_commit_changes(&deltas);
    assert_eq!(changes.len(), 1);
    assert_eq!((changes[0].path.as_str(), changes[0].status.as_str()), ("a.txt", "modified"));
    let (old, new) = file_diff_paths(&Some(delta(DeltaKind::Modified, Some("a.txt"), Some("a.txt"))), true);
    assert_eq!((old.as_deref(), new.as_deref()), (Some("a.txt"), Some("a.txt")));
    let pair = get_commit_file_diff(&Some(b"hello".to_vec()), &Some(b"world".to_vec()));
    assert_eq!(pair.original, "hello");
    assert_eq!(pair.modified, "world");
}

#[test]
fn commit_hash_parsing() {
    let full = "0123456789abcdefABCDEF0123456789abcdef01";
    let oid = parse_commit_hash(full).ok().unwrap();
    assert_eq!(oid.to_string(), full.to_lowercase());
    assert!(parse_commit_hash("abc1").is_ok());
    let bad = parse_commit_hash("not-a-hash").err().unwrap();
    assert_eq!(bad.kind, ErrorKind::Malformed);
    assert_eq!(parse_commit_hash("").err().unwrap().kind, ErrorKind::Malformed);
    assert_eq!(parse_commit_hash(&"a".repeat(41)).err().unwrap().kind, ErrorKind::Malformed);
}

#[test]
fn status_new_wins_over_modified() {
    assert_eq!(status_kind(&flags(false, false, false, true, true, false)), WorkKind::New);
    assert_eq!(status_kind(&flags(true, true, true, false, false, false)), WorkKind::New);
    assert_eq!(status_kind(&flags(false, false, true, false, true, false)), WorkKind::Modified);
    assert_eq!(status_kind(&flags(false, false, false, false, false, true)), WorkKind::Deleted);
    assert_eq!(status_kind(&flags(false, false, false, false, false, false)), WorkKind::Unknown);
}

#[test]
fn status_listing_reports_labels() {
    let entries = vec![
        StatusEntry { path: Some("new.txt".to_string()), flags: flags(false, false, false, true, true, false) },
        StatusEntry { path: Some("m.txt".to_string()), flags: flags(false, false, false, false, true, false) },
        StatusEntry { path: None, flags: flags(false, false, true, false, false, false) },
    ];
    let r = get_status(&entries);
    assert_eq!((r[0].file_path.as_str(), r[0].status.as_str()), ("new.txt", "new"));
    assert_eq!((r[1].file_path.as_str(), r[1].status.as_str()), ("m.txt", "modified"));
    assert_eq!((r[2].file_path.as_str(), r[2].status.as_str()), ("", "deleted"));
}

#[test]
fn worktrees_primary_first() {
    let linked = vec!["/work/feature".to_string()];
    let r = get_worktrees(&Some("/work/main/".to_string()), &"/work/main/.git/".to_string(), &Some("main".to_string()), &linked);
    assert_eq!(r.len(), 2);
    assert_eq!((r[0].path.as_str(), r[0].branch.as_str()), ("/work/main/", "main"));
    assert_eq!((r[1].path.as_str(), r[1].branch.as_str()), ("/work/feature", ""));
    let bare = get_worktrees(&None, &"/srv/repo.git/".to_string(), &None, &vec![]);
    assert_eq!(bare.len(), 1);
    assert_eq!((bare[0].path.as_str(), bare[0].branch.as_str()), ("/srv/repo.git/", ""));
}

#[test]
fn checkout_of_missing_branch_is_not_found() {
    let local = vec!["main".to_string(), "dev".to_string()];
    let err = checkout_branch("nope", &local).err().unwrap();
    assert_eq!(err.kind, ErrorKind::NotFound);
    assert_eq!(checkout_branch("dev", &local).ok().unwrap(), "refs/heads/dev");
    assert_eq!(checkout_branch("main", &vec![]).err().unwrap().kind, ErrorKind::NotFound);
}

#[test]
fn repo_info_of_working_repository() {
    let layout = RepoLayout {
        repo_path: "/w/r/src".to_string(),
        git_dir: "/w/r/.git/".to_string(),
        workdir: Some("/w/r/".to_string()),
        is_bare: false,
    };
    let listings = StorageListings {
        worktree: tree_for_sizes(),
        git_dir: vec![file("HEAD", 23), dir("objects", vec![file("o", 1000)])],
        objects: vec![file("o", 1000), dir("pack", vec![file("p.pack", 400)])],
        packfiles: vec![file("p.pack", 400)],
        refs: vec![dir("heads", vec![file("main", 41)])],
        lfs_objects: vec![],
    };
    let lfs = LfsSignals { worktree_attributes: Some("*.bin filter=lfs".to_string()), ..no_lfs() };
    let info = get_repo_info(&layout, &listings, &lfs);
    assert_eq!(info.repo_path, "/w/r/src");
    assert_eq!(info.worktree_path, "/w/r/");
    assert_eq!(info.worktree_size_bytes, 115);
    assert_eq!(info.git_metadata_size_bytes, 1023);
    assert_eq!(info.total_size_bytes, 1138);
    assert_eq!(info.git_objects_size_bytes, 1400);
    assert_eq!(info.git_packfiles_size_bytes, 400);
    assert_eq!(info.git_refs_size_bytes, 41);
    assert_eq!(info.lfs_objects_size_bytes, 0);
    assert!(info.lfs_enabled);
    assert!(!info.is_bare);
}

#[test]
fn repo_info_of_bare_repository() {
    let layout = RepoLayout {
        repo_path: "/srv/r.git".to_string(),
        git_dir: "/srv/r.git/".to_string(),
        workdir: None,
        is_bare: true,
    };
    let listings = StorageListings {
        worktree: vec![file("stray", 9)],
        git_dir: vec![file("HEAD", 23), file("config", 100)],
        objects: vec![],
        packfiles: vec![],
        refs: vec![],
        lfs_objects: vec![file("big", 5000)],
    };
    let info = get_repo_info(&layout, &listings, &no_lfs());
    assert_eq!(info.worktree_size_bytes, 0);
    assert_eq!(info.total_size_bytes, info.git_metadata_size_bytes);
    assert_eq!(info.total_size_bytes, 123);
    assert_eq!(info.worktree_path, "/srv/r.git/");
    assert_eq!(info.lfs_objects_size_bytes, 5000);
    assert!(!info.lfs_enabled);
}

#[test]
fn repo_info_total_saturates() {
    let layout = RepoLayout { repo_path: "r".to_string(), git_dir: "r/.git".to_string(), workdir: Some("r".to_string()), is_bare: false };
    let listings = StorageListings {
        worktree: vec![file("a", u64::MAX - 10)],
        git_dir: vec![file("b", 20)],
        objects: vec![],
        packfiles: vec![],
        refs: vec![],
        lfs_objects: vec![],
    };
    let info = get_repo_info(&layout, &listings, &no_lfs());
    assert_eq!(info.total_size_bytes, u64::MAX);
}
