use vstd::prelude::*;
use crate::types::{ErrorKind, GitBranch, GitError, GitRemote, text_or_empty, string_or_empty};

verus! {

/// A branch as enumerated by the store, with whether HEAD resolves to it.
pub struct BranchRef {
    pub name: Option<String>,
    pub is_head: bool,
}

/// A configured remote: its name and URL, where they read as text.
pub struct RemoteEntry {
    pub name: Option<String>,
    pub url: Option<String>,
}

/// The listing built from local branches followed by remote-tracking ones.
pub open spec fn branch_listing(r: Seq<GitBranch>, local: Seq<BranchRef>, remote: Seq<BranchRef>) -> bool {
    &&& r.len() == local.len() + remote.len()
    &&& forall|i: int|
        0 <= i < local.len() ==> {
            &&& (#[trigger] r[i]).name@ == text_or_empty(local[i].name)
            &&& r[i].is_current == local[i].is_head
            &&& !r[i].is_remote
        }
    &&& forall|i: int|
        0 <= i < remote.len() ==> {
            &&& (#[trigger] r[local.len() + i]).name@ == text_or_empty(remote[i].name)
            &&& !r[local.len() + i].is_current
            &&& r[local.len() + i].is_remote
        }
}

/// Lists every local branch, flagged current where HEAD resolves to it, then
/// every remote-tracking branch, never flagged current; in enumeration order.
pub fn get_branches(local: &Vec<BranchRef>, remote: &Vec<BranchRef>) -> (r: Vec<GitBranch>)
    requires
        local@.len() + remote@.len() <= usize::MAX,
    ensures
        branch_listing(r@, local@, remote@),
{
    let mut out: Vec<GitBranch> = Vec::new();
    let mut i: usize = 0;
    while i < local.len()
        invariant
            i <= local@.len(),
            out@.len() == i,
            forall|j: int|
                0 <= j < i ==> {
                    &&& (#[trigger] out@[j]).name@ == text_or_empty(local@[j].name)
                    &&& out@[j].is_current == local@[j].is_head
                    &&& !out@[j].is_remote
                },
        decreases local.len() - i,
    {
        let b = &local[i];
        out.push(GitBranch { name: string_or_empty(&b.name), is_current: b.is_head, is_remote: false });
        i += 1;
    }
    let mut k: usize = 0;
    while k < remote.len()
        invariant
            k <= remote@.len(),
            out@.len() == local@.len() + k,
            forall|j: int|
                0 <= j < local@.len() ==> {
                    &&& (#[trigger] out@[j]).name@ == text_or_empty(local@[j].name)
                    &&& out@[j].is_current == local@[j].is_head
                    &&& !out@[j].is_remote
                },
            forall|j: int|
                0 <= j < k ==> {
                    &&& (#[trigger] out@[local@.len() + j]).name@ == text_or_empty(remote@[j].name)
                    &&& !out@[local@.len() + j].is_current
                    &&& out@[local@.len() + j].is_remote
                },
        decreases remote.len() - k,
    {
        let b = &remote[k];
        out.push(GitBranch { name: string_or_empty(&b.name), is_current: false, is_remote: true });
        k += 1;
    }
    out
}

/// When HEAD resolves to exactly one local branch, exactly that entry of the
/// listing is flagged current; when it resolves to none (detached or unborn),
/// no entry is.
pub proof fn current_flag_follows_head(local: Seq<BranchRef>, remote: Seq<BranchRef>, r: Seq<GitBranch>)
    requires
        branch_listing(r, local, remote),
    ensures
        forall|k: int|
            #![trigger local[k]]
            0 <= k < local.len() && local[k].is_head && (forall|j: int|
                0 <= j < local.len() && j != k ==> !(#[trigger] local[j]).is_head) ==> {
                &&& r[k].is_current
                &&& forall|i: int| 0 <= i < r.len() && i != k ==> !(#[trigger] r[i]).is_current
            },
        (forall|j: int| 0 <= j < local.len() ==> !(#[trigger] local[j]).is_head) ==> forall|i: int|
            0 <= i < r.len() ==> !(#[trigger] r[i]).is_current,
{
    assert forall|i: int| 0 <= i < r.len() && (#[trigger] r[i]).is_current implies i < local.len()
        && local[i].is_head by {
        if i >= local.len() {
            let t = i - local.len();
            assert(r[local.len() + t] == r[i]);
        }
    }
}

/// Whether a configured remote is listed: it has a name and a non-empty URL.
pub open spec fn remote_listed(e: RemoteEntry) -> bool {
    e.name is Some && e.url is Some && e.url->Some_0@.len() > 0
}

/// The (name, URL) rows of the listed remotes, in configuration order.
pub open spec fn listed_remotes(s: Seq<RemoteEntry>) -> Seq<(Seq<char>, Seq<char>)>
    decreases s.len(),
{
    if s.len() == 0 {
        Seq::empty()
    } else {
        let last = s[s.len() - 1];
        let prev = listed_remotes(s.subrange(0, s.len() - 1));
        if remote_listed(last) {
            prev.push((last.name->Some_0@, last.url->Some_0@))
        } else {
            prev
        }
    }
}

pub open spec fn remote_rows(r: Seq<GitRemote>) -> Seq<(Seq<char>, Seq<char>)> {
    r.map_values(|g: GitRemote| (g.name@, g.url@))
}

/// Lists the configured remotes that have a URL, skipping the others.
pub fn get_remotes(entries: &Vec<RemoteEntry>) -> (r: Vec<GitRemote>)
    ensures
        remote_rows(r@) == listed_remotes(entries@),
{
    let mut out: Vec<GitRemote> = Vec::new();
    let mut i: usize = 0;
    while i < entries.len()
        invariant
            i <= entries@.len(),
            remote_rows(out@) == listed_remotes(entries@.subrange(0, i as int)),
        decreases entries.len() - i,
    {
        proof {
            assert(entries@.subrange(0, i + 1).subrange(0, i as int) =~= entries@.subrange(0, i as int));
        }
        let e = &entries[i];
        match (&e.name, &e.url) {
            (Some(name), Some(url)) => {
                if url.unicode_len() > 0 {
                    let g = GitRemote { name: name.clone(), url: url.clone() };
                    let ghost before = out@;
                    out.push(g);
                    proof {
                        assert(remote_rows(out@) =~= remote_rows(before).push((g.name@, g.url@)));
                    }
                }
            },
            _ => {},
        }
        i += 1;
    }
    proof {
        assert(entries@.subrange(0, entries@.len() as int) =~= entries@);
    }
    out
}

/// The reference a checkout of a local branch points HEAD at.
pub open spec fn branch_ref_name(name: Seq<char>) -> Seq<char> {
    "refs/heads/"@ + name
}

/// Resolves a branch name among the local branches for a checkout, giving
/// the reference HEAD is to point at, or `NotFound` where there is no such
/// local branch (and nothing is to change).
pub fn checkout_branch(branch_name: &str, local_branches: &Vec<String>) -> (r: Result<String, GitError>)
    ensures
        r.is_ok() <==> exists|i: int| 0 <= i < local_branches@.len() && (#[trigger] local_branches@[i])@ == branch_name@,
        r.is_ok() ==> r->Ok_0@ == branch_ref_name(branch_name@),
        r.is_err() ==> r->Err_0.kind == ErrorKind::NotFound,
{
    let wanted = String::from_str(branch_name);
    let mut i: usize = 0;
    while i < local_branches.len()
        invariant
            i <= local_branches@.len(),
            wanted@ == branch_name@,
            forall|j: int| 0 <= j < i ==> (#[trigger] local_branches@[j])@ != branch_name@,
        decreases local_branches.len() - i,
    {
        if local_branches[i] == wanted {
            return Ok(String::from_str("refs/heads/").concat(branch_name));
        }
        i += 1;
    }
    Err(GitError {
        kind: ErrorKind::NotFound,
        message: String::from_str("no local branch named ").concat(branch_name),
    })
}

} // verus!
