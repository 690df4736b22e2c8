use vstd::prelude::*;
use crate::types::{Worktree, text_or_empty, string_or_empty};

verus! {

/// Lists the primary working tree, then each linked one in the order given.
/// The primary one stands at the working directory, or at the metadata
/// directory of a bare repository, with HEAD's short branch name (empty when
/// HEAD does not resolve); linked ones carry an empty branch name.
pub fn get_worktrees(
    workdir: &Option<String>,
    git_dir: &String,
    head_branch: &Option<String>,
    linked: &Vec<String>,
) -> (r: Vec<Worktree>)
    requires
        linked@.len() < usize::MAX,
    ensures
        r@.len() == linked@.len() + 1,
        r@[0].path@ == (match *workdir {
            Some(w) => w@,
            None => git_dir@,
        }),
        r@[0].branch@ == text_or_empty(*head_branch),
        forall|i: int|
            0 <= i < linked@.len() ==> {
                &&& (#[trigger] r@[i + 1]).path@ == linked@[i]@
                &&& r@[i + 1].branch@.len() == 0
            },
{
    let path = match workdir {
        Some(w) => w.clone(),
        None => git_dir.clone(),
    };
    let mut out: Vec<Worktree> = Vec::new();
    out.push(Worktree { path, branch: string_or_empty(head_branch) });
    let mut i: usize = 0;
    while i < linked.len()
        invariant
            i <= linked@.len(),
            out@.len() == i + 1,
            out@[0].path@ == (match *workdir {
                Some(w) => w@,
                None => git_dir@,
            }),
            out@[0].branch@ == text_or_empty(*head_branch),
            forall|j: int|
                0 <= j < i ==> {
                    &&& (#[trigger] out@[j + 1]).path@ == linked@[j]@
                    &&& out@[j + 1].branch@.len() == 0
                },
        decreases linked.len() - i,
    {
        out.push(Worktree { path: linked[i].clone(), branch: String::new() });
        i += 1;
    }
    out
}

} // verus!
