use vstd::prelude::*;
use vstd::std_specs::iter::IteratorSpec;

verus! {

/// The attribute marker that routes paths through the large-file filter.
pub open spec fn lfs_marker() -> Seq<char> {
    "filter=lfs"@
}

/// Whether the marker occurs at position `i` of a text.
pub open spec fn marker_at(s: Seq<char>, i: int) -> bool {
    0 <= i && i + lfs_marker().len() <= s.len() && s.subrange(i, i + lfs_marker().len()) == lfs_marker()
}

/// Whether a text holds the large-file filter marker anywhere.
pub open spec fn has_lfs_marker(s: Seq<char>) -> bool {
    exists|i: int| marker_at(s, i)
}

/// Whether an attributes file, where it could be read, holds the marker; a
/// file that could not be read counts as not holding it.
pub open spec fn attributes_marked(content: Option<String>) -> bool {
    match content {
        Some(c) => has_lfs_marker(c@),
        None => false,
    }
}

fn text_chars(content: &str) -> (r: Vec<char>)
    ensures
        r@ == content@,
{
    let mut it = content.chars();
    let mut out: Vec<char> = Vec::new();
    loop
        invariant
            out@.len() <= content@.len(),
            out@ == content@.subrange(0, out@.len() as int),
            IteratorSpec::remaining(&it) == content@.subrange(out@.len() as int, content@.len() as int),
        ensures
            out@ == content@,
        decreases content@.len() - out@.len(),
    {
        match it.next() {
            Some(c) => {
                out.push(c);
            },
            None => {
                break;
            },
        }
    }
    out
}

fn marker_matches_at(chars: &Vec<char>, marker: &Vec<char>, i: usize) -> (r: bool)
    requires
        marker@ == lfs_marker(),
        marker@.len() == 10,
        i + 10 <= chars@.len(),
        i + 10 <= usize::MAX,
    ensures
        r == marker_at(chars@, i as int),
{
    let mut k: usize = 0;
    while k < 10
        invariant
            k <= 10,
            marker@ == lfs_marker(),
            marker@.len() == 10,
            i + 10 <= chars@.len(),
            i + 10 <= usize::MAX,
            forall|j: int| 0 <= j < k ==> chars@[i + j] == marker@[j],
        decreases 10 - k,
    {
        if chars[i + k] != marker[k] {
            proof {
                assert(chars@.subrange(i as int, i + 10)[k as int] != lfs_marker()[k as int]);
            }
            return false;
        }
        k += 1;
    }
    proof {
        assert(chars@.subrange(i as int, i + 10) =~= lfs_marker());
    }
    true
}

/// Whether a text holds the literal large-file filter marker.
pub fn contains_lfs_filter(content: &str) -> (r: bool)
    ensures
        r == has_lfs_marker(content@),
{
    proof {
        reveal_strlit("filter=lfs");
    }
    let chars = text_chars(content);
    let marker = text_chars("filter=lfs");
    let n = chars.len();
    if n < 10 {
        assert forall|i: int| !marker_at(content@, i) by {}
        return false;
    }
    let mut i: usize = 0;
    while i <= n - 10
        invariant
            n == content@.len(),
            chars@ == content@,
            marker@ == lfs_marker(),
            marker@.len() == 10,
            n >= 10,
            i <= n - 9,
            forall|j: int| 0 <= j < i ==> !marker_at(content@, j),
        decreases n - i,
    {
        if marker_matches_at(&chars, &marker, i) {
            return true;
        }
        i += 1;
    }
    assert forall|j: int| !marker_at(content@, j) by {
        if 0 <= j < i {
        }
    }
    false
}

/// Large-file storage counts as enabled when the configuration defines the
/// filter's clean or smudge driver, or either attributes file holds the marker.
pub open spec fn lfs_detected(
    config_clean: bool,
    config_smudge: bool,
    worktree_attributes: Option<String>,
    info_attributes: Option<String>,
) -> bool {
    config_clean || config_smudge || attributes_marked(worktree_attributes) || attributes_marked(
        info_attributes,
    )
}

/// Decides whether large-file storage is active, from whether the
/// configuration defines the filter's clean and smudge drivers and from the
/// texts of the working tree's and the metadata directory's attributes files
/// (absent where they could not be read).
pub fn detect_lfs_enabled(
    config_clean: bool,
    config_smudge: bool,
    worktree_attributes: &Option<String>,
    info_attributes: &Option<String>,
) -> (r: bool)
    ensures
        r == lfs_detected(config_clean, config_smudge, *worktree_attributes, *info_attributes),
{
    if config_clean || config_smudge {
        return true;
    }
    if let Some(c) = worktree_attributes {
        if contains_lfs_filter(c.as_str()) {
            return true;
        }
    }
    if let Some(c) = info_attributes {
        if contains_lfs_filter(c.as_str()) {
            return true;
        }
    }
    false
}

} // verus!
