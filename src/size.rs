use vstd::prelude::*;

verus! {

/// One entry of a directory listing, read without following symbolic links.
pub struct FsNode {
    pub name: String,
    pub kind: NodeKind,
}

/// What a directory entry turned out to be.
pub enum NodeKind {
    /// A regular file of the given byte length.
    File(u64),
    /// A symbolic link, measured by the length of the link itself.
    Symlink(u64),
    /// A directory with the entries that could be read inside it.
    Dir(Vec<FsNode>),
    /// Anything else, or an entry whose metadata could not be read.
    Other,
}

/// The largest value a size field can hold; sums stop there.
pub open spec fn capped(n: int) -> int {
    if n > u64::MAX {
        u64::MAX as int
    } else {
        n
    }
}

/// Total byte count of a list of entries, with every subdirectory entered.
pub open spec fn forest_bytes(s: Seq<FsNode>) -> int
    decreases s,
{
    if s.len() == 0 {
        0
    } else {
        let last = s[s.len() - 1];
        forest_bytes(s.subrange(0, s.len() - 1)) + match last.kind {
            NodeKind::File(n) => n as int,
            NodeKind::Symlink(n) => n as int,
            NodeKind::Dir(children) => forest_bytes(children@),
            NodeKind::Other => 0,
        }
    }
}

/// Byte count of one entry, a directory counted with everything below it.
pub open spec fn node_bytes(n: FsNode) -> int {
    match n.kind {
        NodeKind::File(len) => len as int,
        NodeKind::Symlink(len) => len as int,
        NodeKind::Dir(children) => forest_bytes(children@),
        NodeKind::Other => 0,
    }
}

/// Whether a direct entry is left out of the count for an exclusion name.
pub open spec fn excluded(n: FsNode, skip: Option<Seq<char>>) -> bool {
    match skip {
        Some(name) => n.name@ == name,
        None => false,
    }
}

/// Byte count of a directory's entries, leaving out the direct entry whose
/// name is `skip`, if any.
pub open spec fn listing_bytes(s: Seq<FsNode>, skip: Option<Seq<char>>) -> int
    decreases s.len(),
{
    if s.len() == 0 {
        0
    } else {
        let last = s[s.len() - 1];
        listing_bytes(s.subrange(0, s.len() - 1), skip) + if excluded(last, skip) {
            0
        } else {
            node_bytes(last)
        }
    }
}

pub open spec fn skip_view(skip: Option<&str>) -> Option<Seq<char>> {
    match skip {
        Some(s) => Some(s@),
        None => None,
    }
}

proof fn lemma_forest_bytes_nonneg(s: Seq<FsNode>)
    ensures
        forest_bytes(s) >= 0,
    decreases s,
{
    if s.len() > 0 {
        let last = s[s.len() - 1];
        lemma_forest_bytes_nonneg(s.subrange(0, s.len() - 1));
        if let NodeKind::Dir(children) = last.kind {
            lemma_forest_bytes_nonneg(children@);
        }
    }
}

proof fn lemma_listing_bytes_nonneg(s: Seq<FsNode>, skip: Option<Seq<char>>)
    ensures
        listing_bytes(s, skip) >= 0,
    decreases s.len(),
{
    if s.len() > 0 {
        let last = s[s.len() - 1];
        lemma_listing_bytes_nonneg(s.subrange(0, s.len() - 1), skip);
        if let NodeKind::Dir(children) = last.kind {
            lemma_forest_bytes_nonneg(children@);
        }
    }
}

/// With no exclusion, the count of a listing is the plain total.
proof fn lemma_listing_no_skip(s: Seq<FsNode>)
    ensures
        listing_bytes(s, None) == forest_bytes(s),
    decreases s.len(),
{
    if s.len() > 0 {
        lemma_listing_no_skip(s.subrange(0, s.len() - 1));
    }
}

/// Sums the sizes of all files and symbolic links under a directory listing,
/// entering subdirectories, leaving out the direct entry named `skip_name`.
/// The sum saturates at `u64::MAX`.
pub fn dir_size(entries: &Vec<FsNode>, skip_name: Option<&str>) -> (r: u64)
    ensures
        r as int == capped(listing_bytes(entries@, skip_view(skip_name))),
    decreases entries,
{
    let skip: Option<String> = match skip_name {
        Some(s) => Some(String::from_str(s)),
        None => None,
    };
    let mut total: u64 = 0;
    let mut i: usize = 0;
    while i < entries.len()
        invariant
            i <= entries.len(),
            skip_view(skip_name) == match skip {
                Some(s) => Some(s@),
                None => None::<Seq<char>>,
            },
            total as int == capped(listing_bytes(entries@.subrange(0, i as int), skip_view(skip_name))),
        decreases entries.len() - i,
    {
        let entry = &entries[i];
        let left_out = match &skip {
            Some(s) => entry.name == *s,
            None => false,
        };
        let prefix = Ghost(entries@.subrange(0, i as int));
        proof {
            lemma_listing_bytes_nonneg(prefix@, skip_view(skip_name));
            assert(entries@.subrange(0, i + 1).subrange(0, i as int) =~= prefix@);
        }
        if !left_out {
            let n: u64 = match &entry.kind {
                NodeKind::File(len) => *len,
                NodeKind::Symlink(len) => *len,
                NodeKind::Dir(children) => {
                    proof {
                        assert(decreases_to!(entries => entries[i as int]));
                        lemma_listing_no_skip(children@);
                        lemma_forest_bytes_nonneg(children@);
                    }
                    dir_size(children, None)
                },
                NodeKind::Other => 0,
            };
            total = total.saturating_add(n);
        }
        i += 1;
    }
    proof {
        assert(entries@.subrange(0, entries.len() as int) =~= entries@);
    }
    total
}

} // verus!
