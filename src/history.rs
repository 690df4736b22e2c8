use vstd::prelude::*;
use crate::types::{GitCommit, text_or_empty, string_or_empty};

verus! {

/// How many commits a history listing holds at most.
pub const COMMIT_LIMIT: usize = 50;

/// A commit as read from the store during the ancestry walk.
pub struct CommitRecord {
    pub hash: String,
    pub author: Option<String>,
    /// Author time in seconds since the epoch.
    pub seconds: i64,
    pub message: Option<String>,
    /// Parent hashes in recorded order.
    pub parents: Vec<String>,
}

pub open spec fn digit_char(d: nat) -> char {
    if d == 0 {
        '0'
    } else if d == 1 {
        '1'
    } else if d == 2 {
        '2'
    } else if d == 3 {
        '3'
    } else if d == 4 {
        '4'
    } else if d == 5 {
        '5'
    } else if d == 6 {
        '6'
    } else if d == 7 {
        '7'
    } else if d == 8 {
        '8'
    } else {
        '9'
    }
}

/// Decimal digits of a natural number, most significant first.
pub open spec fn digits_of(n: nat) -> Seq<char>
    decreases n,
{
    if n < 10 {
        seq![digit_char(n)]
    } else {
        digits_of(n / 10).push(digit_char(n % 10))
    }
}

/// Decimal text of an integer, with a leading minus sign when negative.
pub open spec fn decimal_of(n: int) -> Seq<char> {
    if n < 0 {
        seq!['-'] + digits_of((-n) as nat)
    } else {
        digits_of(n as nat)
    }
}

fn digit_text(d: u64) -> (r: &'static str)
    requires
        d < 10,
    ensures
        r@ == seq![digit_char(d as nat)],
{
    if d == 0 {
        proof { reveal_strlit("0"); }
        "0"
    } else if d == 1 {
        proof { reveal_strlit("1"); }
        "1"
    } else if d == 2 {
        proof { reveal_strlit("2"); }
        "2"
    } else if d == 3 {
        proof { reveal_strlit("3"); }
        "3"
    } else if d == 4 {
        proof { reveal_strlit("4"); }
        "4"
    } else if d == 5 {
        proof { reveal_strlit("5"); }
        "5"
    } else if d == 6 {
        proof { reveal_strlit("6"); }
        "6"
    } else if d == 7 {
        proof { reveal_strlit("7"); }
        "7"
    } else if d == 8 {
        proof { reveal_strlit("8"); }
        "8"
    } else {
        proof { reveal_strlit("9"); }
        "9"
    }
}

fn digits_text(n: u64) -> (r: String)
    ensures
        r@ == digits_of(n as nat),
    decreases n,
{
    if n < 10 {
        String::from_str(digit_text(n))
    } else {
        let head = digits_text(n / 10);
        let r = head.concat(digit_text(n % 10));
        proof {
            assert(r@ =~= digits_of((n / 10) as nat).push(digit_char((n % 10) as nat)));
        }
        r
    }
}

/// Writes an integer in decimal, as a commit's date is shown.
pub fn decimal_text(n: i64) -> (r: String)
    ensures
        r@ == decimal_of(n as int),
{
    if n < 0 {
        let magnitude: u64 = (-(n as i128)) as u64;
        let r = String::from_str("-").concat(digits_text(magnitude).as_str());
        proof {
            reveal_strlit("-");
            assert(r@ =~= seq!['-'] + digits_of((-n) as nat));
        }
        r
    } else {
        digits_text(n as u64)
    }
}

/// Names the text that trimming leading and trailing whitespace leaves.
pub uninterp spec fn trimmed(s: Seq<char>) -> Seq<char>;

/// Relies on `str::trim`: the result is the text without its leading and
/// trailing whitespace, never longer than it.
#[verifier::external_body]
fn trim_text(s: &str) -> (r: String)
    ensures
        r@ == trimmed(s@),
        r@.len() <= s@.len(),
{
    s.trim().to_string()
}

/// How a record of the walk is shown.
pub open spec fn commit_matches(c: GitCommit, rec: CommitRecord) -> bool {
    &&& c.hash@ == rec.hash@
    &&& c.author@ == text_or_empty(rec.author)
    &&& c.date@ == decimal_of(rec.seconds as int)
    &&& c.message@ == trimmed(text_or_empty(rec.message))
    &&& c.parents@.len() == rec.parents@.len()
    &&& forall|j: int| 0 <= j < rec.parents@.len() ==> (#[trigger] c.parents@[j])@ == rec.parents@[j]@
}

fn copy_strings(v: &Vec<String>) -> (r: Vec<String>)
    ensures
        r@.len() == v@.len(),
        forall|j: int| 0 <= j < v@.len() ==> (#[trigger] r@[j])@ == v@[j]@,
{
    let mut out: Vec<String> = Vec::new();
    let mut i: usize = 0;
    while i < v.len()
        invariant
            i <= v@.len(),
            out@.len() == i,
            forall|j: int| 0 <= j < i ==> (#[trigger] out@[j])@ == v@[j]@,
        decreases v.len() - i,
    {
        out.push(v[i].clone());
        i += 1;
    }
    out
}

/// Shows one commit of the walk.
pub fn commit_from_record(rec: &CommitRecord) -> (c: GitCommit)
    ensures
        commit_matches(c, *rec),
{
    let message = string_or_empty(&rec.message);
    GitCommit {
        hash: rec.hash.clone(),
        author: string_or_empty(&rec.author),
        date: decimal_text(rec.seconds),
        message: trim_text(message.as_str()),
        parents: copy_strings(&rec.parents),
    }
}

/// Whether the ancestry walk goes on after `taken` commits.
pub fn walk_continues(taken: usize) -> (r: bool)
    ensures
        r == (taken < COMMIT_LIMIT),
{
    taken < COMMIT_LIMIT
}

/// The number of entries a listing of `n` walked commits holds.
pub open spec fn listing_len(n: int) -> int {
    if n < COMMIT_LIMIT {
        n
    } else {
        COMMIT_LIMIT as int
    }
}

/// Shows the commits of an ancestry walk, most recent first, in the order
/// walked, keeping at most `COMMIT_LIMIT` of them.
pub fn get_commits(records: &Vec<CommitRecord>) -> (r: Vec<GitCommit>)
    ensures
        r@.len() == listing_len(records@.len() as int),
        forall|i: int| 0 <= i < r@.len() ==> commit_matches(#[trigger] r@[i], records@[i]),
{
    let mut out: Vec<GitCommit> = Vec::new();
    let mut i: usize = 0;
    while i < records.len() && walk_continues(i)
        invariant
            i <= records@.len(),
            i <= COMMIT_LIMIT,
            out@.len() == i,
            forall|j: int| 0 <= j < i ==> commit_matches(#[trigger] out@[j], records@[j]),
        decreases records.len() - i,
    {
        out.push(commit_from_record(&records[i]));
        i += 1;
    }
    out
}

/// A history listing never holds more than `COMMIT_LIMIT` entries, and keeps
/// the walk's order: entry `i` is the `i`-th commit walked.
pub proof fn listing_is_bounded_prefix(records: Seq<CommitRecord>, r: Seq<GitCommit>)
    requires
        r.len() == listing_len(records.len() as int),
        forall|i: int| 0 <= i < r.len() ==> commit_matches(#[trigger] r[i], records[i]),
    ensures
        r.len() <= COMMIT_LIMIT,
        r.len() <= records.len(),
        forall|i: int| 0 <= i < r.len() ==> (#[trigger] r[i]).hash@ == records[i].hash@,
{
}

} // verus!
