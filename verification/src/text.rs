//! Whitespace trimming over character sequences.
//!
//! Cache records and tool output carry surrounding whitespace (most often a
//! trailing newline); every value the library hands on is trimmed first.

use vstd::prelude::*;
use vstd::string::*;

verus! {

/// The whitespace characters that may surround a recorded or reported path.
pub open spec fn is_space_char(c: char) -> bool {
    c == ' ' || c == '\t' || c == '\n' || c == '\r'
}

/// `s` with its leading whitespace removed.
pub open spec fn trim_start_rec(s: Seq<char>) -> Seq<char>
    decreases s.len(),
{
    if s.len() > 0 && is_space_char(s[0]) {
        trim_start_rec(s.subrange(1, s.len() as int))
    } else {
        s
    }
}

/// `s` with its trailing whitespace removed.
pub open spec fn trim_end_rec(s: Seq<char>) -> Seq<char>
    decreases s.len(),
{
    if s.len() > 0 && is_space_char(s[s.len() - 1]) {
        trim_end_rec(s.subrange(0, s.len() - 1))
    } else {
        s
    }
}

/// `s` with whitespace removed from both ends.
pub open spec fn trimmed(s: Seq<char>) -> Seq<char> {
    trim_end_rec(trim_start_rec(s))
}

proof fn lemma_trim_start_at(s: Seq<char>, i: int)
    requires
        0 <= i <= s.len(),
        forall|k: int| 0 <= k < i ==> is_space_char(s[k]),
        i < s.len() ==> !is_space_char(s[i]),
    ensures
        trim_start_rec(s) == s.subrange(i, s.len() as int),
    decreases i,
{
    if i == 0 {
        assert(s.subrange(0, s.len() as int) =~= s);
    } else {
        let t = s.subrange(1, s.len() as int);
        lemma_trim_start_at(t, i - 1);
        assert(t.subrange(i - 1, t.len() as int) =~= s.subrange(i, s.len() as int));
    }
}

proof fn lemma_trim_end_at(s: Seq<char>, j: int)
    requires
        0 <= j <= s.len(),
        forall|k: int| j <= k < s.len() ==> is_space_char(s[k]),
        j > 0 ==> !is_space_char(s[j - 1]),
    ensures
        trim_end_rec(s) == s.subrange(0, j),
    decreases s.len(),
{
    if j == s.len() {
        assert(s.subrange(0, s.len() as int) =~= s);
    } else {
        let t = s.subrange(0, s.len() - 1);
        lemma_trim_end_at(t, j);
        assert(t.subrange(0, j) =~= s.subrange(0, j));
    }
}

proof fn lemma_trim_start_first(s: Seq<char>)
    ensures
        trim_start_rec(s).len() > 0 ==> !is_space_char(trim_start_rec(s)[0]),
    decreases s.len(),
{
    if s.len() > 0 && is_space_char(s[0]) {
        lemma_trim_start_first(s.subrange(1, s.len() as int));
    }
}

proof fn lemma_trim_end_prefix(s: Seq<char>)
    ensures
        trim_end_rec(s).len() <= s.len(),
        forall|k: int| 0 <= k < trim_end_rec(s).len() ==> trim_end_rec(s)[k] == s[k],
        trim_end_rec(s).len() > 0 ==> !is_space_char(trim_end_rec(s)[trim_end_rec(s).len() - 1]),
    decreases s.len(),
{
    if s.len() > 0 && is_space_char(s[s.len() - 1]) {
        let t = s.subrange(0, s.len() - 1);
        lemma_trim_end_prefix(t);
        assert forall|k: int| 0 <= k < trim_end_rec(s).len() implies trim_end_rec(s)[k] == s[k] by {
            assert(trim_end_rec(s)[k] == t[k]);
        }
    }
}

/// Trimming a value twice removes no more than trimming it once.
pub proof fn lemma_trimmed_idempotent(s: Seq<char>)
    ensures
        trimmed(trimmed(s)) == trimmed(s),
{
    let t = trim_start_rec(s);
    let r = trim_end_rec(t);
    lemma_trim_start_first(s);
    lemma_trim_end_prefix(t);
    if r.len() > 0 {
        assert(r[0] == t[0]);
        assert(!is_space_char(r[0]));
        assert(trim_start_rec(r) == r);
        assert(!is_space_char(r[r.len() - 1]));
        assert(trim_end_rec(r) == r);
    } else {
        assert(trim_start_rec(r) == r);
        assert(trim_end_rec(r) == r);
    }
}

/// Whether `c` is one of the whitespace characters of `is_space_char`.
pub fn is_space(c: char) -> (r: bool)
    ensures
        r == is_space_char(c),
{
    c == ' ' || c == '\t' || c == '\n' || c == '\r'
}

/// A copy of `s` with whitespace removed from both ends.
pub fn trim(s: &str) -> (r: String)
    ensures
        r@ == trimmed(s@),
{
    let n = s.unicode_len();
    let mut i: usize = 0;
    while i < n && is_space(s.get_char(i))
        invariant
            n == s@.len(),
            i <= n,
            forall|k: int| 0 <= k < i ==> is_space_char(s@[k]),
        decreases n - i,
    {
        i = i + 1;
    }
    let mut j: usize = n;
    while j > i && is_space(s.get_char(j - 1))
        invariant
            n == s@.len(),
            i <= j <= n,
            forall|k: int| 0 <= k < i ==> is_space_char(s@[k]),
            i < n ==> !is_space_char(s@[i as int]),
            forall|k: int| j <= k < n ==> is_space_char(s@[k]),
        decreases j,
    {
        j = j - 1;
    }
    proof {
        lemma_trim_start_at(s@, i as int);
        let t = s@.subrange(i as int, n as int);
        lemma_trim_end_at(t, j - i);
        assert(t.subrange(0, j - i) =~= s@.subrange(i as int, j as int));
    }
    s.substring_char(i, j).to_owned()
}

} // verus!
