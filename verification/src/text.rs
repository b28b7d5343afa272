//! Character-level text helpers: equality, substring search, prefixes,
//! and the case folding used by the name filter.

use vstd::prelude::*;
use vstd::string::StrSliceExecFns;

verus! {

/// `needle` occurs in `hay` starting at position `at`.
pub open spec fn occurs_at(hay: Seq<char>, needle: Seq<char>, at: int) -> bool {
    &&& 0 <= at
    &&& at + needle.len() <= hay.len()
    &&& hay.subrange(at, at + needle.len()) == needle
}

/// `needle` occurs somewhere in `hay`.  The empty needle occurs in
/// every string.
pub open spec fn contains_seq(hay: Seq<char>, needle: Seq<char>) -> bool {
    exists|at: int| occurs_at(hay, needle, at)
}

/// `p` is a prefix of `s`.
pub open spec fn has_prefix(s: Seq<char>, p: Seq<char>) -> bool {
    p.len() <= s.len() && s.subrange(0, p.len() as int) == p
}

/// A prefix of a prefix is a prefix.
pub proof fn lemma_prefix_trans(s: Seq<char>, m: Seq<char>, p: Seq<char>)
    requires
        has_prefix(s, m),
        has_prefix(m, p),
    ensures
        has_prefix(s, p),
{
    assert forall|i: int| 0 <= i < p.len() implies s.subrange(0, p.len() as int)[i] == p[i] by {
        assert(s.subrange(0, m.len() as int)[i] == s[i]);
        assert(m.subrange(0, p.len() as int)[i] == m[i]);
    }
    assert(s.subrange(0, p.len() as int) =~= p);
}

/// What `str::to_lowercase` returns for a given character sequence.
/// The folding depends on the characters alone.
pub uninterp spec fn lower_of(s: Seq<char>) -> Seq<char>;

/// Relies on `str::to_lowercase`: the Unicode lowercase mapping of the
/// input, a function of the characters alone; empty input stays empty.
#[verifier::external_body]
pub(crate) fn lowercase(s: &str) -> (r: String)
    ensures
        r@ == lower_of(s@),
        s@.len() == 0 ==> r@.len() == 0,
{
    s.to_lowercase()
}

/// Character-by-character string equality.
pub fn str_eq(a: &str, b: &str) -> (r: bool)
    ensures
        r == (a@ == b@),
{
    let a_len = a.unicode_len();
    let b_len = b.unicode_len();
    if a_len != b_len {
        return false;
    }
    let mut i: usize = 0;
    while i < a_len
        invariant
            a_len == a@.len(),
            b_len == b@.len(),
            a_len == b_len,
            0 <= i <= a_len,
            forall|j: int| 0 <= j < i ==> a@[j] == b@[j],
        decreases a_len - i,
    {
        if a.get_char(i) != b.get_char(i) {
            return false;
        }
        i = i + 1;
    }
    proof {
        assert(a@ =~= b@);
    }
    true
}

/// `needle` matches `hay` exactly at position `at`.
fn matches_at(hay: &str, needle: &str, at: usize) -> (r: bool)
    requires
        at + needle@.len() <= hay@.len(),
        hay@.len() <= usize::MAX,
    ensures
        r == occurs_at(hay@, needle@, at as int),
{
    let n_len = needle.unicode_len();
    let mut j: usize = 0;
    while j < n_len
        invariant
            n_len == needle@.len(),
            at + n_len <= hay@.len(),
            hay@.len() <= usize::MAX,
            0 <= j <= n_len,
            forall|k: int| 0 <= k < j ==> hay@[at + k] == needle@[k],
        decreases n_len - j,
    {
        if hay.get_char(at + j) != needle.get_char(j) {
            assert(!occurs_at(hay@, needle@, at as int)) by {
                if hay@.subrange(at as int, at + needle@.len()) == needle@ {
                    assert(hay@.subrange(at as int, at + needle@.len())[j as int] == needle@[j as int]);
                }
            }
            return false;
        }
        j = j + 1;
    }
    proof {
        assert(hay@.subrange(at as int, at + needle@.len()) =~= needle@);
    }
    true
}

/// Case-sensitive substring search, the exact meaning of
/// [`contains_seq`].
pub fn contains_str(hay: &str, needle: &str) -> (r: bool)
    ensures
        r == contains_seq(hay@, needle@),
{
    let h_len = hay.unicode_len();
    let n_len = needle.unicode_len();
    if n_len == 0 {
        proof {
            assert(hay@.subrange(0, 0) =~= needle@);
            assert(occurs_at(hay@, needle@, 0));
        }
        return true;
    }
    if n_len > h_len {
        return false;
    }
    let last = h_len - n_len;
    let mut at: usize = 0;
    while at <= last
        invariant
            h_len == hay@.len(),
            n_len == needle@.len(),
            1 <= n_len <= h_len,
            last == h_len - n_len,
            0 <= at <= last + 1,
            forall|p: int| 0 <= p < at ==> !occurs_at(hay@, needle@, p),
        decreases last + 1 - at,
    {
        if matches_at(hay, needle, at) {
            return true;
        }
        at = at + 1;
    }
    false
}

/// Case-insensitive substring match: does the folded `needle` occur in
/// the folded `hay`?
pub open spec fn contains_folded(hay: Seq<char>, needle: Seq<char>) -> bool {
    contains_seq(lower_of(hay), lower_of(needle))
}

/// The executable form of [`contains_folded`].
pub fn contains_ci(hay: &str, needle: &str) -> (r: bool)
    ensures
        r == contains_folded(hay@, needle@),
{
    let hay_low = lowercase(hay);
    let needle_low = lowercase(needle);
    contains_str(hay_low.as_str(), needle_low.as_str())
}

} // verus!
