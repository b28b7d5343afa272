//! Identifier and business-key generation.
//!
//! Fresh identifiers come from a random UUID; on top of that the
//! library enforces uniqueness outright: a candidate that collides
//! with an existing value is extended until it is longer than every
//! existing value, so a freshly synthesized key is provably distinct
//! from all records it was checked against.

use vstd::prelude::*;
use vstd::string::StrSliceExecFns;
use crate::text::{str_eq, has_prefix};

verus! {

/// Relies on `uuid::Uuid::new_v4` and its `Display` impl: a random
/// version-4 UUID rendered in the hyphenated form, which is exactly
/// 36 characters.  Nothing else can be promised of a random value.
#[verifier::external_body]
pub(crate) fn fresh_uuid() -> (r: String)
    ensures
        r@.len() == 36,
{
    uuid::Uuid::new_v4().to_string()
}

/// Relies on `chrono::Utc::now` and `DateTime::timestamp_millis`: the
/// current instant as milliseconds since the Unix epoch.  The result
/// depends on the clock, so nothing is promised of it.
#[verifier::external_body]
pub(crate) fn now_millis() -> i64 {
    chrono::Utc::now().timestamp_millis()
}

/// The characters of `s` that precede its first `'-'` (all of `s`
/// when there is none).
pub open spec fn before_dash(s: Seq<char>) -> Seq<char>
    decreases s.len(),
{
    if s.len() == 0 {
        s
    } else if s[0] == '-' {
        Seq::empty()
    } else {
        seq![s[0]] + before_dash(s.subrange(1, s.len() as int))
    }
}

/// The leading segment of a hyphenated identifier: everything before
/// the first `'-'`.
pub fn leading_segment(s: &str) -> (r: String)
    ensures
        r@ == before_dash(s@),
{
    let len = s.unicode_len();
    let mut i: usize = 0;
    while i < len
        invariant
            len == s@.len(),
            0 <= i <= len,
            forall|j: int| 0 <= j < i ==> s@[j] != '-',
        decreases len - i,
    {
        if s.get_char(i) == '-' {
            let seg = s.substring_char(0, i);
            proof {
                lemma_before_dash_prefix(s@, i as int);
            }
            return String::from_str(seg);
        }
        i = i + 1;
    }
    proof {
        lemma_before_dash_all(s@);
    }
    String::from_str(s)
}

/// When no character of `s` is a dash, `before_dash(s)` is `s` itself.
proof fn lemma_before_dash_all(s: Seq<char>)
    requires
        forall|j: int| 0 <= j < s.len() ==> s[j] != '-',
    ensures
        before_dash(s) == s,
    decreases s.len(),
{
    if s.len() > 0 {
        lemma_before_dash_all(s.subrange(1, s.len() as int));
        assert(before_dash(s) =~= s);
    }
}

/// When `s[i]` is the first dash, `before_dash(s)` is the prefix up
/// to `i`.
proof fn lemma_before_dash_prefix(s: Seq<char>, i: int)
    requires
        0 <= i < s.len(),
        s[i] == '-',
        forall|j: int| 0 <= j < i ==> s[j] != '-',
    ensures
        before_dash(s) == s.subrange(0, i),
    decreases i,
{
    if i == 0 {
        assert(before_dash(s) =~= s.subrange(0, 0));
    } else {
        let rest = s.subrange(1, s.len() as int);
        lemma_before_dash_prefix(rest, i - 1);
        assert(before_dash(s) =~= s.subrange(0, i));
    }
}

/// Whether `s` equals some element of `pool`.
pub open spec fn appears_in(pool: Seq<String>, s: Seq<char>) -> bool {
    exists|i: int| 0 <= i < pool.len() && pool[i]@ == s
}

/// Linear membership scan.
pub fn is_taken(pool: &Vec<String>, s: &str) -> (r: bool)
    ensures
        r == appears_in(pool@, s@),
{
    let mut i: usize = 0;
    while i < pool.len()
        invariant
            0 <= i <= pool@.len(),
            forall|j: int| 0 <= j < i ==> pool@[j]@ != s@,
        decreases pool@.len() - i,
    {
        if str_eq(pool[i].as_str(), s) {
            return true;
        }
        i = i + 1;
    }
    false
}

/// Makes `candidate` distinct from every element of `pool`, keeping
/// `candidate` as a prefix: if the candidate is taken, it is extended
/// until it is longer than every pooled value.
pub fn distinct_from(candidate: String, pool: &Vec<String>) -> (r: String)
    ensures
        has_prefix(r@, candidate@),
        forall|i: int| 0 <= i < pool@.len() ==> r@ != pool@[i]@,
{
    if !is_taken(pool, candidate.as_str()) {
        proof {
            assert(candidate@.subrange(0, candidate@.len() as int) =~= candidate@);
        }
        return candidate;
    }
    let mut longest: usize = 0;
    let mut i: usize = 0;
    while i < pool.len()
        invariant
            0 <= i <= pool@.len(),
            forall|j: int| 0 <= j < i ==> pool@[j]@.len() <= longest,
        decreases pool@.len() - i,
    {
        let n = pool[i].as_str().unicode_len();
        if n > longest {
            longest = n;
        }
        i = i + 1;
    }
    let mut out = candidate;
    let ghost base = out@;
    proof {
        assert(out@.subrange(0, base.len() as int) =~= base);
    }
    while out.as_str().unicode_len() <= longest
        invariant
            has_prefix(out@, base),
            forall|j: int| 0 <= j < pool@.len() ==> pool@[j]@.len() <= longest,
        decreases longest + 1 - out@.len(),
    {
        out.append("x");
        proof {
            reveal_strlit("x");
            assert(out@.subrange(0, base.len() as int) =~= base);
        }
    }
    out
}

} // verus!
