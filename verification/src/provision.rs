//! The idempotent schema-provisioning step.
//!
//! A provisioning script is split into individual statements on
//! semicolons; each statement is trimmed and empty pieces are
//! dropped.  The backend executes the statements one by one: a
//! statement that fails only because the object already exists must
//! not abort provisioning, while any other failure aborts it as a
//! storage failure.  Splitting is a pure function, so running the
//! step twice executes the same statements; with idempotent-create
//! semantics the second run leaves the schema exactly as the first
//! left it (see [`lemma_ensure_schema_idempotent`]).

use vstd::prelude::*;
use vstd::string::StrSliceExecFns;
use crate::error::AppError;

verus! {

/// The whitespace trimmed from statement edges.
pub open spec fn is_space(c: char) -> bool {
    c == ' ' || c == '\n' || c == '\t' || c == '\r'
}

/// `s` without its leading whitespace.
pub open spec fn trim_front(s: Seq<char>) -> Seq<char>
    decreases s.len(),
{
    if s.len() > 0 && is_space(s[0]) {
        trim_front(s.drop_first())
    } else {
        s
    }
}

/// `s` without its trailing whitespace.
pub open spec fn trim_back(s: Seq<char>) -> Seq<char>
    decreases s.len(),
{
    if s.len() > 0 && is_space(s.last()) {
        trim_back(s.drop_last())
    } else {
        s
    }
}

/// `s` without leading and trailing whitespace.
pub open spec fn trimmed(s: Seq<char>) -> Seq<char> {
    trim_back(trim_front(s))
}

/// The semicolon-separated pieces of `s`, separators dropped; always
/// at least one piece.
pub open spec fn split_semi(s: Seq<char>) -> Seq<Seq<char>>
    decreases s.len(),
{
    if s.len() == 0 {
        seq![Seq::empty()]
    } else if s[0] == ';' {
        seq![Seq::<char>::empty()] + split_semi(s.drop_first())
    } else {
        let rest = split_semi(s.drop_first());
        seq![seq![s[0]] + rest[0]] + rest.drop_first()
    }
}

/// The statements of a provisioning script: its semicolon-separated
/// pieces, trimmed, without the empty ones.
pub open spec fn statements_of(s: Seq<char>) -> Seq<Seq<char>> {
    split_semi(s).map_values(|p: Seq<char>| trimmed(p)).filter(|t: Seq<char>| t.len() != 0)
}

proof fn lemma_split_semi_len(s: Seq<char>)
    ensures
        split_semi(s).len() >= 1,
    decreases s.len(),
{
    if s.len() > 0 {
        lemma_split_semi_len(s.drop_first());
    }
}

/// Splitting at the first semicolon: the piece before it, then the
/// pieces of what follows it.
proof fn lemma_split_semi_first(s: Seq<char>, k: int)
    requires
        0 <= k < s.len(),
        s[k] == ';',
        forall|j: int| 0 <= j < k ==> s[j] != ';',
    ensures
        split_semi(s) == seq![s.take(k)] + split_semi(s.subrange(k + 1, s.len() as int)),
    decreases k,
{
    lemma_split_semi_len(s.drop_first());
    if k == 0 {
        assert(s.take(0) =~= Seq::<char>::empty());
        assert(s.subrange(1, s.len() as int) =~= s.drop_first());
        assert(split_semi(s) =~= seq![s.take(0)] + split_semi(s.subrange(1, s.len() as int)));
    } else {
        let rest = s.drop_first();
        lemma_split_semi_first(rest, k - 1);
        let tail = split_semi(rest);
        assert(tail[0] == rest.take(k - 1));
        assert(seq![s[0]] + rest.take(k - 1) =~= s.take(k));
        assert(tail.drop_first() =~= split_semi(rest.subrange(k, rest.len() as int)));
        assert(rest.subrange(k, rest.len() as int) =~= s.subrange(k + 1, s.len() as int));
        assert(split_semi(s) =~= seq![s.take(k)] + split_semi(s.subrange(k + 1, s.len() as int)));
    }
}

/// A piece without semicolons splits into itself alone.
proof fn lemma_split_semi_none(s: Seq<char>)
    requires
        forall|j: int| 0 <= j < s.len() ==> s[j] != ';',
    ensures
        split_semi(s) == seq![s],
    decreases s.len(),
{
    if s.len() > 0 {
        lemma_split_semi_none(s.drop_first());
        assert(seq![s[0]] + s.drop_first() =~= s);
        assert(split_semi(s) =~= seq![s]);
    } else {
        assert(s =~= Seq::<char>::empty());
        assert(split_semi(s) =~= seq![s]);
    }
}

/// Trimming the front stops at the first non-space character.
proof fn lemma_trim_front_at(s: Seq<char>, f: int)
    requires
        0 <= f <= s.len(),
        forall|j: int| 0 <= j < f ==> is_space(s[j]),
        f < s.len() ==> !is_space(s[f]),
    ensures
        trim_front(s) == s.subrange(f, s.len() as int),
    decreases f,
{
    if f == 0 {
        assert(s.subrange(0, s.len() as int) =~= s);
    } else {
        lemma_trim_front_at(s.drop_first(), f - 1);
        assert(s.drop_first().subrange(f - 1, s.drop_first().len() as int) =~= s.subrange(
            f,
            s.len() as int,
        ));
    }
}

/// Trimming the back stops at the last non-space character.
proof fn lemma_trim_back_at(s: Seq<char>, b: int)
    requires
        0 <= b <= s.len(),
        forall|j: int| b <= j < s.len() ==> is_space(s[j]),
        b > 0 ==> !is_space(s[b - 1]),
    ensures
        trim_back(s) == s.take(b),
    decreases s.len() - b,
{
    if b == s.len() {
        assert(s.take(b) =~= s);
    } else {
        lemma_trim_back_at(s.drop_last(), b);
        assert(s.drop_last().take(b) =~= s.take(b));
    }
}

/// Whether a character counts as trimmable whitespace.
fn is_space_char(c: char) -> (r: bool)
    ensures
        r == is_space(c),
{
    c == ' ' || c == '\n' || c == '\t' || c == '\r'
}

/// Trims the whitespace off both edges of a statement piece.
pub fn trim_piece(s: &str) -> (r: String)
    ensures
        r@ == trimmed(s@),
{
    let len = s.unicode_len();
    let mut f: usize = 0;
    while f < len
        invariant
            len == s@.len(),
            0 <= f <= len,
            forall|j: int| 0 <= j < f ==> is_space(s@[j]),
        decreases len - f,
    {
        if !is_space_char(s.get_char(f)) {
            let mut b = len;
            while b > f
                invariant
                    len == s@.len(),
                    0 <= f < len,
                    !is_space(s@[f as int]),
                    forall|j: int| 0 <= j < f ==> is_space(s@[j]),
                    f <= b <= len,
                    forall|j: int| b <= j < len ==> is_space(s@[j]),
                decreases b,
            {
                if !is_space_char(s.get_char(b - 1)) {
                    let piece = s.substring_char(f, b);
                    proof {
                        lemma_trim_front_at(s@, f as int);
                        lemma_trim_back_at(s@.subrange(f as int, len as int), b - f);
                        assert(s@.subrange(f as int, len as int).take(b - f) =~= s@.subrange(
                            f as int,
                            b as int,
                        ));
                    }
                    return String::from_str(piece);
                }
                b = b - 1;
            }
            proof {
                assert(is_space(s@[f as int]));
            }
        }
        f = f + 1;
    }
    proof {
        lemma_trim_front_at(s@, len as int);
        assert(s@.subrange(len as int, len as int) =~= Seq::<char>::empty());
        lemma_trim_back_at(Seq::<char>::empty(), 0);
    }
    String::new()
}

/// Splits a provisioning script into its individual statements:
/// semicolon-separated, trimmed, empties dropped — exactly
/// [`statements_of`].
pub fn split_statements(script: &str) -> (r: Vec<String>)
    ensures
        r@.map_values(|t: String| t@) == statements_of(script@),
{
    let len = script.unicode_len();
    let mut out: Vec<String> = Vec::new();
    let ghost mut done: Seq<Seq<char>> = Seq::empty();
    let mut start: usize = 0;
    let mut i: usize = 0;
    proof {
        assert(script@.subrange(0, script@.len() as int) =~= script@);
        assert(done + split_semi(script@) =~= split_semi(script@));
        assert(done.map_values(|p: Seq<char>| trimmed(p)).filter(|t: Seq<char>| t.len() != 0)
            =~= out@.map_values(|t: String| t@));
    }
    while i < len
        invariant
            len == script@.len(),
            0 <= start <= i <= len,
            forall|j: int| start <= j < i ==> script@[j] != ';',
            split_semi(script@) == done + split_semi(script@.subrange(start as int, len as int)),
            out@.map_values(|t: String| t@) == done.map_values(
                |p: Seq<char>| trimmed(p),
            ).filter(|t: Seq<char>| t.len() != 0),
        decreases len - i,
    {
        if script.get_char(i) == ';' {
            let piece = script.substring_char(start, i);
            let cleaned = trim_piece(piece);
            let ghost chunk = script@.subrange(start as int, i as int);
            let ghost old_done = done;
            proof {
                let suffix = script@.subrange(start as int, len as int);
                lemma_split_semi_first(suffix, i - start);
                assert(suffix.take(i - start) =~= chunk);
                assert(suffix.subrange(i - start + 1, suffix.len() as int) =~= script@.subrange(
                    i + 1,
                    len as int,
                ));
                done = old_done + seq![chunk];
                assert(split_semi(script@) =~= done + split_semi(
                    script@.subrange(i + 1, len as int),
                ));
                assert(done =~= old_done.push(chunk));
                assert(done.map_values(|p: Seq<char>| trimmed(p)) =~= old_done.map_values(
                    |p: Seq<char>| trimmed(p),
                ).push(trimmed(chunk)));
                old_done.map_values(|p: Seq<char>| trimmed(p)).lemma_filter_push(
                    trimmed(chunk),
                    |t: Seq<char>| t.len() != 0,
                );
            }
            if cleaned.as_str().unicode_len() > 0 {
                out.push(cleaned);
            }
            proof {
                assert(out@.map_values(|t: String| t@) =~= done.map_values(
                    |p: Seq<char>| trimmed(p),
                ).filter(|t: Seq<char>| t.len() != 0));
            }
            start = i + 1;
        }
        i = i + 1;
    }
    let piece = script.substring_char(start, len);
    let cleaned = trim_piece(piece);
    let ghost chunk = script@.subrange(start as int, len as int);
    let ghost old_done = done;
    proof {
        lemma_split_semi_none(chunk);
        done = old_done + seq![chunk];
        assert(split_semi(script@) =~= done);
        assert(done =~= old_done.push(chunk));
        assert(done.map_values(|p: Seq<char>| trimmed(p)) =~= old_done.map_values(
            |p: Seq<char>| trimmed(p),
        ).push(trimmed(chunk)));
        old_done.map_values(|p: Seq<char>| trimmed(p)).lemma_filter_push(
            trimmed(chunk),
            |t: Seq<char>| t.len() != 0,
        );
    }
    if cleaned.as_str().unicode_len() > 0 {
        out.push(cleaned);
    }
    proof {
        assert(out@.map_values(|t: String| t@) =~= statements_of(script@));
    }
    out
}

/// Decides whether provisioning goes on after one statement: a
/// successful execution and a failure reported as "object already
/// exists" both continue (idempotent-create semantics); any other
/// failure aborts provisioning as a storage failure carrying the
/// backend's detail.
pub fn provision_step(exec_ok: bool, already_exists: bool, detail: &str) -> (r: Result<
    (),
    AppError,
>)
    ensures
        (r is Ok) == (exec_ok || already_exists),
        (r matches Err(e) ==> e matches AppError::Database(m) && m@ == detail@),
{
    if exec_ok || already_exists {
        Ok(())
    } else {
        Err(AppError::Database(String::from_str(detail)))
    }
}

/// The schema objects present after one ensure-schema run: whatever
/// was there before, plus every object the script creates.
pub open spec fn ensure_applied(state: Set<Seq<char>>, objects: Seq<Seq<char>>) -> Set<Seq<char>> {
    state.union(objects.to_set())
}

/// Running the ensure-schema step twice against the same store
/// leaves the schema exactly as one run leaves it: with
/// idempotent-create semantics (an existing object never aborts,
/// see [`provision_step`]) the second run adds nothing.
pub proof fn lemma_ensure_schema_idempotent(state: Set<Seq<char>>, objects: Seq<Seq<char>>)
    ensures
        ensure_applied(ensure_applied(state, objects), objects) == ensure_applied(state, objects),
{
    assert(ensure_applied(ensure_applied(state, objects), objects) =~= ensure_applied(
        state,
        objects,
    ));
}

} // verus!
