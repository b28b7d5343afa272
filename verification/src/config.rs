//! Runtime configuration: the optional durable-store connection
//! string and the listening port.
//!
//! Reading the environment is a side effect that stays outside the
//! library; what is verified here is the pure part: how the raw
//! values resolve into a configuration, the port text parse
//! included.

use vstd::prelude::*;
use vstd::string::StrSliceExecFns;

verus! {

/// The port served when none is configured or the text does not
/// parse.
pub const DEFAULT_PORT: u16 = 3000;

/// The assembled runtime configuration.
pub struct Config {
    /// The durable-store connection string; its absence (or an
    /// unreachable store) triggers the fallback policy.
    pub database_url: Option<String>,
    /// The listening port.
    pub port: u16,
}

/// A decimal digit.
pub open spec fn is_digit(c: char) -> bool {
    '0' <= c && c <= '9'
}

/// The value of a decimal digit.
pub open spec fn digit_val(c: char) -> int {
    c as int - '0' as int
}

/// The value of a digit string, most significant first.
pub open spec fn digits_val(s: Seq<char>) -> int
    decreases s.len(),
{
    if s.len() == 0 {
        0
    } else {
        digits_val(s.drop_last()) * 10 + digit_val(s.last())
    }
}

/// The digit part of a port text: everything after one optional
/// leading `'+'`.
pub open spec fn digit_part(s: Seq<char>) -> Seq<char> {
    if s.len() > 0 && s[0] == '+' {
        s.drop_first()
    } else {
        s
    }
}

/// Whether a port text parses: at least one digit after the optional
/// sign, nothing but digits, and a value that fits a port number.
pub open spec fn valid_port_text(s: Seq<char>) -> bool {
    &&& digit_part(s).len() > 0
    &&& (forall|i: int| 0 <= i < digit_part(s).len() ==> is_digit(digit_part(s)[i]))
    &&& digits_val(digit_part(s)) <= 65535
}

/// The port a valid text denotes.
pub open spec fn port_of(s: Seq<char>) -> int {
    digits_val(digit_part(s))
}

proof fn lemma_digits_val_nonneg(s: Seq<char>)
    requires
        forall|i: int| 0 <= i < s.len() ==> is_digit(s[i]),
    ensures
        digits_val(s) >= 0,
    decreases s.len(),
{
    if s.len() > 0 {
        lemma_digits_val_nonneg(s.drop_last());
    }
}

/// Once a digit prefix exceeds the port range, every extension does.
proof fn lemma_digits_val_grows(s: Seq<char>, i: int)
    requires
        0 <= i <= s.len(),
        forall|j: int| 0 <= j < s.len() ==> is_digit(s[j]),
        digits_val(s.take(i)) > 65535,
    ensures
        digits_val(s) > 65535,
    decreases s.len() - i,
{
    if i == s.len() {
        assert(s.take(i) =~= s);
    } else {
        assert(s.take(i + 1).drop_last() =~= s.take(i));
        lemma_digits_val_nonneg(s.take(i));
        lemma_digits_val_grows(s, i + 1);
    }
}

/// The numeric value of a decimal digit character.
fn digit_of(c: char) -> (d: Option<u32>)
    ensures
        (d is Some) == is_digit(c),
        d matches Some(v) ==> v == digit_val(c) && v <= 9,
{
    if c >= '0' && c <= '9' {
        Some(c as u32 - '0' as u32)
    } else {
        None
    }
}

/// Parses a port text: one optional leading `'+'`, then decimal
/// digits whose value fits a port number; anything else is rejected.
pub fn parse_port(s: &str) -> (r: Option<u16>)
    ensures
        (r is Some) == valid_port_text(s@),
        r matches Some(p) ==> p as int == port_of(s@),
{
    let len = s.unicode_len();
    let start: usize = if len > 0 && s.get_char(0) == '+' {
        1
    } else {
        0
    };
    proof {
        if start == 1 {
            assert(digit_part(s@) =~= s@.subrange(1, len as int));
        } else {
            assert(digit_part(s@) =~= s@);
        }
    }
    let ghost digits = digit_part(s@);
    if start >= len {
        return None;
    }
    let mut acc: u32 = 0;
    let mut i: usize = start;
    while i < len
        invariant
            len == s@.len(),
            start == 0 || start == 1,
            start <= i <= len,
            start < len,
            digits == digit_part(s@),
            (start == 1 ==> digits == s@.subrange(1, len as int)),
            (start == 0 ==> digits == s@),
            digits.len() == len - start,
            forall|j: int| 0 <= j < i - start ==> digits[j] == s@[j + start],
            forall|j: int| 0 <= j < i - start ==> is_digit(digits[j]),
            acc == digits_val(digits.take(i - start)),
            acc <= 65535,
        decreases len - i,
    {
        let c = s.get_char(i);
        match digit_of(c) {
            Some(d) => {
                proof {
                    assert(digits[i - start] == s@[i as int]);
                    assert(digits.take(i - start + 1).drop_last() =~= digits.take(i - start));
                }
                let next = acc * 10 + d;
                if next > 65535 {
                    proof {
                        assert(digits_val(digits.take(i - start + 1)) > 65535);
                        if valid_port_text(s@) {
                            lemma_digits_val_grows(digits, i - start + 1);
                            assert(false);
                        }
                    }
                    return None;
                }
                acc = next;
            }
            None => {
                proof {
                    assert(digits[i - start] == s@[i as int]);
                    assert(!is_digit(digits[i - start]));
                }
                return None;
            }
        }
        i = i + 1;
    }
    proof {
        assert(digits.take(len - start) =~= digits);
    }
    Some(acc as u16)
}

/// Resolves the raw environment values into a configuration: the
/// connection string is kept as given; the port text parses or the
/// default is served.
pub fn resolve_config(database_url: Option<String>, port_text: Option<String>) -> (c: Config)
    ensures
        c.database_url == database_url,
        (match port_text {
            None => c.port == DEFAULT_PORT,
            Some(t) => {
                &&& (valid_port_text(t@) ==> c.port as int == port_of(t@))
                &&& (!valid_port_text(t@) ==> c.port == DEFAULT_PORT)
            },
        }),
{
    let port: u16 = match &port_text {
        Some(t) => {
            match parse_port(t.as_str()) {
                Some(p) => p,
                None => DEFAULT_PORT,
            }
        }
        None => DEFAULT_PORT,
    };
    Config { database_url, port }
}

} // verus!
