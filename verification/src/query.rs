//! Reading the optional integer parameters of a query.
//!
//! Both `limit` and `ttl` are read by one parser of positive integers. What a
//! text that does not parse leads to differs: a listing falls back to its
//! default limit, a structured write is rejected.

use vstd::prelude::*;
use vstd::string::is_ascii_spec_bytes;
use vstd::utf8::is_ascii_chars;
use crate::model::Fault;

verus! {

/// The limit of a listing that names none.
pub const DEFAULT_LIMIT: u64 = 100;

/// Whether a character is one of the ten decimal digits.
pub open spec fn is_digit(c: char) -> bool {
    '0' <= c <= '9'
}

/// The number that a decimal digit stands for.
pub open spec fn digit_of(c: char) -> nat {
    (c as int - '0' as int) as nat
}

/// Whether a text is made of decimal digits only.
pub open spec fn all_digits(s: Seq<char>) -> bool {
    forall|i: int| 0 <= i < s.len() ==> is_digit(#[trigger] s[i])
}

/// The number that a text of decimal digits denotes, the empty text denoting 0.
pub open spec fn digits_value(s: Seq<char>) -> nat
    decreases s.len(),
{
    if s.len() == 0 {
        0
    } else {
        digits_value(s.drop_last()) * 10 + digit_of(s.last())
    }
}

/// A text without the plus sign that may lead it.
pub open spec fn unsigned_part(s: Seq<char>) -> Seq<char> {
    if s.len() > 0 && s[0] == '+' {
        s.subrange(1, s.len() as int)
    } else {
        s
    }
}

/// The positive integer that a text denotes, if it denotes one: an optional
/// plus sign, then at least one decimal digit, the number being at least 1 and
/// at most `u64::MAX`.
pub open spec fn positive_of(s: Seq<char>) -> Option<u64> {
    let d = unsigned_part(s);
    if d.len() > 0 && all_digits(d) && 0 < digits_value(d) <= u64::MAX {
        Some(digits_value(d) as u64)
    } else {
        None
    }
}

/// The model of an optional text.
pub open spec fn text_of(t: Option<&str>) -> Option<Seq<char>> {
    match t {
        Some(s) => Some(s@),
        None => None,
    }
}

/// The limit that a listing runs with: the number its `limit` parameter denotes,
/// or the default where the parameter is absent or denotes none.
pub open spec fn limit_of(limit: Option<Seq<char>>) -> u64 {
    match limit {
        Some(s) => match positive_of(s) {
            Some(n) => n,
            None => DEFAULT_LIMIT,
        },
        None => DEFAULT_LIMIT,
    }
}

/// The expiration that a structured write runs with: none where the `ttl`
/// parameter is absent, the number it denotes where it denotes one, and a
/// rejection otherwise.
pub open spec fn ttl_of(ttl: Option<Seq<char>>) -> Result<Option<u64>, Fault> {
    match ttl {
        None => Ok(None),
        Some(s) => match positive_of(s) {
            Some(n) => Ok(Some(n)),
            None => Err(Fault::InvalidTtl),
        },
    }
}

/// A longer run of digits denotes no smaller number than any of its prefixes.
proof fn lemma_prefix_bound(d: Seq<char>, k: int)
    requires
        0 <= k <= d.len(),
    ensures
        digits_value(d.subrange(0, k)) <= digits_value(d),
    decreases d.len() - k,
{
    if k == d.len() {
        assert(d.subrange(0, k) =~= d);
    } else {
        lemma_prefix_bound(d.drop_last(), k);
        assert(d.drop_last().subrange(0, k) =~= d.subrange(0, k));
    }
}

/// A text that denotes a positive integer is made of ASCII characters only.
proof fn lemma_positive_is_ascii(s: Seq<char>)
    requires
        positive_of(s) is Some,
    ensures
        is_ascii_chars(s),
{
    let d = unsigned_part(s);
    assert forall|i: int| 0 <= i < s.len() implies '\0' <= #[trigger] s[i] <= '\u{7f}' by {
        if d.len() == s.len() {
            assert(is_digit(d[i]));
        } else if i > 0 {
            assert(d[i - 1] == s[i]);
            assert(is_digit(d[i - 1]));
        }
    }
}

/// Reads a positive integer in decimal notation.
pub fn parse_positive(text: &str) -> (number: Option<u64>)
    ensures
        number == positive_of(text@),
{
    if !text.is_ascii() {
        proof {
            if positive_of(text@) is Some {
                lemma_positive_is_ascii(text@);
            }
        }
        return None;
    }
    let bytes = text.as_bytes();
    proof {
        is_ascii_spec_bytes(text);
    }
    let n: usize = bytes.len();
    let start: usize = if n > 0 && bytes[0] == 43 {
        1
    } else {
        0
    };
    let ghost d = unsigned_part(text@);
    if start == n {
        return None;
    }
    let mut acc: u64 = 0;
    let mut i: usize = start;
    while i < n
        invariant
            start <= i <= n,
            n == text@.len(),
            n == bytes@.len(),
            forall|j: int| 0 <= j < n ==> bytes@[j] as int == #[trigger] text@[j] as int,
            d == unsigned_part(text@),
            d.len() == n - start,
            forall|j: int| 0 <= j < d.len() ==> d[j] == text@[j + start],
            all_digits(d.subrange(0, i - start)),
            acc == digits_value(d.subrange(0, i - start)),
        decreases n - i,
    {
        let code: u8 = bytes[i];
        if code < 48 || code > 57 {
            assert(!is_digit(d[i - start]));
            return None;
        }
        let digit: u64 = (code - 48) as u64;
        let ghost next = d.subrange(0, i - start + 1);
        proof {
            assert(next.drop_last() =~= d.subrange(0, i - start));
            assert(next.last() == text@[i as int]);
            assert(digits_value(next) == acc * 10 + digit);
            lemma_prefix_bound(d, i - start + 1);
        }
        if acc > (u64::MAX - digit) / 10 {
            return None;
        }
        acc = acc * 10 + digit;
        i = i + 1;
    }
    proof {
        assert(d.subrange(0, n - start) =~= d);
    }
    if acc == 0 {
        None
    } else {
        Some(acc)
    }
}

/// The limit of a listing, from its `limit` parameter.
pub fn list_limit(limit: Option<&str>) -> (n: u64)
    ensures
        n == limit_of(text_of(limit)),
        n >= 1,
{
    match limit {
        Some(text) => match parse_positive(text) {
            Some(n) => n,
            None => DEFAULT_LIMIT,
        },
        None => DEFAULT_LIMIT,
    }
}

/// The expiration of a structured write, from its `ttl` parameter.
pub fn parse_ttl(ttl: Option<&str>) -> (seconds: Result<Option<u64>, Fault>)
    ensures
        seconds == ttl_of(text_of(ttl)),
{
    match ttl {
        None => Ok(None),
        Some(text) => match parse_positive(text) {
            Some(n) => Ok(Some(n)),
            None => Err(Fault::InvalidTtl),
        },
    }
}

} // verus!
