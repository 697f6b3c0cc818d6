//! Verified text helpers: string equality and decimal parsing.
//!
//! Numeric options arrive as raw text and are read at a 128-bit working
//! width, so that both "too small" and "too large for the 64-bit storage
//! type" can be told apart before narrowing.

use vstd::prelude::*;

verus! {

/// A decimal digit, `'0'` through `'9'`.
pub open spec fn spec_is_digit(c: char) -> bool {
    48 <= c as int <= 57
}

/// Every character of `s` is a decimal digit.
pub open spec fn spec_all_digits(s: Seq<char>) -> bool {
    forall|i: int| 0 <= i < s.len() ==> spec_is_digit(#[trigger] s[i])
}

/// The value of a digit string, most significant digit first.
pub open spec fn spec_digits_value(s: Seq<char>) -> int
    decreases s.len(),
{
    if s.len() == 0 {
        0
    } else {
        spec_digits_value(s.drop_last()) * 10 + (s.last() as int - 48)
    }
}

/// The digit part of a numeric literal: everything after an optional
/// leading `'+'` sign.
pub open spec fn spec_digit_part(s: Seq<char>) -> Seq<char> {
    if s.len() > 0 && s[0] == '+' {
        s.subrange(1, s.len() as int)
    } else {
        s
    }
}

/// What parsing a decimal literal at 128-bit width returns: the value of
/// the digits after an optional `'+'` sign, or nothing when the text is
/// empty, holds a non-digit, or exceeds the 128-bit range.
pub open spec fn spec_parse_u128(s: Seq<char>) -> Option<u128> {
    let digits = spec_digit_part(s);
    if digits.len() == 0 || !spec_all_digits(digits) {
        None
    } else if spec_digits_value(digits) > u128::MAX {
        None
    } else {
        Some(spec_digits_value(digits) as u128)
    }
}

proof fn lemma_digits_value_nonneg(s: Seq<char>)
    requires
        spec_all_digits(s),
    ensures
        spec_digits_value(s) >= 0,
    decreases s.len(),
{
    if s.len() > 0 {
        assert(spec_all_digits(s.drop_last()));
        lemma_digits_value_nonneg(s.drop_last());
    }
}

/// A digit string is worth at least as much as any of its prefixes.
proof fn lemma_digits_value_monotonic(s: Seq<char>, k: int)
    requires
        0 <= k <= s.len(),
        spec_all_digits(s),
    ensures
        spec_digits_value(s) >= spec_digits_value(s.take(k)),
    decreases s.len() - k,
{
    if k < s.len() {
        let t = s.take(k + 1);
        assert(t.drop_last() =~= s.take(k));
        assert(spec_all_digits(s.take(k)));
        lemma_digits_value_nonneg(s.take(k));
        assert(spec_digits_value(t) >= spec_digits_value(s.take(k)));
        lemma_digits_value_monotonic(s, k + 1);
    } else {
        assert(s.take(k) =~= s);
    }
}

/// Whether two strings hold the same characters.
pub fn str_eq(a: &str, b: &str) -> (r: bool)
    ensures
        r == (a@ == b@),
{
    let na = a.unicode_len();
    let nb = b.unicode_len();
    if na != nb {
        return false;
    }
    let mut i: usize = 0;
    while i < na
        invariant
            i <= na,
            na == a@.len(),
            nb == b@.len(),
            na == nb,
            forall|j: int| 0 <= j < i ==> a@[j] == b@[j],
        decreases na - i,
    {
        if a.get_char(i) != b.get_char(i) {
            return false;
        }
        i += 1;
    }
    proof {
        assert(a@ =~= b@);
    }
    true
}

/// Reads a decimal literal at 128-bit width: an optional leading `'+'`
/// sign, then one or more digits; anything else, or a value over the
/// 128-bit range, is rejected.
pub fn parse_u128(s: &str) -> (r: Option<u128>)
    ensures
        r == spec_parse_u128(s@),
{
    let n = s.unicode_len();
    let start: usize = if n > 0 && s.get_char(0) == '+' {
        1
    } else {
        0
    };
    proof {
        assert(spec_digit_part(s@) =~= s@.subrange(start as int, n as int));
    }
    if n == start {
        return None;
    }
    let mut acc: u128 = 0;
    let mut i: usize = start;
    while i < n
        invariant
            start <= i <= n,
            n == s@.len(),
            spec_digit_part(s@) =~= s@.subrange(start as int, n as int),
            spec_all_digits(s@.subrange(start as int, i as int)),
            acc == spec_digits_value(s@.subrange(start as int, i as int)),
        decreases n - i,
    {
        let c = s.get_char(i);
        let v = c as u32;
        if v < 48 || v > 57 {
            proof {
                let digits = spec_digit_part(s@);
                assert(digits[i - start] == s@[i as int]);
                assert(!spec_all_digits(digits));
            }
            return None;
        }
        let d: u128 = (v - 48) as u128;
        proof {
            let prefix = s@.subrange(start as int, i as int);
            let prefix1 = s@.subrange(start as int, i + 1);
            assert(prefix1.drop_last() =~= prefix);
            assert(prefix1.last() == s@[i as int]);
            assert(spec_digits_value(prefix1) == acc * 10 + d);
            assert(spec_all_digits(prefix1));
        }
        if acc > u128::MAX / 10 {
            proof {
                lemma_prefix_overflow(s@, start as int, i as int, acc * 10 + d);
            }
            return None;
        }
        let m = acc * 10;
        if m > u128::MAX - d {
            proof {
                lemma_prefix_overflow(s@, start as int, i as int, acc * 10 + d);
            }
            return None;
        }
        acc = m + d;
        i += 1;
    }
    proof {
        let digits = spec_digit_part(s@);
        assert(digits =~= s@.subrange(start as int, i as int));
    }
    Some(acc)
}

/// When the value of the digits read so far already exceeds the 128-bit
/// range, the whole literal parses to nothing.
proof fn lemma_prefix_overflow(s: Seq<char>, start: int, i: int, v: int)
    requires
        0 <= start <= i < s.len(),
        spec_digit_part(s) =~= s.subrange(start, s.len() as int),
        spec_digits_value(s.subrange(start, i + 1)) == v,
        v > u128::MAX,
    ensures
        spec_parse_u128(s) is None,
{
    let digits = spec_digit_part(s);
    if spec_all_digits(digits) {
        assert(digits.take(i + 1 - start) =~= s.subrange(start, i + 1));
        lemma_digits_value_monotonic(digits, i + 1 - start);
    }
}

} // verus!
