//! Decimal numerals for the `--scale` option.
//!
//! A numeral is accepted exactly when Rust's `u32` string parsing would
//! accept it: an optional leading `+`, then at least one ASCII digit, and a
//! value that fits in `u32`.

use vstd::prelude::*;

verus! {

/// Whether `c` is an ASCII decimal digit.
pub open spec fn spec_digit(c: char) -> bool {
    48 <= c as u32 && c as u32 <= 57
}

/// The value of `c` as a decimal digit.
pub open spec fn spec_digit_val(c: char) -> nat {
    (c as u32 - 48) as nat
}

/// The value of a string of decimal digits, most significant first.
pub open spec fn spec_digits_val(s: Seq<char>) -> nat
    decreases s.len(),
{
    if s.len() == 0 {
        0
    } else {
        spec_digits_val(s.drop_last()) * 10 + spec_digit_val(s.last())
    }
}

/// Whether every character of `s` is a decimal digit.
pub open spec fn spec_all_digits(s: Seq<char>) -> bool {
    forall|i: int| 0 <= i < s.len() ==> spec_digit(s[i])
}

/// The digit part of a numeral: the string with an optional leading `+`
/// removed.
pub open spec fn spec_numeral_digits(s: Seq<char>) -> Seq<char> {
    if s.len() >= 1 && s[0] == '+' {
        s.skip(1)
    } else {
        s
    }
}

/// Whether `s` is a well-formed `u32` numeral.
pub open spec fn spec_is_u32_numeral(s: Seq<char>) -> bool {
    let d = spec_numeral_digits(s);
    d.len() > 0 && spec_all_digits(d) && spec_digits_val(d) <= u32::MAX
}

/// The value of a well-formed `u32` numeral.
pub open spec fn spec_u32_numeral_val(s: Seq<char>) -> nat {
    spec_digits_val(spec_numeral_digits(s))
}

/// The value of a digit string never shrinks when digits are appended:
/// every prefix values at most the whole.
proof fn lemma_digits_val_prefix_le(s: Seq<char>, k: int)
    requires
        0 <= k <= s.len(),
    ensures
        spec_digits_val(s.take(k)) <= spec_digits_val(s),
    decreases s.len() - k,
{
    if k < s.len() {
        assert(s.take(k + 1).drop_last() =~= s.take(k));
        assert(s.take(k + 1).last() == s[k]);
        assert(spec_digits_val(s.take(k)) <= spec_digits_val(s.take(k + 1)));
        lemma_digits_val_prefix_le(s, k + 1);
        assert(s.take(s.len() as int) =~= s);
    } else {
        assert(s.take(k) =~= s);
    }
}

/// Parses a decimal `u32` numeral, returning its value exactly when the
/// string is well formed and `None` otherwise.
pub fn parse_u32_decimal(s: &str) -> (r: Option<u32>)
    ensures
        spec_is_u32_numeral(s@) ==> r == Some(spec_u32_numeral_val(s@) as u32),
        !spec_is_u32_numeral(s@) ==> r is None,
{
    let n = s.unicode_len();
    let start: usize = if n >= 1 && s.get_char(0) == '+' {
        1
    } else {
        0
    };
    let ghost d: Seq<char> = spec_numeral_digits(s@);
    assert(d =~= s@.skip(start as int));
    if start == n {
        assert(d.len() == 0);
        return None;
    }
    let mut acc: u64 = 0;
    let mut i: usize = start;
    while i < n
        invariant
            start <= i <= n,
            n == s@.len(),
            d == spec_numeral_digits(s@),
            d == s@.skip(start as int),
            spec_all_digits(d.take(i - start)),
            acc == spec_digits_val(d.take(i - start)),
            acc <= u32::MAX,
        decreases n - i,
    {
        let c = s.get_char(i);
        let u = c as u32;
        if u < 48 || u > 57 {
            assert(!spec_digit(d[i - start]));
            return None;
        }
        let dv: u64 = (u - 48) as u64;
        assert(d.take(i - start + 1).drop_last() =~= d.take(i - start));
        assert(d.take(i - start + 1).last() == d[i - start]);
        acc = acc * 10 + dv;
        assert(acc == spec_digits_val(d.take(i - start + 1)));
        i += 1;
        if acc > u32::MAX as u64 {
            assert(!spec_is_u32_numeral(s@)) by {
                if spec_all_digits(d) {
                    lemma_digits_val_prefix_le(d, i - start);
                }
            }
            return None;
        }
    }
    assert(d.take(i - start) =~= d);
    Some(acc as u32)
}

} // verus!
