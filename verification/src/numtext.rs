//! Parsing the decimal text of the `ns` element into a 32-bit integer.
//!
//! Accepts exactly the shapes that a signed decimal integer may take: an
//! optional leading plus or minus sign followed by one or more ASCII digits,
//! with the resulting value in range.

use vstd::prelude::*;
use vstd::string::StrSliceExecFns;

verus! {

/// Whether a character is an ASCII decimal digit.
pub open spec fn spec_is_digit(c: char) -> bool {
    48 <= c as u32 <= 57
}

/// The numeric value of a decimal digit character.
pub open spec fn spec_digit_val(c: char) -> int {
    c as u32 - 48
}

/// The value of a sequence of decimal digit characters, most significant
/// first.
pub open spec fn spec_digits_val(s: Seq<char>) -> int
    decreases s.len(),
{
    if s.len() == 0 {
        0
    } else {
        spec_digits_val(s.drop_last()) * 10 + spec_digit_val(s.last())
    }
}

/// Whether a sequence is one or more decimal digit characters.
pub open spec fn spec_all_digits(s: Seq<char>) -> bool {
    s.len() > 0 && (forall|i: int| 0 <= i < s.len() ==> spec_is_digit(s[i]))
}

/// The digit part of an integer literal: everything after a leading sign.
pub open spec fn spec_digit_part(s: Seq<char>) -> Seq<char> {
    if s.len() > 0 && (s[0] == '-' || s[0] == '+') {
        s.drop_first()
    } else {
        s
    }
}

/// Whether an integer literal is negative: it starts with a minus sign.
pub open spec fn spec_is_negative(s: Seq<char>) -> bool {
    s.len() > 0 && s[0] == '-'
}

/// What parsing a 32-bit signed decimal integer returns: the value for a
/// well-formed in-range literal, nothing otherwise.
pub open spec fn spec_parse_i32(s: Seq<char>) -> Option<i32> {
    let digits = spec_digit_part(s);
    if !spec_all_digits(digits) {
        None
    } else {
        let v = if spec_is_negative(s) {
            -spec_digits_val(digits)
        } else {
            spec_digits_val(digits)
        };
        if -0x8000_0000 <= v <= 0x7fff_ffff {
            Some(v as i32)
        } else {
            None
        }
    }
}

proof fn lemma_digits_val_nonneg(s: Seq<char>)
    requires
        forall|i: int| 0 <= i < s.len() ==> spec_is_digit(s[i]),
    ensures
        spec_digits_val(s) >= 0,
    decreases s.len(),
{
    if s.len() > 0 {
        lemma_digits_val_nonneg(s.drop_last());
    }
}

proof fn lemma_digits_val_prefix_le(s: Seq<char>, k: int)
    requires
        forall|i: int| 0 <= i < s.len() ==> spec_is_digit(s[i]),
        0 <= k <= s.len(),
    ensures
        spec_digits_val(s.take(k)) <= spec_digits_val(s),
    decreases s.len() - k,
{
    if k < s.len() {
        lemma_digits_val_prefix_le(s, k + 1);
        let t = s.take(k + 1);
        assert(t.drop_last() =~= s.take(k));
        assert(forall|i: int| 0 <= i < t.len() ==> spec_is_digit(#[trigger] t[i]));
        lemma_digits_val_nonneg(s.take(k));
        assert(spec_digits_val(t) == spec_digits_val(s.take(k)) * 10 + spec_digit_val(t.last()));
    } else {
        assert(s.take(k) =~= s);
    }
}

/// Parses the decimal text of a 32-bit signed integer, exactly as
/// [`spec_parse_i32`] states it.
pub fn parse_i32_text(s: &str) -> (r: Option<i32>)
    ensures
        r == spec_parse_i32(s@),
{
    let n = s.unicode_len();
    let mut start: usize = 0;
    let mut neg = false;
    if n > 0 {
        let c0 = s.get_char(0);
        if c0 == '-' {
            neg = true;
            start = 1;
        } else if c0 == '+' {
            start = 1;
        }
    }
    let ghost digits = spec_digit_part(s@);
    proof {
        assert(digits =~= s@.subrange(start as int, n as int));
    }
    if start == n {
        // no digits at all
        assert(!spec_all_digits(digits));
        return None;
    }
    let mut acc: u64 = 0;
    let mut j: usize = start;
    while j < n
        invariant
            start <= j <= n,
            n == s@.len(),
            digits =~= s@.subrange(start as int, n as int),
            digits == spec_digit_part(s@),
            acc <= 0x8000_0000,
            acc == spec_digits_val(digits.take(j - start)),
            forall|k: int| 0 <= k < j - start ==> spec_is_digit(#[trigger] digits[k]),
        decreases n - j,
    {
        let c = s.get_char(j);
        if !(c >= '0' && c <= '9') {
            assert(!spec_all_digits(digits)) by {
                assert(digits[j - start] == s@.subrange(start as int, n as int)[j - start]);
                assert(digits[j - start] == s@[j as int]);
            }
            return None;
        }
        let d: u64 = (c as u32 - 48) as u64;
        let next: u64 = acc * 10 + d;
        proof {
            assert(digits.take(j - start + 1).drop_last() =~= digits.take(j - start));
            assert(digits[j - start] == s@.subrange(start as int, n as int)[j - start]);
            assert(digits.take(j - start + 1).last() == s@[j as int]);
        }
        if next > 0x8000_0000 {
            proof {
                if spec_all_digits(digits) {
                    lemma_digits_val_prefix_le(digits, j - start + 1);
                }
            }
            return None;
        }
        acc = next;
        j = j + 1;
    }
    proof {
        assert(digits.take(n - start) =~= digits);
        assert(spec_all_digits(digits));
    }
    if neg {
        if acc == 0x8000_0000 {
            Some(i32::MIN)
        } else {
            let v: i32 = acc as i32;
            Some(-v)
        }
    } else {
        if acc == 0x8000_0000 {
            return None;
        }
        Some(acc as i32)
    }
}

} // verus!
