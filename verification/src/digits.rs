//! Decimal-number reading.
//!
//! Timestamps and durations arrive as strings of decimal digits; the
//! engine reads them into integers. The reader accepts exactly the
//! non-empty all-digit strings whose value fits the result type.

use vstd::prelude::*;
use vstd::string::StrSliceExecFns;

verus! {

/// The character is one of the ten decimal digits.
pub open spec fn is_decimal_digit(c: char) -> bool {
    '0' as int <= c as int && c as int <= '9' as int
}

/// The numeric value of one decimal digit.
pub open spec fn digit_value(c: char) -> int {
    c as int - '0' as int
}

/// Every character of the sequence is a decimal digit.
pub open spec fn all_digits(s: Seq<char>) -> bool {
    forall|i: int| 0 <= i < s.len() ==> is_decimal_digit(#[trigger] s[i])
}

/// The value of a digit sequence read in base ten.
pub open spec fn decimal_value(s: Seq<char>) -> int
    decreases s.len(),
{
    if s.len() == 0 {
        0
    } else {
        decimal_value(s.drop_last()) * 10 + digit_value(s.last())
    }
}

/// A digit sequence has a non-negative value.
pub proof fn lemma_decimal_value_nonneg(s: Seq<char>)
    requires
        all_digits(s),
    ensures
        decimal_value(s) >= 0,
    decreases s.len(),
{
    if s.len() > 0 {
        assert(all_digits(s.drop_last())) by {
            assert(forall|i: int|
                0 <= i < s.len() - 1 ==> s.drop_last()[i] == #[trigger] s[i]);
        }
        lemma_decimal_value_nonneg(s.drop_last());
    }
}

/// Reading more digits never shrinks the value: a prefix of an all-digit
/// sequence is worth no more than the whole.
pub proof fn lemma_decimal_prefix_le(s: Seq<char>, j: int)
    requires
        all_digits(s),
        0 <= j <= s.len(),
    ensures
        decimal_value(s.subrange(0, j)) <= decimal_value(s),
    decreases s.len() - j,
{
    if j == s.len() {
        assert(s.subrange(0, j) =~= s);
    } else {
        let shorter = s.subrange(0, j);
        let longer = s.subrange(0, j + 1);
        assert(longer.drop_last() =~= shorter);
        assert(all_digits(shorter));
        lemma_decimal_value_nonneg(shorter);
        assert(decimal_value(longer) == decimal_value(shorter) * 10 + digit_value(s[j]));
        assert(decimal_value(shorter) * 10 >= decimal_value(shorter));
        lemma_decimal_prefix_le(s, j + 1);
    }
}

/// Reads a non-empty string of decimal digits as a `u64`. Returns `None`
/// exactly when the string is empty, holds a non-digit, or its value does
/// not fit in a `u64`.
pub fn parse_u64_decimal(s: &str) -> (r: Option<u64>)
    ensures
        r is Some <==> s@.len() > 0 && all_digits(s@) && decimal_value(s@) <= u64::MAX,
        r is Some ==> r->Some_0 == decimal_value(s@),
{
    let n: usize = s.unicode_len();
    if n == 0 {
        return None;
    }
    let mut acc: u64 = 0;
    let mut i: usize = 0;
    while i < n
        invariant
            i <= n,
            n == s@.len(),
            all_digits(s@.subrange(0, i as int)),
            acc == decimal_value(s@.subrange(0, i as int)),
        decreases n - i,
    {
        let c = s.get_char(i);
        let code: u32 = c as u32;
        if code < 48 || code > 57 {
            proof {
                assert(!is_decimal_digit(s@[i as int]));
            }
            return None;
        }
        let d: u64 = (code - 48) as u64;
        proof {
            assert(s@.subrange(0, i + 1).drop_last() =~= s@.subrange(0, i as int));
            assert(s@.subrange(0, i + 1).last() == s@[i as int]);
            assert(is_decimal_digit(s@[i as int]));
            assert forall|k: int| 0 <= k < i + 1 implies is_decimal_digit(
                #[trigger] s@.subrange(0, i + 1)[k],
            ) by {
                if k < i {
                    assert(s@.subrange(0, i + 1)[k] == s@.subrange(0, i as int)[k]);
                } else {
                    assert(s@.subrange(0, i + 1)[k] == s@[i as int]);
                }
            }
            assert(all_digits(s@.subrange(0, i + 1)));
            assert(decimal_value(s@.subrange(0, i + 1)) == acc * 10 + d);
        }
        let shifted = match acc.checked_mul(10) {
            Some(v) => v,
            None => {
                proof {
                    overflow_means_no_fit(s@, i as int, acc * 10 + d);
                }
                return None;
            },
        };
        acc = match shifted.checked_add(d) {
            Some(v) => v,
            None => {
                proof {
                    overflow_means_no_fit(s@, i as int, acc * 10 + d);
                }
                return None;
            },
        };
        i = i + 1;
    }
    proof {
        assert(s@.subrange(0, n as int) =~= s@);
    }
    Some(acc)
}

/// When the accumulated value of the first `i + 1` digits already exceeds
/// `u64::MAX`, the whole string cannot fit either.
proof fn overflow_means_no_fit(s: Seq<char>, i: int, next: int)
    requires
        0 <= i < s.len(),
        all_digits(s.subrange(0, i + 1)),
        next == decimal_value(s.subrange(0, i + 1)),
        next > u64::MAX,
    ensures
        !(all_digits(s) && decimal_value(s) <= u64::MAX),
{
    if all_digits(s) {
        lemma_decimal_prefix_le(s, i + 1);
    }
}

} // verus!
