//! Decimal integer parsing for metadata values, verified against a
//! mathematical reading of the digit string.

use vstd::prelude::*;
use vstd::string::StrSliceExecFns;

verus! {

/// A decimal digit, `'0'` through `'9'`.
pub open spec fn is_digit_char(c: char) -> bool {
    48 <= c as u32 && c as u32 <= 57
}

/// Numeric value of one decimal digit.
pub open spec fn digit_value(c: char) -> int {
    c as u32 - 48
}

/// Value of a digit string, most significant digit first.
pub open spec fn digits_value(s: Seq<char>) -> int
    decreases s.len(),
{
    if s.len() == 0 {
        0
    } else {
        digits_value(s.drop_last()) * 10 + digit_value(s.last())
    }
}

pub open spec fn all_digits(s: Seq<char>) -> bool {
    forall|i: int| 0 <= i < s.len() ==> is_digit_char(#[trigger] s[i])
}

/// Length of the optional leading sign.
pub open spec fn sign_len(s: Seq<char>) -> int {
    if s.len() > 0 && (s[0] == '-' || s[0] == '+') {
        1
    } else {
        0
    }
}

/// The strings accepted as integers: an optional `-` or `+`, then one or
/// more decimal digits.
pub open spec fn is_integer_literal(s: Seq<char>) -> bool {
    s.len() > sign_len(s) && all_digits(s.skip(sign_len(s)))
}

/// Mathematical value of an accepted string.
pub open spec fn integer_literal_value(s: Seq<char>) -> int {
    if s.len() > 0 && s[0] == '-' {
        -digits_value(s.skip(1))
    } else {
        digits_value(s.skip(sign_len(s)))
    }
}

proof fn lemma_digits_value_nonneg(s: Seq<char>)
    requires
        all_digits(s),
    ensures
        digits_value(s) >= 0,
    decreases s.len(),
{
    if s.len() > 0 {
        assert(all_digits(s.drop_last()));
        lemma_digits_value_nonneg(s.drop_last());
    }
}

/// A digit string is worth at least as much as any of its prefixes.
proof fn lemma_digits_value_prefix_le(s: Seq<char>, i: int)
    requires
        all_digits(s),
        0 <= i <= s.len(),
    ensures
        digits_value(s.take(i)) <= digits_value(s),
    decreases s.len() - i,
{
    if i < s.len() {
        let t = s.take(i + 1);
        assert(t.drop_last() =~= s.take(i));
        assert(all_digits(t)) by {
            assert(forall|j: int| 0 <= j < t.len() ==> t[j] == s[j]);
        }
        lemma_digits_value_nonneg(s.take(i));
        assert(digits_value(t) == digits_value(s.take(i)) * 10 + digit_value(s[i]));
        lemma_digits_value_prefix_le(s, i + 1);
    } else {
        assert(s.take(i) =~= s);
    }
}

/// Parse a decimal integer, accepting exactly the optional-sign-then-digits
/// strings whose value fits in an `i64`, and returning that value.
pub fn parse_i64(s: &str) -> (r: Option<i64>)
    ensures
        r is Some <==> is_integer_literal(s@) && i64::MIN <= integer_literal_value(s@)
            <= i64::MAX,
        r is Some ==> r->0 == integer_literal_value(s@),
{
    proof {
        assert('-' as u32 == 45);
        assert('+' as u32 == 43);
        assert('0' as u32 == 48);
        assert('9' as u32 == 57);
    }
    let len = s.unicode_len();
    if len == 0 {
        return None;
    }
    let first = s.get_char(0) as u32;
    let neg = first == 45;
    let start: usize = if first == 45 || first == 43 {
        1
    } else {
        0
    };
    if start == len {
        return None;
    }
    assert(start == sign_len(s@));
    // Accumulate the negated magnitude, so that i64::MIN stays reachable.
    let mut acc: i64 = 0;
    let mut i: usize = start;
    while i < len
        invariant
            start <= i <= len,
            len == s@.len(),
            start == sign_len(s@),
            neg <==> (s@.len() > 0 && s@[0] == '-'),
            all_digits(s@.subrange(start as int, i as int)),
            acc == -digits_value(s@.subrange(start as int, i as int)),
            i64::MIN <= acc <= 0,
        decreases len - i,
    {
        let c = s.get_char(i) as u32;
        if c < 48 || c > 57 {
            proof {
                assert(!is_digit_char(s@[i as int]));
                assert(s@.skip(start as int)[i - start] == s@[i as int]);
                assert(!all_digits(s@.skip(start as int)));
            }
            return None;
        }
        let d = (c - 48) as i64;
        let ghost prefix = s@.subrange(start as int, i as int);
        let ghost prefix1 = s@.subrange(start as int, i as int + 1);
        proof {
            assert(prefix1.drop_last() =~= prefix);
            assert(prefix1.last() == s@[i as int]);
            assert(digits_value(prefix1) == digits_value(prefix) * 10 + digit_value(
                s@[i as int],
            ));
            assert(all_digits(prefix1)) by {
                assert(forall|j: int|
                    0 <= j < prefix.len() ==> #[trigger] prefix1[j] == prefix[j]);
            }
        }
        let m = match acc.checked_mul(10) {
            Some(m) => m,
            None => {
                proof {
                    lemma_too_large(s@, start as int, i as int + 1);
                }
                return None;
            },
        };
        acc = match m.checked_sub(d) {
            Some(a) => a,
            None => {
                proof {
                    lemma_too_large(s@, start as int, i as int + 1);
                }
                return None;
            },
        };
        i = i + 1;
    }
    proof {
        assert(s@.subrange(start as int, len as int) =~= s@.skip(start as int));
        assert(is_integer_literal(s@));
    }
    if neg {
        Some(acc)
    } else {
        if acc == i64::MIN {
            // magnitude 2^63: one past i64::MAX
            return None;
        }
        Some(-acc)
    }
}

/// When the digits already seen outweigh `i64`'s range, the whole string
/// does too, whichever sign it carries.
proof fn lemma_too_large(s: Seq<char>, start: int, i: int)
    requires
        0 <= start <= i <= s.len(),
        start == sign_len(s),
        all_digits(s.subrange(start, i)),
        digits_value(s.subrange(start, i)) > -(i64::MIN as int),
    ensures
        !(is_integer_literal(s) && i64::MIN <= integer_literal_value(s) <= i64::MAX),
{
    if is_integer_literal(s) {
        let digits = s.skip(start);
        assert(s.subrange(start, i) =~= digits.take(i - start));
        lemma_digits_value_prefix_le(digits, i - start);
        assert(digits_value(digits) > -(i64::MIN as int));
    }
}

} // verus!
