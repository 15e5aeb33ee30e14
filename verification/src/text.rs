//! Small verified text utilities: string equality and decimal parsing of
//! wait durations.

use vstd::prelude::*;

verus! {

/// String-slice equality, decided by the views.
pub fn str_eq(a: &str, b: &str) -> (r: bool)
    ensures
        r == (a@ == b@),
{
    let owned_a: String = a.to_owned();
    let owned_b: String = b.to_owned();
    owned_a == owned_b
}

/// Whether `c` is a decimal digit.
pub open spec fn is_dec_digit(c: char) -> bool {
    48 <= c as u32 <= 57
}

/// The numeric value of a decimal digit.
pub open spec fn digit_value(c: char) -> nat {
    (c as u32 - 48) as nat
}

/// Whether every character of `s` is a decimal digit.
pub open spec fn all_dec_digits(s: Seq<char>) -> bool {
    forall|i: int| 0 <= i < s.len() ==> is_dec_digit(#[trigger] s[i])
}

/// The value of a digit string read in base ten.
pub open spec fn dec_value(s: Seq<char>) -> nat
    decreases s.len(),
{
    if s.len() == 0 {
        0
    } else {
        dec_value(s.drop_last()) * 10 + digit_value(s.last())
    }
}

/// The digits of `s` after at most one leading plus sign.
pub open spec fn strip_plus(s: Seq<char>) -> Seq<char> {
    if s.len() >= 1 && s[0] == '+' {
        s.subrange(1, s.len() as int)
    } else {
        s
    }
}

/// What a string denotes as a non-negative number of seconds: the base-ten
/// value of its digits (one leading plus sign allowed), provided there is
/// at least one digit, every character is a digit, and the value fits in
/// sixty-four bits; nothing otherwise.
pub open spec fn parse_seconds_spec(s: Seq<char>) -> Option<u64> {
    let digits = strip_plus(s);
    if digits.len() > 0 && all_dec_digits(digits) && dec_value(digits) <= u64::MAX {
        Some(dec_value(digits) as u64)
    } else {
        None
    }
}

/// Extending a digit string multiplies its value by ten and adds the new
/// digit, so a prefix never exceeds the whole.
proof fn lemma_dec_value_prefix(s: Seq<char>, i: int)
    requires
        0 <= i <= s.len(),
    ensures
        dec_value(s.subrange(0, i)) <= dec_value(s),
    decreases s.len() - i,
{
    if i == s.len() {
        assert(s.subrange(0, i) =~= s);
    } else {
        assert(s.subrange(0, i + 1).drop_last() =~= s.subrange(0, i));
        assert(dec_value(s.subrange(0, i)) <= dec_value(s.subrange(0, i + 1)));
        lemma_dec_value_prefix(s, i + 1);
    }
}

/// Parse a string as a non-negative number of seconds, exactly as
/// [`parse_seconds_spec`] says.
pub fn parse_seconds(s: &str) -> (r: Option<u64>)
    ensures
        r == parse_seconds_spec(s@),
{
    let total: usize = s.unicode_len();
    let start: usize = if total >= 1 && s.get_char(0) == '+' {
        1
    } else {
        0
    };
    proof {
        if start == 1 {
            assert(strip_plus(s@) =~= s@.subrange(1, s@.len() as int));
        } else {
            assert(strip_plus(s@) =~= s@);
        }
    }
    let ghost digits: Seq<char> = strip_plus(s@);
    if start == total {
        // no digits at all
        assert(digits.len() == 0);
        return None;
    }
    let mut value: u64 = 0;
    let mut i: usize = start;
    while i < total
        invariant
            start <= i <= total,
            total == s@.len(),
            start == 0 || start == 1,
            start == 1 ==> s@[0] == '+',
            digits == strip_plus(s@),
            digits =~= s@.subrange(start as int, total as int),
            all_dec_digits(digits.subrange(0, i - start)),
            value == dec_value(digits.subrange(0, i - start)),
        decreases total - i,
    {
        let c: char = s.get_char(i);
        let code: u32 = c as u32;
        proof {
            assert(digits[i - start] == s@[i as int]);
        }
        if code < 48 || code > 57 {
            assert(!is_dec_digit(digits[i - start]));
            return None;
        }
        let d: u64 = (code - 48) as u64;
        proof {
            assert(digits.subrange(0, i - start + 1).drop_last() =~= digits.subrange(
                0,
                i - start,
            ));
            assert(digits.subrange(0, i - start + 1).last() == digits[i - start]);
        }
        if value > (u64::MAX - d) / 10 {
            proof {
                assert(dec_value(digits.subrange(0, i - start + 1)) > u64::MAX) by {
                    assert(value * 10 + d > u64::MAX) by (nonlinear_arith)
                        requires
                            value > (u64::MAX - d) / 10,
                            d <= 9,
                    ;
                }
                lemma_dec_value_prefix(digits, i - start + 1);
            }
            return None;
        }
        proof {
            assert(value * 10 + d <= u64::MAX) by (nonlinear_arith)
                requires
                    value <= (u64::MAX - d) / 10,
                    d <= 9,
            ;
        }
        value = value * 10 + d;
        i = i + 1;
    }
    proof {
        assert(digits.subrange(0, i - start) =~= digits);
    }
    Some(value)
}

} // verus!
