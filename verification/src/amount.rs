//! Amounts: reading a number of satoshis and converting it to millisatoshis.

use vstd::prelude::*;

verus! {

/// Number of millisatoshis in one satoshi.
pub const MSAT_PER_SAT: u64 = 1000;

/// Amount in satoshis of a payment for which none is given.
pub const DEFAULT_AMOUNT_SAT: u64 = 1;

/// Whether `c` is one of the decimal digits `0` to `9`.
pub open spec fn is_digit(c: char) -> bool {
    '0' <= c <= '9'
}

/// The number that the decimal digit `c` stands for.
pub open spec fn digit_value(c: char) -> nat {
    (c as u32 - '0' as u32) as nat
}

/// Whether `s` holds decimal digits only.
pub open spec fn all_digits(s: Seq<char>) -> bool {
    forall|i: int| 0 <= i < s.len() ==> is_digit(#[trigger] s[i])
}

/// The number that the decimal digits `s` write, most significant first.
pub open spec fn decimal_value(s: Seq<char>) -> nat
    decreases s.len(),
{
    if s.len() == 0 {
        0
    } else {
        decimal_value(s.drop_last()) * 10 + digit_value(s.last())
    }
}

/// The digits of a number written as `s`: `s` without a plus sign in front.
pub open spec fn unsigned_part(s: Seq<char>) -> Seq<char> {
    if s.len() > 0 && s[0] == '+' {
        s.drop_first()
    } else {
        s
    }
}

/// Whether `s` writes a number that fits in 64 bits: an optional plus sign,
/// then at least one decimal digit and nothing else, the value at most
/// `u64::MAX`.
pub open spec fn is_u64_text(s: Seq<char>) -> bool {
    let digits = unsigned_part(s);
    &&& digits.len() > 0
    &&& all_digits(digits)
    &&& decimal_value(digits) <= u64::MAX
}

/// The number that `s` writes.
pub open spec fn u64_text_value(s: Seq<char>) -> nat
    recommends
        is_u64_text(s),
{
    decimal_value(unsigned_part(s))
}

/// A number written with more digits is no smaller than the number that a
/// prefix of these digits writes.
pub proof fn lemma_decimal_value_prefix(s: Seq<char>, k: int)
    requires
        0 <= k <= s.len(),
    ensures
        decimal_value(s.take(k)) <= decimal_value(s),
    decreases s.len() - k,
{
    if k == s.len() {
        assert(s.take(k) =~= s);
    } else {
        lemma_decimal_value_prefix(s, k + 1);
        assert(s.take(k + 1).drop_last() =~= s.take(k));
    }
}

/// Reads the number of satoshis that `text` writes in decimal digits.
pub fn parse_u64(text: &str) -> (r: Option<u64>)
    ensures
        r is Some <==> is_u64_text(text@),
        r matches Some(v) ==> v == u64_text_value(text@),
{
    let cs = crate::words::chars_of(text);
    let n: usize = cs.len();
    let start: usize = if n > 0 && cs[0] == '+' {
        1
    } else {
        0
    };
    let ghost digits = unsigned_part(text@);
    assert(digits =~= text@.skip(start as int));
    if start == n {
        return None;
    }
    let mut value: u64 = 0;
    let mut i: usize = start;
    assert(digits.take(0) =~= Seq::<char>::empty());
    while i < n
        invariant
            cs@ == text@,
            n == cs.len(),
            start <= i <= n,
            digits == text@.skip(start as int),
            digits == unsigned_part(text@),
            all_digits(digits.take(i - start)),
            value == decimal_value(digits.take(i - start)),
        decreases n - i,
    {
        let c = cs[i];
        let ghost k = i - start;
        assert(digits[k] == c);
        assert(digits.take(k + 1).drop_last() =~= digits.take(k));
        if !('0' <= c && c <= '9') {
            assert(!is_digit(digits[k]));
            return None;
        }
        let d: u64 = (c as u32 - '0' as u32) as u64;
        assert(d == digit_value(c));
        assert(all_digits(digits.take(k + 1))) by {
            assert forall|m: int| 0 <= m < k + 1 implies is_digit(
                #[trigger] digits.take(k + 1)[m],
            ) by {
                if m < k {
                    assert(digits.take(k)[m] == digits.take(k + 1)[m]);
                }
            }
        }
        let next = match value.checked_mul(10) {
            Some(v) => v.checked_add(d),
            None => None,
        };
        match next {
            Some(v) => {
                value = v;
            },
            None => {
                proof {
                    if all_digits(digits) {
                        lemma_decimal_value_prefix(digits, k + 1);
                    }
                }
                return None;
            },
        }
        i += 1;
    }
    assert(digits.take(n - start) =~= digits);
    Some(value)
}

/// The amount in millisatoshis of `sat` satoshis, where it fits in 64 bits.
pub open spec fn msat_of(sat: u64) -> Option<u64> {
    if sat * MSAT_PER_SAT <= u64::MAX {
        Some((sat * MSAT_PER_SAT) as u64)
    } else {
        None
    }
}

/// Converts an amount in satoshis to millisatoshis.
///
/// Returns `None` where the result does not fit in 64 bits.
pub fn sat_to_msat(sat: u64) -> (r: Option<u64>)
    ensures
        r == msat_of(sat),
{
    sat.checked_mul(MSAT_PER_SAT)
}

} // verus!
