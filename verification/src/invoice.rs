//! Reading a BOLT11 invoice.

use std::str::FromStr;
use vstd::prelude::*;

use crate::amount::{decimal_value, is_digit, lemma_decimal_value_prefix};
use crate::words::chars_of;

verus! {

/// A BOLT11 invoice that was parsed and checked.
#[verifier::external_type_specification]
#[verifier::external_body]
pub struct ExInvoice(lightning_invoice::Invoice);

/// Why a text is no valid BOLT11 invoice.
#[verifier::external_type_specification]
#[verifier::external_body]
pub struct ExParseOrSemanticError(lightning_invoice::ParseOrSemanticError);

/// The largest amount that an invoice may name without a multiplier letter:
/// the largest number of bitcoins whose count in picobitcoins fits in 64
/// bits.
pub const MAX_PLAIN_AMOUNT: u64 = 18_446_744;

/// The human-readable part of the text `s`: what stands before its last
/// `1`, and nothing where it holds no `1`.
pub open spec fn human_part(s: Seq<char>) -> Seq<char>
    decreases s.len(),
{
    if s.len() == 0 {
        s
    } else if s.last() == '1' {
        s.drop_last()
    } else {
        human_part(s.drop_last())
    }
}

/// The decimal digits that `s` ends in: its longest suffix of digits.
pub open spec fn trailing_digits(s: Seq<char>) -> Seq<char>
    decreases s.len(),
{
    if s.len() == 0 || !is_digit(s.last()) {
        Seq::empty()
    } else {
        trailing_digits(s.drop_last()).push(s.last())
    }
}

/// Whether the amount that the text `s` names without a multiplier letter,
/// the number that its human-readable part ends in, is at most
/// `MAX_PLAIN_AMOUNT`. A text that names no such amount meets this.
pub open spec fn amount_in_range(s: Seq<char>) -> bool {
    decimal_value(trailing_digits(human_part(s))) <= MAX_PLAIN_AMOUNT
}

/// Whether `lightning_invoice::Invoice::from_str` accepts the text `s` as an
/// invoice.
pub uninterp spec fn is_invoice_text(s: Seq<char>) -> bool;

/// Whether the text `s` is an invoice that the console pays: its amount is
/// in range and the parser accepts it.
pub open spec fn is_payable_invoice(s: Seq<char>) -> bool {
    amount_in_range(s) && is_invoice_text(s)
}

/// Calls `lightning_invoice::Invoice::from_str` on `text`.
///
/// Trusted: the call succeeds exactly where `is_invoice_text` holds of the
/// text. Nothing is said of the invoice that it returns. The parser
/// multiplies an amount without a multiplier letter by 10^12 unchecked, so
/// a text whose amount is out of range is not handed to it.
#[verifier::external_body]
fn invoice_from_str(text: &str) -> (r: Result<
    lightning_invoice::Invoice,
    lightning_invoice::ParseOrSemanticError,
>)
    requires
        amount_in_range(text@),
    ensures
        r is Ok <==> is_invoice_text(text@),
{
    lightning_invoice::Invoice::from_str(text)
}

/// Tells whether the amount that `text` names without a multiplier letter
/// is in range.
pub fn has_amount_in_range(text: &str) -> (r: bool)
    ensures
        r == amount_in_range(text@),
{
    let cs = chars_of(text);
    let mut end: usize = cs.len();
    assert(text@.take(end as int) =~= text@);
    while end > 0 && cs[end - 1] != '1'
        invariant
            cs@ == text@,
            end <= cs.len(),
            human_part(text@) == human_part(text@.take(end as int)),
        decreases end,
    {
        assert(text@.take(end as int).drop_last() =~= text@.take(end - 1));
        end -= 1;
    }
    let len: usize = if end > 0 {
        end - 1
    } else {
        0
    };
    let ghost human = text@.take(len as int);
    assert(human_part(text@) == human) by {
        if end > 0 {
            assert(text@.take(end as int).drop_last() =~= human);
        }
    }
    let mut start: usize = len;
    assert(human.take(len as int) =~= human);
    assert(human.subrange(len as int, len as int) =~= Seq::<char>::empty());
    assert(trailing_digits(human) + Seq::<char>::empty() =~= trailing_digits(human));
    while start > 0 && '0' <= cs[start - 1] && cs[start - 1] <= '9'
        invariant
            cs@ == text@,
            len <= cs.len(),
            human == text@.take(len as int),
            start <= len,
            forall|k: int| start <= k < len ==> is_digit(#[trigger] cs@[k]),
            trailing_digits(human) == trailing_digits(human.take(start as int)) + human.subrange(
                start as int,
                len as int,
            ),
        decreases start,
    {
        proof {
            let t = human.take(start as int);
            assert(t.last() == cs@[start - 1]);
            assert(t.drop_last() =~= human.take(start - 1));
            assert(trailing_digits(t.drop_last()).push(t.last()) + human.subrange(
                start as int,
                len as int,
            ) =~= trailing_digits(t.drop_last()) + human.subrange(start - 1, len as int));
        }
        start -= 1;
    }
    let ghost digits = human.subrange(start as int, len as int);
    assert(trailing_digits(human) == digits) by {
        let t = human.take(start as int);
        if start > 0 {
            assert(t.last() == cs@[start - 1]);
        }
        assert(trailing_digits(t) =~= Seq::<char>::empty());
        assert(Seq::<char>::empty() + digits =~= digits);
    }
    let mut value: u64 = 0;
    let mut i: usize = start;
    assert(digits.take(0) =~= Seq::<char>::empty());
    while i < len
        invariant
            cs@ == text@,
            len <= cs.len(),
            start <= i <= len,
            human == text@.take(len as int),
            digits == human.subrange(start as int, len as int),
            trailing_digits(human) == digits,
            human_part(text@) == human,
            forall|k: int| start <= k < len ==> is_digit(#[trigger] cs@[k]),
            value == decimal_value(digits.take(i - start)),
            value <= MAX_PLAIN_AMOUNT,
        decreases len - i,
    {
        let c = cs[i];
        let ghost k = i - start;
        assert(digits[k] == c);
        assert(is_digit(c));
        assert(digits.take(k + 1).drop_last() =~= digits.take(k));
        let d: u64 = (c as u32 - '0' as u32) as u64;
        value = value * 10 + d;
        if value > MAX_PLAIN_AMOUNT {
            proof {
                lemma_decimal_value_prefix(digits, k + 1);
            }
            return false;
        }
        i += 1;
    }
    assert(digits.take(len - start) =~= digits);
    true
}

/// Tells whether `text` is an invoice that the console pays.
///
/// The amount is looked at first: a text whose amount is out of range is
/// refused without being parsed.
pub fn is_valid_invoice(text: &str) -> (r: bool)
    ensures
        r == is_payable_invoice(text@),
{
    if !has_amount_in_range(text) {
        return false;
    }
    match invoice_from_str(text) {
        Ok(_) => true,
        Err(_) => false,
    }
}

} // verus!
