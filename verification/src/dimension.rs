//! Reading a dimension from the text typed into a field: an unsigned decimal number.

use vstd::prelude::*;
use vstd::string::is_ascii_spec_bytes;

verus! {

/// Whether `c` is one of the digits `0` to `9`.
pub open spec fn is_digit(c: char) -> bool {
    '0' <= c <= '9'
}

/// The value of the digit `c`.
pub open spec fn digit(c: char) -> nat
    recommends
        is_digit(c),
{
    (c as int - '0' as int) as nat
}

/// The number that `digits` writes in decimal, the most significant digit first.
pub open spec fn decimal(digits: Seq<char>) -> nat
    decreases digits.len(),
{
    if digits.len() == 0 {
        0
    } else {
        decimal(digits.drop_last()) * 10 + digit(digits.last())
    }
}

/// The text without the plus sign that may stand in front of it.
pub open spec fn unsigned(text: Seq<char>) -> Seq<char> {
    if text.len() > 0 && text[0] == '+' {
        text.drop_first()
    } else {
        text
    }
}

/// Whether `digits` holds digits only.
pub open spec fn all_digits(digits: Seq<char>) -> bool {
    forall|i: int| 0 <= i < digits.len() ==> is_digit(#[trigger] digits[i])
}

/// What `text` reads as: the number it writes, where it is one or more decimal digits,
/// with or without a plus sign in front, and the number is no more than `usize::MAX`.
/// Anything else, a space or an empty text too, reads as nothing.
pub open spec fn reads_as(text: Seq<char>) -> Option<usize> {
    let digits = unsigned(text);
    if digits.len() > 0 && all_digits(digits) && decimal(digits) <= usize::MAX {
        Some(decimal(digits) as usize)
    } else {
        None
    }
}

/// One more digit multiplies by ten and adds.
proof fn lemma_decimal_next(digits: Seq<char>, k: int)
    requires
        0 <= k < digits.len(),
    ensures
        decimal(digits.take(k + 1)) == decimal(digits.take(k)) * 10 + digit(digits[k]),
{
    assert(digits.take(k + 1).drop_last() =~= digits.take(k));
}

/// The first digits of a number write no more than all of them.
proof fn lemma_decimal_prefix(digits: Seq<char>, k: int)
    requires
        0 <= k <= digits.len(),
    ensures
        decimal(digits.take(k)) <= decimal(digits),
    decreases digits.len(),
{
    if k == digits.len() {
        assert(digits.take(k) =~= digits);
    } else {
        lemma_decimal_prefix(digits.drop_last(), k);
        assert(digits.drop_last().take(k) =~= digits.take(k));
    }
}

/// The dimension that `text` reads as, if it reads as one.
pub fn parse_dimension(text: &str) -> (number: Option<usize>)
    ensures
        number == reads_as(text@),
{
    let ghost digits = unsigned(text@);
    if !text.is_ascii() {
        proof {
            let i = choose|i: int|
                0 <= i < text@.len() && !('\0' <= #[trigger] text@[i] <= '\u{7f}');
            if text@.len() > 0 && text@[0] == '+' {
                assert(!is_digit(digits[i - 1]));
            } else {
                assert(!is_digit(digits[i]));
            }
        }
        return None;
    }
    proof {
        is_ascii_spec_bytes(text);
    }
    let bytes = text.as_bytes();
    let len = bytes.len();
    let start: usize = if len > 0 && bytes[0] == 43 { 1 } else { 0 };
    if start == len {
        return None;
    }
    let mut value: usize = 0;
    let mut i: usize = start;
    while i < len
        invariant
            text.is_ascii(),
            bytes@ == Seq::new(text@.len(), |k: int| text@[k] as u8),
            len == text@.len(),
            digits == unsigned(text@),
            digits.len() == len - start,
            forall|k: int| 0 <= k < digits.len() ==> digits[k] == text@[k + start],
            start <= i <= len,
            forall|k: int| 0 <= k < i - start ==> is_digit(#[trigger] digits[k]),
            value == decimal(digits.take(i - start)),
        decreases len - i,
    {
        let byte = bytes[i];
        let ghost c = text@[i as int];
        assert(c == digits[i - start]);
        assert('\0' <= c <= '\u{7f}');
        assert(byte == c as u8);
        if byte < 48 || byte > 57 {
            assert(!is_digit(digits[i - start]));
            return None;
        }
        proof {
            lemma_decimal_next(digits, i - start);
            lemma_decimal_prefix(digits, i - start + 1);
        }
        let tens = match value.checked_mul(10) {
            Some(tens) => tens,
            None => {
                return None;
            },
        };
        value = match tens.checked_add((byte - 48) as usize) {
            Some(sum) => sum,
            None => {
                return None;
            },
        };
        i += 1;
    }
    assert(digits.take(len - start) =~= digits);
    Some(value)
}

} // verus!
