//! The GS1 Mod-10 check digit.
//!
//! One algorithm serves every GTIN length: GS1 defines the check digit over
//! the positions of the canonical form, and leading zeros contribute nothing
//! to the weighted sum, so computing it over a zero-padded GTIN-14 gives the
//! same answer as over the GTIN-8, -12 or -13 that padded to it.
use vstd::prelude::*;
use crate::ascii::ascii_chars;

verus! {

/// The value of a digit character.
pub open spec fn digit_value(c: char) -> int {
    c as int - '0' as int
}

/// The weight of position `i` of a 13-digit body: 3 on even positions, 1 on
/// odd ones, so that the rightmost body digit takes 3 and weights alternate
/// leftwards.
pub open spec fn body_weight(i: int) -> int {
    if i % 2 == 0 {
        3
    } else {
        1
    }
}

/// The weighted sum of the digits of `body`.
pub open spec fn weighted_sum(body: Seq<char>) -> int
    decreases body.len(),
{
    if body.len() == 0 {
        0
    } else {
        weighted_sum(body.drop_last()) + body_weight(body.len() - 1) * digit_value(body.last())
    }
}

/// The check digit that should terminate `body`: whatever completes the
/// weighted sum to the next multiple of ten, as `0..=9`.
pub open spec fn mod10_value(body: Seq<char>) -> int {
    (10 - weighted_sum(body) % 10) % 10
}

/// The check digit that should terminate `body`, as a character.
pub open spec fn mod10_char(body: Seq<char>) -> char {
    (mod10_value(body) + '0' as int) as char
}

/// GS1's weighted sum for a body of any length, weights counted from the
/// right: 3 on the rightmost digit, then 1, then 3, alternating leftwards.
pub open spec fn gs1_sum(body: Seq<char>) -> int
    decreases body.len(), 1int,
{
    if body.len() == 0 {
        0
    } else {
        3 * digit_value(body.last()) + gs1_sum_shifted(body.drop_last())
    }
}

/// The same sum with the weights shifted by one place: 1 on the rightmost
/// digit, then 3, alternating leftwards.
pub open spec fn gs1_sum_shifted(body: Seq<char>) -> int
    decreases body.len(), 0int,
{
    if body.len() == 0 {
        0
    } else {
        digit_value(body.last()) + gs1_sum(body.drop_last())
    }
}

/// The GS1 Mod-10 check digit for a body of any length, as `0..=9`.
pub open spec fn gs1_check_value(body: Seq<char>) -> int {
    (10 - gs1_sum(body) % 10) % 10
}

/// The first `n` bytes are ASCII digits.
pub open spec fn ascii_digits(bytes: Seq<u8>, n: int) -> bool {
    forall|i: int| 0 <= i < n ==> 48 <= #[trigger] bytes[i] <= 57
}

/// The check digit that should terminate a 13-digit body, as an ASCII
/// digit byte. Weights alternate 3, 1 from the rightmost body digit
/// leftwards, and the check digit is whatever completes the weighted sum to
/// the next multiple of ten.
pub fn check_digit(body: &[u8; 13]) -> (d: u8)
    requires
        ascii_digits(body@, 13),
    ensures
        d as int == mod10_value(ascii_chars(body@)) + 48,
        48 <= d <= 57,
{
    let ghost chars = ascii_chars(body@);
    let mut sum: u32 = 0;
    let mut i: usize = 0;
    while i < 13
        invariant
            0 <= i <= 13,
            ascii_digits(body@, 13),
            chars == ascii_chars(body@),
            chars.len() == 13,
            sum as int == weighted_sum(chars.take(i as int)),
            sum <= 27 * i,
        decreases 13 - i,
    {
        proof {
            assert(chars.take(i + 1).drop_last() =~= chars.take(i as int));
            assert(chars[i as int] == body@[i as int] as char);
        }
        let value: u32 = (body[i] - 48u8) as u32;
        if i % 2 == 0 {
            sum = sum + 3 * value;
        } else {
            sum = sum + value;
        }
        i = i + 1;
    }
    proof {
        assert(chars.take(13) =~= chars);
    }
    48u8 + ((10 - sum % 10) % 10) as u8
}

} // verus!
