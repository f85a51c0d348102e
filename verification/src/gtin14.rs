//! [`Gtin14`]: the canonical form, and everything you can ask a value that
//! reached it.
use vstd::prelude::*;
use crate::allocation::{allocation_13, allocation_8, indicator_of, Allocation, Indicator};
use crate::ascii::{ascii_chars, ascii_str};
use crate::check::{ascii_digits, check_digit, digit_value, mod10_char, mod10_value};
use crate::encoding::Encoding;
use crate::key::GtinKey;
use vstd::string::StrSliceExecFns;

verus! {

/// `c` is a canonical GTIN-14: fourteen ASCII digits.
pub open spec fn is_canonical(c: Seq<char>) -> bool {
    c.len() == 14 && forall|i: int| 0 <= i < 14 ==> '0' <= #[trigger] c[i] <= '9'
}

/// `d` written as fourteen characters: zero-padded on the left.
pub open spec fn pad14(d: Seq<char>) -> Seq<char> {
    Seq::new((14 - d.len()) as nat, |_i: int| '0') + d
}

/// How many leading zeros `c` has.
pub open spec fn leading_zeros(c: Seq<char>) -> int
    decreases c.len(),
{
    if c.len() > 0 && c[0] == '0' {
        1 + leading_zeros(c.drop_first())
    } else {
        0
    }
}

/// Digits that are not leading zeros.
pub open spec fn significant(c: Seq<char>) -> int {
    c.len() - leading_zeros(c)
}

/// Where the shortest standard form of `c` starts: leading zeros are dropped
/// as far as a standard width allows, to 8 if six can go, else 12, else 13.
pub open spec fn shortest_start(c: Seq<char>) -> int {
    let n = significant(c);
    if n <= 8 {
        6
    } else if n <= 12 {
        2
    } else if n == 13 {
        1
    } else {
        0
    }
}

/// The standard encoding that the shortest form of `c` occupies.
pub open spec fn encoding_of(c: Seq<char>) -> Encoding {
    let n = significant(c);
    if n <= 8 {
        Encoding::Gtin8
    } else if n <= 12 {
        Encoding::Gtin12
    } else if n == 13 {
        Encoding::Gtin13
    } else {
        Encoding::Gtin14
    }
}

/// The match key of `c`: its first thirteen digits and a `'0'`.
pub open spec fn key_of(c: Seq<char>) -> Seq<char> {
    c.update(13, '0')
}

/// The check digit of `c` is the one GS1 Mod-10 computes from the other
/// thirteen.
pub open spec fn check_digit_valid(c: Seq<char>) -> bool {
    c[13] == mod10_char(c.take(13))
}

/// What GS1 has allocated the range of `c` for: the GTIN-8 table for a
/// GTIN-8, the general table on the last thirteen digits otherwise.
pub open spec fn allocation_of(c: Seq<char>) -> Allocation {
    if encoding_of(c) == Encoding::Gtin8 {
        allocation_8(c.skip(6))
    } else {
        allocation_13(c.skip(1))
    }
}

/// The indicator digit of `c`, when it has one: only fourteen significant
/// digits make the leading digit an indicator rather than padding.
pub open spec fn indicator_opt(c: Seq<char>) -> Option<Indicator> {
    if significant(c) == 14 {
        Some(indicator_of(digit_value(c[0])))
    } else {
        None
    }
}

/// A value inside the GTIN domain, in canonical GTIN-14 form: fourteen ASCII
/// digits, zero-padded on the left, check digit preserved.
///
/// It promises the value had 8 to 14 digits; it does not promise the check
/// digit is correct, because real, scannable products carry wrong ones. Ask
/// [`check_digit_is_valid`](Gtin14::check_digit_is_valid).
///
/// There is no constructor: the only route in is [`parse`](crate::parse),
/// where the domain rule lives.
#[derive(Clone, Copy, PartialEq, Eq, PartialOrd, Ord, Hash, Debug)]
pub struct Gtin14(pub(crate) [u8; 14]);

impl View for Gtin14 {
    type V = Seq<char>;

    /// The fourteen characters of the canonical form.
    closed spec fn view(&self) -> Seq<char> {
        ascii_chars(self.0@)
    }
}

/// Two values that read the same are the same value: equal canonical strings
/// mean equal GTINs.
pub proof fn lemma_view_determines_gtin(a: Gtin14, b: Gtin14)
    requires
        a@ == b@,
    ensures
        a == b,
{
    broadcast use vstd::array::group_array_axioms;
    assert forall|i: int| 0 <= i < 14 implies a.0@[i] == b.0@[i] by {
        assert(a@[i] == b@[i]);
        assert(a@[i] == a.0@[i] as char);
        assert(b@[i] == b.0@[i] as char);
        assert((a.0@[i] as char) as u8 == a.0@[i]);
        assert((b.0@[i] as char) as u8 == b.0@[i]);
    }
    assert(a.0@ =~= b.0@);
    assert(a.0 == b.0);
}

/// A leading zero at `i` adds one to the zeros counted from `i`.
proof fn lemma_leading_zeros_step(c: Seq<char>, i: int)
    requires
        0 <= i < c.len(),
        c[i] == '0',
    ensures
        leading_zeros(c.skip(i)) == 1 + leading_zeros(c.skip(i + 1)),
{
    assert(c.skip(i).drop_first() =~= c.skip(i + 1));
}

impl Gtin14 {
    /// Fourteen ASCII digits.
    #[verifier::type_invariant]
    spec fn is_digits(self) -> bool {
        ascii_digits(self.0@, 14)
    }

    /// Build from the first `n` of `digits`. The domain check lives in
    /// `parse`.
    pub(crate) fn from_digits(digits: &[u8; 14], n: usize) -> (g: Gtin14)
        requires
            1 <= n <= 14,
            ascii_digits(digits@, n as int),
        ensures
            g@ == pad14(ascii_chars(digits@).take(n as int)),
    {
        let mut out: [u8; 14] = [48u8; 14];
        let start: usize = 14 - n;
        let mut k: usize = 0;
        while k < n
            invariant
                1 <= n <= 14,
                start == 14 - n,
                0 <= k <= n,
                ascii_digits(digits@, n as int),
                ascii_digits(out@, 14),
                forall|j: int| 0 <= j < start ==> out@[j] == 48,
                forall|j: int| 0 <= j < k ==> out@[start + j] == digits@[j],
            decreases n - k,
        {
            out[start + k] = digits[k];
            k = k + 1;
        }
        let g = Gtin14(out);
        proof {
            assert(g@ =~= pad14(ascii_chars(digits@).take(n as int)));
        }
        g
    }

    /// The first thirteen digits: everything but the check digit.
    fn body(&self) -> (b: [u8; 13])
        ensures
            ascii_digits(b@, 13),
            ascii_chars(b@) == self@.take(13),
    {
        proof {
            use_type_invariant(self);
        }
        let mut body: [u8; 13] = [48u8; 13];
        let mut i: usize = 0;
        while i < 13
            invariant
                0 <= i <= 13,
                ascii_digits(self.0@, 14),
                ascii_digits(body@, 13),
                forall|j: int| 0 <= j < i ==> body@[j] == self.0@[j],
            decreases 13 - i,
        {
            body[i] = self.0[i];
            i = i + 1;
        }
        proof {
            assert(ascii_chars(body@) =~= self@.take(13));
        }
        body
    }

    /// The canonical form: always exactly fourteen characters.
    pub fn as_str(&self) -> (s: &str)
        ensures
            s@ == self@,
            is_canonical(s@),
    {
        proof {
            use_type_invariant(self);
        }
        ascii_str(self.0.as_slice())
    }

    /// Digits that are not leading zeros. `0` for an all-zero value.
    pub fn significant_digits(&self) -> (n: usize)
        ensures
            n == significant(self@),
    {
        proof {
            use_type_invariant(self);
        }
        let ghost c = self@;
        proof {
            assert(c.skip(0) =~= c);
        }
        let mut i: usize = 0;
        while i < 14 && self.0[i] == 48u8
            invariant
                0 <= i <= 14,
                c == self@,
                c.len() == 14,
                leading_zeros(c) == i + leading_zeros(c.skip(i as int)),
            decreases 14 - i,
        {
            proof {
                lemma_leading_zeros_step(c, i as int);
            }
            i = i + 1;
        }
        proof {
            if i < 14 {
                assert(c.skip(i as int)[0] != '0');
            } else {
                assert(c.skip(14).len() == 0);
            }
        }
        14 - i
    }

    /// The shortest standard GTIN form, as a suffix of the canonical form.
    ///
    /// Drops leading zeros as far as a standard width allows: to 8 if six can
    /// go, else 12, else 13, else the 14 stay. Widths 9, 10 and 11 are not
    /// GTIN encodings and are never produced.
    pub fn shortest(&self) -> (s: &str)
        ensures
            s@ == self@.skip(shortest_start(self@)),
    {
        let start: usize = match self.significant_digits() {
            0..=8 => 6,
            9..=12 => 2,
            13 => 1,
            _ => 0,
        };
        let canonical = self.as_str();
        proof {
            assert forall|i: int| 0 <= i < canonical@.len() implies '\0' <= #[trigger] canonical@[i]
                <= '\u{7f}' by {}
        }
        canonical.substring_ascii(start, 14)
    }

    /// Which standard encoding [`shortest`](Gtin14::shortest) occupies.
    pub fn encoding(&self) -> (e: Encoding)
        ensures
            e == encoding_of(self@),
    {
        match self.significant_digits() {
            0..=8 => Encoding::Gtin8,
            9..=12 => Encoding::Gtin12,
            13 => Encoding::Gtin13,
            _ => Encoding::Gtin14,
        }
    }

    /// The check-digit-agnostic match key. See [`GtinKey`] before using it.
    pub fn key(&self) -> (k: GtinKey)
        ensures
            k@ == key_of(self@),
    {
        proof {
            use_type_invariant(self);
        }
        GtinKey::zeroing_last(self.0)
    }

    /// The check digit the value actually carries, as `0..=9`.
    pub fn check_digit(&self) -> (d: u8)
        ensures
            d == digit_value(self@[13]),
            d <= 9,
    {
        proof {
            use_type_invariant(self);
        }
        self.0[13] - 48u8
    }

    /// The check digit GS1 Mod-10 says it should carry, as `0..=9`.
    pub fn expected_check_digit(&self) -> (d: u8)
        ensures
            d == mod10_value(self@.take(13)),
            d <= 9,
    {
        proof {
            use_type_invariant(self);
        }
        check_digit(&self.body()) - 48u8
    }

    /// Whether the check digit is correct. A `false` is a classification, not
    /// an error: variable-weight in-store codes fail this on purpose.
    pub fn check_digit_is_valid(&self) -> (b: bool)
        ensures
            b == check_digit_valid(self@),
    {
        proof {
            use_type_invariant(self);
        }
        let expected = check_digit(&self.body());
        proof {
            let c = self@;
            assert(c[13] == self.0@[13] as char);
            assert(mod10_char(c.take(13)) == (expected as int) as char);
        }
        self.0[13] == expected
    }

    /// The same first thirteen digits with a correct check digit appended.
    ///
    /// Export use only, and think first: this changes which product the code
    /// identifies whenever the original check digit was not a mistake.
    pub fn with_recomputed_check_digit(&self) -> (g: Gtin14)
        ensures
            g@ == self@.update(13, mod10_char(self@.take(13))),
    {
        proof {
            use_type_invariant(self);
        }
        let mut out = self.0;
        out[13] = check_digit(&self.body());
        let g = Gtin14(out);
        proof {
            assert(g@ =~= self@.update(13, mod10_char(self@.take(13))));
        }
        g
    }

    /// The GTIN-14 indicator digit, when the value actually has one: `None`
    /// for fewer than fourteen significant digits, where the leading digit is
    /// padding rather than an indicator.
    pub fn indicator(&self) -> (i: Option<Indicator>)
        ensures
            i == indicator_opt(self@),
    {
        proof {
            use_type_invariant(self);
        }
        if self.significant_digits() == 14 {
            Some(Indicator::from_digit(self.0[0] - 48u8))
        } else {
            None
        }
    }

    /// Whether the last `n` digits are all zeros.
    pub(crate) fn ends_with_zeros(&self, n: usize) -> (b: bool)
        requires
            n <= 14,
        ensures
            b == forall|i: int| 14 - n <= i < 14 ==> self@[i] == '0',
    {
        proof {
            use_type_invariant(self);
        }
        let mut i: usize = 14 - n;
        while i < 14
            invariant
                14 - n <= i <= 14,
                forall|j: int| 14 - n <= j < i ==> self@[j] == '0',
            decreases 14 - i,
        {
            proof {
                assert(self@[i as int] == self.0@[i as int] as char);
            }
            if self.0[i] != 48u8 {
                return false;
            }
            i = i + 1;
        }
        true
    }

    /// What GS1 has allocated this number range for.
    pub fn allocation(&self) -> (a: Allocation)
        ensures
            a == allocation_of(self@),
    {
        proof {
            use_type_invariant(self);
        }
        match self.encoding() {
            Encoding::Gtin8 => Allocation::from_gs1_8_prefix(&self.0),
            _ => Allocation::from_gs1_prefix(&self.0),
        }
    }
}

} // verus!
