//! [`parse`]: the one door into the GTIN domain.
use vstd::prelude::*;
use crate::ascii::ascii_chars;
use crate::check::ascii_digits;
use crate::chars::is_digit_char;
use crate::clean::{clean, cleaning_of, holds_prefix, integer_digits, numeric, Cleaning};
use crate::gtin14::{key_of, pad14, Gtin14};
use crate::key::GtinKey;

verus! {

/// The GTIN domain: 8 digits (GTIN-8, the shortest real encoding) through 14
/// (GTIN-14, the canonical form).
pub const DOMAIN_MIN_DIGITS: usize = 8;

/// See [`DOMAIN_MIN_DIGITS`].
pub const DOMAIN_MAX_DIGITS: usize = 14;

/// Why a value is not a GTIN.
///
/// A blank cell is missing and `lek` is junk; collapsing both to an empty
/// string is how one becomes indistinguishable from the other.
#[derive(Debug, Clone, Copy, PartialEq, Eq, Hash)]
#[non_exhaustive]
pub enum Reason {
    /// Nothing to read: empty, whitespace, or only dashes.
    Empty,
    /// Held a character that is neither a digit nor formatting.
    NonNumeric,
    /// Fewer than 8 digits, so not a truncated GTIN: malformed data.
    TooShort {
        /// How many digits were found.
        digits: usize,
    },
    /// More than 14 digits, so a different identifier, not a padded GTIN.
    /// Truncating to fit would manufacture a valid-looking wrong answer, so
    /// the length is reported and the value handed back untouched.
    TooLong {
        /// How many digits were found.
        digits: usize,
    },
}

/// The sentence shown to a user for each reason.
pub open spec fn reason_message(r: Reason) -> Seq<char> {
    match r {
        Reason::Empty => "The cell is empty"@,
        Reason::NonNumeric => "Not a number — the cell holds more than digits"@,
        Reason::TooShort { .. } => "Fewer than 8 digits — too short to be a GTIN"@,
        Reason::TooLong { .. } => "More than 14 digits — not a GTIN"@,
    }
}

/// The snake_case name of each reason.
pub open spec fn reason_name(r: Reason) -> Seq<char> {
    match r {
        Reason::Empty => "empty"@,
        Reason::NonNumeric => "non_numeric"@,
        Reason::TooShort { .. } => "too_short"@,
        Reason::TooLong { .. } => "too_long"@,
    }
}

impl Reason {
    /// A sentence fit to show a user next to their own spreadsheet cell.
    pub fn message(&self) -> (s: &'static str)
        ensures
            s@ == reason_message(*self),
    {
        match self {
            Reason::Empty => "The cell is empty",
            Reason::NonNumeric => "Not a number — the cell holds more than digits",
            Reason::TooShort { .. } => "Fewer than 8 digits — too short to be a GTIN",
            Reason::TooLong { .. } => "More than 14 digits — not a GTIN",
        }
    }

    /// A stable snake_case name: `"empty"`, `"non_numeric"`, `"too_short"`
    /// or `"too_long"`.
    pub fn name(&self) -> (s: &'static str)
        ensures
            s@ == reason_name(*self),
    {
        match self {
            Reason::Empty => "empty",
            Reason::NonNumeric => "non_numeric",
            Reason::TooShort { .. } => "too_short",
            Reason::TooLong { .. } => "too_long",
        }
    }

    /// How many digits were found, when the count is why the value was
    /// refused.
    pub fn digit_count(&self) -> (n: Option<usize>)
        ensures
            n == match *self {
                Reason::TooShort { digits } => Some(digits),
                Reason::TooLong { digits } => Some(digits),
                _ => None::<usize>,
            },
    {
        match self {
            Reason::TooShort { digits } | Reason::TooLong { digits } => Some(*digits),
            _ => None,
        }
    }
}

/// Why `s` is not a GTIN, or `None` when it is one.
pub open spec fn refusal(s: Seq<char>) -> Option<Reason> {
    if !numeric(s) {
        Some(Reason::NonNumeric)
    } else {
        let n = integer_digits(s).len();
        if n == 0 {
            Some(Reason::Empty)
        } else if n < 8 {
            Some(Reason::TooShort { digits: n as usize })
        } else if n > 14 {
            Some(Reason::TooLong { digits: n as usize })
        } else {
            None
        }
    }
}

/// `s` is inside the GTIN domain: a number of 8 to 14 digits.
pub open spec fn in_domain(s: Seq<char>) -> bool {
    refusal(s) is None
}

/// The canonical GTIN-14 of a value in the domain.
pub open spec fn canonical_of(s: Seq<char>) -> Seq<char> {
    pad14(integer_digits(s))
}

/// What to store for `s`: the canonical form inside the domain, `s` itself,
/// untouched, outside it.
pub open spec fn stored_form(s: Seq<char>) -> Seq<char> {
    if in_domain(s) {
        canonical_of(s)
    } else {
        s
    }
}

/// The match key of `s`, or `None` outside the domain.
pub open spec fn key_for(s: Seq<char>) -> Option<Seq<char>> {
    if in_domain(s) {
        Some(key_of(canonical_of(s)))
    } else {
        None
    }
}

/// The result of reading one cell. Both arms keep `raw`, the input verbatim:
/// a row that fails to parse still has to be findable in the user's file.
#[derive(Debug, Clone, PartialEq, Eq)]
#[non_exhaustive]
pub enum Parsed<'a> {
    /// Inside the domain.
    Gtin {
        /// The canonical form.
        value: Gtin14,
        /// The input, verbatim.
        raw: &'a str,
        /// What had to be removed to read it.
        cleaning: Cleaning,
    },
    /// Outside the domain, with the reason and the input kept intact.
    NotGtin {
        /// The input, verbatim.
        raw: &'a str,
        /// Why it is not a GTIN.
        reason: Reason,
    },
}

impl<'a> Parsed<'a> {
    /// The input kept in either arm.
    pub open spec fn raw_text(self) -> Seq<char> {
        match self {
            Parsed::Gtin { raw, .. } => raw@,
            Parsed::NotGtin { raw, .. } => raw@,
        }
    }

    /// The canonical form, if this is a GTIN.
    pub open spec fn canonical(self) -> Option<Seq<char>> {
        match self {
            Parsed::Gtin { value, .. } => Some(value@),
            Parsed::NotGtin { .. } => None,
        }
    }

    /// The input, verbatim, whichever arm this is.
    pub fn raw(&self) -> (r: &'a str)
        ensures
            r@ == self.raw_text(),
    {
        match self {
            Parsed::Gtin { raw, .. } => raw,
            Parsed::NotGtin { raw, .. } => raw,
        }
    }

    /// The canonical form, if this is a GTIN.
    pub fn gtin(&self) -> (g: Option<Gtin14>)
        ensures
            g == match *self {
                Parsed::Gtin { value, .. } => Some(value),
                Parsed::NotGtin { .. } => None::<Gtin14>,
            },
    {
        match self {
            Parsed::Gtin { value, .. } => Some(*value),
            Parsed::NotGtin { .. } => None,
        }
    }

    /// Why this is not a GTIN, if it is not.
    pub fn reason(&self) -> (r: Option<Reason>)
        ensures
            r == match *self {
                Parsed::Gtin { .. } => None::<Reason>,
                Parsed::NotGtin { reason, .. } => Some(reason),
            },
    {
        match self {
            Parsed::NotGtin { reason, .. } => Some(*reason),
            Parsed::Gtin { .. } => None,
        }
    }

    /// What had to be removed, if this is a GTIN.
    pub fn cleaning(&self) -> (c: Option<Cleaning>)
        ensures
            c == match *self {
                Parsed::Gtin { cleaning, .. } => Some(cleaning),
                Parsed::NotGtin { .. } => None::<Cleaning>,
            },
    {
        match self {
            Parsed::Gtin { cleaning, .. } => Some(*cleaning),
            Parsed::NotGtin { .. } => None,
        }
    }

    /// Whether this is a GTIN.
    pub fn is_gtin(&self) -> (b: bool)
        ensures
            b == (*self is Gtin),
    {
        match self {
            Parsed::Gtin { .. } => true,
            Parsed::NotGtin { .. } => false,
        }
    }

    /// The match key, or `None` outside the domain.
    pub fn key(&self) -> (k: Option<GtinKey>)
        ensures
            match *self {
                Parsed::Gtin { value, .. } => k matches Some(key) && key@ == key_of(value@),
                Parsed::NotGtin { .. } => k is None,
            },
    {
        match self {
            Parsed::Gtin { value, .. } => Some(value.key()),
            Parsed::NotGtin { .. } => None,
        }
    }

    /// What to write when storing this value: the canonical form for a GTIN,
    /// the raw input untouched for anything else. Never empty unless the
    /// input was.
    pub fn store_form(&self) -> (s: &str)
        ensures
            s@ == match *self {
                Parsed::Gtin { value, .. } => value@,
                Parsed::NotGtin { raw, .. } => raw@,
            },
    {
        match self {
            Parsed::Gtin { value, .. } => value.as_str(),
            Parsed::NotGtin { raw, .. } => raw,
        }
    }
}

/// The digits that cleaning kept are the integer digits of the input.
proof fn lemma_cleaned_digits(digits: Seq<u8>, d: Seq<char>, n: int)
    requires
        0 < n <= 14,
        n == d.len(),
        digits.len() == 14,
        holds_prefix(digits, d),
        forall|k: int| 0 <= k < d.len() ==> is_digit_char(#[trigger] d[k]),
    ensures
        ascii_digits(digits, n),
        ascii_chars(digits).take(n) == d,
{
    assert forall|k: int| 0 <= k < n implies 48 <= #[trigger] digits[k] <= 57 by {
        assert(digits[k] == d[k] as u8);
        assert(is_digit_char(d[k]));
    }
    assert forall|k: int| 0 <= k < n implies ascii_chars(digits).take(n)[k] == d[k] by {
        assert(digits[k] == d[k] as u8);
        assert(is_digit_char(d[k]));
    }
    assert(ascii_chars(digits).take(n) =~= d);
}

/// Read one cell. The primary entry point, and the only place the 8–14
/// domain is decided. Allocates nothing.
///
/// Inside the domain the value is zero-padded to fourteen digits with its
/// check digit kept; outside it the input is kept with the reason.
pub fn parse(input: &str) -> (p: Parsed<'_>)
    ensures
        p.raw_text() == input@,
        match p {
            Parsed::Gtin { value, cleaning, .. } => {
                &&& in_domain(input@)
                &&& value@ == canonical_of(input@)
                &&& cleaning@ == cleaning_of(input@)
            },
            Parsed::NotGtin { reason, .. } => refusal(input@) == Some(reason),
        },
{
    let cleaned = match clean(input) {
        Ok(c) => c,
        Err(_) => {
            return Parsed::NotGtin { raw: input, reason: Reason::NonNumeric };
        },
    };
    let n = cleaned.count;
    if n == 0 {
        Parsed::NotGtin { raw: input, reason: Reason::Empty }
    } else if n < DOMAIN_MIN_DIGITS {
        Parsed::NotGtin { raw: input, reason: Reason::TooShort { digits: n } }
    } else if n > DOMAIN_MAX_DIGITS {
        Parsed::NotGtin { raw: input, reason: Reason::TooLong { digits: n } }
    } else {
        proof {
            let d = integer_digits(input@);
            assert forall|k: int| 0 <= k < d.len() implies is_digit_char(#[trigger] d[k]) by {
                let s = input@;
                s.take(crate::clean::mark_index(s)).lemma_filter_pred(|c: char| is_digit_char(c), k);
            }
            lemma_cleaned_digits(cleaned.digits@, d, n as int);
        }
        Parsed::Gtin {
            value: Gtin14::from_digits(&cleaned.digits, n),
            raw: input,
            cleaning: cleaned.cleaning,
        }
    }
}

} // verus!
