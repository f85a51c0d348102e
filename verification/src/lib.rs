//! # barkod
//!
//! One implementation of what a GTIN is. barkod reads a string of digits and
//! answers questions about it: is this a GTIN, what is its canonical form,
//! what key should it match on, what has GS1 allocated its range for. It never
//! renders a barcode, never talks to a database, and never looks anything up.
//!
//! ## The law
//!
//! Every function agrees on the domain and differs only on the
//! transformation within it. The domain is 8 to 14 digits. Inside it,
//! transformations diverge freely: pad-only for the canonical form,
//! pad-and-zero-the-check-digit for the match key, drop-leading-zeros for the
//! shortest form. Outside it, the storage form hands back the raw input
//! untouched, and the match key does not exist.
//!
//! ## Classify, never reject
//!
//! An invalid check digit does not mean "not a GTIN": variable-weight
//! in-store codes and internal PLUs are live products that fail GS1 Mod-10 by
//! design. [`Gtin14`] exists regardless, and
//! [`Gtin14::check_digit_is_valid`] is a question you ask it.
//!
//! ## A GTIN is not a primary key
//!
//! It is neither unique nor stable: variants share one, suppliers reuse them,
//! and one item can carry several. Match on [`GtinKey`], store [`Gtin14`], and
//! keep your own primary key.
use vstd::prelude::*;
use std::borrow::Cow;
use vstd::string::StringSliceAdditionalSpecFns;

pub mod allocation;
pub mod ascii;
pub mod chars;
pub mod check;
pub mod clean;
pub mod encoding;
pub mod gtin14;
pub mod hash;
pub mod heuristics;
pub mod key;
pub mod laws;
pub mod parse;

pub use allocation::{Allocation, Indicator};
pub use clean::Cleaning;
pub use encoding::Encoding;
pub use gtin14::Gtin14;
pub use key::GtinKey;
pub use parse::{parse, Parsed, Reason, DOMAIN_MAX_DIGITS, DOMAIN_MIN_DIGITS};

use crate::chars::{is_digit_char, kind_of, CharKind};
use crate::clean::{cleaning_of, integer_digits, is_mark_in, mark_index};
use crate::laws::{law_canonical_form, lemma_digits_of_all_digits};
use crate::gtin14::pad14;
use crate::parse::{canonical_of, in_domain, key_for, stored_form};

verus! {

broadcast use vstd::string::group_string_axioms;

/// A value in the domain that needed no cleaning is nothing but its digits,
/// and so is its own canonical form once it has fourteen of them.
proof fn lemma_pristine_value(s: Seq<char>)
    requires
        in_domain(s),
        !cleaning_of(s).0,
        !cleaning_of(s).1,
        !cleaning_of(s).2,
    ensures
        forall|i: int| 0 <= i < s.len() ==> is_digit_char(#[trigger] s[i]),
        integer_digits(s) == s,
        8 <= s.len() <= 14,
        s.len() == 14 ==> canonical_of(s) == s,
{
    assert forall|i: int| 0 <= i < s.len() implies is_digit_char(#[trigger] s[i]) by {
        assert(kind_of(s[i]) != CharKind::Other);
        assert(kind_of(s[i]) != CharKind::Blank);
        assert(kind_of(s[i]) != CharKind::Dash);
        assert(!is_mark_in(s, i));
    }
    assert(mark_index(s) == s.len());
    assert(s.take(s.len() as int) =~= s);
    lemma_digits_of_all_digits(s);
    if s.len() == 14 {
        assert(pad14(s) =~= s);
    }
}

/// An input that is already its own canonical form needed no cleaning and
/// is fourteen bytes long.
proof fn lemma_canonical_input(s: &str)
    requires
        in_domain(s@),
        canonical_of(s@) == s@,
    ensures
        !cleaning_of(s@).0,
        !cleaning_of(s@).1,
        !cleaning_of(s@).2,
        s.spec_bytes().len() == 14,
{
    law_canonical_form(s@);
    let c = s@;
    assert forall|i: int| 0 <= i < c.len() implies kind_of(#[trigger] c[i]) == CharKind::Digit by {
        assert('0' <= c[i] <= '9');
    }
    assert forall|i: int| !#[trigger] is_mark_in(c, i) by {
        if 0 <= i < c.len() {
            assert(kind_of(c[i]) == CharKind::Digit);
        }
    }
    assert(vstd::string::is_ascii(s));
}

/// What to write when storing this value.
///
/// The canonical GTIN-14 when the input is in the domain; the input itself,
/// untouched, when it is not. Borrows rather than allocates whenever the
/// answer is already the input, and only then. Never returns an empty
/// string for a non-empty input: blanking junk is how it becomes
/// indistinguishable from missing data.
pub fn store_form(input: &str) -> (s: Cow<'_, str>)
    ensures
        s@ == stored_form(input@),
        (s is Borrowed) <==> s@ == input@,
{
    match parse(input) {
        Parsed::Gtin { value, raw, cleaning } => {
            if cleaning.is_pristine() && raw.len() == 14 {
                proof {
                    lemma_pristine_value(input@);
                    assert(vstd::string::is_ascii(raw));
                }
                Cow::Borrowed(raw)
            } else {
                proof {
                    if canonical_of(input@) == input@ {
                        lemma_canonical_input(input);
                    }
                }
                Cow::Owned(value.as_str().to_owned())
            }
        },
        Parsed::NotGtin { raw, .. } => Cow::Borrowed(raw),
    }
}

/// The match key for this value, or `None` outside the domain.
///
/// `None` means "this row cannot match anything": the honest answer for a
/// blank cell, a non-numeric sentinel, or an 18-digit identifier. An
/// over-length value truncated into a real product's key would attach that
/// product to the wrong row, silently.
pub fn key(input: &str) -> (k: Option<GtinKey>)
    ensures
        match key_for(input@) {
            Some(expected) => k matches Some(key) && key@ == expected,
            None => k is None,
        },
{
    parse(input).key()
}

/// A stored form as an owned string.
fn into_string(s: Cow<'_, str>) -> (o: String)
    ensures
        o@ == s@,
{
    match s {
        Cow::Borrowed(b) => b.to_owned(),
        Cow::Owned(o) => o,
    }
}

/// Storage forms for a whole column, in order.
pub fn store_form_many(inputs: &[String]) -> (out: Vec<String>)
    ensures
        out.len() == inputs.len(),
        forall|i: int| 0 <= i < inputs.len() ==> #[trigger] out[i]@ == stored_form(inputs[i]@),
{
    let mut out: Vec<String> = Vec::new();
    let mut i: usize = 0;
    while i < inputs.len()
        invariant
            0 <= i <= inputs.len(),
            out.len() == i,
            forall|j: int| 0 <= j < i ==> #[trigger] out[j]@ == stored_form(inputs[j]@),
        decreases inputs.len() - i,
    {
        out.push(into_string(store_form(inputs[i].as_str())));
        i = i + 1;
    }
    out
}

/// Match keys for a whole column, as strings, with `None` where there is no
/// key. The one place the type distinction is dropped, on purpose: a
/// dataframe column needs strings, so the name says so.
pub fn key_strings(inputs: &[String]) -> (out: Vec<Option<String>>)
    ensures
        out.len() == inputs.len(),
        forall|i: int| 0 <= i < inputs.len() ==> match key_for(#[trigger] inputs[i]@) {
            Some(k) => out[i] matches Some(s) && s@ == k,
            None => out[i] is None,
        },
{
    let mut out: Vec<Option<String>> = Vec::new();
    let mut i: usize = 0;
    while i < inputs.len()
        invariant
            0 <= i <= inputs.len(),
            out.len() == i,
            forall|j: int| 0 <= j < i ==> match key_for(#[trigger] inputs[j]@) {
                Some(k) => out[j] matches Some(s) && s@ == k,
                None => out[j] is None,
            },
        decreases inputs.len() - i,
    {
        let text = match key(inputs[i].as_str()) {
            Some(k) => Some(k.as_key_str().to_owned()),
            None => None,
        };
        out.push(text);
        i = i + 1;
    }
    out
}

} // verus!
