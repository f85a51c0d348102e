//! Inferences, kept apart from facts.
//!
//! Allocation and encoding are definitional: GS1 says what a range is for.
//! The two predicates here are patterns observed in production data, named as
//! guesses (`looks_like`, not `is`) so a call site cannot mistake one for a
//! fact. That is why there is no `VariableWeight` or `InternalPlu`
//! classification: those names assert something the data cannot prove.
use vstd::prelude::*;
use crate::allocation::is_restricted;
use crate::gtin14::{allocation_of, check_digit_valid, significant, Gtin14};

verus! {

/// The measure field of `c`, its last five digits, is all zeros.
pub open spec fn measure_field_zeroed(c: Seq<char>) -> bool {
    forall|i: int| 9 <= i < 14 ==> c[i] == '0'
}

impl Gtin14 {
    /// Fewer significant digits than the shortest GS1 encoding can express,
    /// so no GS1 member organisation issued it. In a product register these
    /// turn out to be in-store PLU codes. A guess.
    pub fn looks_like_internal_code(&self) -> (b: bool)
        ensures
            b == (significant(self@) < 8),
    {
        self.significant_digits() < 8
    }

    /// A restricted-circulation code whose trailing measure field looks
    /// zeroed, leaving the check digit stale: the shape of a variable-weight
    /// item whose weight was zeroed on export. A guess, and a market-specific
    /// one: the range alone means nothing, the combination is suggestive.
    pub fn measure_field_looks_zeroed(&self) -> (b: bool)
        ensures
            b == (is_restricted(allocation_of(self@)) && measure_field_zeroed(self@)
                && !check_digit_valid(self@)),
    {
        self.allocation().is_restricted_circulation() && self.ends_with_zeros(5)
            && !self.check_digit_is_valid()
    }
}

} // verus!
