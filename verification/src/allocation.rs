//! What GS1 has allocated a number range for.
//!
//! Transcribed from the GS1 General Specifications, Release 23.0, Figure
//! 1.4.2-1 (Synopsis of GS1 Prefix ranges) and Figure 1.4.3-1 (Synopsis of
//! GS1-8 Prefixes). Two tables, because GS1 defines two: a GTIN-8's prefix is
//! read from its own table. This is structure, not a registry: it says what a
//! range is for, never which company or country owns a prefix.
use vstd::prelude::*;
use crate::ascii::ascii_chars;
use crate::check::{ascii_digits, digit_value};

verus! {

/// A GTIN-14 indicator digit. Only meaningful on a value with fourteen
/// significant digits.
#[derive(Debug, Clone, Copy, PartialEq, Eq, Hash)]
#[non_exhaustive]
pub enum Indicator {
    /// 1–8: a standard grouping of a retail item, such as a case or a pallet.
    Grouping(u8),
    /// 9: reserved for variable measure trade items.
    VariableMeasure,
}

/// The indicator that a leading digit stands for.
pub open spec fn indicator_of(digit: int) -> Indicator {
    if digit == 9 {
        Indicator::VariableMeasure
    } else {
        Indicator::Grouping(digit as u8)
    }
}

impl Indicator {
    /// The indicator that a leading digit `0..=9` stands for.
    pub(crate) fn from_digit(digit: u8) -> (i: Indicator)
        ensures
            i == indicator_of(digit as int),
    {
        if digit == 9 {
            Indicator::VariableMeasure
        } else {
            Indicator::Grouping(digit)
        }
    }

    /// The indicator digit itself.
    pub fn digit(&self) -> (d: u8)
        ensures
            d == match *self {
                Indicator::Grouping(g) => g,
                Indicator::VariableMeasure => 9u8,
            },
    {
        match self {
            Indicator::Grouping(digit) => *digit,
            Indicator::VariableMeasure => 9,
        }
    }

    /// A stable snake_case name: `"grouping"` or `"variable_measure"`.
    pub fn name(&self) -> (s: &'static str)
        ensures
            s@ == match *self {
                Indicator::Grouping(_) => "grouping"@,
                Indicator::VariableMeasure => "variable_measure"@,
            },
    {
        match self {
            Indicator::Grouping(_) => "grouping",
            Indicator::VariableMeasure => "variable_measure",
        }
    }
}

/// What a GS1 prefix range is allocated for. Total over both tables.
#[derive(Debug, Clone, Copy, PartialEq, Eq, Hash)]
#[non_exhaustive]
pub enum Allocation {
    /// Restricted Circulation Numbers within a company: in-store codes.
    RestrictedCirculationCompany,
    /// Restricted Circulation Numbers within a geographic region: the `2x`
    /// range, where in-store variable-weight items live.
    RestrictedCirculationRegion,
    /// An ordinary GS1 Company Prefix.
    CompanyPrefix,
    /// A GS1 Company Prefix from which a U.P.C. Company Prefix can be derived.
    UpcCompanyPrefix,
    /// Reserved by GS1 US for future use (`05`).
    ReservedGs1Us,
    /// Unused, to avoid collision with GTIN-8 (`0000001`–`0000099`).
    UnusedForGtin8,
    /// Used to issue GTIN-8s.
    Gtin8Issuance,
    /// General Manager Numbers for the EPC General Identifier scheme (`951`).
    EpcGeneralManager,
    /// Demonstrations and examples of the GS1 system (`952`).
    Demonstration,
    /// ISSN International Centre, for serial publications (`977`).
    Issn,
    /// International ISBN Agency, for books (`978`–`979`).
    Isbn,
    /// International ISMN Agency, for printed music (`9790`).
    Ismn,
    /// GS1 identification of refund receipts (`980`).
    RefundReceipt,
    /// GS1 coupon identification (`981`–`983`, `99`).
    Coupon,
    /// Reserved for future GS1 coupon identification (`984`–`989`).
    ReservedCoupon,
    /// Reserved for future use in the GTIN-8 table (`977`–`999`).
    ReservedFutureUse,
}

/// The number written by the first `k` digits of `s`.
pub open spec fn prefix_value(s: Seq<char>, k: int) -> int
    decreases k,
{
    if k <= 0 {
        0
    } else {
        prefix_value(s, k - 1) * 10 + digit_value(s[k - 1])
    }
}

/// Figure 1.4.2-1, read off the 13-digit body: the canonical GTIN-14 without
/// its leading character. One line per row of the figure.
pub open spec fn allocation_13(body: Seq<char>) -> Allocation {
    let p2 = prefix_value(body, 2);
    let p3 = prefix_value(body, 3);
    if digit_value(body[0]) == 0 {
        if prefix_value(body, 7) == 0 {
            Allocation::RestrictedCirculationCompany  // 0000000
        } else if prefix_value(body, 5) == 0 {
            Allocation::UnusedForGtin8  // 0000001–0000099
        } else if p3 <= 19 {
            Allocation::UpcCompanyPrefix  // 00001–00009, 0001–0009, 001–019
        } else if p2 == 2 {
            Allocation::RestrictedCirculationRegion  // 02
        } else if p2 == 4 {
            Allocation::RestrictedCirculationCompany  // 04
        } else if p2 == 5 {
            Allocation::ReservedGs1Us  // 05
        } else {
            Allocation::UpcCompanyPrefix  // 03, 06–09
        }
    } else if p2 <= 19 {
        Allocation::CompanyPrefix  // 10–19
    } else if p2 <= 29 {
        Allocation::RestrictedCirculationRegion  // 20–29
    } else if p2 == 99 {
        Allocation::Coupon  // 99
    } else if p3 <= 950 {
        Allocation::CompanyPrefix  // 300–950
    } else if p3 == 951 {
        Allocation::EpcGeneralManager
    } else if p3 == 952 {
        Allocation::Demonstration
    } else if p3 <= 976 {
        Allocation::CompanyPrefix  // 953–976
    } else if p3 == 977 {
        Allocation::Issn
    } else if p3 == 978 {
        Allocation::Isbn
    } else if p3 == 979 {
        if digit_value(body[3]) == 0 {
            Allocation::Ismn  // 9790
        } else {
            Allocation::Isbn
        }
    } else if p3 == 980 {
        Allocation::RefundReceipt
    } else if p3 <= 983 {
        Allocation::Coupon  // 981–983
    } else {
        Allocation::ReservedCoupon  // 984–989
    }
}

/// Figure 1.4.3-1, the GTIN-8 table, read off the eight digits.
pub open spec fn allocation_8(eight: Seq<char>) -> Allocation {
    let p3 = prefix_value(eight, 3);
    if p3 <= 99 {
        Allocation::RestrictedCirculationCompany
    } else if p3 <= 199 {
        Allocation::Gtin8Issuance
    } else if p3 <= 299 {
        Allocation::RestrictedCirculationCompany
    } else if p3 <= 951 {
        Allocation::Gtin8Issuance
    } else if p3 == 952 {
        Allocation::Demonstration
    } else if p3 <= 976 {
        Allocation::Gtin8Issuance
    } else {
        Allocation::ReservedFutureUse  // 977–999
    }
}

/// `a` is one of the restricted-circulation ranges.
pub open spec fn is_restricted(a: Allocation) -> bool {
    a == Allocation::RestrictedCirculationCompany || a == Allocation::RestrictedCirculationRegion
}

/// `a` is a publication (ISSN, ISBN, ISMN) or coupon and refund range.
pub open spec fn is_publication_or_coupon_range(a: Allocation) -> bool {
    a == Allocation::Issn || a == Allocation::Isbn || a == Allocation::Ismn || a == Allocation::Coupon
        || a == Allocation::ReservedCoupon || a == Allocation::RefundReceipt
}

/// GS1's own wording for a range.
pub open spec fn allocation_description(a: Allocation) -> Seq<char> {
    match a {
        Allocation::RestrictedCirculationCompany => "Restricted Circulation Numbers within a company"@,
        Allocation::RestrictedCirculationRegion => "Restricted Circulation Numbers within a geographic region"@,
        Allocation::CompanyPrefix => "GS1 Company Prefixes"@,
        Allocation::UpcCompanyPrefix => "GS1 Company Prefixes from which U.P.C. Company Prefixes can be derived"@,
        Allocation::ReservedGs1Us => "GS1 US reserved for future use"@,
        Allocation::UnusedForGtin8 => "Unused to avoid collision with GTIN-8"@,
        Allocation::Gtin8Issuance => "Used to issue GTIN-8s"@,
        Allocation::EpcGeneralManager => "General Manager Numbers for the EPC General Identifier (GID) scheme"@,
        Allocation::Demonstration => "Demonstrations and examples of the GS1 system"@,
        Allocation::Issn => "ISSN International Centre, for serial publications"@,
        Allocation::Isbn => "International ISBN Agency, for books"@,
        Allocation::Ismn => "International ISMN Agency, for printed music"@,
        Allocation::RefundReceipt => "GS1 identification of refund receipts"@,
        Allocation::Coupon => "GS1 coupon identification"@,
        Allocation::ReservedCoupon => "Reserved for future GS1 coupon identification"@,
        Allocation::ReservedFutureUse => "Reserved for future use"@,
    }
}

/// A stable snake_case name for a range.
pub open spec fn allocation_name(a: Allocation) -> Seq<char> {
    match a {
        Allocation::RestrictedCirculationCompany => "restricted_circulation_company"@,
        Allocation::RestrictedCirculationRegion => "restricted_circulation_region"@,
        Allocation::CompanyPrefix => "company_prefix"@,
        Allocation::UpcCompanyPrefix => "upc_company_prefix"@,
        Allocation::ReservedGs1Us => "reserved_gs1_us"@,
        Allocation::UnusedForGtin8 => "unused_for_gtin8"@,
        Allocation::Gtin8Issuance => "gtin8_issuance"@,
        Allocation::EpcGeneralManager => "epc_general_manager"@,
        Allocation::Demonstration => "demonstration"@,
        Allocation::Issn => "issn"@,
        Allocation::Isbn => "isbn"@,
        Allocation::Ismn => "ismn"@,
        Allocation::RefundReceipt => "refund_receipt"@,
        Allocation::Coupon => "coupon"@,
        Allocation::ReservedCoupon => "reserved_coupon"@,
        Allocation::ReservedFutureUse => "reserved_future_use"@,
    }
}

impl Allocation {
    /// True for both restricted-circulation ranges. A fact about the number,
    /// never a reason to refuse it.
    pub fn is_restricted_circulation(&self) -> (b: bool)
        ensures
            b == is_restricted(*self),
    {
        match self {
            Allocation::RestrictedCirculationCompany | Allocation::RestrictedCirculationRegion => true,
            _ => false,
        }
    }

    /// True when the range identifies something other than a trade item:
    /// books, serials, printed music, coupons, refund receipts.
    pub fn is_publication_or_coupon(&self) -> (b: bool)
        ensures
            b == is_publication_or_coupon_range(*self),
    {
        match self {
            Allocation::Issn | Allocation::Isbn | Allocation::Ismn | Allocation::Coupon
            | Allocation::ReservedCoupon | Allocation::RefundReceipt => true,
            _ => false,
        }
    }

    /// GS1's own wording for this range.
    pub fn description(&self) -> (s: &'static str)
        ensures
            s@ == allocation_description(*self),
    {
        match self {
            Allocation::RestrictedCirculationCompany => "Restricted Circulation Numbers within a company",
            Allocation::RestrictedCirculationRegion => "Restricted Circulation Numbers within a geographic region",
            Allocation::CompanyPrefix => "GS1 Company Prefixes",
            Allocation::UpcCompanyPrefix => "GS1 Company Prefixes from which U.P.C. Company Prefixes can be derived",
            Allocation::ReservedGs1Us => "GS1 US reserved for future use",
            Allocation::UnusedForGtin8 => "Unused to avoid collision with GTIN-8",
            Allocation::Gtin8Issuance => "Used to issue GTIN-8s",
            Allocation::EpcGeneralManager => "General Manager Numbers for the EPC General Identifier (GID) scheme",
            Allocation::Demonstration => "Demonstrations and examples of the GS1 system",
            Allocation::Issn => "ISSN International Centre, for serial publications",
            Allocation::Isbn => "International ISBN Agency, for books",
            Allocation::Ismn => "International ISMN Agency, for printed music",
            Allocation::RefundReceipt => "GS1 identification of refund receipts",
            Allocation::Coupon => "GS1 coupon identification",
            Allocation::ReservedCoupon => "Reserved for future GS1 coupon identification",
            Allocation::ReservedFutureUse => "Reserved for future use",
        }
    }

    /// A stable snake_case name for this range, such as `"company_prefix"`.
    pub fn name(&self) -> (s: &'static str)
        ensures
            s@ == allocation_name(*self),
    {
        match self {
            Allocation::RestrictedCirculationCompany => "restricted_circulation_company",
            Allocation::RestrictedCirculationRegion => "restricted_circulation_region",
            Allocation::CompanyPrefix => "company_prefix",
            Allocation::UpcCompanyPrefix => "upc_company_prefix",
            Allocation::ReservedGs1Us => "reserved_gs1_us",
            Allocation::UnusedForGtin8 => "unused_for_gtin8",
            Allocation::Gtin8Issuance => "gtin8_issuance",
            Allocation::EpcGeneralManager => "epc_general_manager",
            Allocation::Demonstration => "demonstration",
            Allocation::Issn => "issn",
            Allocation::Isbn => "isbn",
            Allocation::Ismn => "ismn",
            Allocation::RefundReceipt => "refund_receipt",
            Allocation::Coupon => "coupon",
            Allocation::ReservedCoupon => "reserved_coupon",
            Allocation::ReservedFutureUse => "reserved_future_use",
        }
    }

    /// Figure 1.4.2-1, read off the canonical digits past the first.
    pub(crate) fn from_gs1_prefix(digits: &[u8; 14]) -> (a: Allocation)
        requires
            ascii_digits(digits@, 14),
        ensures
            a == allocation_13(ascii_chars(digits@).skip(1)),
    {
        let ghost body = ascii_chars(digits@).skip(1);
        proof {
            assert forall|k: int| 0 <= k < 13 implies digit_value(#[trigger] body[k]) == digits@[k + 1] - 48 by {
                assert(body[k] == digits@[k + 1] as char);
            }
            reveal_with_fuel(prefix_value, 8);
        }
        let d0: u32 = (digits[1] - 48u8) as u32;
        let d1: u32 = (digits[2] - 48u8) as u32;
        let d2: u32 = (digits[3] - 48u8) as u32;
        let d3: u32 = (digits[4] - 48u8) as u32;
        let d4: u32 = (digits[5] - 48u8) as u32;
        let d5: u32 = (digits[6] - 48u8) as u32;
        let d6: u32 = (digits[7] - 48u8) as u32;
        let p2 = d0 * 10 + d1;
        let p3 = p2 * 10 + d2;

        if d0 == 0 {
            let p4 = p3 * 10 + d3;
            let p5 = p4 * 10 + d4;
            if p3 == 0 {
                if p4 == 0 {
                    if p5 == 0 {
                        let p7 = d5 * 10 + d6;
                        return if p7 == 0 {
                            Allocation::RestrictedCirculationCompany  // 0000000
                        } else {
                            Allocation::UnusedForGtin8  // 0000001–0000099
                        };
                    }
                    return Allocation::UpcCompanyPrefix;  // 00001–00009
                }
                return Allocation::UpcCompanyPrefix;  // 0001–0009
            }
            if p3 <= 19 {
                return Allocation::UpcCompanyPrefix;  // 001–019
            }
            return match p2 {
                2 => Allocation::RestrictedCirculationRegion,  // 02
                4 => Allocation::RestrictedCirculationCompany,  // 04
                5 => Allocation::ReservedGs1Us,  // 05
                _ => Allocation::UpcCompanyPrefix,  // 03, 06–09
            };
        }
        if p2 <= 19 {
            Allocation::CompanyPrefix
        } else if p2 <= 29 {
            Allocation::RestrictedCirculationRegion
        } else if p2 == 99 {
            Allocation::Coupon
        } else if p3 <= 950 {
            Allocation::CompanyPrefix
        } else if p3 == 951 {
            Allocation::EpcGeneralManager
        } else if p3 == 952 {
            Allocation::Demonstration
        } else if p3 <= 976 {
            Allocation::CompanyPrefix
        } else if p3 == 977 {
            Allocation::Issn
        } else if p3 == 978 {
            Allocation::Isbn
        } else if p3 == 979 {
            if d3 == 0 {
                Allocation::Ismn  // 9790, sub-allocated out of 979
            } else {
                Allocation::Isbn
            }
        } else if p3 == 980 {
            Allocation::RefundReceipt
        } else if p3 <= 983 {
            Allocation::Coupon
        } else {
            Allocation::ReservedCoupon  // 984–989
        }
    }

    /// Figure 1.4.3-1, read off the last eight canonical digits.
    pub(crate) fn from_gs1_8_prefix(digits: &[u8; 14]) -> (a: Allocation)
        requires
            ascii_digits(digits@, 14),
        ensures
            a == allocation_8(ascii_chars(digits@).skip(6)),
    {
        let ghost eight = ascii_chars(digits@).skip(6);
        proof {
            assert forall|k: int| 0 <= k < 8 implies digit_value(#[trigger] eight[k]) == digits@[k + 6] - 48 by {
                assert(eight[k] == digits@[k + 6] as char);
            }
            reveal_with_fuel(prefix_value, 4);
        }
        let p3: u32 = (digits[6] - 48u8) as u32 * 100 + (digits[7] - 48u8) as u32 * 10
            + (digits[8] - 48u8) as u32;
        if p3 <= 99 {
            Allocation::RestrictedCirculationCompany
        } else if p3 <= 199 {
            Allocation::Gtin8Issuance
        } else if p3 <= 299 {
            Allocation::RestrictedCirculationCompany
        } else if p3 <= 951 {
            Allocation::Gtin8Issuance
        } else if p3 == 952 {
            Allocation::Demonstration
        } else if p3 <= 976 {
            Allocation::Gtin8Issuance
        } else {
            Allocation::ReservedFutureUse
        }
    }
}

} // verus!
