//! Names, tables and small answers, each with an exact expected value.

use barkod::chars::{char_kind, classify_char, CharKind};
use barkod::hash::polynomial_hash;
use std::borrow::Cow;
use barkod::{key, key_strings, parse, store_form_many, Allocation, Encoding, GtinKey, Indicator, Reason};

fn allocation(input: &str) -> Allocation {
    parse(input).gtin().unwrap().allocation()
}

#[test]
fn general_prefix_table_rows() {
    assert_eq!(allocation("10000000000000"), Allocation::RestrictedCirculationCompany);
    assert_eq!(allocation("10000012345675"), Allocation::UnusedForGtin8);
    assert_eq!(allocation("00012345678905"), Allocation::UpcCompanyPrefix);
    assert_eq!(allocation("00212345678901"), Allocation::RestrictedCirculationRegion);
    assert_eq!(allocation("00312345678901"), Allocation::UpcCompanyPrefix);
    assert_eq!(allocation("00412345678901"), Allocation::RestrictedCirculationCompany);
    assert_eq!(allocation("00512345678901"), Allocation::ReservedGs1Us);
    assert_eq!(allocation("00612345678901"), Allocation::UpcCompanyPrefix);
    assert_eq!(allocation("01012345678901"), Allocation::CompanyPrefix);
    assert_eq!(allocation("02012345678901"), Allocation::RestrictedCirculationRegion);
    assert_eq!(allocation("07350053850019"), Allocation::CompanyPrefix);
    assert_eq!(allocation("09511234567890"), Allocation::EpcGeneralManager);
    assert_eq!(allocation("09521234567890"), Allocation::Demonstration);
    assert_eq!(allocation("09761234567890"), Allocation::CompanyPrefix);
    assert_eq!(allocation("09771234567890"), Allocation::Issn);
    assert_eq!(allocation("09781234567890"), Allocation::Isbn);
    assert_eq!(allocation("09790123456785"), Allocation::Ismn);
    assert_eq!(allocation("09791234567890"), Allocation::Isbn);
    assert_eq!(allocation("09801234567890"), Allocation::RefundReceipt);
    assert_eq!(allocation("09811234567890"), Allocation::Coupon);
    assert_eq!(allocation("09851234567890"), Allocation::ReservedCoupon);
    assert_eq!(allocation("09912345678901"), Allocation::Coupon);
}

#[test]
fn gtin8_prefix_table_rows() {
    assert_eq!(allocation("00000000001234"), Allocation::RestrictedCirculationCompany);
    assert_eq!(allocation("00000012345670"), Allocation::Gtin8Issuance);
    assert_eq!(allocation("00000025012345"), Allocation::RestrictedCirculationCompany);
    assert_eq!(allocation("00000095212345"), Allocation::Demonstration);
    assert_eq!(allocation("00000097612345"), Allocation::Gtin8Issuance);
    assert_eq!(allocation("00000097712345"), Allocation::ReservedFutureUse);
}

#[test]
fn allocation_words() {
    assert_eq!(
        Allocation::RestrictedCirculationRegion.description(),
        "Restricted Circulation Numbers within a geographic region"
    );
    assert_eq!(Allocation::Isbn.description(), "International ISBN Agency, for books");
    assert_eq!(Allocation::UpcCompanyPrefix.name(), "upc_company_prefix");
    assert_eq!(Allocation::ReservedFutureUse.name(), "reserved_future_use");
    assert!(Allocation::RestrictedCirculationCompany.is_restricted_circulation());
    assert!(!Allocation::CompanyPrefix.is_restricted_circulation());
    assert!(Allocation::RefundReceipt.is_publication_or_coupon());
    assert!(!Allocation::Demonstration.is_publication_or_coupon());
}

#[test]
fn encoding_widths_and_labels() {
    assert_eq!(Encoding::Gtin8.digits(), 8);
    assert_eq!(Encoding::Gtin12.digits(), 12);
    assert_eq!(Encoding::Gtin13.digits(), 13);
    assert_eq!(Encoding::Gtin14.digits(), 14);
    assert_eq!(Encoding::Gtin8.label(), "GTIN-8");
    assert_eq!(Encoding::Gtin13.label(), "GTIN-13");
}

#[test]
fn indicator_digits_and_names() {
    let g = parse("51234567890128").gtin().unwrap();
    assert_eq!(g.indicator(), Some(Indicator::Grouping(5)));
    assert_eq!(Indicator::Grouping(5).digit(), 5);
    assert_eq!(Indicator::Grouping(5).name(), "grouping");
    assert_eq!(Indicator::VariableMeasure.digit(), 9);
    assert_eq!(Indicator::VariableMeasure.name(), "variable_measure");
}

#[test]
fn reason_words() {
    assert_eq!(Reason::Empty.message(), "The cell is empty");
    assert_eq!(
        Reason::TooLong { digits: 18 }.message(),
        "More than 14 digits — not a GTIN"
    );
    assert_eq!(Reason::NonNumeric.name(), "non_numeric");
    assert_eq!(Reason::TooShort { digits: 3 }.name(), "too_short");
    assert_eq!(Reason::TooShort { digits: 3 }.digit_count(), Some(3));
    assert_eq!(Reason::TooLong { digits: 18 }.digit_count(), Some(18));
    assert_eq!(Reason::Empty.digit_count(), None);
}

#[test]
fn cleaning_summaries() {
    assert_eq!(
        parse("07350053850019").cleaning().unwrap().summary(),
        "nothing removed"
    );
    assert_eq!(
        parse(" 7-350053850019").cleaning().unwrap().summary(),
        "whitespace removed, dashes removed"
    );
    assert_eq!(
        parse("7318690123456.0").cleaning().unwrap().summary(),
        "fractional part dropped"
    );
    assert_eq!(
        parse(" 7-318690123456.0").cleaning().unwrap().summary(),
        "whitespace removed, dashes removed, fractional part dropped"
    );
}

#[test]
fn characters_are_classified_in_order() {
    assert_eq!(char_kind('7'), CharKind::Digit);
    assert_eq!(char_kind(' '), CharKind::Blank);
    assert_eq!(char_kind('\u{A0}'), CharKind::Blank);
    assert_eq!(char_kind('\u{2003}'), CharKind::Blank);
    assert_eq!(char_kind('\u{FEFF}'), CharKind::Blank);
    assert_eq!(char_kind('\u{2212}'), CharKind::Dash);
    assert_eq!(char_kind(','), CharKind::DecimalMark);
    assert_eq!(char_kind('x'), CharKind::Other);
    assert_eq!(char_kind('\u{0663}'), CharKind::Other);
    assert_eq!(classify_char('q', true), CharKind::Blank);
    assert_eq!(classify_char('5', true), CharKind::Digit);
    assert_eq!(classify_char('-', false), CharKind::Dash);
}

#[test]
fn whitespace_of_every_kind_is_formatting() {
    let p = parse("\u{2003}7350053850019\u{3000}\n");
    assert_eq!(p.gtin().unwrap().as_str(), "07350053850019");
    assert!(p.cleaning().unwrap().removed_whitespace());
}

#[test]
fn as_str_reads_the_digits() {
    let g = parse("12345670").gtin().unwrap();
    assert_eq!(g.as_str(), "00000012345670");
    assert_eq!(g.shortest(), "12345670");
    assert_eq!(key("12345670").unwrap().as_key_str(), "00000012345670");
    assert_eq!(key("12345675").unwrap().as_key_str(), "00000012345670");
}

#[test]
fn keys_convert_from_gtins() {
    let g = parse("7390525907745").gtin().unwrap();
    assert_eq!(GtinKey::from(g), g.key());
    assert_eq!(GtinKey::from(&g).as_key_str(), "07390525907740");
}

#[test]
fn column_helpers() {
    let column = vec![
        "7350053850019".to_string(),
        "lek".to_string(),
        "".to_string(),
        "073905259077450".to_string(),
    ];
    assert_eq!(
        store_form_many(&column),
        vec!["07350053850019", "lek", "", "073905259077450"]
    );
    assert_eq!(
        key_strings(&column),
        vec![Some("07350053850010".to_string()), None, None, None]
    );
}

#[test]
fn polynomial_hash_values() {
    assert_eq!(polynomial_hash(b""), 0);
    assert_eq!(polynomial_hash(b"a"), 97);
    assert_eq!(polynomial_hash(b"ab"), 97 * 31 + 98);
    let long = [b'9'; 40];
    let mut expected = 0u64;
    for b in long {
        expected = expected.wrapping_mul(31).wrapping_add(u64::from(b));
    }
    assert_eq!(polynomial_hash(&long), expected);
}

#[test]
fn measure_field_needs_all_three_signs() {
    // Restricted range and five zeros, but the check digit is right.
    assert!(!parse("02112800000000").gtin().unwrap().measure_field_looks_zeroed());
    // Restricted range, stale check digit, but the measure field is intact.
    let g = parse("02011030000010").gtin().unwrap();
    assert!(!g.check_digit_is_valid());
    assert!(!g.measure_field_looks_zeroed());
    // Five zeros and a stale check digit outside the restricted ranges.
    let h = parse("07350000000000").gtin().unwrap();
    assert!(!h.check_digit_is_valid());
    assert!(!h.measure_field_looks_zeroed());
}

#[test]
fn white_space_list_is_the_one_classified_blank() {
    let listed = [
        '\u{9}', '\u{A}', '\u{B}', '\u{C}', '\u{D}', ' ', '\u{85}', '\u{A0}', '\u{1680}',
        '\u{2000}', '\u{2001}', '\u{2002}', '\u{2003}', '\u{2004}', '\u{2005}', '\u{2006}',
        '\u{2007}', '\u{2008}', '\u{2009}', '\u{200A}', '\u{2028}', '\u{2029}', '\u{202F}',
        '\u{205F}', '\u{3000}',
    ];
    for c in listed {
        assert_eq!(char_kind(c), CharKind::Blank);
    }
    for c in ['\u{8}', '\u{E}', '\u{1F}', '\u{84}', '\u{180E}', '\u{200C}', '\u{3001}', 'l', '.'] {
        assert_ne!(char_kind(c), CharKind::Blank);
    }
}

#[test]
fn store_form_borrows_exactly_when_the_answer_is_the_input() {
    assert!(matches!(barkod::store_form("07350053850019"), Cow::Borrowed(_)));
    assert!(matches!(barkod::store_form("lek"), Cow::Borrowed(_)));
    assert!(matches!(barkod::store_form(""), Cow::Borrowed(_)));
    assert!(matches!(barkod::store_form("7350053850019"), Cow::Owned(_)));
    assert!(matches!(barkod::store_form(" 07350053850019"), Cow::Owned(_)));
    assert!(matches!(barkod::store_form("07350053850019.0"), Cow::Owned(_)));
}
