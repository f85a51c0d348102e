//! Every value here was read out of a live retail database.

use barkod::{parse, Allocation, Encoding, Indicator};

fn gtin(input: &str) -> barkod::Gtin14 {
    parse(input)
        .gtin()
        .expect("fixture should be in the domain")
}

#[test]
fn internal_plu_codes() {
    for raw in [
        "00000000000420",
        "00000000000450",
        "00000000000672",
        "00000000014150",
    ] {
        let g = gtin(raw);
        assert!(g.looks_like_internal_code(), "{raw} should look internal");
        assert!(g.significant_digits() < 8);
        assert_eq!(g.as_str(), raw);
    }
}

#[test]
fn variable_weight_codes_with_a_zeroed_measure_field() {
    for (raw, expected_check) in [
        ("02011030000000", 5),
        ("02115130000000", 9),
        ("02115790000000", 5),
        ("02115830000000", 2),
    ] {
        let g = gtin(raw);
        assert!(
            !g.check_digit_is_valid(),
            "{raw} check digit should be stale"
        );
        assert_eq!(g.expected_check_digit(), expected_check);
        assert_eq!(g.allocation(), Allocation::RestrictedCirculationRegion);
        assert!(g.allocation().is_restricted_circulation());
        assert!(g.measure_field_looks_zeroed());
    }
}

#[test]
fn a_valid_check_digit_in_the_same_range_is_not_flagged() {
    let g = gtin("02112800000000");
    assert!(g.check_digit_is_valid());
    assert_eq!(g.allocation(), Allocation::RestrictedCirculationRegion);
    assert!(!g.measure_field_looks_zeroed());
}

#[test]
fn books() {
    for raw in ["09789137163666", "09789113133492", "09789180663069"] {
        let g = gtin(raw);
        assert_eq!(g.allocation(), Allocation::Isbn);
        assert!(g.allocation().is_publication_or_coupon());
        assert_eq!(g.encoding(), Encoding::Gtin13);
    }
}

#[test]
fn variable_measure_trade_items() {
    for raw in [
        "91599903387551",
        "92002511910077",
        "94260052151764",
        "95998200567189",
    ] {
        let g = gtin(raw);
        assert_eq!(g.significant_digits(), 14);
        assert_eq!(g.indicator(), Some(Indicator::VariableMeasure));
        assert_eq!(g.encoding(), Encoding::Gtin14);
    }
}

#[test]
fn padded_values_have_no_indicator() {
    assert_eq!(gtin("09789137163666").indicator(), None);
    assert_eq!(gtin("00010700021526").indicator(), None);
}

#[test]
fn nine_ten_and_eleven_significant_digits_shrink_to_gtin12() {
    for raw in ["00055653670209", "00041143025826", "00021723339994"] {
        let g = gtin(raw);
        assert_eq!(g.significant_digits(), 11);
        assert_eq!(g.encoding(), Encoding::Gtin12);
        assert_eq!(g.shortest().len(), 12);
        assert_eq!(g.shortest(), &raw[2..]);
    }
}

#[test]
fn gtin8_uses_its_own_prefix_table() {
    let issued = gtin("00000010066096");
    assert_eq!(issued.encoding(), Encoding::Gtin8);
    assert_eq!(issued.shortest(), "10066096");
    assert_eq!(issued.allocation(), Allocation::Gtin8Issuance);

    let in_store = gtin("00000020130435");
    assert_eq!(in_store.encoding(), Encoding::Gtin8);
    assert_eq!(
        in_store.allocation(),
        Allocation::RestrictedCirculationCompany
    );
    assert!(in_store.allocation().is_restricted_circulation());
}

#[test]
fn no_upce_present_in_the_measured_data() {
    for raw in ["00000010066096", "00000010066140"] {
        let g = gtin(raw);
        assert!(g.check_digit_is_valid(), "{raw} validates as a GTIN-8");
    }
}

#[test]
fn the_variable_weight_rescue_pattern() {
    let from_retailer = gtin("02319228400000");
    let in_assortment = gtin("02319228400003");

    assert!(!from_retailer.check_digit_is_valid());
    assert!(in_assortment.check_digit_is_valid());
    assert_eq!(from_retailer.expected_check_digit(), 3);

    assert_ne!(from_retailer, in_assortment);
    assert_eq!(from_retailer.key(), in_assortment.key());
    assert_eq!(
        from_retailer.allocation(),
        Allocation::RestrictedCirculationRegion
    );
}

#[test]
fn internal_plu_codes_share_a_key_and_that_is_known() {
    let discriminated = [
        "00000000081010",
        "00000000081011",
        "00000000081012",
        "00000000081013",
        "00000000081014",
    ];
    let keys: Vec<_> = discriminated.iter().map(|a| gtin(a).key()).collect();
    assert!(
        keys.windows(2).all(|w| w[0] == w[1]),
        "all five share one key — this is the known limitation"
    );

    assert!(discriminated
        .iter()
        .all(|a| gtin(a).looks_like_internal_code()));

    let first = gtin("00868302706290");
    let second = gtin("00868302706292");
    assert_eq!(first.key(), second.key());
    assert!(!first.looks_like_internal_code());
    assert!(!first.check_digit_is_valid() && !second.check_digit_is_valid());
}

#[test]
fn a_fifteen_digit_row_that_really_exists() {
    let raw = "112345678912343";
    assert!(!parse(raw).is_gtin());
    assert_eq!(parse(raw).store_form(), raw);
    assert_eq!(parse(raw).key(), None);
}
