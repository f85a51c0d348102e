//! The GS1 Mod-10 check digit over a 13-digit body.

use barkod::check::check_digit;

fn body_of(s: &str) -> [u8; 13] {
    let mut out = [b'0'; 13];
    out.copy_from_slice(&s.as_bytes()[..13]);
    out
}

#[test]
fn matches_known_good_gtins() {
    // Real production values whose check digit is correct.
    for gtin in ["07350053850019", "00010700021526", "02112800000000"] {
        let expected = gtin.as_bytes()[13];
        assert_eq!(
            check_digit(&body_of(gtin)),
            expected,
            "should be valid: {gtin}"
        );
    }
}

#[test]
fn known_bad_check_digits_stay_bad() {
    // Also real, and kept as fixtures: their check digits do not validate.
    for (gtin, expected) in [("07390525907745", b'2'), ("00000007350001", b'9')] {
        assert_eq!(check_digit(&body_of(gtin)), expected);
        assert_ne!(check_digit(&body_of(gtin)), gtin.as_bytes()[13]);
    }
}

#[test]
fn all_zeros_checks_to_zero() {
    assert_eq!(check_digit(&body_of("0000000000000")), b'0');
}

#[test]
fn check_digit_of_a_gtin_13_body() {
    // 4006381333931 is a well-known valid EAN-13; padded, its body is
    // 0400638133393 and its check digit 1.
    assert_eq!(check_digit(&body_of("04006381333931")), b'1');
}

#[test]
fn weights_alternate_three_and_one_from_the_right() {
    // A single 1 in the rightmost body position weighs 3: 10 - 3 = 7.
    assert_eq!(check_digit(&body_of("0000000000001")), b'7');
    // One position to the left it weighs 1: 10 - 1 = 9.
    assert_eq!(check_digit(&body_of("0000000000010")), b'9');
}
