//! The invariants the library promises for every input, checked over a
//! deterministic spread of generated inputs and over hand-picked debris.

use barkod::{key, parse, store_form, Encoding};

/// A small deterministic generator, so every run checks the same inputs.
struct Lcg(u64);

impl Lcg {
    fn next(&mut self) -> u64 {
        self.0 = self
            .0
            .wrapping_mul(6364136223846793005)
            .wrapping_add(1442695040888963407);
        self.0 >> 33
    }

    fn digits(&mut self, len: usize) -> String {
        (0..len)
            .map(|_| char::from(b'0' + (self.next() % 10) as u8))
            .collect()
    }

    fn cell(&mut self) -> String {
        const ALPHABET: [char; 16] = [
            '0', '1', '5', '9', ' ', '.', ',', '-', 'a', '\u{A0}', '\u{200B}', '\u{2013}', '\t',
            '7', '3', 'Z',
        ];
        let len = (self.next() % 20) as usize;
        (0..len)
            .map(|_| ALPHABET[(self.next() % ALPHABET.len() as u64) as usize])
            .collect()
    }
}

fn debris() -> Vec<String> {
    let mut out: Vec<String> = [
        "",
        " ",
        "lek",
        "-",
        "--",
        "\u{FEFF}7350053850019",
        "7350053850019\u{200B}",
        "\u{0000}",
        "٧٣٥٠٠٥٣٨٥٠٠١٩",
        "7318690123456.0",
        "7318690123456,00",
        "1.2",
        ".",
        "12345678.",
        "0000000000000000000000",
        "00000000",
        "99999999999999",
        "7 3 5 0 0 5 3 8 5 0 0 1 9",
    ]
    .iter()
    .map(|s| s.to_string())
    .collect();
    let mut rng = Lcg(7);
    for _ in 0..400 {
        out.push(rng.cell());
    }
    for len in 0..=20 {
        for _ in 0..10 {
            out.push(rng.digits(len));
        }
    }
    out
}

fn in_domain_samples() -> Vec<String> {
    let mut rng = Lcg(42);
    let mut out = Vec::new();
    for len in 8..=14 {
        for _ in 0..40 {
            out.push(rng.digits(len));
        }
        out.push("0".repeat(len));
    }
    out
}

#[test]
fn raw_is_never_lost() {
    for input in debris() {
        assert_eq!(parse(&input).raw(), input.as_str());
    }
}

#[test]
fn store_form_never_blanks() {
    for input in debris() {
        if !input.is_empty() {
            assert!(!store_form(&input).is_empty(), "{input:?} stored as blank");
        }
    }
}

#[test]
fn store_form_is_idempotent() {
    for input in debris() {
        let once = store_form(&input).into_owned();
        let twice = store_form(&once).into_owned();
        assert_eq!(once, twice);
    }
}

#[test]
fn in_domain_storage_is_pad_only() {
    for digits in in_domain_samples() {
        let stored = store_form(&digits);
        assert_eq!(stored.len(), 14);
        assert!(stored.ends_with(digits.as_str()));
        assert!(stored[..14 - digits.len()].bytes().all(|b| b == b'0'));
    }
}

#[test]
fn shortest_round_trips() {
    for digits in in_domain_samples() {
        let g = parse(&digits).gtin().unwrap();
        let back = parse(g.shortest()).gtin().unwrap();
        assert_eq!(g, back);
    }
}

#[test]
fn shortest_is_always_a_standard_width() {
    for digits in in_domain_samples() {
        let g = parse(&digits).gtin().unwrap();
        assert!(matches!(g.shortest().len(), 8 | 12 | 13 | 14));
        assert_eq!(g.shortest().len(), g.encoding().digits());
        assert!(g.as_str().ends_with(g.shortest()));
    }
}

#[test]
fn recomputed_check_digit_validates() {
    for digits in in_domain_samples() {
        let g = parse(&digits).gtin().unwrap();
        let fixed = g.with_recomputed_check_digit();
        assert!(fixed.check_digit_is_valid());
        assert_eq!(fixed.key(), g.key());
        assert_eq!(&fixed.as_str()[..13], &g.as_str()[..13]);
    }
}

#[test]
fn key_ignores_only_the_check_digit() {
    let samples = in_domain_samples();
    for a in samples.iter().step_by(7) {
        for b in samples.iter().step_by(5) {
            let (ga, gb) = (parse(a).gtin().unwrap(), parse(b).gtin().unwrap());
            let same_body = ga.as_str()[..13] == gb.as_str()[..13];
            assert_eq!(ga.key() == gb.key(), same_body);
        }
    }
    let a = parse("07390525907745").gtin().unwrap();
    for last in b'0'..=b'9' {
        let mut text = String::from("0739052590774");
        text.push(char::from(last));
        assert_eq!(parse(&text).gtin().unwrap().key(), a.key());
    }
}

#[test]
fn key_shape() {
    for digits in in_domain_samples() {
        let k = key(&digits).unwrap();
        let g = parse(&digits).gtin().unwrap();
        assert_eq!(k.as_key_str().len(), 14);
        assert!(k.as_key_str().ends_with('0'));
        assert_eq!(&k.as_key_str()[..13], &g.as_str()[..13]);
    }
}

#[test]
fn domain_boundary_is_exact() {
    let mut rng = Lcg(3);
    for len in 0..=25 {
        for _ in 0..5 {
            let digits = rng.digits(len);
            let expected = (8..=14).contains(&len);
            assert_eq!(parse(&digits).is_gtin(), expected);
            assert_eq!(key(&digits).is_some(), expected);
        }
    }
}

#[test]
fn refusals_agree_on_the_domain() {
    for input in debris() {
        let parsed = parse(&input);
        assert_eq!(parsed.is_gtin(), key(&input).is_some());
        assert_eq!(parsed.reason().is_some(), !parsed.is_gtin());
        if parsed.is_gtin() {
            assert_eq!(store_form(&input).len(), 14);
            assert_eq!(parsed.store_form(), parsed.gtin().unwrap().as_str());
        } else {
            assert_eq!(store_form(&input).into_owned(), input);
            assert!(!parsed.reason().unwrap().message().is_empty());
        }
    }
}

#[test]
fn canonical_is_fourteen_ascii_digits() {
    for input in debris() {
        if let Some(g) = parse(&input).gtin() {
            assert_eq!(g.as_str().len(), 14);
            assert!(g.as_str().bytes().all(|b| b.is_ascii_digit()));
            assert!(g.check_digit() <= 9);
            assert!(g.expected_check_digit() <= 9);
            assert_eq!(
                g.check_digit_is_valid(),
                g.check_digit() == g.expected_check_digit()
            );
            assert_eq!(g.indicator().is_some(), g.significant_digits() == 14);
            assert!(matches!(
                g.encoding(),
                Encoding::Gtin8 | Encoding::Gtin12 | Encoding::Gtin13 | Encoding::Gtin14
            ));
            assert!(!g.allocation().description().is_empty());
        }
    }
}

#[test]
fn two_valid_gtins_never_share_a_key() {
    let samples = in_domain_samples();
    let valid: Vec<_> = samples
        .iter()
        .map(|s| parse(s).gtin().unwrap().with_recomputed_check_digit())
        .collect();
    for a in &valid {
        for b in &valid {
            if a.key() == b.key() {
                assert_eq!(a, b);
            }
        }
    }
}

#[test]
fn over_length_keeps_its_count() {
    let twenty = "12345678901234567890";
    assert_eq!(
        parse(twenty).reason(),
        Some(barkod::Reason::TooLong { digits: 20 })
    );
    assert_eq!(
        parse("1234-5678-9012-3456.7").reason(),
        Some(barkod::Reason::TooLong { digits: 16 })
    );
}
