use spliff::amount::{amount_to_string, checked_mint_amount, parse_decimal_amount, DecimalAmount};
use spliff::errors::SpliffError;

#[test]
fn decimal_literals_parse_exactly() {
    let cases: [(&str, u64, u8); 7] = [
        ("1000", 1000, 0),
        ("1000.5", 10005, 1),
        ("0.25", 25, 2),
        (".5", 5, 1),
        ("5.", 5, 0),
        ("0", 0, 0),
        ("18446744073709551615", u64::MAX, 0),
    ];
    for (text, mantissa, scale) in cases {
        let parsed = parse_decimal_amount(text.as_bytes()).unwrap();
        assert_eq!(parsed, DecimalAmount { mantissa, scale }, "parsing {:?}", text);
    }
}

#[test]
fn malformed_decimal_literals_are_input_errors() {
    for bad in ["", ".", "1.2.3", "12a", "-5", "1,5", "+1", " 1", "18446744073709551616"] {
        match parse_decimal_amount(bad.as_bytes()) {
            Err(SpliffError::InputError(msg)) => assert!(!msg.is_empty(), "parsing {:?}", bad),
            other => panic!("expected InputError for {:?}, got {:?}", bad, other),
        }
    }
}

#[test]
fn mint_amount_scales_up() {
    // supply 1.5 with 2 decimals -> 150 raw units
    let supply = DecimalAmount { mantissa: 15, scale: 1 };
    assert_eq!(checked_mint_amount(&supply, 2), Some(150));
}

#[test]
fn mint_amount_whole_supply() {
    // supply 1000 with 6 decimals -> 1_000_000_000 raw units
    let supply = DecimalAmount { mantissa: 1000, scale: 0 };
    assert_eq!(checked_mint_amount(&supply, 6), Some(1_000_000_000));
}

#[test]
fn mint_amount_equal_scale_is_identity() {
    let supply = DecimalAmount { mantissa: 123_456, scale: 3 };
    assert_eq!(checked_mint_amount(&supply, 3), Some(123_456));
}

#[test]
fn mint_amount_rounds_halves_up() {
    // 2.5 with 0 decimals rounds to 3; 2.4 rounds to 2; 2.6 rounds to 3
    assert_eq!(checked_mint_amount(&DecimalAmount { mantissa: 25, scale: 1 }, 0), Some(3));
    assert_eq!(checked_mint_amount(&DecimalAmount { mantissa: 24, scale: 1 }, 0), Some(2));
    assert_eq!(checked_mint_amount(&DecimalAmount { mantissa: 26, scale: 1 }, 0), Some(3));
}

#[test]
fn mint_amount_scales_down() {
    // 0.0001 (mantissa 1, scale 4) with 2 decimals: 0.01 raw units -> 0
    assert_eq!(checked_mint_amount(&DecimalAmount { mantissa: 1, scale: 4 }, 2), Some(0));
    // 0.05 with 1 decimal: 0.5 raw units -> rounds up to 1
    assert_eq!(checked_mint_amount(&DecimalAmount { mantissa: 5, scale: 2 }, 1), Some(1));
}

#[test]
fn mint_amount_overflow_is_rejected() {
    // 2 * 10^38 cannot be represented in 64 bits
    assert_eq!(checked_mint_amount(&DecimalAmount { mantissa: 2, scale: 0 }, 38), None);
    // ... but a zero supply stays representable whatever the decimals
    assert_eq!(checked_mint_amount(&DecimalAmount { mantissa: 0, scale: 0 }, 255), Some(0));
    // a tiny supply with a huge scale rounds to zero
    assert_eq!(checked_mint_amount(&DecimalAmount { mantissa: u64::MAX, scale: 255 }, 0), Some(0));
}

#[test]
fn mint_amount_max_fits_exactly() {
    let supply = DecimalAmount { mantissa: u64::MAX, scale: 0 };
    assert_eq!(checked_mint_amount(&supply, 0), Some(u64::MAX));
    assert_eq!(checked_mint_amount(&supply, 1), None);
}

#[test]
fn amounts_format_as_decimal_text() {
    assert_eq!(amount_to_string(0), "0");
    assert_eq!(amount_to_string(7), "7");
    assert_eq!(amount_to_string(150), "150");
    assert_eq!(amount_to_string(1_000_000_000), "1000000000");
    assert_eq!(amount_to_string(u64::MAX), "18446744073709551615");
}
