use freezers_client::hex::{color_from_hex, HexLit};

#[test]
fn basic() {
    assert_eq!(color_from_hex("0xDC143Cff").unwrap(), [0xDC, 0x14, 0x3C, 0xFF]);
    assert_eq!(color_from_hex("0xDC143C00").unwrap(), [0xDC, 0x14, 0x3C, 0x00]);
    assert_eq!(color_from_hex("0xDC143C").unwrap(), [0xDC, 0x14, 0x3C]);

    assert_eq!(color_from_hex("0xDC143Cff").unwrap(), [220, 20, 60, 255]);
    assert_eq!(color_from_hex("0xDC143C00").unwrap(), [220, 20, 60, 000]);
    assert_eq!(color_from_hex("0xDC143C").unwrap(), [220, 20, 60]);
}

#[test]
fn lower_and_upper_digits() {
    assert_eq!(color_from_hex("0xa1b2c3d4").unwrap(), [0xA1, 0xB2, 0xC3, 0xD4]);
    assert_eq!(color_from_hex("0xE5E69092").unwrap(), [0xE5, 0xE6, 0x90, 0x92]);
    assert_eq!(color_from_hex("0x0a0B0C").unwrap(), [10, 11, 12]);
    assert_eq!(color_from_hex("0x010203").unwrap(), [1, 2, 3]);
}

#[test]
fn missing_prefix_is_rejected() {
    let err = color_from_hex("4c4c4cff").unwrap_err();
    assert_eq!(err.message(), "expected `0x` prefix");
}

#[test]
fn wrong_length_is_rejected() {
    let err = color_from_hex("0x4c4c").unwrap_err();
    assert_eq!(
        err.message(),
        "expected a maximum of 6 or 8 characters, ex: 4c4c4cff"
    );
    assert!(color_from_hex("").is_err());
    assert!(color_from_hex("0x4c4c4cff00").is_err());
}

#[test]
fn stray_character_is_rejected() {
    let err = color_from_hex("0x4c4g4c").unwrap_err();
    assert_eq!(err.message(), "expected a hex digit");
}

#[test]
fn parse_keeps_token_and_counts_bytes() {
    let lit = HexLit::parse("0xDC143Cff").unwrap();
    assert_eq!(lit.repr, "0xDC143Cff");
    assert_eq!(lit.bytes, 4);
    let lit = HexLit::parse("0x4c4c4c").unwrap();
    assert_eq!(lit.repr, "0x4c4c4c");
    assert_eq!(lit.bytes, 3);
}
