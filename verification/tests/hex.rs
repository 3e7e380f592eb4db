use pigeons::hex::{decode_hex32, hex_nibble, HexError};

const DIGITS: &str = "000102030405060708090a0b0c0d0e0f101112131415161718191A1B1C1D1E1F";

#[test]
fn nibbles_of_both_cases() {
    assert_eq!(hex_nibble(b'0'), Ok(0));
    assert_eq!(hex_nibble(b'9'), Ok(9));
    assert_eq!(hex_nibble(b'a'), Ok(10));
    assert_eq!(hex_nibble(b'f'), Ok(15));
    assert_eq!(hex_nibble(b'A'), Ok(10));
    assert_eq!(hex_nibble(b'F'), Ok(15));
}

#[test]
fn nibbles_agree_with_char_digits() {
    for b in 0..=255u8 {
        let expected = (b as char).to_digit(16).map(|v| v as u8);
        assert_eq!(hex_nibble(b), expected.ok_or(HexError::NotADigit(b)));
    }
}

#[test]
fn decodes_both_cases() {
    let bytes = decode_hex32(DIGITS).unwrap();
    for (i, b) in bytes.iter().enumerate() {
        assert_eq!(*b as usize, i);
    }
    assert_eq!(decode_hex32(&"ff".repeat(32)), Ok([255u8; 32]));
    assert_eq!(decode_hex32(&"0F".repeat(32)), Ok([15u8; 32]));
}

#[test]
fn hex_of_bytes_decodes_to_the_bytes() {
    let mut bytes = [0u8; 32];
    for (i, b) in bytes.iter_mut().enumerate() {
        *b = (i * 37 + 11) as u8;
    }
    let lower: String = bytes.iter().map(|b| format!("{b:02x}")).collect();
    assert_eq!(decode_hex32(&lower), Ok(bytes));
    let upper: String = bytes.iter().map(|b| format!("{b:02X}")).collect();
    assert_eq!(decode_hex32(&upper), Ok(bytes));
}

#[test]
fn what_decodes_is_the_hex_of_its_bytes() {
    let bytes = decode_hex32(DIGITS).unwrap();
    let text: String = bytes.iter().map(|b| format!("{b:02x}")).collect();
    assert_eq!(text, DIGITS.to_lowercase());
}

#[test]
fn length_is_looked_at_before_digits() {
    assert_eq!(decode_hex32(""), Err(HexError::WrongLength(0)));
    assert_eq!(decode_hex32("zz"), Err(HexError::WrongLength(2)));
    assert_eq!(decode_hex32(&"0".repeat(63)), Err(HexError::WrongLength(63)));
    assert_eq!(decode_hex32(&"0".repeat(65)), Err(HexError::WrongLength(65)));
    // The length is counted in bytes.
    assert_eq!(decode_hex32(&"é".repeat(64)), Err(HexError::WrongLength(128)));
}

#[test]
fn leftmost_bad_digit_is_reported() {
    let mut text = "0".repeat(62);
    text.push_str("gh");
    assert_eq!(decode_hex32(&text), Err(HexError::NotADigit(b'g')));
    let mut odd = "0".repeat(61);
    odd.push_str("x0y");
    assert_eq!(decode_hex32(&odd), Err(HexError::NotADigit(b'x')));
    assert_eq!(decode_hex32(&"é".repeat(32)), Err(HexError::NotADigit(0xc3)));
}
