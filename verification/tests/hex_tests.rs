use mkid::hex::{decode_exact, decode_pair, digit_value, HexError};

#[test]
fn digits_of_both_cases_have_their_value() {
    assert_eq!(digit_value(b'0'), Some(0));
    assert_eq!(digit_value(b'9'), Some(9));
    assert_eq!(digit_value(b'a'), Some(10));
    assert_eq!(digit_value(b'f'), Some(15));
    assert_eq!(digit_value(b'A'), Some(10));
    assert_eq!(digit_value(b'F'), Some(15));
}

#[test]
fn neighbours_of_the_digits_are_no_digits() {
    for b in [b'/', b':', b'@', b'G', b'`', b'g', b'+', b'-', b' ', 0u8, 0x80, 0xff] {
        assert_eq!(digit_value(b), None, "byte {b:#x}");
    }
}

#[test]
fn every_byte_has_the_value_of_its_digit_or_none() {
    for b in 0u8..=255 {
        let expected = (b as char).to_digit(16).filter(|_| b < 0x80).map(|d| d as u8);
        assert_eq!(digit_value(b), expected, "byte {b:#x}");
    }
}

#[test]
fn a_pair_is_sixteen_times_the_first_digit_plus_the_second() {
    assert_eq!(decode_pair(b'0', b'0'), Ok(0x00));
    assert_eq!(decode_pair(b'a', b'9'), Ok(0xa9));
    assert_eq!(decode_pair(b'F', b'f'), Ok(0xff));
    assert_eq!(decode_pair(b'1', b'0'), Ok(0x10));
    assert_eq!(decode_pair(b'0', b'1'), Ok(0x01));
}

#[test]
fn a_sign_is_not_a_digit() {
    assert_eq!(decode_pair(b'+', b'a'), Err(HexError::NotHex));
    assert_eq!(decode_pair(b'-', b'1'), Err(HexError::NotHex));
}

#[test]
fn a_pair_that_is_text_but_not_digits_is_not_hex() {
    assert_eq!(decode_pair(b'g', b'0'), Err(HexError::NotHex));
    assert_eq!(decode_pair(b'0', b'x'), Err(HexError::NotHex));
    // One two-byte character.
    assert_eq!(decode_pair(0xc3, 0xa9), Err(HexError::NotHex));
    assert_eq!(decode_pair(0xc2, 0x80), Err(HexError::NotHex));
    assert_eq!(decode_pair(0xdf, 0xbf), Err(HexError::NotHex));
}

#[test]
fn a_pair_that_is_no_text_is_told_apart() {
    // A digit followed by the first byte of a longer character.
    assert_eq!(decode_pair(b'0', 0xc3), Err(HexError::NotText));
    // A continuation byte on its own.
    assert_eq!(decode_pair(0xa9, b'0'), Err(HexError::NotText));
    // An overlong encoding, and the first byte of a three-byte character.
    assert_eq!(decode_pair(0xc1, 0x80), Err(HexError::NotText));
    assert_eq!(decode_pair(0xe2, 0x82), Err(HexError::NotText));
    assert_eq!(decode_pair(0xc3, b'a'), Err(HexError::NotText));
}

#[test]
fn twelve_digits_decode_to_six_bytes() {
    let r = decode_exact::<6>(b"0123456789ab");
    assert_eq!(r, Ok([0x01, 0x23, 0x45, 0x67, 0x89, 0xab]));
    let r = decode_exact::<6>(b"FFEEDDCCBBAA");
    assert_eq!(r, Ok([0xff, 0xee, 0xdd, 0xcc, 0xbb, 0xaa]));
    let r = decode_exact::<6>(b"aAbBcCdDeEfF");
    assert_eq!(r, Ok([0xaa, 0xbb, 0xcc, 0xdd, 0xee, 0xff]));
}

#[test]
fn thirty_two_digits_decode_to_sixteen_bytes() {
    let r = decode_exact::<16>(b"000102030405060708090a0b0c0d0e0f");
    assert_eq!(r, Ok([0, 1, 2, 3, 4, 5, 6, 7, 8, 9, 10, 11, 12, 13, 14, 15]));
}

#[test]
fn any_other_length_is_refused_with_the_length() {
    assert_eq!(decode_exact::<6>(b""), Err(HexError::Length(0)));
    assert_eq!(decode_exact::<6>(b"0123456789a"), Err(HexError::Length(11)));
    assert_eq!(decode_exact::<6>(b"0123456789abc"), Err(HexError::Length(13)));
    assert_eq!(decode_exact::<6>(b"0123456789abcd"), Err(HexError::Length(14)));
    assert_eq!(decode_exact::<16>(b"123"), Err(HexError::Length(3)));
    assert_eq!(decode_exact::<16>(b"0123456789ab"), Err(HexError::Length(12)));
}

#[test]
fn the_length_is_looked_at_before_the_digits() {
    assert_eq!(decode_exact::<6>(b"zz"), Err(HexError::Length(2)));
    assert_eq!(decode_exact::<6>(&[0xff, 0xff, 0xff]), Err(HexError::Length(3)));
}

#[test]
fn the_first_bad_pair_decides_the_fault() {
    // The third pair is text but not digits, the fifth is no text.
    let mut text = *b"0123zz6789ab";
    text[8] = 0xff;
    assert_eq!(decode_exact::<6>(&text), Err(HexError::NotHex));
    // The other way round.
    let mut text = *b"0123456789zz";
    text[2] = 0xff;
    assert_eq!(decode_exact::<6>(&text), Err(HexError::NotText));
}

#[test]
fn a_bad_digit_in_the_last_place_is_found() {
    assert_eq!(decode_exact::<6>(b"0123456789ag"), Err(HexError::NotHex));
    assert_eq!(decode_exact::<16>(b"000102030405060708090a0b0c0d0e0 "), Err(HexError::NotHex));
}

#[test]
fn no_bytes_are_the_decoding_of_the_empty_text() {
    assert_eq!(decode_exact::<0>(b""), Ok([]));
    assert_eq!(decode_exact::<0>(b"00"), Err(HexError::Length(2)));
}
