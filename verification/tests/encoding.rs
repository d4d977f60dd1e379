use crync::encoding::{
    parse_as_array32, pk_from_hex, pk_to_hex, sk_from_hex, sk_to_hex, vec_to_array32, ParseErr,
};
use crync::identity::{PublicKey, SecretKey};
use hex::FromHexError;

const COUNTING_HEX: &str = "000102030405060708090a0b0c0d0e0f101112131415161718191a1b1c1d1e1f";

fn counting() -> [u8; 32] {
    let mut bytes = [0u8; 32];
    for (i, byte) in bytes.iter_mut().enumerate() {
        *byte = i as u8;
    }
    bytes
}

fn patterned(seed: u8) -> [u8; 32] {
    let mut bytes = [0u8; 32];
    for (i, byte) in bytes.iter_mut().enumerate() {
        *byte = seed.wrapping_mul(31).wrapping_add((i as u8).wrapping_mul(17));
    }
    bytes
}

#[test]
fn secret_key_encodes_to_lowercase_hex() {
    assert_eq!(sk_to_hex(SecretKey::from_bytes(counting())), COUNTING_HEX);
}

#[test]
fn public_key_encodes_to_lowercase_hex() {
    assert_eq!(pk_to_hex(PublicKey::from_bytes(counting())), COUNTING_HEX);
}

#[test]
fn zero_key_encodes_to_zero_digits() {
    assert_eq!(pk_to_hex(PublicKey::from_bytes([0; 32])), "0".repeat(64));
}

#[test]
fn all_ones_key_encodes_to_f_digits() {
    assert_eq!(sk_to_hex(SecretKey::from_bytes([0xff; 32])), "f".repeat(64));
}

#[test]
fn high_and_low_digit_are_in_order() {
    let mut bytes = [0u8; 32];
    bytes[0] = 0x1a;
    bytes[31] = 0xe0;
    let text = pk_to_hex(PublicKey::from_bytes(bytes));
    assert_eq!(&text[..2], "1a");
    assert_eq!(&text[62..], "e0");
}

#[test]
fn encoded_text_is_64_lowercase_hex_digits() {
    for seed in 0..=255u8 {
        let text = sk_to_hex(SecretKey::from_bytes(patterned(seed)));
        assert_eq!(text.len(), 64);
        assert!(text.chars().all(|c| matches!(c, '0'..='9' | 'a'..='f')));
    }
}

#[test]
fn secret_key_decodes_from_hex() {
    assert_eq!(sk_from_hex(COUNTING_HEX), Ok(SecretKey::from_bytes(counting())));
}

#[test]
fn public_key_decodes_from_hex() {
    assert_eq!(pk_from_hex(COUNTING_HEX), Ok(PublicKey::from_bytes(counting())));
}

#[test]
fn array_decodes_from_hex() {
    assert_eq!(parse_as_array32(COUNTING_HEX), Ok(counting()));
}

#[test]
fn upper_case_is_accepted() {
    let upper = COUNTING_HEX.to_uppercase();
    assert_eq!(pk_from_hex(&upper), Ok(PublicKey::from_bytes(counting())));
}

#[test]
fn mixed_case_is_accepted() {
    let text = "aAbBcCdDeEfF".to_owned() + &"09".repeat(26);
    let mut expected = [0x09u8; 32];
    expected[..6].copy_from_slice(&[0xaa, 0xbb, 0xcc, 0xdd, 0xee, 0xff]);
    assert_eq!(parse_as_array32(&text), Ok(expected));
}

#[test]
fn round_trip_of_secret_keys() {
    for seed in 0..=255u8 {
        let key = SecretKey::from_bytes(patterned(seed));
        assert_eq!(sk_from_hex(&sk_to_hex(key)), Ok(key));
    }
}

#[test]
fn round_trip_of_public_keys() {
    for seed in 0..=255u8 {
        let key = PublicKey::from_bytes(patterned(seed));
        assert_eq!(pk_from_hex(&pk_to_hex(key)), Ok(key));
    }
}

#[test]
fn round_trip_of_every_byte_value() {
    for start in (0..=255u8).step_by(32) {
        let mut bytes = [0u8; 32];
        for (i, byte) in bytes.iter_mut().enumerate() {
            *byte = start + i as u8;
        }
        let key = PublicKey::from_bytes(bytes);
        assert_eq!(pk_from_hex(&pk_to_hex(key)).map(PublicKey::into_bytes), Ok(bytes));
    }
}

#[test]
fn short_hex_is_bad_length() {
    assert_eq!(sk_from_hex("deadbeef"), Err(ParseErr::BadLength));
    assert_eq!(pk_from_hex("deadbeef"), Err(ParseErr::BadLength));
}

#[test]
fn empty_text_is_bad_length() {
    assert_eq!(parse_as_array32(""), Err(ParseErr::BadLength));
}

#[test]
fn long_hex_is_bad_length() {
    let text = COUNTING_HEX.to_owned() + "00";
    assert_eq!(sk_from_hex(&text), Err(ParseErr::BadLength));
}

#[test]
fn one_byte_short_is_bad_length() {
    assert_eq!(pk_from_hex(&COUNTING_HEX[..62]), Err(ParseErr::BadLength));
}

#[test]
fn odd_length_is_invalid_hex() {
    assert_eq!(
        sk_from_hex(&COUNTING_HEX[..63]),
        Err(ParseErr::InvalidHex(FromHexError::OddLength))
    );
    assert_eq!(pk_from_hex("abc"), Err(ParseErr::InvalidHex(FromHexError::OddLength)));
}

#[test]
fn non_hex_character_is_invalid_hex() {
    let text = COUNTING_HEX[..63].to_owned() + "g";
    assert_eq!(
        sk_from_hex(&text),
        Err(ParseErr::InvalidHex(FromHexError::InvalidHexCharacter { c: 'g', index: 63 }))
    );
}

#[test]
fn non_hex_character_in_short_text_is_invalid_hex() {
    assert!(matches!(pk_from_hex("zz"), Err(ParseErr::InvalidHex(_))));
}

#[test]
fn white_space_is_invalid_hex() {
    let text = " ".to_owned() + &COUNTING_HEX[1..];
    assert!(matches!(sk_from_hex(&text), Err(ParseErr::InvalidHex(_))));
}

#[test]
fn non_ascii_text_is_invalid_hex() {
    let two_bytes = "é".repeat(32);
    assert_eq!(two_bytes.len(), 64);
    assert!(matches!(pk_from_hex(&two_bytes), Err(ParseErr::InvalidHex(_))));
    let sixty_four_chars = "é".repeat(64);
    assert!(matches!(sk_from_hex(&sixty_four_chars), Err(ParseErr::InvalidHex(_))));
    let three_bytes = "€".to_owned() + &COUNTING_HEX[3..];
    assert_eq!(three_bytes.len(), 64);
    assert!(matches!(parse_as_array32(&three_bytes), Err(ParseErr::InvalidHex(_))));
}

#[test]
fn vec_of_32_bytes_becomes_an_array() {
    assert_eq!(vec_to_array32(counting().to_vec()), Ok(counting()));
}

#[test]
fn vec_of_other_length_is_bad_length() {
    assert_eq!(vec_to_array32(Vec::new()), Err(ParseErr::BadLength));
    assert_eq!(vec_to_array32(vec![0; 31]), Err(ParseErr::BadLength));
    assert_eq!(vec_to_array32(vec![0; 33]), Err(ParseErr::BadLength));
}

#[test]
fn parse_error_has_one_name() {
    assert_eq!(ParseErr::BadLength.to_string(), "ParseErr");
    assert_eq!(ParseErr::InvalidHex(FromHexError::OddLength).to_string(), "ParseErr");
}

#[test]
fn hex_error_converts_to_invalid_hex() {
    assert_eq!(
        ParseErr::from(FromHexError::OddLength),
        ParseErr::InvalidHex(FromHexError::OddLength)
    );
    let converted: ParseErr = FromHexError::InvalidStringLength.into();
    assert_eq!(converted, ParseErr::InvalidHex(FromHexError::InvalidStringLength));
}
