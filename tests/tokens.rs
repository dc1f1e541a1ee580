use csrf::{Base64DecodeError, PaddedToken, Token};
use std::collections::HashSet;

#[test]
fn masking_and_unmasking_produces_same_token() {
    let token = Token::new();
    let padded_token = PaddedToken::new(&token);
    let unmasked = padded_token.unmask();
    assert!(unmasked == token);
}

#[test]
fn base64_encode_and_decode_token() {
    let token = Token::new();
    let base64 = token.to_string();
    let base64_decoded = Token::from_base64_str(&base64).ok().unwrap();
    assert!(token == base64_decoded);
}

#[test]
fn base64_encode_and_decode_paddedtoken() {
    let token = Token::new();
    let padded_token = PaddedToken::new(&token);
    let base64 = padded_token.to_string();
    let base64_decoded = PaddedToken::from_base64_str(&base64).ok().unwrap();
    assert!(padded_token == base64_decoded);
}

fn invalid_base64() -> Base64DecodeError {
    Base64DecodeError("invalid base64 input".to_string())
}

fn wrong_length() -> Base64DecodeError {
    Base64DecodeError("unexpected decoded length".to_string())
}

#[test]
fn token_text_is_standard_base64_of_little_endian_bytes() {
    let token = Token::from_bytes(&[1, 2, 3, 4]).unwrap();
    assert_eq!(token.to_bytes(), [1, 2, 3, 4]);
    assert_eq!(token.to_string(), "AQIDBA==");
    assert_eq!(Token::from_base64_str("AQIDBA==").unwrap(), token);
}

#[test]
fn padded_text_is_standard_base64_of_little_endian_bytes() {
    let padded = PaddedToken::from_bytes(&[0, 1, 2, 3, 4, 5, 6, 7]).unwrap();
    assert_eq!(padded.to_bytes(), [0, 1, 2, 3, 4, 5, 6, 7]);
    assert_eq!(padded.to_string(), "AAECAwQFBgc=");
    assert_eq!(PaddedToken::from_base64_str("AAECAwQFBgc=").unwrap(), padded);
}

#[test]
fn padded_token_layout_matches_pad_and_secret() {
    let secret = Token::from_bytes(&[0xEF, 0xBE, 0xAD, 0xDE]).unwrap();
    let padded = PaddedToken::with_pad(&secret, 0x12345678);
    let masked: u32 = 0x12345678 ^ 0xDEADBEEF;
    assert_eq!(masked, 0xCC99E897);
    let bytes = padded.to_bytes();
    assert_eq!(bytes[0..4], masked.to_le_bytes());
    assert_eq!(bytes[4..8], 0x12345678u32.to_le_bytes());
    assert_eq!(bytes, [0x97, 0xE8, 0x99, 0xCC, 0x78, 0x56, 0x34, 0x12]);
    assert_eq!(padded.unmask(), secret);
    assert_eq!(padded.unmask().to_bytes(), [0xEF, 0xBE, 0xAD, 0xDE]);
}

#[test]
fn unmask_of_any_pad_gives_secret() {
    let secret = Token::from_bytes(&[9, 8, 7, 6]).unwrap();
    for pad in [0u32, 1, 0xFFFF_FFFF, 0x8000_0000, 0x0F0F_0F0F] {
        assert_eq!(PaddedToken::with_pad(&secret, pad).unmask(), secret);
    }
}

#[test]
fn fresh_pads_make_distinct_padded_tokens() {
    let secret = Token::new();
    let mut pads = HashSet::new();
    let mut values = HashSet::new();
    for _ in 0..1000 {
        let padded = PaddedToken::new(&secret);
        let bytes = padded.to_bytes();
        assert!(pads.insert([bytes[4], bytes[5], bytes[6], bytes[7]]));
        assert!(values.insert(bytes));
        assert_eq!(padded.unmask(), secret);
    }
}

#[test]
fn distinct_pads_give_distinct_padded_tokens() {
    let secret = Token::from_bytes(&[1, 1, 1, 1]).unwrap();
    assert_ne!(PaddedToken::with_pad(&secret, 1), PaddedToken::with_pad(&secret, 2));
}

#[test]
fn non_base64_text_is_rejected() {
    assert_eq!(Token::from_base64_str("AQ!DBA=="), Err(invalid_base64()));
    assert_eq!(PaddedToken::from_base64_str("!!!!"), Err(invalid_base64()));
    assert_eq!(Token::from_base64_str("AQID BA=="), Err(invalid_base64()));
}

#[test]
fn wrong_decoded_length_is_rejected() {
    // three bytes
    assert_eq!(Token::from_base64_str("AQID"), Err(wrong_length()));
    // five bytes
    assert_eq!(Token::from_base64_str("AQIDBAU="), Err(wrong_length()));
    assert_eq!(Token::from_base64_str(""), Err(wrong_length()));
    // four bytes for an eight-byte token
    assert_eq!(PaddedToken::from_base64_str("AQIDBA=="), Err(wrong_length()));
    // nine bytes
    assert_eq!(PaddedToken::from_base64_str("AAECAwQFBgcI"), Err(wrong_length()));
}

#[test]
fn wrong_byte_count_is_rejected() {
    assert_eq!(Token::from_bytes(&[1, 2, 3]), Err(wrong_length()));
    assert_eq!(Token::from_bytes(&[1, 2, 3, 4, 5]), Err(wrong_length()));
    assert_eq!(PaddedToken::from_bytes(&[1, 2, 3, 4]), Err(wrong_length()));
    assert_eq!(PaddedToken::from_bytes(&[]), Err(wrong_length()));
}

#[test]
fn tokens_from_same_bytes_are_equal() {
    let a = Token::from_bytes(&[0xDE, 0xAD, 0xBE, 0xEF]).unwrap();
    let b = Token::from_bytes(&[0xDE, 0xAD, 0xBE, 0xEF]).unwrap();
    assert!(a == b);
    let c = Token::from_bytes(&[0xDE, 0xAD, 0xBE, 0xEE]).unwrap();
    assert!(a != c);
}

#[test]
fn random_tokens_differ() {
    let mut equal = 0;
    for _ in 0..1000 {
        if Token::new() == Token::new() {
            equal += 1;
        }
    }
    assert_eq!(equal, 0);
}

#[test]
fn end_to_end_three_forms() {
    let secret = Token::new();
    let texts: Vec<String> = (0..3).map(|_| PaddedToken::new(&secret).to_string()).collect();
    assert_ne!(texts[0], texts[1]);
    assert_ne!(texts[0], texts[2]);
    assert_ne!(texts[1], texts[2]);
    for text in &texts {
        let padded = PaddedToken::from_base64_str(text).unwrap();
        assert_eq!(padded.unmask(), secret);
    }
}

#[test]
fn secret_text_round_trip() {
    let secret = Token::from_bytes(&[0xFF, 0x00, 0x7F, 0x80]).unwrap();
    assert_eq!(Token::from_base64_str(&secret.to_string()), Ok(secret));
}
