//! The secret token a server keeps, and the padded token it puts in each form.

use rand::RngCore;
use vstd::prelude::*;

use crate::le_bytes::{
    le_bytes_u32, le_bytes_u64, read_u32_le, read_u64_le, u32_from_le, u32_to_le_bytes,
    u64_from_le, u64_to_le_bytes,
};
use crate::text::{
    base64_bytes, base64_text, decode_base64, encode_base64, invalid_base64_error,
    invalid_base64_message, outcome, wrong_length_error, wrong_length_message, Base64DecodeError,
};

verus! {

/// Relies on rand's `OsRng` (`RngCore::next_u32`): a value drawn from the
/// operating system's random source. It panics when that source fails, which
/// no caller can recover from.
#[verifier::external_body]
fn os_random_u32() -> (r: u32) {
    rand::rngs::OsRng.next_u32()
}

/// The token that padded tokens are checked against; meant to be kept in the
/// server session.
#[derive(Debug, Default, Clone, Copy, PartialEq, Eq, Structural)]
pub struct Token(u32);

impl View for Token {
    type V = u32;

    closed spec fn view(&self) -> u32 {
        self.0
    }
}

/// The secret that little-endian `bytes` hold, or the error for a wrong count.
pub open spec fn token_from_bytes(bytes: Seq<u8>) -> Result<u32, Seq<char>> {
    if bytes.len() == 4 {
        Ok(u32_from_le(bytes))
    } else {
        Err(wrong_length_message())
    }
}

/// The secret that base64 `text` holds, or the error saying why it holds none.
pub open spec fn token_from_text(text: Seq<char>) -> Result<u32, Seq<char>> {
    match base64_bytes(text) {
        None => Err(invalid_base64_message()),
        Some(bytes) => token_from_bytes(bytes),
    }
}

impl Token {
    /// A fresh token from the operating system's random source.
    pub fn new() -> (r: Token) {
        Token(os_random_u32())
    }

    /// The token whose little-endian layout is `bytes`; exactly four are needed.
    pub fn from_bytes(bytes: &[u8]) -> (r: Result<Token, Base64DecodeError>)
        ensures
            outcome(r) == token_from_bytes(bytes@),
    {
        if bytes.len() == 4 {
            Ok(Token(read_u32_le(bytes)))
        } else {
            Err(wrong_length_error())
        }
    }

    /// Reads a token back from its base64 text.
    pub fn from_base64_str(base64: &str) -> (r: Result<Token, Base64DecodeError>)
        ensures
            outcome(r) == token_from_text(base64@),
    {
        match decode_base64(base64) {
            Ok(bytes) => Token::from_bytes(bytes.as_slice()),
            Err(_) => Err(invalid_base64_error()),
        }
    }

    /// The token's four bytes, least significant first.
    pub fn to_bytes(&self) -> (r: [u8; 4])
        ensures
            r@ == le_bytes_u32(self@),
    {
        u32_to_le_bytes(self.0)
    }

    /// The token as standard base64 text; reading it back gives this token.
    pub fn to_string(&self) -> (r: String)
        ensures
            r@ == base64_text(le_bytes_u32(self@)),
            token_from_text(r@) == Ok::<u32, Seq<char>>(self@),
    {
        let bytes = self.to_bytes();
        let r = encode_base64(bytes.as_slice());
        proof {
            lemma_token_text_round_trip(*self, r@);
        }
        r
    }
}

/// The bits of a padded token for `secret` under the one-time `pad`: the pad
/// in the high half, the pad XOR the secret in the low half.
pub open spec fn padded_bits(secret: u32, pad: u32) -> u64 {
    ((pad as u64) << 32u64) | ((pad ^ secret) as u64)
}

/// The high half of a padded token: its one-time pad.
pub open spec fn pad_of(bits: u64) -> u32 {
    (bits >> 32u64) as u32
}

/// The low half of a padded token: the pad XOR the secret.
pub open spec fn masked_of(bits: u64) -> u32 {
    bits as u32
}

/// The secret a padded token carries: its two halves XORed.
pub open spec fn unmasked_bits(bits: u64) -> u32 {
    pad_of(bits) ^ masked_of(bits)
}

/// A token meant for HTML forms: a 32-bit one-time pad next to the real token
/// XORed with that pad, so each one differs but all decode to the same secret.
#[derive(Debug, Clone, Copy, PartialEq, Eq, Structural)]
pub struct PaddedToken(u64);

impl View for PaddedToken {
    type V = u64;

    closed spec fn view(&self) -> u64 {
        self.0
    }
}

/// The padded token that little-endian `bytes` hold, or the error for a wrong count.
pub open spec fn padded_from_bytes(bytes: Seq<u8>) -> Result<u64, Seq<char>> {
    if bytes.len() == 8 {
        Ok(u64_from_le(bytes))
    } else {
        Err(wrong_length_message())
    }
}

/// The padded token that base64 `text` holds, or the error saying why it holds none.
pub open spec fn padded_from_text(text: Seq<char>) -> Result<u64, Seq<char>> {
    match base64_bytes(text) {
        None => Err(invalid_base64_message()),
        Some(bytes) => padded_from_bytes(bytes),
    }
}

impl PaddedToken {
    /// Pads `real_token` with a fresh one-time pad from the operating system's
    /// random source.
    pub fn new(real_token: &Token) -> (r: PaddedToken)
        ensures
            exists|pad: u32| r@ == padded_bits(real_token@, pad),
            unmasked_bits(r@) == real_token@,
    {
        let pad = os_random_u32();
        let r = PaddedToken::with_pad(real_token, pad);
        proof {
            lemma_unmask_undoes_padding(*real_token, pad);
        }
        r
    }

    /// Pads `real_token` with the given one-time `pad`.
    pub fn with_pad(real_token: &Token, pad: u32) -> (r: PaddedToken)
        ensures
            r@ == padded_bits(real_token@, pad),
    {
        let masked = pad ^ real_token.0;
        PaddedToken(((pad as u64) << 32u64) | masked as u64)
    }

    /// The token that this one carries.
    pub fn unmask(&self) -> (r: Token)
        ensures
            r@ == unmasked_bits(self@),
    {
        let pad = (self.0 >> 32u64) as u32;
        let masked = self.0 as u32;
        Token(pad ^ masked)
    }

    /// The padded token whose little-endian layout is `bytes`; exactly eight are needed.
    pub fn from_bytes(bytes: &[u8]) -> (r: Result<PaddedToken, Base64DecodeError>)
        ensures
            outcome(r) == padded_from_bytes(bytes@),
    {
        if bytes.len() == 8 {
            Ok(PaddedToken(read_u64_le(bytes)))
        } else {
            Err(wrong_length_error())
        }
    }

    /// Reads a padded token back from its base64 text.
    pub fn from_base64_str(base64: &str) -> (r: Result<PaddedToken, Base64DecodeError>)
        ensures
            outcome(r) == padded_from_text(base64@),
    {
        match decode_base64(base64) {
            Ok(bytes) => PaddedToken::from_bytes(bytes.as_slice()),
            Err(_) => Err(invalid_base64_error()),
        }
    }

    /// The token's eight bytes, least significant first: the masked half, then the pad.
    pub fn to_bytes(&self) -> (r: [u8; 8])
        ensures
            r@ == le_bytes_u64(self@),
    {
        u64_to_le_bytes(self.0)
    }

    /// The token as standard base64 text; reading it back gives this token.
    pub fn to_string(&self) -> (r: String)
        ensures
            r@ == base64_text(le_bytes_u64(self@)),
            padded_from_text(r@) == Ok::<u64, Seq<char>>(self@),
    {
        let bytes = self.to_bytes();
        let r = encode_base64(bytes.as_slice());
        proof {
            lemma_padded_text_round_trip(*self, r@);
        }
        r
    }
}

/// Unmasking a token padded with any pad gives back the secret.
pub proof fn lemma_unmask_undoes_padding(secret: Token, pad: u32)
    ensures
        unmasked_bits(padded_bits(secret@, pad)) == secret@,
{
    let s = secret@;
    assert((((((pad as u64) << 32u64) | ((pad ^ s) as u64)) >> 32u64) as u32) ^ ((((pad as u64)
        << 32u64) | ((pad ^ s) as u64)) as u32) == s) by (bit_vector);
}

/// Text that decodes to a secret token's bytes reads back as that token.
pub proof fn lemma_token_text_round_trip(secret: Token, text: Seq<char>)
    requires
        base64_bytes(text) == Some(le_bytes_u32(secret@)),
    ensures
        token_from_text(text) == Ok::<u32, Seq<char>>(secret@),
{
    crate::le_bytes::lemma_u32_le_round_trip(secret@);
}

/// Text that decodes to a padded token's bytes reads back as that token.
pub proof fn lemma_padded_text_round_trip(padded: PaddedToken, text: Seq<char>)
    requires
        base64_bytes(text) == Some(le_bytes_u64(padded@)),
    ensures
        padded_from_text(text) == Ok::<u64, Seq<char>>(padded@),
{
    crate::le_bytes::lemma_u64_le_round_trip(padded@);
}

/// A padded token holds its pad in the high half and the pad XOR the secret in
/// the low half; laid out as bytes, the masked half comes first and the pad
/// second, each least significant byte first.
pub proof fn lemma_padded_layout(secret: Token, pad: u32)
    ensures
        pad_of(padded_bits(secret@, pad)) == pad,
        masked_of(padded_bits(secret@, pad)) == pad ^ secret@,
        le_bytes_u64(padded_bits(secret@, pad)) == le_bytes_u32(pad ^ secret@) + le_bytes_u32(pad),
{
    let s = secret@;
    let m = pad ^ s;
    let v = padded_bits(s, pad);
    assert(v == ((pad as u64) << 32u64) | (m as u64));
    assert((v >> 32u64) as u32 == pad && v as u32 == m) by (bit_vector)
        requires
            v == ((pad as u64) << 32u64) | (m as u64),
    ;
    assert(v as u8 == m as u8 && (v >> 8u64) as u8 == (m >> 8u32) as u8 && (v >> 16u64) as u8 == (m
        >> 16u32) as u8 && (v >> 24u64) as u8 == (m >> 24u32) as u8 && (v >> 32u64) as u8
        == pad as u8 && (v >> 40u64) as u8 == (pad >> 8u32) as u8 && (v >> 48u64) as u8 == (pad
        >> 16u32) as u8 && (v >> 56u64) as u8 == (pad >> 24u32) as u8) by (bit_vector)
        requires
            v == ((pad as u64) << 32u64) | (m as u64),
    ;
    assert(le_bytes_u64(v) =~= le_bytes_u32(m) + le_bytes_u32(pad));
}

/// The same secret padded with two different pads gives two different padded
/// tokens: fresh pads make every rendered token differ.
pub proof fn lemma_distinct_pads_give_distinct_tokens(secret: Token, pad1: u32, pad2: u32)
    requires
        pad1 != pad2,
    ensures
        padded_bits(secret@, pad1) != padded_bits(secret@, pad2),
{
    lemma_padded_layout(secret, pad1);
    lemma_padded_layout(secret, pad2);
}

/// Secret tokens read from four bytes each are equal exactly when the bytes are.
pub proof fn lemma_token_equality_is_byte_equality(a: Seq<u8>, b: Seq<u8>)
    requires
        a.len() == 4,
        b.len() == 4,
    ensures
        token_from_bytes(a) == token_from_bytes(b) <==> a == b,
{
    crate::le_bytes::lemma_u32_le_bytes_of_read(a);
    crate::le_bytes::lemma_u32_le_bytes_of_read(b);
}

/// Two secret tokens are equal exactly when their bits are.
pub proof fn lemma_token_eq_is_bit_eq(a: Token, b: Token)
    ensures
        a == b <==> a@ == b@,
{
}

/// Two padded tokens are equal exactly when their bits are.
pub proof fn lemma_padded_eq_is_bit_eq(a: PaddedToken, b: PaddedToken)
    ensures
        a == b <==> a@ == b@,
{
}

} // verus!
