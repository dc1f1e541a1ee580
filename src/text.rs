//! Standard base64 text (with padding) for the tokens' byte layouts, and the
//! error reported when such text cannot be read back.

use vstd::prelude::*;

verus! {

#[verifier::external_type_specification]
#[verifier::external_body]
pub struct ExDecodeError(base64::DecodeError);

/// Standard base64 text, with padding, of `bytes`.
pub uninterp spec fn base64_text(bytes: Seq<u8>) -> Seq<char>;

/// The bytes that standard base64 text `text` stands for; `None` where `text`
/// is not such text.
pub uninterp spec fn base64_bytes(text: Seq<char>) -> Option<Seq<u8>>;

/// Why text could not be turned into a token; the message tells the causes apart.
#[derive(Debug, PartialEq, Eq)]
pub struct Base64DecodeError(pub String);

impl View for Base64DecodeError {
    type V = Seq<char>;

    open spec fn view(&self) -> Seq<char> {
        self.0@
    }
}

/// Message of the error for text that is not standard base64.
pub open spec fn invalid_base64_message() -> Seq<char> {
    "invalid base64 input"@
}

/// Message of the error for bytes that are too few or too many for the token.
pub open spec fn wrong_length_message() -> Seq<char> {
    "unexpected decoded length"@
}

/// What a decoding outcome says: the value's view, or the error's message.
pub open spec fn outcome<T: View>(r: Result<T, Base64DecodeError>) -> Result<T::V, Seq<char>> {
    match r {
        Ok(t) => Ok(t@),
        Err(e) => Err(e@),
    }
}

pub(crate) fn invalid_base64_error() -> (e: Base64DecodeError)
    ensures
        e@ == invalid_base64_message(),
{
    Base64DecodeError("invalid base64 input".to_owned())
}

pub(crate) fn wrong_length_error() -> (e: Base64DecodeError)
    ensures
        e@ == wrong_length_message(),
{
    Base64DecodeError("unexpected decoded length".to_owned())
}

/// Relies on `base64::encode`: standard alphabet with padding; `base64::decode`
/// reads such text back to the same bytes.
#[verifier::external_body]
pub(crate) fn encode_base64(bytes: &[u8]) -> (r: String)
    ensures
        r@ == base64_text(bytes@),
        base64_bytes(r@) == Some(bytes@),
{
    base64::encode(bytes)
}

/// Relies on `base64::decode`: the bytes of standard base64 text, or an error
/// where the text is not such text.
#[verifier::external_body]
pub(crate) fn decode_base64(text: &str) -> (r: Result<Vec<u8>, base64::DecodeError>)
    ensures
        match r {
            Ok(v) => base64_bytes(text@) == Some(v@),
            Err(_) => base64_bytes(text@) is None,
        },
{
    base64::decode(text)
}

} // verus!
