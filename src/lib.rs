//! Anti-CSRF tokens: a secret held by the server, and per-form padded tokens
//! that look different on every render yet unmask to the same secret.

pub mod le_bytes;
pub mod text;
pub mod token;

pub use text::Base64DecodeError;
pub use token::{PaddedToken, Token};
