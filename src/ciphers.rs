//! Base64 encoding and decoding of messages, and the text shown for each.
use vstd::prelude::*;
use vstd::string::*;
use crate::text::append;

verus! {

/// The base64 text of some bytes (standard alphabet, with padding).
pub uninterp spec fn base64_of(bytes: Seq<u8>) -> Seq<char>;

/// The bytes that a base64 text stands for; `None` where it is not valid base64.
pub uninterp spec fn base64_decoded(text: Seq<u8>) -> Option<Seq<u8>>;

/// The text that some bytes encode in UTF-8; `None` where they are not valid UTF-8.
pub uninterp spec fn utf8_text(bytes: Seq<u8>) -> Option<Seq<char>>;

/// Why a message could not be decoded.
#[derive(Clone, Copy, Debug, PartialEq, Eq, Structural)]
pub enum CipherError {
    /// The message is not base64.
    InvalidBase64,
    /// The decoded bytes are not text.
    NotText,
}

/// Relies on base64::encode (0.13): the standard alphabet with padding. It panics only
/// where the output length overflows `usize`.
#[verifier::external_body]
fn encode_bytes(b: &[u8]) -> (r: String)
    requires
        b@.len() <= usize::MAX / 2,
    ensures
        r@ == base64_of(b@),
{
    base64::encode(b)
}

/// Relies on base64::decode (0.13): the bytes, or an error where the input is not valid
/// base64. It panics only where the input length overflows `usize`.
#[verifier::external_body]
fn decode_bytes(b: &[u8]) -> (r: Option<Vec<u8>>)
    requires
        b@.len() <= usize::MAX / 2,
    ensures
        r.is_some() == base64_decoded(b@).is_some(),
        r matches Some(v) ==> base64_decoded(b@) == Some(v@),
{
    base64::decode(b).ok()
}

/// Relies on String::from_utf8: the text, or an error where the bytes are not UTF-8.
#[verifier::external_body]
fn text_of(bytes: Vec<u8>) -> (r: Option<String>)
    ensures
        r.is_some() == utf8_text(bytes@).is_some(),
        r matches Some(t) ==> utf8_text(bytes@) == Some(t@),
{
    String::from_utf8(bytes).ok()
}

/// What the encoder shows for a message.
pub fn encoded_message(message: &str) -> (r: String)
    requires
        message.spec_bytes().len() <= usize::MAX / 2,
    ensures
        r@ == "Encoded Message: `"@ + base64_of(message.spec_bytes()) + "`"@,
{
    let mut s = "Encoded Message: `".to_owned();
    let encoded = encode_bytes(message.as_bytes());
    append(&mut s, encoded.as_str());
    append(&mut s, "`");
    s
}

/// What the decoder shows for a decoded text.
pub fn decoded_description(text: &str) -> (r: String)
    ensures
        r@ == "Decoded Message: `"@ + text@ + "`"@,
{
    let mut s = "Decoded Message: `".to_owned();
    append(&mut s, text);
    append(&mut s, "`");
    s
}

/// What the decoder shows for a base64 message, or why there is nothing to show.
pub fn decoded_message(message: &str) -> (r: Result<String, CipherError>)
    requires
        message.spec_bytes().len() <= usize::MAX / 2,
    ensures
        base64_decoded(message.spec_bytes()).is_none() ==> r == Err::<String, CipherError>(
            CipherError::InvalidBase64,
        ),
        base64_decoded(message.spec_bytes()) matches Some(b) ==> match utf8_text(b) {
            None => r == Err::<String, CipherError>(CipherError::NotText),
            Some(t) => (r matches Ok(m) && m@ == "Decoded Message: `"@ + t + "`"@),
        },
{
    match decode_bytes(message.as_bytes()) {
        None => Err(CipherError::InvalidBase64),
        Some(bytes) => match text_of(bytes) {
            None => Err(CipherError::NotText),
            Some(t) => Ok(decoded_description(t.as_str())),
        },
    }
}

} // verus!
