use vstd::prelude::*;

use crate::errors::{is_b64_err, Context, Error};

verus! {

/// What base64's `URL_SAFE_NO_PAD` engine encodes the given bytes to.
pub uninterp spec fn b64_encode_of(b: Seq<u8>) -> Seq<char>;

/// What base64's `URL_SAFE_NO_PAD` engine decodes the given text to, or
/// `None` where the text is not valid for that engine.
pub uninterp spec fn b64_decode_of(s: Seq<char>) -> Option<Seq<u8>>;

/// Relies on base64's `Engine::encode` with the `URL_SAFE_NO_PAD` engine:
/// the text produced is a function of the input bytes alone, and
/// `Engine::decode` with the same engine inverts it.
#[verifier::external_body]
fn b64_encode(b: &Vec<u8>) -> (r: String)
    ensures
        r@ == b64_encode_of(b@),
        b64_decode_of(r@) == Some(b@),
{
    base64::Engine::encode(&base64::engine::general_purpose::URL_SAFE_NO_PAD, b)
}

/// Relies on base64's `Engine::decode` with the `URL_SAFE_NO_PAD` engine:
/// whether the text decodes, and to which bytes, is a function of the text
/// alone.
#[verifier::external_body]
fn b64_decode(text: &str) -> (r: Result<Vec<u8>, String>)
    ensures
        r is Ok <==> b64_decode_of(text@) is Some,
        r matches Ok(v) ==> b64_decode_of(text@) == Some(v@),
{
    base64::Engine::decode(&base64::engine::general_purpose::URL_SAFE_NO_PAD, text).map_err(|e| e.to_string())
}

/// Encodes bytes in the single fixed text-safe transport representation that
/// every artifact of this crate uses. Decoding the result gives the input
/// bytes back.
pub fn encode(bytes: &Vec<u8>) -> (r: String)
    ensures
        r@ == b64_encode_of(bytes@),
        b64_decode_of(r@) == Some(bytes@),
{
    b64_encode(bytes)
}

/// Decodes a text field back to bytes; a failure is a decode error carrying
/// the caller's context label.
pub fn decode(text: &str, label: Context) -> (r: Result<Vec<u8>, Error>)
    ensures
        r matches Ok(v) ==> b64_decode_of(text@) == Some(v@),
        r is Ok <==> b64_decode_of(text@) is Some,
        b64_decode_of(text@) is None <==> is_b64_err(r, label),
{
    match b64_decode(text) {
        Ok(v) => Ok(v),
        Err(message) => Err(Error::Base64 { context: label, message }),
    }
}

} // verus!
