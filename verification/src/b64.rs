//! Base64 helpers exposed to the template renderer, backed by the `base64`
//! crate's standard engine.

use vstd::prelude::*;
use vstd::string::StringSliceAdditionalSpecFns;

verus! {

/// Standard (RFC 4648, padded) base64 of a byte sequence, as the `base64`
/// crate's STANDARD engine computes it: a function of the bytes alone.
pub uninterp spec fn b64_of(bytes: Seq<u8>) -> Seq<char>;

/// What standard base64 decoding yields for a string: the decoded bytes, or
/// nothing when the string is not valid padded base64. A function of the
/// characters alone.
pub uninterp spec fn b64_decode_of(s: Seq<char>) -> Option<Seq<u8>>;

/// The lossy UTF-8 reading of a byte sequence (invalid sequences replaced
/// with the replacement character), as `String::from_utf8_lossy` computes
/// it: a function of the bytes alone.
pub uninterp spec fn lossy_utf8_of(bytes: Seq<u8>) -> Seq<char>;

/// Relies on `base64::engine::Engine::encode` with the STANDARD engine:
/// padded base64, a function of the input bytes alone.
#[verifier::external_body]
fn b64_encode(bytes: &[u8]) -> (r: String)
    ensures
        r@ == b64_of(bytes@),
{
    base64::Engine::encode(&base64::engine::general_purpose::STANDARD, bytes)
}

/// Relies on `base64::engine::Engine::decode` with the STANDARD engine:
/// yields the decoded bytes exactly when the input is valid padded base64,
/// a function of the input alone.
#[verifier::external_body]
fn b64_decode(s: &str) -> (r: Option<Vec<u8>>)
    ensures
        r is Some <==> b64_decode_of(s@) is Some,
        r matches Some(v) ==> b64_decode_of(s@) == Some(v@),
{
    base64::Engine::decode(&base64::engine::general_purpose::STANDARD, s.as_bytes()).ok()
}

/// Relies on `String::from_utf8_lossy`: reads bytes as UTF-8 with invalid
/// sequences replaced, a function of the bytes alone.
#[verifier::external_body]
fn utf8_lossy(bytes: &Vec<u8>) -> (r: String)
    ensures
        r@ == lossy_utf8_of(bytes@),
{
    String::from_utf8_lossy(bytes.as_slice()).into_owned()
}

/// Standard base64 of the UTF-8 bytes of `s`: the `base64Encode` template
/// helper.
pub fn base64_encode_str(s: &str) -> (r: String)
    ensures
        r@ == b64_of(s.spec_bytes()),
{
    b64_encode(s.as_bytes())
}

/// Base64-decodes `s` and reads the bytes as lossy UTF-8: the
/// `base64Decode` template helper. `None` when `s` is not valid base64; the
/// renderer surfaces that as a render error.
pub fn base64_decode_str(s: &str) -> (r: Option<String>)
    ensures
        r is Some <==> b64_decode_of(s@) is Some,
        r matches Some(t) ==> b64_decode_of(s@) matches Some(bs) && t@ == lossy_utf8_of(bs),
{
    match b64_decode(s) {
        None => None,
        Some(v) => Some(utf8_lossy(&v)),
    }
}

} // verus!
