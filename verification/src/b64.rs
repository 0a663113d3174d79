use vstd::prelude::*;

use crate::error::Error;
use base64::Engine;

verus! {

/// What base64 with the standard alphabet and padding prints for a
/// byte sequence.
pub uninterp spec fn b64_of(b: Seq<u8>) -> Seq<char>;

/// What base64 decoding with the standard alphabet and padding yields
/// for a character sequence: the decoded bytes, or nothing when the
/// payload is malformed.
pub uninterp spec fn b64_parse(s: Seq<char>) -> Option<Seq<u8>>;

/// The length of the padded base64 print of `n` bytes: four characters
/// for every started group of three bytes.
pub open spec fn b64_len(n: nat) -> nat {
    4 * ((n + 2) / 3)
}

/// The largest byte count whose padded base64 print still fits in
/// usize; no buffer a machine can hold comes near it.
pub const B64_MAX_INPUT: usize = usize::MAX / 4 * 3;

#[verifier::external_type_specification]
#[verifier::external_body]
pub struct ExDecodeError(base64::DecodeError);

/// Relies on base64::engine::Engine::encode with the STANDARD engine:
/// the print is a function of the bytes alone, four characters for
/// every started group of three bytes, and STANDARD decoding gives the
/// bytes back exactly.  The engine panics when the print's length
/// overflows usize, so such inputs are excluded here.
#[verifier::external_body]
fn b64_encode_raw(b: &Vec<u8>) -> (r: String)
    requires
        b64_len(b@.len()) <= usize::MAX,
    ensures
        r@ == b64_of(b@),
        r@.len() == b64_len(b@.len()),
        b64_parse(r@) == Some(b@),
{
    base64::engine::general_purpose::STANDARD.encode(b)
}

/// Relies on base64::engine::Engine::decode with the STANDARD engine:
/// success and the decoded bytes are a function of the characters
/// alone.
#[verifier::external_body]
fn b64_decode_raw(s: &str) -> (r: Result<Vec<u8>, base64::DecodeError>)
    ensures
        r is Ok <==> b64_parse(s@) is Some,
        r matches Ok(v) ==> b64_parse(s@) == Some(v@),
{
    base64::engine::general_purpose::STANDARD.decode(s)
}

/// Encodes bytes as padded standard base64.  `None` exactly when the
/// print's length would overflow usize, which no real buffer reaches.
pub fn encode_base64(b: &Vec<u8>) -> (r: Option<String>)
    ensures
        r is Some <==> b64_len(b@.len()) <= usize::MAX,
        r matches Some(s) ==> s@ == b64_of(b@) && s@.len() == b64_len(b@.len()) && b64_parse(s@)
            == Some(b@),
{
    let n = b.len();
    if n <= B64_MAX_INPUT {
        proof {
            let q = ((n as int) + 2) / 3;
            assert((n as int) + 2 == 3 * q + ((n as int) + 2) % 3);
            assert(usize::MAX as int == 4 * ((usize::MAX as int) / 4) + (usize::MAX as int) % 4);
            assert(b64_len(n as nat) <= usize::MAX);
        }
        Some(b64_encode_raw(b))
    } else {
        proof {
            let q = ((n as int) + 2) / 3;
            assert((n as int) + 2 == 3 * q + ((n as int) + 2) % 3);
            assert(usize::MAX as int == 4 * ((usize::MAX as int) / 4) + (usize::MAX as int) % 4);
            assert(b64_len(n as nat) > usize::MAX);
        }
        None
    }
}

/// Decodes a base64 payload back into raw bytes, failing with
/// `DecodeFailed` exactly on malformed input.
pub fn decode_base64(s: &str) -> (r: Result<Vec<u8>, Error>)
    ensures
        r is Ok <==> b64_parse(s@) is Some,
        r matches Ok(v) ==> b64_parse(s@) == Some(v@),
        r matches Err(e) ==> e == Error::DecodeFailed,
{
    match b64_decode_raw(s) {
        Ok(v) => Ok(v),
        Err(_) => Err(Error::DecodeFailed),
    }
}

} // verus!
