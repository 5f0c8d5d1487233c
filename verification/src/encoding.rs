//! Byte/text encodings at the service boundary.
//!
//! Served file contents are base64-encoded, incoming image paths are
//! base64-decoded, and job files carry UTF-8 progress text.  The encodings
//! themselves are done by outside code; this module gives them exact names
//! and contracts that the verified logic builds on.

use base64::Engine;
use vstd::prelude::*;

verus! {

/// The standard base64 rendering (standard alphabet, padded) of a byte
/// sequence.  The encoding is fixed by the RFC, a function of the bytes
/// alone; its result is named rather than spelled out.
pub uninterp spec fn base64_of(bytes: Seq<u8>) -> Seq<char>;

/// Relies on base64's `Engine::encode` with the `STANDARD` engine: the
/// standard padded base64 rendering of the input bytes, four characters for
/// every started group of three bytes.
#[verifier::external_body]
pub fn encode_base64(bytes: &Vec<u8>) -> (r: String)
    ensures
        r@ == base64_of(bytes@),
        r@.len() == 4 * ((bytes@.len() + 2) / 3),
{
    base64::engine::general_purpose::STANDARD.encode(bytes)
}

/// Relies on base64's `Engine::decode` with the `STANDARD` engine: with its
/// default canonical-padding configuration it accepts exactly the canonical
/// encodings and inverts `Engine::encode`.
#[verifier::external_body]
pub fn decode_base64(s: &str) -> (r: Option<Vec<u8>>)
    ensures
        match r {
            Some(bytes) => s@ == base64_of(bytes@),
            None => forall|bs: Seq<u8>| s@ != base64_of(bs),
        },
{
    match base64::engine::general_purpose::STANDARD.decode(s) {
        Ok(v) => Some(v),
        Err(_) => None,
    }
}

/// Relies on std's `String::from_utf8`: `Ok` exactly on valid UTF-8, giving
/// the decoded characters.
#[verifier::external_body]
pub fn bytes_to_string(bytes: &Vec<u8>) -> (r: Option<String>)
    ensures
        match r {
            Some(s) => vstd::utf8::valid_utf8(bytes@) && s@ == vstd::utf8::decode_utf8(bytes@),
            None => !vstd::utf8::valid_utf8(bytes@),
        },
{
    match String::from_utf8(bytes.clone()) {
        Ok(s) => Some(s),
        Err(_) => None,
    }
}

} // verus!
