//! Serving file contents as base64, and the soft-fail image preview.
//!
//! The image-fetch endpoint receives a base64-encoded filesystem path,
//! reads the file behind it, and answers with the base64 of its bytes — or
//! with an empty string on any decode or read failure, never with an error.

use vstd::prelude::*;

use crate::encoding::{base64_of, bytes_to_string, decode_base64};
use crate::encoding::encode_base64;
use crate::errors::CoreError;
use vstd::utf8::{decode_utf8, valid_utf8};

verus! {

/// An image-fetch request: a base64-encoded filesystem path.
#[derive(Debug)]
pub struct ImageQuery {
    pub path: String,
}

/// The image-fetch reply: the requested file, base64-encoded, or empty.
#[derive(Debug)]
pub struct ImageData {
    pub b64: String,
}

/// The base64 of a file's bytes; an `IoError` when the file was absent or
/// unreadable (`content` is then `None`).
pub fn get_base64_for_path(content: Option<&Vec<u8>>) -> (r: Result<String, CoreError>)
    ensures
        match content {
            Some(b) => r matches Ok(s) && s@ == base64_of(b@),
            None => r == Err::<String, CoreError>(CoreError::IoError),
        },
{
    match content {
        Some(bytes) => Ok(encode_base64(bytes)),
        None => Err(CoreError::IoError),
    }
}

/// Recovers the filesystem path carried by an image-fetch request: the
/// query's base64 payload decoded back to text.  `None` when the payload is
/// not a canonical base64 encoding of UTF-8 text.
pub fn decode_image_path(query: &ImageQuery) -> (r: Option<String>)
    ensures
        match r {
            Some(p) => exists|bs: Seq<u8>|
                #![trigger base64_of(bs)]
                query.path@ == base64_of(bs) && valid_utf8(bs) && p@ == decode_utf8(bs),
            None => (forall|bs: Seq<u8>| query.path@ != #[trigger] base64_of(bs)) || (exists|bs: Seq<u8>|
                #![trigger base64_of(bs)]
                query.path@ == base64_of(bs) && !valid_utf8(bs)),
        },
{
    match decode_base64(query.path.as_str()) {
        Some(bytes) => bytes_to_string(&bytes),
        None => None,
    }
}

/// The image-preview reply: the file's bytes base64-encoded, or — the
/// deliberate soft-fail contract — an empty string when the path could not
/// be decoded or the file could not be read (`content` is then `None`).
pub fn image_preview(content: Option<&Vec<u8>>) -> (r: ImageData)
    ensures
        match content {
            Some(b) => r.b64@ == base64_of(b@),
            None => r.b64@.len() == 0,
        },
{
    match content {
        Some(bytes) => ImageData { b64: encode_base64(bytes) },
        None => ImageData { b64: String::new() },
    }
}

} // verus!
