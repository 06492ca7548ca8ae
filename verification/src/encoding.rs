//! Bytes as text: base64 in both directions.

use vstd::prelude::*;

use crate::model::MAX_CHUNK_BYTES;

verus! {

/// The bytes that a text stands for in standard base64 with padding, where it
/// is such a text.
pub uninterp spec fn base64_decoded(text: Seq<char>) -> Option<Seq<u8>>;

/// Calls `base64::engine::general_purpose::STANDARD.decode`. Its result, with
/// any error left out, is named [`base64_decoded`] of the text.
#[verifier::external_body]
pub(crate) fn decode_base64(text: &str) -> (r: Option<Vec<u8>>)
    ensures
        (match r {
            Some(bytes) => Some(bytes@),
            None => None,
        }) == base64_decoded(text@),
{
    base64::Engine::decode(&base64::engine::general_purpose::STANDARD, text).ok()
}

/// Bytes in standard base64 with padding.
pub uninterp spec fn base64_encoded(bytes: Seq<u8>) -> Seq<char>;

/// Calls `base64::engine::general_purpose::STANDARD.encode`. Its result is
/// named [`base64_encoded`] of the bytes.
#[verifier::external_body]
pub(crate) fn encode_base64(bytes: &[u8]) -> (r: String)
    ensures
        r@ == base64_encoded(bytes@),
{
    base64::Engine::encode(&base64::engine::general_purpose::STANDARD, bytes)
}

/// A decoded chunk, where it is neither empty nor too long.
pub open spec fn chunk_of(decoded: Option<Seq<u8>>) -> Option<Seq<u8>> {
    match decoded {
        Some(bytes) => if 0 < bytes.len() <= MAX_CHUNK_BYTES {
            Some(bytes)
        } else {
            None
        },
        None => None,
    }
}

/// Bytes that may be missing, as contracts see them.
pub open spec fn optional_bytes(r: Option<Vec<u8>>) -> Option<Seq<u8>> {
    match r {
        Some(bytes) => Some(bytes@),
        None => None,
    }
}

/// Refuses a decoded chunk that is empty or too long.
pub fn checked_chunk(decoded: Option<Vec<u8>>) -> (r: Option<Vec<u8>>)
    ensures
        optional_bytes(r) == chunk_of(optional_bytes(decoded)),
{
    match decoded {
        Some(bytes) => {
            if bytes.len() > 0 && bytes.len() <= MAX_CHUNK_BYTES {
                Some(bytes)
            } else {
                None
            }
        },
        None => None,
    }
}

/// The bytes of a chunk that came as base64.
pub fn read_chunk(data: &str) -> (r: Option<Vec<u8>>)
    ensures
        optional_bytes(r) == chunk_of(base64_decoded(data@)),
{
    checked_chunk(decode_base64(data))
}

} // verus!
