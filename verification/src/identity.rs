//! Identities and digests: which texts name an operation, and the key that
//! stands for an operation in the journal.

use vstd::prelude::*;
use vstd::utf8::*;

use crate::error::{invalid, invalid_error, checked, Error};
use crate::text::{cat3, chars_of, hex, hex_text};

verus! {

/// The longest identity, in characters.
pub const MAX_ID_CHARS: usize = 128;

/// The SHA-256 digest of a byte sequence.
pub uninterp spec fn sha256_digest(bytes: Seq<u8>) -> Seq<u8>;

/// Calls `sha2::Sha256::digest`. Its result is named [`sha256_digest`] of the
/// bytes, and is thirty-two bytes long.
#[verifier::external_body]
fn sha256(bytes: &[u8]) -> (digest: Vec<u8>)
    ensures
        digest@ == sha256_digest(bytes@),
        digest@.len() == 32,
{
    <sha2::Sha256 as sha2::Digest>::digest(bytes).to_vec()
}

/// The SHA-256 digest of a byte sequence in lower-case hexadecimal notation.
pub open spec fn fingerprint(bytes: Seq<u8>) -> Seq<char> {
    hex(sha256_digest(bytes))
}

/// Computes the SHA-256 digest of bytes in lower-case hexadecimal notation.
pub fn sha256_hex(bytes: &[u8]) -> (r: String)
    ensures
        r@ == fingerprint(bytes@),
        is_key(r@),
{
    let digest = sha256(bytes);
    let r = hex_text(digest.as_slice());
    proof {
        assert forall|i: int| 0 <= i < r@.len() implies is_key_char(#[trigger] r@[i]) by {
            assert(0 <= digest@[i / 2] as int / 16 < 16);
        }
    }
    r
}

/// Whether a character may stand in an identity.
pub open spec fn is_id_char(c: char) -> bool {
    ||| '0' <= c <= '9'
    ||| 'a' <= c <= 'z'
    ||| 'A' <= c <= 'Z'
    ||| c == '-'
    ||| c == '_'
}

/// Whether a text is an identity: 1 to 128 ASCII letters, digits, hyphens or
/// underscores.
pub open spec fn is_id(s: Seq<char>) -> bool {
    &&& 0 < s.len() <= MAX_ID_CHARS
    &&& forall|i: int| 0 <= i < s.len() ==> is_id_char(#[trigger] s[i])
}

/// The refusal of a text that is no identity.
pub open spec fn id_error() -> Error<Seq<char>> {
    invalid_error(
        "identity must contain 1..128 ASCII letters, digits, hyphens or underscores"@,
    )
}

/// The result of [`validate_id`].
pub open spec fn id_check(s: Seq<char>) -> Result<(), Error<Seq<char>>> {
    if is_id(s) {
        Ok(())
    } else {
        Err(id_error())
    }
}

/// Refuses a text that is no identity.
pub fn validate_id(id: &str) -> (r: Result<(), Error>)
    ensures
        checked(r) == id_check(id@),
{
    if valid_id(id) {
        Ok(())
    } else {
        Err(
            invalid("identity must contain 1..128 ASCII letters, digits, hyphens or underscores"),
        )
    }
}

/// Whether a text is an identity.
pub fn valid_id(id: &str) -> (r: bool)
    ensures
        r == is_id(id@),
{
    let chars = chars_of(id);
    if chars.len() == 0 || chars.len() > MAX_ID_CHARS {
        return false;
    }
    let mut i: usize = 0;
    while i < chars.len()
        invariant
            i <= chars@.len(),
            chars@ == id@,
            forall|j: int| 0 <= j < i ==> is_id_char(#[trigger] id@[j]),
        decreases chars@.len() - i,
    {
        let c = chars[i];
        if !(('0' <= c && c <= '9') || ('a' <= c && c <= 'z') || ('A' <= c && c <= 'Z') || c == '-'
            || c == '_') {
            assert(!is_id_char(id@[i as int]));
            return false;
        }
        i += 1;
    }
    true
}

/// Whether a character is a lower-case hexadecimal digit.
pub open spec fn is_key_char(c: char) -> bool {
    '0' <= c <= '9' || 'a' <= c <= 'f'
}

/// Whether a text has the form of a journal key or of a SHA-256 digest: 64
/// lower-case hexadecimal digits.
pub open spec fn is_key(s: Seq<char>) -> bool {
    &&& s.len() == 64
    &&& forall|i: int| 0 <= i < s.len() ==> is_key_char(#[trigger] s[i])
}

/// The result of [`validate_key`].
pub open spec fn key_check(s: Seq<char>) -> Result<(), Error<Seq<char>>> {
    if is_key(s) {
        Ok(())
    } else {
        Err(invalid_error("invalid journal key or SHA-256"@))
    }
}

/// Refuses a text that has not the form of a journal key.
pub fn validate_key(key: &str) -> (r: Result<(), Error>)
    ensures
        checked(r) == key_check(key@),
{
    let chars = chars_of(key);
    if chars.len() != 64 {
        return Err(invalid("invalid journal key or SHA-256"));
    }
    let mut i: usize = 0;
    while i < chars.len()
        invariant
            i <= chars@.len(),
            chars@ == key@,
            chars@.len() == 64,
            forall|j: int| 0 <= j < i ==> is_key_char(#[trigger] key@[j]),
        decreases chars@.len() - i,
    {
        let c = chars[i];
        if !(('0' <= c && c <= '9') || ('a' <= c && c <= 'f')) {
            assert(!is_key_char(key@[i as int]));
            return Err(invalid("invalid journal key or SHA-256"));
        }
        i += 1;
    }
    Ok(())
}

/// The journal key of an operation: the digest of its slug and its
/// identifier, which a NUL keeps apart.
pub open spec fn key_of(slug: Seq<char>, operation_id: Seq<char>) -> Seq<char> {
    fingerprint(encode_utf8(slug + "\0"@ + operation_id))
}

/// The result of [`operation_key`].
pub open spec fn key_for(
    slug: Seq<char>,
    operation_id: Seq<char>,
) -> Result<Seq<char>, Error<Seq<char>>> {
    if is_id(slug) && is_id(operation_id) {
        Ok(key_of(slug, operation_id))
    } else {
        Err(id_error())
    }
}

/// A result as contracts see it, where success carries a text.
pub open spec fn named(r: Result<String, Error>) -> Result<Seq<char>, Error<Seq<char>>> {
    match r {
        Ok(s) => Ok(s@),
        Err(e) => Err(e@),
    }
}

/// The journal key of an operation whose slug and identifier are identities.
pub fn operation_key(slug: &str, operation_id: &str) -> (r: Result<String, Error>)
    ensures
        named(r) == key_for(slug@, operation_id@),
        r matches Ok(key) ==> is_key(key@),
{
    validate_id(slug)?;
    validate_id(operation_id)?;
    let text = cat3(slug, "\0", operation_id);
    Ok(sha256_hex(text.as_str().as_bytes()))
}

} // verus!
