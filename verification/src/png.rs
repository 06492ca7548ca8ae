//! Verification of a received PNG: its framing, its dimensions and its pixels.

use vstd::prelude::*;

use crate::error::{checked, invalid, invalid_error, Error};
use crate::identity::{fingerprint, sha256_hex};
use crate::model::{Intent, VerifiedPng, MAX_DIMENSION, MAX_PIXELS};
use crate::text::same_text;

verus! {

/// The number of bytes that decoding may take up.
pub const MAX_DECODE_BYTES: usize = 134_217_728;

/// The eight bytes that every PNG begins with.
pub open spec fn signature() -> Seq<u8> {
    seq![0x89u8, 0x50, 0x4e, 0x47, 0x0d, 0x0a, 0x1a, 0x0a]
}

/// Whether bytes begin with the PNG signature.
pub open spec fn is_signed(bytes: Seq<u8>) -> bool {
    &&& bytes.len() >= 8
    &&& bytes.take(8) == signature()
}

/// The length field of the chunk at an offset.
pub open spec fn chunk_length(bytes: Seq<u8>, at: int) -> int {
    bytes[at] * 0x100_0000 + bytes[at + 1] * 0x1_0000 + bytes[at + 2] * 0x100 + bytes[at + 3]
}

/// Whether the chunk at an offset has the type that four bytes spell.
pub open spec fn chunk_is(bytes: Seq<u8>, at: int, a: u8, b: u8, c: u8, d: u8) -> bool {
    bytes[at + 4] == a && bytes[at + 5] == b && bytes[at + 6] == c && bytes[at + 7] == d
}

/// Follows the chunks from an offset to the end chunk, which must be empty and
/// must be the end of the bytes. An animation control chunk is refused.
pub open spec fn framing(bytes: Seq<u8>, at: int) -> Result<(), Error<Seq<char>>>
    decreases bytes.len() - at,
{
    if at < 0 || at + 8 > bytes.len() {
        Err(invalid_error("truncated PNG chunk"@))
    } else {
        let length = chunk_length(bytes, at);
        let end = at + 12 + length;
        if end > usize::MAX {
            Err(invalid_error("PNG chunk overflow"@))
        } else if end > bytes.len() || chunk_is(bytes, at, 0x61, 0x63, 0x54, 0x4c) {
            Err(invalid_error("truncated or animated PNG is not a screenshot"@))
        } else if chunk_is(bytes, at, 0x49, 0x45, 0x4e, 0x44) {
            if length != 0 || end != bytes.len() {
                Err(invalid_error("invalid PNG end or trailing bytes"@))
            } else {
                Ok(())
            }
        } else {
            framing(bytes, end)
        }
    }
}

fn signed(bytes: &[u8]) -> (r: bool)
    ensures
        r == is_signed(bytes@),
{
    let r = bytes.len() >= 8 && bytes[0] == 0x89 && bytes[1] == 0x50 && bytes[2] == 0x4e && bytes[3]
        == 0x47 && bytes[4] == 0x0d && bytes[5] == 0x0a && bytes[6] == 0x1a && bytes[7] == 0x0a;
    proof {
        if bytes@.len() >= 8 {
            let head = bytes@.take(8);
            if r {
                assert(head =~= signature());
            } else {
                assert(head == signature() ==> head[0] == 0x89 && head[1] == 0x50 && head[2] == 0x4e
                    && head[3] == 0x47 && head[4] == 0x0d && head[5] == 0x0a && head[6] == 0x1a
                    && head[7] == 0x0a);
            }
        }
    }
    r
}

/// Follows the chunks of a PNG to its end. A decoder alone would accept a valid
/// image followed by garbage.
pub fn check_framing(bytes: &[u8]) -> (r: Result<(), Error>)
    ensures
        checked(r) == framing(bytes@, 8),
{
    let len: usize = bytes.len();
    let mut offset: usize = 8;
    loop
        invariant
            len == bytes@.len(),
            8 <= offset,
            offset == 8 || offset <= len,
            framing(bytes@, 8) == framing(bytes@, offset as int),
        decreases usize::MAX - offset,
    {
        if len < 8 || offset > len - 8 {
            return Err(invalid("truncated PNG chunk"));
        }
        let length: u64 = bytes[offset] as u64 * 0x100_0000 + bytes[offset + 1] as u64 * 0x1_0000
            + bytes[offset + 2] as u64 * 0x100 + bytes[offset + 3] as u64;
        assert(length == chunk_length(bytes@, offset as int));
        let room: u64 = (usize::MAX - offset) as u64;
        if room < 12 || length > room - 12 {
            return Err(invalid("PNG chunk overflow"));
        }
        let end: usize = offset + 12 + length as usize;
        if end > len || (bytes[offset + 4] == 0x61 && bytes[offset + 5] == 0x63 && bytes[offset + 6]
            == 0x54 && bytes[offset + 7] == 0x4c) {
            return Err(invalid("truncated or animated PNG is not a screenshot"));
        }
        if bytes[offset + 4] == 0x49 && bytes[offset + 5] == 0x45 && bytes[offset + 6] == 0x4e
            && bytes[offset + 7] == 0x44 {
            if length != 0 || end != len {
                return Err(invalid("invalid PNG end or trailing bytes"));
            }
            return Ok(());
        }
        offset = end;
    }
}

/// Whether an image is neither empty nor larger than the limits.
pub open spec fn is_acceptable_size(width: u32, height: u32) -> bool {
    &&& 0 < width <= MAX_DIMENSION
    &&& 0 < height <= MAX_DIMENSION
    &&& width * height <= MAX_PIXELS
}

/// The result of [`check_size`].
pub open spec fn size_check(width: u32, height: u32) -> Result<(), Error<Seq<char>>> {
    if is_acceptable_size(width, height) {
        Ok(())
    } else {
        Err(invalid_error("decoded PNG dimensions exceed limit"@))
    }
}

/// Whether an image is neither empty nor larger than the limits.
pub fn acceptable_size(width: u32, height: u32) -> (r: bool)
    ensures
        r == is_acceptable_size(width, height),
{
    if width == 0 || height == 0 || width > MAX_DIMENSION || height > MAX_DIMENSION {
        return false;
    }
    assert(width * height <= 0xffff_ffff * 0xffff_ffff) by (nonlinear_arith)
        requires
            0 <= width <= 0xffff_ffff,
            0 <= height <= 0xffff_ffff,
    ;
    width as u64 * height as u64 <= MAX_PIXELS
}

/// Refuses an image that is empty or larger than the limits.
pub fn check_size(width: u32, height: u32) -> (r: Result<(), Error>)
    ensures
        checked(r) == size_check(width, height),
{
    if acceptable_size(width, height) {
        Ok(())
    } else {
        Err(invalid("decoded PNG dimensions exceed limit"))
    }
}

/// What `png` reads from the header of a PNG within a memory limit: the width
/// and the height, or why it refuses.
pub uninterp spec fn png_dimensions(bytes: Seq<u8>, limit: usize) -> Result<(u32, u32), Seq<char>>;

/// What `png` needs for the pixels of a PNG within a memory limit: the number
/// of bytes, or why it refuses what stands before the pixels.
pub uninterp spec fn png_buffer(bytes: Seq<u8>, limit: usize) -> Result<Option<usize>, Seq<char>>;

/// What `png` says of the pixels of a PNG, and of all that follows them, when
/// it decodes them into a buffer of a size within a memory limit.
pub uninterp spec fn png_pixels(bytes: Seq<u8>, limit: usize, size: usize) -> Result<
    (),
    Seq<char>,
>;

/// A decoder's answer as contracts see it.
pub open spec fn answer<A>(r: Result<A, String>) -> Result<A, Seq<char>> {
    match r {
        Ok(v) => Ok(v),
        Err(e) => Err(e@),
    }
}

/// Calls `png::Decoder::read_header_info`, with checksums verified, text and
/// colour profiles ignored and memory limited. The result is named
/// [`png_dimensions`] of the bytes and the limit.
#[verifier::external_body]
fn read_dimensions(bytes: &[u8], limit: usize) -> (r: Result<(u32, u32), String>)
    ensures
        answer(r) == png_dimensions(bytes@, limit),
{
    let mut options = png::DecodeOptions::default();
    options.set_skip_ancillary_crc_failures(false);
    let mut decoder = png::Decoder::new_with_options(std::io::Cursor::new(bytes), options);
    decoder.set_limits(png::Limits { bytes: limit });
    decoder.set_ignore_text_chunk(true);
    decoder.set_ignore_iccp_chunk(true);
    match decoder.read_header_info() {
        Ok(info) => Ok((info.width, info.height)),
        Err(e) => Err(e.to_string()),
    }
}

/// Calls `png::Decoder::read_info` and `png::Reader::output_buffer_size`, with
/// the same settings, on a framed PNG whose dimensions are within the limits.
/// The result is named [`png_buffer`] of the bytes and the limit.
#[verifier::external_body]
fn read_buffer(bytes: &[u8], limit: usize) -> (r: Result<Option<usize>, String>)
    requires
        framing(bytes@, 8) is Ok,
        png_dimensions(bytes@, limit) matches Ok(d) && is_acceptable_size(d.0, d.1),
    ensures
        answer(r) == png_buffer(bytes@, limit),
{
    let mut options = png::DecodeOptions::default();
    options.set_skip_ancillary_crc_failures(false);
    let mut decoder = png::Decoder::new_with_options(std::io::Cursor::new(bytes), options);
    decoder.set_limits(png::Limits { bytes: limit });
    decoder.set_ignore_text_chunk(true);
    decoder.set_ignore_iccp_chunk(true);
    match decoder.read_info() {
        Ok(reader) => Ok(reader.output_buffer_size()),
        Err(e) => Err(e.to_string()),
    }
}

/// Calls `png::Decoder::read_info`, `png::Reader::next_frame` on a buffer of
/// the given size, which must be one that can be made, and
/// `png::Reader::finish`, with the same settings, on a framed PNG whose
/// dimensions are within the limits. The result is named [`png_pixels`] of the
/// bytes, the limit and the size.
#[verifier::external_body]
fn read_pixels(bytes: &[u8], limit: usize, size: usize) -> (r: Result<(), String>)
    requires
        framing(bytes@, 8) is Ok,
        png_dimensions(bytes@, limit) matches Ok(d) && is_acceptable_size(d.0, d.1),
        size <= MAX_DECODE_BYTES,
    ensures
        answer(r) == png_pixels(bytes@, limit, size),
{
    let mut options = png::DecodeOptions::default();
    options.set_skip_ancillary_crc_failures(false);
    let mut decoder = png::Decoder::new_with_options(std::io::Cursor::new(bytes), options);
    decoder.set_limits(png::Limits { bytes: limit });
    decoder.set_ignore_text_chunk(true);
    decoder.set_ignore_iccp_chunk(true);
    let mut reader = decoder.read_info().map_err(|e| e.to_string())?;
    let mut pixels = vec![0; size];
    reader.next_frame(&mut pixels).map_err(|e| e.to_string())?;
    reader.finish().map_err(|e| e.to_string())
}

/// The result of [`check_buffer`].
pub open spec fn buffer_check(size: Option<usize>) -> Result<usize, Error<Seq<char>>> {
    match size {
        Some(n) if n <= MAX_DECODE_BYTES => Ok(n),
        _ => Err(invalid_error("decoded PNG buffer exceeds limit"@)),
    }
}

/// Refuses a pixel buffer that is too large to make.
pub fn check_buffer(size: Option<usize>) -> (r: Result<usize, Error>)
    ensures
        (match r {
            Ok(n) => Ok(n),
            Err(e) => Err(e@),
        }) == buffer_check(size),
{
    match size {
        Some(n) if n <= MAX_DECODE_BYTES => Ok(n),
        _ => Err(invalid("decoded PNG buffer exceeds limit")),
    }
}

/// What is verified of a PNG: the signature and the framing, then the
/// dimensions in its header, then the size of its pixels, then the pixels and
/// all that follows. The first that fails decides the refusal.
pub open spec fn png_check(bytes: Seq<u8>) -> Result<(u32, u32), Error<Seq<char>>> {
    if !is_signed(bytes) {
        Err(invalid_error("not a PNG"@))
    } else if framing(bytes, 8) is Err {
        Err(framing(bytes, 8)->Err_0)
    } else {
        match png_dimensions(bytes, MAX_DECODE_BYTES) {
            Err(why) => Err(invalid_error(why)),
            Ok((width, height)) => match size_check(width, height) {
                Err(e) => Err(e),
                Ok(()) => match png_buffer(bytes, MAX_DECODE_BYTES) {
                    Err(why) => Err(invalid_error(why)),
                    Ok(size) => match buffer_check(size) {
                        Err(e) => Err(e),
                        Ok(n) => match png_pixels(bytes, MAX_DECODE_BYTES, n) {
                            Err(why) => Err(invalid_error(why)),
                            Ok(()) => Ok((width, height)),
                        },
                    },
                },
            },
        }
    }
}

/// Verifies a PNG and gives its width and its height.
pub fn validate_png(bytes: &[u8]) -> (r: Result<(u32, u32), Error>)
    ensures
        (match r {
            Ok(d) => Ok(d),
            Err(e) => Err(e@),
        }) == png_check(bytes@),
        r matches Ok(d) ==> is_acceptable_size(d.0, d.1),
{
    if !signed(bytes) {
        return Err(invalid("not a PNG"));
    }
    check_framing(bytes)?;
    let (width, height) = match read_dimensions(bytes, MAX_DECODE_BYTES) {
        Ok(d) => d,
        Err(why) => return Err(invalid(why.as_str())),
    };
    check_size(width, height)?;
    let size = match read_buffer(bytes, MAX_DECODE_BYTES) {
        Ok(size) => size,
        Err(why) => return Err(invalid(why.as_str())),
    };
    let n: usize = check_buffer(size)?;
    match read_pixels(bytes, MAX_DECODE_BYTES, n) {
        Ok(()) => Ok((width, height)),
        Err(why) => Err(invalid(why.as_str())),
    }
}

/// The result of [`verify_bytes`].
pub open spec fn bytes_check(intent: Intent<Seq<char>>, bytes: Seq<u8>) -> Result<
    (),
    Error<Seq<char>>,
> {
    if bytes.len() == intent.bytes && fingerprint(bytes) == intent.sha256 {
        Ok(())
    } else {
        Err(invalid_error("screenshot byte count or SHA-256 does not match manifest"@))
    }
}

/// Refuses bytes that are not those that an intent announces.
pub fn verify_bytes(intent: &Intent, bytes: &[u8]) -> (r: Result<(), Error>)
    ensures
        checked(r) == bytes_check(intent@, bytes@),
{
    let digest = sha256_hex(bytes);
    if bytes.len() as u64 != intent.bytes || !same_text(digest.as_str(), intent.sha256.as_str()) {
        return Err(invalid("screenshot byte count or SHA-256 does not match manifest"));
    }
    Ok(())
}

/// The result of [`verify_png`].
pub open spec fn verified_png(intent: Intent<Seq<char>>, bytes: Seq<u8>) -> Result<
    VerifiedPng<Seq<char>>,
    Error<Seq<char>>,
> {
    match bytes_check(intent, bytes) {
        Err(e) => Err(e),
        Ok(()) => match png_check(bytes) {
            Err(e) => Err(e),
            Ok((pixel_width, pixel_height)) => Ok(
                VerifiedPng {
                    mime_type: "image/png"@,
                    bytes: intent.bytes,
                    sha256: intent.sha256,
                    pixel_width,
                    pixel_height,
                },
            ),
        },
    }
}

/// Verifies that bytes are the PNG that an intent announces.
pub fn verify_png(intent: &Intent, bytes: &[u8]) -> (r: Result<VerifiedPng, Error>)
    ensures
        (match r {
            Ok(v) => Ok(v@),
            Err(e) => Err(e@),
        }) == verified_png(intent@, bytes@),
        r matches Ok(v) ==> is_acceptable_size(v.pixel_width, v.pixel_height),
{
    verify_bytes(intent, bytes)?;
    let (pixel_width, pixel_height) = validate_png(bytes)?;
    Ok(
        VerifiedPng {
            mime_type: "image/png".to_owned(),
            bytes: bytes.len() as u64,
            sha256: sha256_hex(bytes),
            pixel_width,
            pixel_height,
        },
    )
}

} // verus!
