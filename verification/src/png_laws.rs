//! Which bytes are a screenshot.

use vstd::prelude::*;

use crate::error::{invalid_error, Error};
use crate::identity::fingerprint;
use crate::model::Intent;
use crate::png::{
    bytes_check, chunk_is, chunk_length, framing, is_signed, png_buffer, png_check, png_dimensions,
    png_pixels, verified_png,
};

verus! {

/// A chunk of a PNG, as it is written: its length comes first.
pub struct Chunk {
    pub kind: Seq<u8>,
    pub data: Seq<u8>,
    pub checksum: Seq<u8>,
}

/// A number as four bytes, the highest first.
pub open spec fn four_bytes(n: int) -> Seq<u8> {
    seq![
        (n / 0x100_0000) as u8,
        (n / 0x1_0000 % 0x100) as u8,
        (n / 0x100 % 0x100) as u8,
        (n % 0x100) as u8,
    ]
}

/// Whether the parts of a chunk have the lengths that they must have.
pub open spec fn is_chunk(c: Chunk) -> bool {
    c.kind.len() == 4 && c.checksum.len() == 4 && c.data.len() < 0x1_0000_0000
}

/// The bytes of a chunk.
pub open spec fn chunk_bytes(c: Chunk) -> Seq<u8> {
    four_bytes(c.data.len() as int) + c.kind + c.data + c.checksum
}

/// The bytes of chunks, one behind the other.
pub open spec fn all_bytes(chunks: Seq<Chunk>) -> Seq<u8>
    decreases chunks.len(),
{
    if chunks.len() == 0 {
        Seq::empty()
    } else {
        all_bytes(chunks.drop_last()) + chunk_bytes(chunks.last())
    }
}

/// The type of a chunk that ends a PNG: `IEND`.
pub open spec fn end_kind() -> Seq<u8> {
    seq![0x49u8, 0x45, 0x4e, 0x44]
}

/// The type of a chunk that makes a PNG an animation: `acTL`.
pub open spec fn animation_kind() -> Seq<u8> {
    seq![0x61u8, 0x63, 0x54, 0x4c]
}

/// Whether a chunk is one that may stand before the end: any but an end or an
/// animation.
pub open spec fn is_inner(c: Chunk) -> bool {
    is_chunk(c) && c.kind != end_kind() && c.kind != animation_kind()
}

/// The eight bytes that a PNG begins with, then the chunks that were written
/// behind them, then anything.
pub open spec fn signed_bytes(chunks: Seq<Chunk>, rest: Seq<u8>) -> Seq<u8> {
    seq![0x89u8, 0x50, 0x4e, 0x47, 0x0d, 0x0a, 0x1a, 0x0a] + all_bytes(chunks) + rest
}

proof fn lemma_four_bytes(n: int)
    requires
        0 <= n < 0x1_0000_0000,
    ensures
        four_bytes(n)[0] * 0x100_0000 + four_bytes(n)[1] * 0x1_0000 + four_bytes(n)[2] * 0x100
            + four_bytes(n)[3] == n,
{
}

/// A chunk that stands in bytes is read as it was written.
proof fn lemma_chunk_read(before: Seq<u8>, c: Chunk, rest: Seq<u8>)
    requires
        is_chunk(c),
    ensures
        ({
            let bytes = before + chunk_bytes(c) + rest;
            let at = before.len() as int;
            &&& chunk_bytes(c).len() == 12 + c.data.len()
            &&& chunk_length(bytes, at) == c.data.len()
            &&& forall|a: u8, b: u8, d: u8, e: u8| #[trigger]
                chunk_is(bytes, at, a, b, d, e) <==> c.kind == seq![a, b, d, e]
        }),
{
    let bytes = before + chunk_bytes(c) + rest;
    let at = before.len() as int;
    let n = c.data.len() as int;
    lemma_four_bytes(n);
    assert(forall|i: int| 0 <= i < 4 ==> bytes[at + i] == #[trigger] four_bytes(n)[i]);
    assert(bytes[at] == four_bytes(n)[0] && bytes[at + 1] == four_bytes(n)[1] && bytes[at + 2]
        == four_bytes(n)[2] && bytes[at + 3] == four_bytes(n)[3]);
    assert(bytes[at + 4] == c.kind[0] && bytes[at + 5] == c.kind[1] && bytes[at + 6] == c.kind[2]
        && bytes[at + 7] == c.kind[3]);
    assert forall|a: u8, b: u8, d: u8, e: u8| #[trigger]
        chunk_is(bytes, at, a, b, d, e) <==> c.kind == seq![a, b, d, e] by {
        if chunk_is(bytes, at, a, b, d, e) {
            assert(c.kind =~= seq![a, b, d, e]);
        } else if c.kind == seq![a, b, d, e] {
            assert(c.kind[0] == a && c.kind[1] == b && c.kind[2] == d && c.kind[3] == e);
        }
    }
}

/// The chunks that are written last come first behind those before them.
proof fn lemma_one_more(chunks: Seq<Chunk>, c: Chunk, rest: Seq<u8>)
    ensures
        signed_bytes(chunks.push(c), rest) == signed_bytes(chunks, chunk_bytes(c) + rest),
{
    assert(chunks.push(c).drop_last() =~= chunks);
    assert(signed_bytes(chunks.push(c), rest) =~= signed_bytes(chunks, chunk_bytes(c) + rest));
}

/// Inner chunks are passed over.
proof fn lemma_passes(chunks: Seq<Chunk>, rest: Seq<u8>)
    requires
        forall|i: int| 0 <= i < chunks.len() ==> is_inner(#[trigger] chunks[i]),
        signed_bytes(chunks, rest).len() <= usize::MAX,
    ensures
        framing(signed_bytes(chunks, rest), 8) == framing(
            signed_bytes(chunks, rest),
            (8 + all_bytes(chunks).len()) as int,
        ),
    decreases chunks.len(),
{
    if chunks.len() > 0 {
        let c = chunks.last();
        let earlier = chunks.drop_last();
        let bytes = signed_bytes(chunks, rest);
        assert(earlier.push(c) =~= chunks);
        lemma_one_more(earlier, c, rest);
        assert forall|i: int| 0 <= i < earlier.len() implies is_inner(#[trigger] earlier[i]) by {
            assert(earlier[i] == chunks[i]);
        }
        lemma_passes(earlier, chunk_bytes(c) + rest);
        let before = signed_bytes(earlier, Seq::empty());
        assert(before + chunk_bytes(c) + rest =~= bytes);
        assert(is_inner(chunks[chunks.len() - 1]));
        lemma_chunk_read(before, c, rest);
        assert(before.len() == 8 + all_bytes(earlier).len());
        assert(!chunk_is(bytes, before.len() as int, 0x61, 0x63, 0x54, 0x4c));
        assert(!chunk_is(bytes, before.len() as int, 0x49, 0x45, 0x4e, 0x44));
    }
}

/// Any chunks may stand in a PNG before its end, but no animation: ancillary
/// ones (physical size, colour space, text) as well as critical ones. Bytes that
/// are made of complete chunks and end with one empty end chunk pass.
pub proof fn framed_pngs_pass(chunks: Seq<Chunk>, checksum: Seq<u8>)
    requires
        forall|i: int| 0 <= i < chunks.len() ==> is_inner(#[trigger] chunks[i]),
        checksum.len() == 4,
        signed_bytes(chunks, Seq::empty()).len() + 12 <= usize::MAX,
    ensures
        ({
            let end = Chunk { kind: end_kind(), data: Seq::empty(), checksum };
            framing(signed_bytes(chunks, chunk_bytes(end)), 8) is Ok
        }),
{
    let end = Chunk { kind: end_kind(), data: Seq::empty(), checksum };
    let bytes = signed_bytes(chunks, chunk_bytes(end));
    let before = signed_bytes(chunks, Seq::empty());
    assert(before + chunk_bytes(end) + Seq::empty() =~= bytes);
    lemma_chunk_read(before, end, Seq::empty());
    lemma_passes(chunks, chunk_bytes(end));
    assert(end_kind()[0] != animation_kind()[0]);
    assert(!chunk_is(bytes, before.len() as int, 0x61, 0x63, 0x54, 0x4c));
}

/// Whether bytes are the signature, complete inner chunks, and one empty end
/// chunk at the very end.
pub open spec fn is_framed(bytes: Seq<u8>) -> bool {
    exists|chunks: Seq<Chunk>, checksum: Seq<u8>|
        {
            &&& bytes == #[trigger] signed_bytes(
                chunks,
                chunk_bytes(Chunk { kind: end_kind(), data: Seq::empty(), checksum }),
            )
            &&& forall|i: int| 0 <= i < chunks.len() ==> is_inner(#[trigger] chunks[i])
            &&& checksum.len() == 4
        }
}

/// The chunk that stands at a place.
spec fn chunk_at(bytes: Seq<u8>, at: int) -> Chunk {
    let n = chunk_length(bytes, at);
    Chunk {
        kind: bytes.subrange(at + 4, at + 8),
        data: bytes.subrange(at + 8, at + 8 + n),
        checksum: bytes.subrange(at + 8 + n, at + 12 + n),
    }
}

proof fn lemma_chunk_written(bytes: Seq<u8>, at: int)
    requires
        0 <= at,
        at + 12 + chunk_length(bytes, at) <= bytes.len(),
    ensures
        is_chunk(chunk_at(bytes, at)),
        chunk_bytes(chunk_at(bytes, at)) == bytes.subrange(
            at,
            at + 12 + chunk_length(bytes, at),
        ),
{
    let n = chunk_length(bytes, at);
    let c = chunk_at(bytes, at);
    assert(four_bytes(n) =~= bytes.subrange(at, at + 4));
    assert(chunk_bytes(c) =~= bytes.subrange(at, at + 12 + n));
}

proof fn lemma_framed_from(bytes: Seq<u8>, chunks: Seq<Chunk>)
    requires
        framing(bytes, (8 + all_bytes(chunks).len()) as int) is Ok,
        bytes.len() >= 8 + all_bytes(chunks).len(),
        bytes == signed_bytes(chunks, bytes.skip((8 + all_bytes(chunks).len()) as int)),
        forall|i: int| 0 <= i < chunks.len() ==> is_inner(#[trigger] chunks[i]),
    ensures
        is_framed(bytes),
    decreases bytes.len() - all_bytes(chunks).len(),
{
    let at = 8 + all_bytes(chunks).len();
    let n = chunk_length(bytes, at as int);
    let c = chunk_at(bytes, at as int);
    lemma_chunk_written(bytes, at as int);
    let rest = bytes.skip((at + 12 + n) as int);
    assert(bytes.skip(at as int) =~= chunk_bytes(c) + rest);
    let before = signed_bytes(chunks, Seq::empty());
    assert(before + chunk_bytes(c) + rest =~= bytes);
    lemma_chunk_read(before, c, rest);
    if chunk_is(bytes, at as int, 0x49, 0x45, 0x4e, 0x44) {
        assert(c.data =~= Seq::empty());
        assert(rest =~= Seq::empty());
        assert(chunk_bytes(c) + rest =~= chunk_bytes(c));
        assert(c == Chunk { kind: end_kind(), data: Seq::empty(), checksum: c.checksum });
    } else {
        let longer = chunks.push(c);
        assert(longer.drop_last() =~= chunks);
        lemma_one_more(chunks, c, rest);
        assert(all_bytes(longer).len() == all_bytes(chunks).len() + 12 + n);
        assert(is_inner(c));
        assert forall|i: int| 0 <= i < longer.len() implies is_inner(#[trigger] longer[i]) by {
            if i < chunks.len() {
                assert(longer[i] == chunks[i]);
            }
        }
        lemma_framed_from(bytes, longer);
    }
}

/// Nothing else passes: bytes with a signature that pass are complete chunks,
/// none of them an animation, and end with one empty end chunk.
pub proof fn only_framed_pngs_pass(bytes: Seq<u8>)
    requires
        is_signed(bytes),
        framing(bytes, 8) is Ok,
    ensures
        is_framed(bytes),
{
    assert(bytes =~= signed_bytes(Seq::empty(), bytes.skip(8)));
    lemma_framed_from(bytes, Seq::empty());
}

/// Bytes have a signature exactly if they begin with its eight bytes.
pub proof fn signatures_are_eight_bytes(bytes: Seq<u8>)
    ensures
        is_signed(bytes) <==> exists|rest: Seq<u8>|
            bytes == #[trigger] signed_bytes(Seq::empty(), rest),
{
    if is_signed(bytes) {
        assert(bytes =~= signed_bytes(Seq::empty(), bytes.skip(8)));
    }
    assert forall|rest: Seq<u8>| bytes == #[trigger] signed_bytes(Seq::empty(), rest) implies
        is_signed(bytes) by {
        assert(bytes.take(8) =~= crate::png::signature());
    }
}

/// Behind inner chunks, each fault has its own refusal: too few bytes for a
/// chunk's length and type; an animation; a chunk that runs past the end; an end
/// that is not empty, or that something follows.
pub proof fn framing_faults_are_told_apart(
    chunks: Seq<Chunk>,
    c: Chunk,
    rest: Seq<u8>,
    cut: int,
)
    requires
        forall|i: int| 0 <= i < chunks.len() ==> is_inner(#[trigger] chunks[i]),
        is_chunk(c),
        signed_bytes(chunks, chunk_bytes(c) + rest).len() <= usize::MAX,
        0 <= cut < 12 + c.data.len(),
    ensures
        ({
            let whole = framing(signed_bytes(chunks, chunk_bytes(c) + rest), 8);
            let short = framing(signed_bytes(chunks, chunk_bytes(c).take(cut)), 8);
            &&& cut < 8 ==> short == Err::<(), Error<Seq<char>>>(
                invalid_error("truncated PNG chunk"@),
            )
            &&& cut >= 8 ==> short == Err::<(), Error<Seq<char>>>(
                invalid_error("truncated or animated PNG is not a screenshot"@),
            )
            &&& c.kind == animation_kind() ==> whole == Err::<(), Error<Seq<char>>>(
                invalid_error("truncated or animated PNG is not a screenshot"@),
            )
            &&& c.kind == end_kind() && (c.data.len() > 0 || rest.len() > 0) ==> whole == Err::<
                (),
                Error<Seq<char>>,
            >(invalid_error("invalid PNG end or trailing bytes"@))
        }),
{
    let before = signed_bytes(chunks, Seq::empty());
    let at = before.len() as int;
    let bytes = signed_bytes(chunks, chunk_bytes(c) + rest);
    assert(before + chunk_bytes(c) + rest =~= bytes);
    lemma_chunk_read(before, c, rest);
    lemma_passes(chunks, chunk_bytes(c) + rest);
    assert(end_kind()[0] != animation_kind()[0]);
    let cut_bytes = signed_bytes(chunks, chunk_bytes(c).take(cut));
    lemma_passes(chunks, chunk_bytes(c).take(cut));
    assert(cut_bytes =~= bytes.take(at + cut));
    if cut >= 8 {
        assert(chunk_length(cut_bytes, at) == chunk_length(bytes, at)) by {
            assert(cut_bytes[at] == bytes[at] && cut_bytes[at + 1] == bytes[at + 1]
                && cut_bytes[at + 2] == bytes[at + 2] && cut_bytes[at + 3] == bytes[at + 3]);
        }
        assert(at + 12 + c.data.len() <= bytes.len());
    }
}

/// A framed PNG that the decoder reads is accepted with the size that the decoder
/// found, if neither edge is longer than 32768 pixels, there are at most 33554432
/// pixels, and the pixels take up at most 134217728 bytes. Nothing else is.
pub proof fn decoded_pngs_within_the_limits_are_accepted(bytes: Seq<u8>, width: u32, height: u32)
    ensures
        png_check(bytes) == Ok::<(u32, u32), Error<Seq<char>>>((width, height)) <==> {
            &&& is_signed(bytes)
            &&& framing(bytes, 8) is Ok
            &&& png_dimensions(bytes, 134_217_728) == Ok::<(u32, u32), Seq<char>>((width, height))
            &&& 1 <= width <= 32_768
            &&& 1 <= height <= 32_768
            &&& width * height <= 33_554_432
            &&& png_buffer(bytes, 134_217_728) matches Ok(Some(size))
            &&& size <= 134_217_728
            &&& png_pixels(bytes, 134_217_728, size) is Ok
        },
{
}

/// Each reason to refuse a PNG is told in its own words, and the first that holds
/// decides.
pub proof fn refused_pngs_are_told_why(bytes: Seq<u8>)
    ensures
        !is_signed(bytes) ==> png_check(bytes) == Err::<(u32, u32), Error<Seq<char>>>(
            invalid_error("not a PNG"@),
        ),
        is_signed(bytes) && framing(bytes, 8) is Err ==> png_check(bytes) == Err::<
            (u32, u32),
            Error<Seq<char>>,
        >(framing(bytes, 8)->Err_0),
        is_signed(bytes) && framing(bytes, 8) is Ok ==> match png_dimensions(bytes, 134_217_728) {
            Err(why) => png_check(bytes) == Err::<(u32, u32), Error<Seq<char>>>(
                invalid_error(why),
            ),
            Ok((w, h)) => w == 0 || h == 0 || w > 32_768 || h > 32_768 || w * h > 33_554_432
                ==> png_check(bytes) == Err::<(u32, u32), Error<Seq<char>>>(
                invalid_error("decoded PNG dimensions exceed limit"@),
            ),
        },
        is_signed(bytes) && framing(bytes, 8) is Ok ==> (png_dimensions(bytes, 134_217_728) matches Ok(
            (w, h),
        ) ==> (1 <= w <= 32_768 && 1 <= h <= 32_768 && w * h <= 33_554_432 ==> match png_buffer(
            bytes,
            134_217_728,
        ) {
            Err(why) => png_check(bytes) == Err::<(u32, u32), Error<Seq<char>>>(
                invalid_error(why),
            ),
            Ok(Some(size)) if size <= 134_217_728 => png_pixels(
                bytes,
                134_217_728,
                size,
            ) matches Err(why) ==> png_check(bytes) == Err::<(u32, u32), Error<Seq<char>>>(
                invalid_error(why),
            ),
            _ => png_check(bytes) == Err::<(u32, u32), Error<Seq<char>>>(
                invalid_error("decoded PNG buffer exceeds limit"@),
            ),
        })),
{
}

/// Received bytes are verified exactly if there are as many as were announced,
/// their digest is the announced one, and they are an accepted PNG; and then what
/// is verified of them is that, with the size of the image.
pub proof fn announced_pngs_are_verified(intent: Intent<Seq<char>>, bytes: Seq<u8>)
    ensures
        match verified_png(intent, bytes) {
            Ok(v) => {
                &&& bytes.len() == intent.bytes
                &&& fingerprint(bytes) == intent.sha256
                &&& png_check(bytes) == Ok::<(u32, u32), Error<Seq<char>>>(
                    (v.pixel_width, v.pixel_height),
                )
                &&& v.mime_type == "image/png"@
                &&& v.bytes == bytes.len()
                &&& v.sha256 == fingerprint(bytes)
            },
            Err(e) => if bytes.len() == intent.bytes && fingerprint(bytes) == intent.sha256 {
                png_check(bytes) == Err::<(u32, u32), Error<Seq<char>>>(e)
            } else {
                e == invalid_error("screenshot byte count or SHA-256 does not match manifest"@)
            },
        },
        bytes_check(intent, bytes) is Ok <==> bytes.len() == intent.bytes && fingerprint(bytes)
            == intent.sha256,
{
}

} // verus!
