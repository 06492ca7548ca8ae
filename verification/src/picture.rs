//! What is answered to a call that shows an image.

use vstd::prelude::*;

use crate::encoding::{base64_encoded, encode_base64};
use crate::jobs::{respond, response};
use crate::json::{json_quoted, quote};
use crate::message::ToolOutbound;
use crate::path::{file_name, file_name_of};
use crate::text::{cat2, cat3, chars_of, decimal, decimal_text};

verus! {

/// The longest edge of an image that is shown, in pixels.
pub const MAX_EDGE: u32 = 1_568;

/// The width and the height of an image, or why bytes are not one.
pub uninterp spec fn image_size(bytes: Seq<u8>) -> Result<(u32, u32), Seq<char>>;

/// Calls `image::load_from_memory` and takes the width and the height of the
/// image, or words the error. The result is named [`image_size`] of the bytes.
#[verifier::external_body]
fn read_size(bytes: &[u8]) -> (r: Result<(u32, u32), String>)
    ensures
        (match r {
            Ok(size) => Ok(size),
            Err(e) => Err(e@),
        }) == image_size(bytes@),
{
    image::load_from_memory(bytes).map(|i| (i.width(), i.height())).map_err(|e| e.to_string())
}

/// An image that was scaled down to fit a square and written as JPEG, with its
/// width and its height.
pub uninterp spec fn image_shrunk(bytes: Seq<u8>, limit: u32) -> Option<(Seq<u8>, u32, u32)>;

/// Whether an edge is the shorter edge of an image whose longer edge was scaled
/// to a limit: it is in proportion, rounded to the nearest pixel, and is one
/// pixel at least.
pub open spec fn is_in_proportion(shorter: u32, longer: u32, limit: u32, edge: u32) -> bool {
    let exact = 2 * (shorter * limit);
    ||| exact - longer <= 2 * (edge * longer) <= exact + longer
    ||| edge == 1 && exact <= longer
}

/// Whether a width and a height are those of an image that was scaled so that
/// its longer edge is the limit.
pub open spec fn is_scaled(size: (u32, u32), limit: u32, width: u32, height: u32) -> bool {
    if size.0 >= size.1 {
        width == limit && is_in_proportion(size.1, size.0, limit, height)
    } else {
        height == limit && is_in_proportion(size.0, size.1, limit, width)
    }
}

/// Whether a size is that of an image with pixels.
pub open spec fn has_pixels(size: (u32, u32)) -> bool {
    size.0 > 0 && size.1 > 0
}

/// Calls `image::load_from_memory`, then `DynamicImage::resize` with a triangle
/// filter and the limit for both edges, then `DynamicImage::write_to` in the
/// JPEG format. The result, with any error left out, is named [`image_shrunk`]
/// of the bytes and the limit. There is one for every image that can be read,
/// and it fits within the limit. Where the image has pixels, its longer edge
/// becomes the limit and the other one keeps the proportion, up to rounding.
#[verifier::external_body]
fn shrink(bytes: &[u8], limit: u32) -> (r: Option<(Vec<u8>, u32, u32)>)
    requires
        0 < limit <= 65_535,
    ensures
        (match r {
            Some((jpeg, w, h)) => Some((jpeg@, w, h)),
            None => None,
        }) == image_shrunk(bytes@, limit),
        image_size(bytes@) is Ok ==> r is Some,
        r matches Some((_, w, h)) ==> w <= limit && h <= limit,
        r matches Some((_, w, h)) ==> (image_size(bytes@) matches Ok(size) ==> (has_pixels(size)
            ==> is_scaled(size, limit, w, h))),
{
    let picture = image::load_from_memory(bytes).ok()?;
    let small = picture.resize(limit, limit, image::imageops::FilterType::Triangle);
    let mut jpeg = std::io::Cursor::new(Vec::new());
    let _ = small.write_to(&mut jpeg, image::ImageFormat::Jpeg);
    Some((jpeg.into_inner(), small.width(), small.height()))
}

/// The index of the last dot of a name, or -1.
pub open spec fn last_dot(name: Seq<char>) -> int
    decreases name.len(),
{
    if name.len() == 0 {
        -1
    } else if name.last() == '.' {
        name.len() - 1
    } else {
        last_dot(name.drop_last())
    }
}

/// What stands behind the last dot of a path's file name; nothing where there
/// is no dot but at the name's start.
pub open spec fn extension_of(path: Seq<char>) -> Seq<char> {
    let name = file_name_of(path);
    if last_dot(name) <= 0 {
        Seq::empty()
    } else {
        name.skip(last_dot(name) + 1)
    }
}

/// A character, as a small letter if it is an ASCII letter.
pub open spec fn lower(c: char) -> char {
    if 'A' <= c <= 'Z' {
        (c as int + 32) as char
    } else {
        c
    }
}

/// A text whose ASCII letters are small.
pub open spec fn lowered(s: Seq<char>) -> Seq<char> {
    s.map_values(|c: char| lower(c))
}

/// The media type of a file, by its extension.
pub open spec fn media_type_of(path: Seq<char>) -> Seq<char> {
    let extension = lowered(extension_of(path));
    if extension == "jpg"@ || extension == "jpeg"@ {
        "image/jpeg"@
    } else if extension == "gif"@ {
        "image/gif"@
    } else if extension == "webp"@ {
        "image/webp"@
    } else {
        "image/png"@
    }
}

fn extension(path: &str) -> (r: Vec<char>)
    ensures
        r@ == extension_of(path@),
{
    let name = chars_of(file_name(path).as_str());
    let ghost all = name@;
    let mut left: usize = name.len();
    assert(all.take(left as int) =~= all);
    while left > 0 && name[left - 1] != '.'
        invariant
            left <= name@.len(),
            all == name@,
            last_dot(all.take(left as int)) == last_dot(all),
        decreases left,
    {
        assert(all.take(left as int).drop_last() =~= all.take(left - 1));
        left -= 1;
    }
    let mut r: Vec<char> = Vec::new();
    if left <= 1 {
        assert(r@ =~= Seq::empty());
        return r;
    }
    assert(last_dot(all) == left - 1);
    let mut i: usize = left;
    assert(r@ =~= all.subrange(left as int, left as int));
    while i < name.len()
        invariant
            left <= i <= name@.len(),
            all == name@,
            r@ == all.subrange(left as int, i as int),
        decreases name@.len() - i,
    {
        r.push(name[i]);
        i += 1;
        assert(r@ =~= all.subrange(left as int, i as int));
    }
    assert(r@ =~= all.skip(left as int));
    r
}

fn same_extension(extension: &Vec<char>, word: &str) -> (r: bool)
    ensures
        r == (lowered(extension@) == word@),
{
    let letters = chars_of(word);
    if letters.len() != extension.len() {
        return false;
    }
    let mut i: usize = 0;
    while i < letters.len()
        invariant
            i <= letters@.len(),
            letters@ == word@,
            letters@.len() == extension@.len(),
            forall|j: int| 0 <= j < i ==> lower(#[trigger] extension@[j]) == word@[j],
        decreases letters@.len() - i,
    {
        let c: char = extension[i];
        let small: char = if 'A' <= c && c <= 'Z' {
            ((c as u8) + 32) as char
        } else {
            c
        };
        assert(small == lower(c));
        if small != letters[i] {
            assert(lowered(extension@)[i as int] != word@[i as int]);
            return false;
        }
        i += 1;
    }
    assert(lowered(extension@) =~= word@);
    true
}

/// Tells the media type of a file by its extension.
pub fn media_type(path: &str) -> (r: &'static str)
    ensures
        r@ == media_type_of(path@),
{
    let extension = extension(path);
    if same_extension(&extension, "jpg") || same_extension(&extension, "jpeg") {
        "image/jpeg"
    } else if same_extension(&extension, "gif") {
        "image/gif"
    } else if same_extension(&extension, "webp") {
        "image/webp"
    } else {
        "image/png"
    }
}

/// The content that shows an image: a line about it, and the image itself.
pub open spec fn image_content(
    path: Seq<char>,
    bytes: Seq<u8>,
    width: u32,
    height: u32,
    media: Seq<char>,
) -> Seq<char> {
    "[{\"text\":"@ + json_quoted(
        path + " ("@ + decimal(width as nat) + "x"@ + decimal(height as nat) + " "@ + media
            + ")"@,
    ) + ",\"type\":\"text\"},{\"data\":"@ + json_quoted(base64_encoded(bytes)) + ",\"mimeType\":"@
        + json_quoted(media) + ",\"type\":\"image\"}]"@
}

fn write_content(path: &str, bytes: &Vec<u8>, width: u32, height: u32, media: &str) -> (r: String)
    ensures
        r@ == image_content(path@, bytes@, width, height, media@),
{
    let mut title = cat2(path, " (");
    title.append(decimal_text(width as u64).as_str());
    title.append("x");
    title.append(decimal_text(height as u64).as_str());
    title.append(" ");
    title.append(media);
    title.append(")");
    let mut r = cat3("[{\"text\":", quote(title.as_str()).as_str(), ",\"type\":\"text\"},{\"data\":");
    r.append(quote(encode_base64(bytes.as_slice()).as_str()).as_str());
    r.append(",\"mimeType\":");
    r.append(quote(media).as_str());
    r.append(",\"type\":\"image\"}]");
    r
}

/// Whether an image is too large to be shown as it is.
pub open spec fn is_large(width: u32, height: u32) -> bool {
    width > MAX_EDGE || height > MAX_EDGE
}

/// The answer to a call that shows an image, given its size and, where it is
/// too large, how it looks scaled down.
pub open spec fn image_response(
    call_id: Seq<char>,
    path: Seq<char>,
    bytes: Seq<u8>,
    size: Result<(u32, u32), Seq<char>>,
    shrunk: Option<(Seq<u8>, u32, u32)>,
) -> ToolOutbound<Seq<char>> {
    match size {
        Err(e) => response(call_id, "cannot decode image: "@ + e, 1),
        Ok((w, h)) => if !is_large(w, h) {
            response(call_id, image_content(path, bytes, w, h, media_type_of(path)), 0)
        } else {
            match shrunk {
                Some((jpeg, rw, rh)) => response(
                    call_id,
                    image_content(path, jpeg, rw, rh, "image/jpeg"@),
                    0,
                ),
                None => response(call_id, "cannot decode image: "@, 1),
            }
        },
    }
}

/// Answers a call that shows an image, given its size and how it looks scaled
/// down.
pub fn answer_image(
    call_id: &str,
    path: &str,
    bytes: &Vec<u8>,
    size: Result<(u32, u32), String>,
    shrunk: Option<(Vec<u8>, u32, u32)>,
) -> (r: ToolOutbound)
    ensures
        r@ == image_response(
            call_id@,
            path@,
            bytes@,
            match size {
                Ok(size) => Ok(size),
                Err(e) => Err(e@),
            },
            match shrunk {
                Some((jpeg, w, h)) => Some((jpeg@, w, h)),
                None => None,
            },
        ),
{
    let (w, h): (u32, u32) = match size {
        Err(e) => return respond(call_id, cat2("cannot decode image: ", e.as_str()), 1),
        Ok((w, h)) => (w, h),
    };
    if !(w > MAX_EDGE || h > MAX_EDGE) {
        return respond(call_id, write_content(path, bytes, w, h, media_type(path)), 0);
    }
    match shrunk {
        Some((jpeg, rw, rh)) => {
            respond(call_id, write_content(path, &jpeg, rw, rh, "image/jpeg"), 0)
        },
        None => respond(call_id, "cannot decode image: ".to_owned(), 1),
    }
}

/// Shows an image: as it is where it is small enough, else scaled down in
/// proportion, so that its longer edge is as long as it may be.
pub fn show_image(call_id: &str, path: &str, bytes: &Vec<u8>) -> (r: ToolOutbound)
    ensures
        r@ == image_response(
            call_id@,
            path@,
            bytes@,
            image_size(bytes@),
            image_shrunk(bytes@, MAX_EDGE),
        ),
        ({
            &&& image_size(bytes@) is Ok
            &&& is_large(image_size(bytes@)->Ok_0.0, image_size(bytes@)->Ok_0.1)
        }) ==> {
            &&& image_shrunk(bytes@, MAX_EDGE) is Some
            &&& image_shrunk(bytes@, MAX_EDGE)->Some_0.1 <= MAX_EDGE
            &&& image_shrunk(bytes@, MAX_EDGE)->Some_0.2 <= MAX_EDGE
            &&& has_pixels(image_size(bytes@)->Ok_0) ==> is_scaled(
                image_size(bytes@)->Ok_0,
                MAX_EDGE,
                image_shrunk(bytes@, MAX_EDGE)->Some_0.1,
                image_shrunk(bytes@, MAX_EDGE)->Some_0.2,
            )
        },
{
    let size = read_size(bytes.as_slice());
    let large: bool = match &size {
        Ok((w, h)) => *w > MAX_EDGE || *h > MAX_EDGE,
        Err(_) => false,
    };
    let shrunk: Option<(Vec<u8>, u32, u32)> = if large {
        shrink(bytes.as_slice(), MAX_EDGE)
    } else {
        None
    };
    answer_image(call_id, path, bytes, size, shrunk)
}

} // verus!
