//! What is answered to a call that shows a PDF.

use vstd::prelude::*;

use crate::encoding::{base64_encoded, encode_base64};
use crate::jobs::{respond, response};
use crate::json::{json_quoted, quote};
use crate::message::ToolOutbound;
use crate::process::{lossy_text, read_lossy, Finished};
use crate::text::{
    cat2, cat3, cat4, cat5, chars_of, decimal, decimal_text, pieces, split_lines, starts_with,
    strip_prefix, texts, trim, trimmed,
};

verus! {

/// The largest number of pages that is sent at once.
pub const MAX_PAGES: u32 = 20;

/// The number that digits stand for, or why they stand for none: the first
/// character that is no digit, or that makes the number too large, decides.
pub open spec fn digits_read(s: Seq<char>) -> Result<u32, Seq<char>>
    decreases s.len(),
{
    if s.len() == 0 {
        Ok(0)
    } else {
        match digits_read(s.drop_last()) {
            Err(e) => Err(e),
            Ok(n) => if !('0' <= s.last() <= '9') {
                Err("invalid digit found in string"@)
            } else if 10 * n + (s.last() as int - '0' as int) > u32::MAX {
                Err("number too large to fit in target type"@)
            } else {
                Ok((10 * n + (s.last() as int - '0' as int)) as u32)
            },
        }
    }
}

/// The number that a text stands for, or why it stands for none: digits, with a
/// plus sign before them or not.
pub open spec fn number_parsed(text: Seq<char>) -> Result<u32, Seq<char>> {
    if text.len() == 0 {
        Err("cannot parse integer from empty string"@)
    } else if text[0] == '+' && text.len() > 1 {
        digits_read(text.skip(1))
    } else {
        digits_read(text)
    }
}

/// Reads a number in decimal notation.
pub fn parse_number(text: &str) -> (r: Result<u32, String>)
    ensures
        (match r {
            Ok(n) => Ok(n),
            Err(e) => Err(e@),
        }) == number_parsed(text@),
{
    let chars = chars_of(text);
    let len: usize = chars.len();
    if len == 0 {
        return Err("cannot parse integer from empty string".to_owned());
    }
    let start: usize = if chars[0] == '+' && len > 1 {
        1
    } else {
        0
    };
    let ghost digits = text@.skip(start as int);
    assert(start == 0 ==> digits =~= text@);
    let mut n: u32 = 0;
    let mut i: usize = start;
    assert(digits.take(0).len() == 0);
    while i < len
        invariant
            start <= i <= len,
            len == chars@.len(),
            chars@ == text@,
            digits == text@.skip(start as int),
            number_parsed(text@) == digits_read(digits),
            digits_read(digits.take(i - start)) == Ok::<u32, Seq<char>>(n),
        decreases len - i,
    {
        let c: char = chars[i];
        proof {
            assert(digits.take(i - start + 1).drop_last() =~= digits.take(i - start));
            assert(digits.take(i - start + 1).last() == c);
            reading_stops(digits, i - start + 1);
        }
        if !('0' <= c && c <= '9') {
            return Err("invalid digit found in string".to_owned());
        }
        let next: u64 = 10 * (n as u64) + ((c as u32 - '0' as u32) as u64);
        if next > u32::MAX as u64 {
            return Err("number too large to fit in target type".to_owned());
        }
        n = next as u32;
        i += 1;
    }
    assert(digits.take(i - start) =~= digits);
    Ok(n)
}

/// Once a character ends the reading of digits, those behind it do not matter.
proof fn reading_stops(s: Seq<char>, n: int)
    requires
        0 <= n <= s.len(),
    ensures
        digits_read(s.take(n)) is Err ==> digits_read(s) == digits_read(s.take(n)),
    decreases s.len() - n,
{
    if n < s.len() {
        reading_stops(s, n + 1);
        assert(s.take(n + 1).drop_last() =~= s.take(n));
    } else {
        assert(s.take(n) =~= s);
    }
}

/// The value of the first line from index `i` on that tells the number of
/// pages.
pub open spec fn pages_field(lines: Seq<Seq<char>>, i: int) -> Option<Seq<char>>
    decreases lines.len() - i,
{
    if i < 0 || i >= lines.len() {
        None
    } else if starts_with(lines[i], "Pages:"@) {
        Some(trimmed(lines[i].skip("Pages:"@.len() as int)))
    } else {
        pages_field(lines, i + 1)
    }
}

/// What the value of a field says about the number of pages.
pub open spec fn pages_read(
    field: Option<Seq<char>>,
    number: Result<u32, Seq<char>>,
) -> Result<u32, Seq<char>> {
    match field {
        None => Err("pdfinfo output did not include a Pages field"@),
        Some(_) => match number {
            Ok(n) => Ok(n),
            Err(e) => Err("invalid pdfinfo Pages value: "@ + e),
        },
    }
}

/// What a run of `pdfinfo` tells about the number of pages.
pub open spec fn page_count(run: Result<Finished, String>) -> Result<u32, Seq<char>> {
    match run {
        Err(e) => Err("failed to run pdfinfo: "@ + e@),
        Ok(f) => if !f.success {
            let message = trimmed(lossy_text(f.stderr@));
            if message.len() == 0 {
                Err("pdfinfo exited with "@ + f.status@)
            } else {
                Err("pdfinfo exited with "@ + f.status@ + ": "@ + message)
            }
        } else {
            let field = pages_field(pieces(lossy_text(f.stdout@)), 0);
            pages_read(field, number_parsed(field->Some_0))
        },
    }
}

/// Tells what the value of a field says about the number of pages.
pub fn read_pages(field: Option<String>, number: Result<u32, String>) -> (r: Result<u32, String>)
    ensures
        (match r {
            Ok(n) => Ok(n),
            Err(e) => Err(e@),
        }) == pages_read(
            match field {
                Some(s) => Some(s@),
                None => None,
            },
            match number {
                Ok(n) => Ok(n),
                Err(e) => Err(e@),
            },
        ),
{
    match field {
        None => Err("pdfinfo output did not include a Pages field".to_owned()),
        Some(_) => match number {
            Ok(n) => Ok(n),
            Err(e) => Err(cat2("invalid pdfinfo Pages value: ", e.as_str())),
        },
    }
}

fn find_pages(text: &str) -> (r: Option<String>)
    ensures
        (match r {
            Some(s) => Some(s@),
            None => None,
        }) == pages_field(pieces(text@), 0),
{
    let lines = split_lines(text);
    let ghost all = texts(lines@);
    let mut i: usize = 0;
    while i < lines.len()
        invariant
            i <= lines@.len(),
            all == texts(lines@),
            all == pieces(text@),
            pages_field(all, i as int) == pages_field(all, 0),
        decreases lines@.len() - i,
    {
        assert(all[i as int] == lines@[i as int]@);
        if let Some(rest) = strip_prefix(lines[i].as_str(), "Pages:") {
            return Some(trim(rest).to_owned());
        }
        i += 1;
    }
    None
}

/// Tells the number of pages by a run of `pdfinfo`.
pub fn pdf_page_count(run: &Result<Finished, String>) -> (r: Result<u32, String>)
    ensures
        (match r {
            Ok(n) => Ok(n),
            Err(e) => Err(e@),
        }) == page_count(*run),
{
    let f = match run {
        Err(e) => return Err(cat2("failed to run pdfinfo: ", e.as_str())),
        Ok(f) => f,
    };
    if !f.success {
        let stderr = read_lossy(f.stderr.as_slice());
        let message = trim(stderr.as_str());
        return Err(
            if message.unicode_len() == 0 {
                cat2("pdfinfo exited with ", f.status.as_str())
            } else {
                cat4("pdfinfo exited with ", f.status.as_str(), ": ", message)
            },
        );
    }
    let stdout = read_lossy(f.stdout.as_slice());
    match find_pages(stdout.as_str()) {
        None => read_pages(None, Err(String::new())),
        Some(field) => {
            let number = parse_number(field.as_str());
            read_pages(Some(field), number)
        },
    }
}

/// What the bytes of a PDF start with.
pub open spec fn magic() -> Seq<u8> {
    seq![0x25u8, 0x50u8, 0x44u8, 0x46u8, 0x2du8]
}

/// Why bytes are not those of a PDF.
pub open spec fn pdf_problem(path: Seq<char>, bytes: Seq<u8>) -> Option<Seq<char>> {
    if bytes.len() == 0 {
        Some("PDF file is empty: "@ + path)
    } else if !(bytes.len() >= 5 && bytes.take(5) == magic()) {
        Some("file is not a valid PDF: "@ + path)
    } else {
        None
    }
}

/// Tells why bytes are not those of a PDF.
pub fn check_pdf(path: &str, bytes: &Vec<u8>) -> (r: Option<String>)
    ensures
        (match r {
            Some(s) => Some(s@),
            None => None,
        }) == pdf_problem(path@, bytes@),
{
    if bytes.len() == 0 {
        return Some(cat2("PDF file is empty: ", path));
    }
    if bytes.len() >= 5 && bytes[0] == 0x25 && bytes[1] == 0x50 && bytes[2] == 0x44 && bytes[3]
        == 0x46 && bytes[4] == 0x2d {
        assert(bytes@.take(5) =~= magic());
        None
    } else {
        proof {
            if bytes@.len() >= 5 && bytes@.take(5) == magic() {
                assert(bytes@[0] == magic()[0] && bytes@[1] == magic()[1] && bytes@[2]
                    == magic()[2] && bytes@[3] == magic()[3] && bytes@[4] == magic()[4]) by {
                    assert(bytes@.take(5)[0] == bytes@[0]);
                    assert(bytes@.take(5)[1] == bytes@[1]);
                    assert(bytes@.take(5)[2] == bytes@[2]);
                    assert(bytes@.take(5)[3] == bytes@[3]);
                    assert(bytes@.take(5)[4] == bytes@[4]);
                }
            }
        }
        Some(cat2("file is not a valid PDF: ", path))
    }
}

/// The content that shows a PDF: a line about it, and the PDF itself.
pub open spec fn pdf_content(path: Seq<char>, pages: u32, bytes: Seq<u8>) -> Seq<char> {
    "[{\"text\":"@ + json_quoted(
        path + " ("@ + decimal(pages as nat) + " pages, "@ + decimal(bytes.len())
            + " bytes application/pdf)"@,
    ) + ",\"type\":\"text\"},{\"source\":{\"data\":"@ + json_quoted(base64_encoded(bytes))
        + ",\"media_type\":\"application/pdf\",\"type\":\"base64\"},\"type\":\"document\"}]"@
}

/// The answer to a call that shows a PDF, once its pages are counted.
pub open spec fn pdf_response(
    call_id: Seq<char>,
    path: Seq<char>,
    bytes: Seq<u8>,
    pages: Result<u32, Seq<char>>,
) -> ToolOutbound<Seq<char>> {
    match pages {
        Err(e) => response(
            call_id,
            "cannot determine PDF page count for "@ + path + ": "@ + e
                + ". Use a PDF utility to split or render a page range first."@,
            1,
        ),
        Ok(pages) => if pages > MAX_PAGES {
            response(
                call_id,
                "PDF has "@ + decimal(pages as nat)
                    + " pages, which is too many to send at once. Use a PDF utility to split or render 20 pages or fewer, then read that smaller PDF."@,
                1,
            )
        } else {
            response(call_id, pdf_content(path, pages, bytes), 0)
        },
    }
}

/// Answers a call that shows a PDF, once its pages are counted.
pub fn answer_pdf(call_id: &str, path: &str, bytes: &Vec<u8>, pages: Result<u32, String>) -> (r:
    ToolOutbound)
    ensures
        r@ == pdf_response(
            call_id@,
            path@,
            bytes@,
            match pages {
                Ok(n) => Ok(n),
                Err(e) => Err(e@),
            },
        ),
{
    let pages: u32 = match pages {
        Err(e) => {
            let output = cat5(
                "cannot determine PDF page count for ",
                path,
                ": ",
                e.as_str(),
                ". Use a PDF utility to split or render a page range first.",
            );
            return respond(call_id, output, 1);
        },
        Ok(pages) => pages,
    };
    if pages > MAX_PAGES {
        let output = cat3(
            "PDF has ",
            decimal_text(pages as u64).as_str(),
            " pages, which is too many to send at once. Use a PDF utility to split or render 20 pages or fewer, then read that smaller PDF.",
        );
        return respond(call_id, output, 1);
    }
    let mut title = cat4(path, " (", decimal_text(pages as u64).as_str(), " pages, ");
    title.append(decimal_text(bytes.len() as u64).as_str());
    title.append(" bytes application/pdf)");
    let mut output = cat3("[{\"text\":", quote(title.as_str()).as_str(), ",\"type\":\"text\"},{\"source\":{\"data\":");
    output.append(quote(encode_base64(bytes.as_slice()).as_str()).as_str());
    output.append(
        ",\"media_type\":\"application/pdf\",\"type\":\"base64\"},\"type\":\"document\"}]",
    );
    respond(call_id, output, 0)
}

} // verus!
