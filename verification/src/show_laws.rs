//! What is shown of images and PDFs: the media types of images, and how the pages
//! of PDFs are counted.

use vstd::prelude::*;

use crate::call_laws::{answer, asked, shows_image, told};
use crate::encoding::base64_encoded;
use crate::json::json_quoted;
use crate::message::{Outbound, Task, ToolOutbound};
use crate::path::{file_name_of, joined, last_slash};
use crate::path_laws::{below, files_are_named_in_their_directory};
use crate::pdf::{digits_read, number_parsed, page_count, pages_field};
use crate::picture::{extension_of, image_size, last_dot, lower, lowered, media_type_of};
use crate::process::{lossy_text, Finished};
use crate::text::{decimal, pieces, starts_with, trimmed};
use crate::text_laws::{
    is_blank, is_digits, lacks, lines_are_pieces, trimming_keeps_the_text, value_of,
    written_numbers_can_be_read,
};
use crate::tool::{begun, EffectView, Host, Report, StepView};

verus! {

/// Whether a text spells a word of small letters, in letters of either case.
pub open spec fn spells(s: Seq<char>, word: Seq<char>) -> bool {
    &&& s.len() == word.len()
    &&& forall|i: int|
        0 <= i < s.len() ==> #[trigger] s[i] == word[i] || ('A' <= s[i] <= 'Z' && s[i] as int + 32
            == word[i] as int)
}

proof fn spelling_is_lowering(s: Seq<char>, word: Seq<char>)
    requires
        forall|i: int| 0 <= i < word.len() ==> 'a' <= #[trigger] word[i] <= 'z',
    ensures
        spells(s, word) <==> lowered(s) == word,
{
    if spells(s, word) {
        assert forall|i: int| 0 <= i < s.len() implies #[trigger] lowered(s)[i] == word[i] by {
            assert(s[i] == word[i] || ('A' <= s[i] <= 'Z' && s[i] as int + 32 == word[i] as int));
            assert('a' <= word[i] <= 'z');
        }
        assert(lowered(s) =~= word);
    }
    if lowered(s) == word {
        assert forall|i: int| 0 <= i < s.len() implies #[trigger] s[i] == word[i] || ('A' <= s[i]
            <= 'Z' && s[i] as int + 32 == word[i] as int) by {
            assert(lowered(s)[i] == lower(s[i]));
        }
    }
}

proof fn the_last_dot(stem: Seq<char>, extension: Seq<char>)
    requires
        lacks(extension, '.'),
    ensures
        last_dot(stem.push('.') + extension) == stem.len(),
        last_dot(extension) == -1,
    decreases extension.len(),
{
    let name = stem.push('.') + extension;
    if extension.len() == 0 {
        assert(name =~= stem.push('.'));
    } else {
        let shorter = extension.drop_last();
        assert forall|i: int| 0 <= i < shorter.len() implies #[trigger] shorter[i] != '.' by {
            assert(shorter[i] == extension[i]);
        }
        the_last_dot(stem, shorter);
        assert(name.drop_last() =~= stem.push('.') + shorter);
        assert(extension[extension.len() - 1] != '.');
    }
}

/// Whether a path leads to a file of a name: in a directory, or by itself.
pub open spec fn leads_to(path: Seq<char>, name: Seq<char>) -> bool {
    path == name || exists|directory: Seq<char>| path == #[trigger] below(directory, name)
}

proof fn no_slash(name: Seq<char>)
    requires
        lacks(name, '/'),
    ensures
        last_slash(name) == -1,
    decreases name.len(),
{
    if name.len() > 0 {
        let shorter = name.drop_last();
        assert forall|i: int| 0 <= i < shorter.len() implies #[trigger] shorter[i] != '/' by {
            assert(shorter[i] == name[i]);
        }
        no_slash(shorter);
        assert(name[name.len() - 1] != '/');
    }
}

proof fn names_of_files(path: Seq<char>, name: Seq<char>)
    requires
        lacks(name, '/'),
        leads_to(path, name),
    ensures
        file_name_of(path) == name,
{
    if path == name {
        no_slash(name);
        assert(name.skip(0) =~= name);
    } else {
        let directory = choose|directory: Seq<char>| path == #[trigger] below(directory, name);
        files_are_named_in_their_directory(directory, name);
    }
}

/// The media type that an extension names.
pub open spec fn names_media(extension: Seq<char>, media: Seq<char>) -> bool {
    if spells(extension, seq!['j', 'p', 'g']) || spells(extension, seq!['j', 'p', 'e', 'g']) {
        media == "image/jpeg"@
    } else if spells(extension, seq!['g', 'i', 'f']) {
        media == "image/gif"@
    } else if spells(extension, seq!['w', 'e', 'b', 'p']) {
        media == "image/webp"@
    } else {
        media == "image/png"@
    }
}

/// The media type of a file is that of its extension, in letters of either case:
/// JPEG, GIF or WebP where the extension says so, else PNG. A name without a dot,
/// or with none but at its start, has no extension.
pub proof fn media_types_go_by_the_extension(
    path: Seq<char>,
    stem: Seq<char>,
    extension: Seq<char>,
)
    requires
        lacks(stem, '/') && lacks(extension, '/'),
        lacks(extension, '.'),
    ensures
        stem.len() > 0 && leads_to(path, stem.push('.') + extension) ==> names_media(
            extension,
            media_type_of(path),
        ),
        leads_to(path, seq!['.'] + extension) ==> media_type_of(path) == "image/png"@,
        leads_to(path, extension) ==> media_type_of(path) == "image/png"@,
{
    reveal_strlit("jpg");
    reveal_strlit("jpeg");
    reveal_strlit("gif");
    reveal_strlit("webp");
    assert("jpg"@ =~= seq!['j', 'p', 'g']);
    assert("jpeg"@ =~= seq!['j', 'p', 'e', 'g']);
    assert("gif"@ =~= seq!['g', 'i', 'f']);
    assert("webp"@ =~= seq!['w', 'e', 'b', 'p']);
    let name = stem.push('.') + extension;
    assert(lacks(name, '/')) by {
        assert forall|i: int| 0 <= i < name.len() implies #[trigger] name[i] != '/' by {
            if i < stem.len() {
                assert(name[i] == stem[i]);
            } else if i > stem.len() {
                assert(name[i] == extension[i - stem.len() - 1]);
            }
        }
    }
    let hidden = seq!['.'] + extension;
    assert(lacks(hidden, '/')) by {
        assert forall|i: int| 0 <= i < hidden.len() implies #[trigger] hidden[i] != '/' by {
            if i > 0 {
                assert(hidden[i] == extension[i - 1]);
            }
        }
    }
    the_last_dot(stem, extension);
    the_last_dot(Seq::empty(), extension);
    assert(Seq::<char>::empty().push('.') + extension =~= hidden);
    assert(lowered(Seq::<char>::empty()).len() == 0);
    spelling_is_lowering(extension, seq!['j', 'p', 'g']);
    spelling_is_lowering(extension, seq!['j', 'p', 'e', 'g']);
    spelling_is_lowering(extension, seq!['g', 'i', 'f']);
    spelling_is_lowering(extension, seq!['w', 'e', 'b', 'p']);
    if leads_to(path, name) {
        names_of_files(path, name);
        assert(name.skip((stem.len() + 1) as int) =~= extension);
        if stem.len() > 0 {
            assert(extension_of(path) == extension);
        }
    }
    if leads_to(path, hidden) {
        names_of_files(path, hidden);
        assert(extension_of(path) == Seq::<char>::empty());
    }
    if leads_to(path, extension) {
        names_of_files(path, extension);
        assert(extension_of(path) == Seq::<char>::empty());
    }
}

/// An image of at most 1568 pixels each way is shown as it is, under the path
/// that the call resolved to, with the media type that the path's extension names.
pub proof fn images_are_shown_with_their_media_type(
    host: Host<Seq<char>>,
    call_id: Seq<char>,
    path: Seq<char>,
    stem: Seq<char>,
    extension: Seq<char>,
    bytes: Vec<u8>,
    width: u32,
    height: u32,
)
    requires
        lacks(stem, '/') && lacks(extension, '/'),
        lacks(extension, '.'),
        stem.len() > 0,
        leads_to(joined(host.directory, path), stem.push('.') + extension),
        image_size(bytes@) == Ok::<(u32, u32), Seq<char>>((width, height)),
        width <= 1568 && height <= 1568,
    ensures
        ({
            let file = joined(host.directory, path);
            let first = begun(host, Task::ViewImage { call_id, path });
            let last = told(first, Report::Bytes(Ok(bytes)));
            &&& asked(first) == Some(EffectView::ReadBytes { path: file })
            &&& last matches StepView::Say(
                Outbound::Tool(ToolOutbound::Response { call_id: c, output, exit_code }),
            )
            &&& c == call_id
            &&& exit_code == 0
            &&& exists|media: Seq<char>| #[trigger]
                names_media(extension, media) && shows_image(
                    output,
                    file,
                    width,
                    height,
                    media,
                    bytes@,
                )
        }),
{
    let file = joined(host.directory, path);
    media_types_go_by_the_extension(file, stem, extension);
    assert(names_media(extension, media_type_of(file)));
}

proof fn digits_are_read(s: Seq<char>)
    requires
        is_digits(s),
    ensures
        0 <= value_of(s),
        value_of(s) <= u32::MAX ==> digits_read(s) == Ok::<u32, Seq<char>>(value_of(s) as u32),
        value_of(s) > u32::MAX ==> digits_read(s) == Err::<u32, Seq<char>>(
            "number too large to fit in target type"@,
        ),
    decreases s.len(),
{
    if s.len() > 0 {
        let shorter = s.drop_last();
        assert forall|i: int| 0 <= i < shorter.len() implies '0' <= #[trigger] shorter[i]
            <= '9' by {
            assert(shorter[i] == s[i]);
        }
        digits_are_read(shorter);
        assert('0' <= s[s.len() - 1] <= '9');
    }
}

/// A number in digits is read as the number that they stand for, with a plus sign
/// before it or not, if that is not too large; nothing and no digit are no number.
pub proof fn numbers_are_read(s: Seq<char>, other: char)
    requires
        is_digits(s),
    ensures
        s.len() > 0 && value_of(s) <= u32::MAX ==> number_parsed(s) == Ok::<u32, Seq<char>>(
            value_of(s) as u32,
        ) && number_parsed(seq!['+'] + s) == Ok::<u32, Seq<char>>(value_of(s) as u32),
        value_of(s) > u32::MAX ==> number_parsed(s) == Err::<u32, Seq<char>>(
            "number too large to fit in target type"@,
        ),
        number_parsed(Seq::empty()) == Err::<u32, Seq<char>>(
            "cannot parse integer from empty string"@,
        ),
        s.len() > 0 && value_of(s) <= u32::MAX && !('0' <= other <= '9') ==> number_parsed(
            s.push(other),
        ) == Err::<u32, Seq<char>>("invalid digit found in string"@),
{
    digits_are_read(s);
    if s.len() > 0 {
        assert('0' <= s[0] <= '9');
        assert((seq!['+'] + s).skip(1) =~= s);
        assert(s.push(other).drop_last() =~= s);
        assert(s.push(other)[0] == s[0]);
    }
}

proof fn fields_are_found(earlier: Seq<Seq<char>>, line: Seq<char>, later: Seq<Seq<char>>, i: int)
    requires
        0 <= i <= earlier.len(),
        starts_with(line, "Pages:"@),
        forall|k: int|
            0 <= k < earlier.len() ==> !starts_with(#[trigger] earlier[k], "Pages:"@),
    ensures
        pages_field(earlier + seq![line] + later, i) == Some(
            trimmed(line.skip("Pages:"@.len() as int)),
        ),
    decreases earlier.len() - i,
{
    let all = earlier + seq![line] + later;
    if i < earlier.len() {
        assert(all[i] == earlier[i]);
        assert(!starts_with(earlier[i], "Pages:"@));
        fields_are_found(earlier, line, later, i + 1);
    } else {
        assert(all[i] == line);
    }
}

/// Whether a text is `Pages:` and a number, with white space around the number or
/// without.
pub open spec fn counts_pages(line: Seq<char>, n: u32) -> bool {
    exists|before: Seq<char>, behind: Seq<char>| #[trigger]
        is_blank(before) && #[trigger] is_blank(behind) && line == "Pages:"@ + before + decimal(
            n as nat,
        ) + behind
}

/// The pages of a PDF are counted by the first line of what `pdfinfo` wrote that
/// begins with `Pages:`.
pub proof fn pages_are_counted(
    f: Finished,
    before: Seq<char>,
    line: Seq<char>,
    behind: Seq<char>,
    n: u32,
)
    requires
        f.success,
        lossy_text(f.stdout@) == before.push('\n') + line.push('\n') + behind,
        lacks(line, '\n'),
        forall|k: int|
            0 <= k < pieces(before).len() ==> !starts_with(#[trigger] pieces(before)[k], "Pages:"@),
        counts_pages(line, n),
    ensures
        page_count(Ok(f)) == Ok::<u32, Seq<char>>(n),
{
    let (start, end) = choose|start: Seq<char>, end: Seq<char>| #[trigger]
        is_blank(start) && #[trigger] is_blank(end) && line == "Pages:"@ + start + decimal(
            n as nat,
        ) + end;
    let value = start + decimal(n as nat) + end;
    lines_are_pieces(before, line, behind);
    written_numbers_can_be_read(n as nat);
    assert(line =~= "Pages:"@ + value);
    assert(line.take("Pages:"@.len() as int) =~= "Pages:"@);
    assert(line.skip("Pages:"@.len() as int) =~= value);
    fields_are_found(pieces(before), line, pieces(behind), 0);
    assert('0' <= decimal(n as nat)[0] <= '9');
    assert('0' <= decimal(n as nat)[decimal(n as nat).len() - 1] <= '9');
    trimming_keeps_the_text(start, decimal(n as nat), end);
    numbers_are_read(decimal(n as nat), '0');
}

/// Why the pages of a PDF could not be counted: `pdfinfo` did not run, failed, or
/// did not tell.
pub proof fn uncounted_pages_are_told_why(f: Finished, e: String)
    ensures
        page_count(Err(e)) == Err::<u32, Seq<char>>("failed to run pdfinfo: "@ + e@),
        !f.success && trimmed(lossy_text(f.stderr@)).len() == 0 ==> page_count(Ok(f)) == Err::<
            u32,
            Seq<char>,
        >("pdfinfo exited with "@ + f.status@),
        !f.success && trimmed(lossy_text(f.stderr@)).len() > 0 ==> page_count(Ok(f)) == Err::<
            u32,
            Seq<char>,
        >("pdfinfo exited with "@ + f.status@ + ": "@ + trimmed(lossy_text(f.stderr@))),
        f.success && (forall|k: int|
            0 <= k < pieces(lossy_text(f.stdout@)).len() ==> !starts_with(
                #[trigger] pieces(lossy_text(f.stdout@))[k],
                "Pages:"@,
            )) ==> page_count(Ok(f)) == Err::<u32, Seq<char>>(
            "pdfinfo output did not include a Pages field"@,
        ),
{
    let all = pieces(lossy_text(f.stdout@));
    if forall|k: int| 0 <= k < all.len() ==> !starts_with(#[trigger] all[k], "Pages:"@) {
        no_field(all, 0);
    }
}

/// A line that begins with `Pages:` and goes on with no number is told as that.
pub proof fn unreadable_pages_are_told_why(
    f: Finished,
    before: Seq<char>,
    value: Seq<char>,
    behind: Seq<char>,
    why: Seq<char>,
)
    requires
        f.success,
        lossy_text(f.stdout@) == before.push('\n') + ("Pages:"@ + value).push('\n') + behind,
        lacks("Pages:"@ + value, '\n'),
        forall|k: int|
            0 <= k < pieces(before).len() ==> !starts_with(#[trigger] pieces(before)[k], "Pages:"@),
        number_parsed(trimmed(value)) == Err::<u32, Seq<char>>(why),
    ensures
        page_count(Ok(f)) == Err::<u32, Seq<char>>("invalid pdfinfo Pages value: "@ + why),
{
    let line = "Pages:"@ + value;
    lines_are_pieces(before, line, behind);
    assert(line.take("Pages:"@.len() as int) =~= "Pages:"@);
    assert(line.skip("Pages:"@.len() as int) =~= value);
    fields_are_found(pieces(before), line, pieces(behind), 0);
}

proof fn no_field(lines: Seq<Seq<char>>, i: int)
    requires
        0 <= i <= lines.len(),
        forall|k: int| 0 <= k < lines.len() ==> !starts_with(#[trigger] lines[k], "Pages:"@),
    ensures
        pages_field(lines, i) is None,
    decreases lines.len() - i,
{
    if i < lines.len() {
        assert(!starts_with(lines[i], "Pages:"@));
        no_field(lines, i + 1);
    }
}

/// Whether bytes are those of a PDF: they begin with `%PDF-`.
pub open spec fn is_pdf(bytes: Seq<u8>) -> bool {
    &&& bytes.len() >= 5
    &&& bytes[0] == 37
    &&& bytes[1] == 80
    &&& bytes[2] == 68
    &&& bytes[3] == 70
    &&& bytes[4] == 45
}

/// A PDF is read from the path that the call gives, from the working directory on,
/// and its pages are counted. It is shown as it is if it has at most 20 pages; else
/// the answer says that it has too many. What is no PDF, cannot be read or cannot
/// be counted is answered with why.
#[verifier::rlimit(40)]
pub proof fn pdfs_are_shown_under_their_path(
    host: Host<Seq<char>>,
    call_id: Seq<char>,
    path: Seq<char>,
    bytes: Vec<u8>,
    run: Result<Finished, String>,
    e: String,
)
    ensures
        ({
            let file = joined(host.directory, path);
            let first = begun(host, Task::ReadPdf { call_id, path });
            let second = told(first, Report::Bytes(Ok(bytes)));
            let last = told(second, Report::Ran(run));
            &&& asked(first) == Some(EffectView::ReadBytes { path: file })
            &&& told(first, Report::Bytes(Err(e))) == answer(
                call_id,
                "cannot read PDF: "@ + e@,
                1,
            )
            &&& bytes@.len() == 0 ==> second == answer(call_id, "PDF file is empty: "@ + file, 1)
            &&& bytes@.len() > 0 && !is_pdf(bytes@) ==> second == answer(
                call_id,
                "file is not a valid PDF: "@ + file,
                1,
            )
            &&& is_pdf(bytes@) ==> {
                &&& asked(second) == Some(EffectView::CountPages { path: file })
                &&& page_count(run) matches Err(why) ==> last == answer(
                    call_id,
                    "cannot determine PDF page count for "@ + file + ": "@ + why
                        + ". Use a PDF utility to split or render a page range first."@,
                    1,
                )
                &&& page_count(run) matches Ok(n) ==> (n > 20 ==> last == answer(
                    call_id,
                    "PDF has "@ + decimal(n as nat)
                        + " pages, which is too many to send at once. Use a PDF utility to split or render 20 pages or fewer, then read that smaller PDF."@,
                    1,
                ))
                &&& page_count(run) matches Ok(n) ==> (n <= 20 ==> last == answer(
                    call_id,
                    "[{\"text\":"@ + json_quoted(
                        file + " ("@ + decimal(n as nat) + " pages, "@ + decimal(bytes@.len())
                            + " bytes application/pdf)"@,
                    ) + ",\"type\":\"text\"},{\"source\":{\"data\":"@ + json_quoted(
                        base64_encoded(bytes@),
                    )
                        + ",\"media_type\":\"application/pdf\",\"type\":\"base64\"},\"type\":\"document\"}]"@,
                    0,
                ))
            }
        }),
{
    if bytes@.len() >= 5 {
        let magic = crate::pdf::magic();
        if is_pdf(bytes@) {
            assert(bytes@.take(5) =~= magic);
        }
        if bytes@.take(5) == magic {
            assert(bytes@.take(5)[0] == bytes@[0] && bytes@.take(5)[1] == bytes@[1]
                && bytes@.take(5)[2] == bytes@[2] && bytes@.take(5)[3] == bytes@[3]
                && bytes@.take(5)[4] == bytes@[4]);
        }
    }
}

} // verus!
