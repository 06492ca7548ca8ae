//! What trimming, splitting and writing numbers are for.

use vstd::prelude::*;

use crate::text::{
    decimal, digit, ends_with, hex, is_space, pieces, signed_decimal, split, starts_with, trimmed,
    trimmed_end, trimmed_start,
};

verus! {

/// Whether a text is made of white space.
pub open spec fn is_blank(s: Seq<char>) -> bool {
    forall|i: int| 0 <= i < s.len() ==> is_space(#[trigger] s[i])
}

/// White space is the tabulator and the characters behind it up to the carriage
/// return, the space, the next line, and the Unicode spaces and separators.
pub proof fn white_space_is_told(c: char)
    ensures
        is_space(c) <==> {
            let n = c as int;
            ||| 9 <= n <= 13
            ||| n == 32
            ||| n == 133
            ||| n == 160
            ||| n == 5760
            ||| 8192 <= n <= 8202
            ||| n == 8232
            ||| n == 8233
            ||| n == 8239
            ||| n == 8287
            ||| n == 12288
        },
{
}

/// Trimming at the end takes off white space and nothing else, and all of it.
pub proof fn trimming_the_end_takes_off_white_space(s: Seq<char>)
    ensures
        trimmed_end(s).len() <= s.len(),
        trimmed_end(s) == s.take(trimmed_end(s).len() as int),
        is_blank(s.skip(trimmed_end(s).len() as int)),
        trimmed_end(s).len() > 0 ==> !is_space(trimmed_end(s).last()),
    decreases s.len(),
{
    if s.len() > 0 && is_space(s.last()) {
        let t = s.drop_last();
        trimming_the_end_takes_off_white_space(t);
        let n = trimmed_end(s).len() as int;
        assert(t.take(n) =~= s.take(n));
        assert forall|i: int| 0 <= i < s.skip(n).len() implies is_space(#[trigger] s.skip(n)[i]) by {
            if i + n < t.len() {
                assert(s.skip(n)[i] == t.skip(n)[i]);
            }
        }
    } else {
        assert(s.take(s.len() as int) =~= s);
    }
}

/// Trimming at the start takes off white space and nothing else, and all of it.
pub proof fn trimming_the_start_takes_off_white_space(s: Seq<char>)
    ensures
        trimmed_start(s).len() <= s.len(),
        trimmed_start(s) == s.skip(s.len() - trimmed_start(s).len()),
        is_blank(s.take(s.len() - trimmed_start(s).len())),
        trimmed_start(s).len() > 0 ==> !is_space(trimmed_start(s).first()),
    decreases s.len(),
{
    if s.len() > 0 && is_space(s.first()) {
        let t = s.drop_first();
        trimming_the_start_takes_off_white_space(t);
        let n = s.len() - trimmed_start(s).len();
        assert(t.skip(n - 1) =~= s.skip(n));
        assert forall|i: int| 0 <= i < s.take(n).len() implies is_space(#[trigger] s.take(n)[i]) by {
            if i > 0 {
                assert(s.take(n)[i] == t.take(n - 1)[i - 1]);
            }
        }
    } else {
        assert(s.skip(0) =~= s);
    }
}

/// White space around a text is taken off, and what is inside is not: this is
/// what trimming a text comes to.
pub proof fn trimming_keeps_the_text(before: Seq<char>, text: Seq<char>, behind: Seq<char>)
    requires
        is_blank(before),
        is_blank(behind),
        text.len() > 0 ==> !is_space(text.first()) && !is_space(text.last()),
    ensures
        trimmed(before + text + behind) == text,
        trimmed_end(text + behind) == text,
{
    let s = before + text + behind;
    trimming_the_start_takes_off_white_space(s);
    let t = trimmed_start(s);
    let n = s.len() - t.len();
    if text.len() > 0 {
        if n < before.len() {
            assert(is_space(before[n]));
            assert(t.first() == s[n] && s[n] == before[n]);
        } else if n > before.len() {
            assert(s.take(n)[before.len() as int] == text[0]);
        }
        assert(t =~= text + behind);
        ends(text, behind);
    } else {
        if t.len() > 0 {
            assert(t.first() == s[n]);
            if n < before.len() {
                assert(is_space(before[n]));
            } else {
                assert(is_space(behind[n - before.len()]));
            }
        }
        assert(t =~= Seq::empty());
        assert(text =~= Seq::empty());
        ends(text, behind);
    }
}

proof fn ends(text: Seq<char>, behind: Seq<char>)
    requires
        is_blank(behind),
        text.len() > 0 ==> !is_space(text.last()),
    ensures
        trimmed_end(text + behind) == text,
    decreases behind.len(),
{
    if behind.len() == 0 {
        assert(text + behind =~= text);
    } else {
        assert((text + behind).drop_last() =~= text + behind.drop_last());
        assert(is_space(behind[behind.len() - 1]));
        assert forall|i: int| 0 <= i < behind.drop_last().len() implies is_space(
            #[trigger] behind.drop_last()[i],
        ) by {
            assert(behind[i] == behind.drop_last()[i]);
        }
        ends(text, behind.drop_last());
    }
}

/// Whether a character does not occur in a text.
pub open spec fn lacks(s: Seq<char>, c: char) -> bool {
    forall|i: int| 0 <= i < s.len() ==> #[trigger] s[i] != c
}

/// Texts with a character between each two.
pub open spec fn with_between(list: Seq<Seq<char>>, at: char) -> Seq<char>
    decreases list.len(),
{
    if list.len() == 0 {
        Seq::empty()
    } else if list.len() == 1 {
        list[0]
    } else {
        with_between(list.drop_last(), at).push(at) + list.last()
    }
}

/// The pieces of a text, with the character that they were split at between each
/// two, are the text again; and no piece has that character in it.
pub proof fn pieces_make_up_the_text(s: Seq<char>, at: char)
    ensures
        split(s, at).len() >= 1,
        with_between(split(s, at), at) == s,
        forall|i: int| 0 <= i < split(s, at).len() ==> lacks(#[trigger] split(s, at)[i], at),
    decreases s.len(),
{
    if s.len() == 0 {
        assert(split(s, at)[0] =~= s);
    } else {
        let t = s.drop_last();
        let before = split(t, at);
        pieces_make_up_the_text(t, at);
        let after = split(s, at);
        if s.last() == at {
            assert(after.drop_last() =~= before);
            assert(with_between(after, at) =~= s);
        } else {
            let longer = before.last().push(s.last());
            assert(after.drop_last() =~= before.drop_last());
            assert(after.last() == longer);
            assert(lacks(before[before.len() - 1], at));
            assert forall|i: int| 0 <= i < longer.len() implies #[trigger] longer[i] != at by {
                if i < before.last().len() {
                    assert(longer[i] == before.last()[i]);
                }
            }
            if before.len() == 1 {
                assert(after.len() == 1 && after[0] == longer);
                assert(before[0] == t);
            } else {
                let earlier = with_between(before.drop_last(), at).push(at);
                assert(earlier + before.last() == t);
                assert(earlier + longer =~= t.push(s.last()));
                assert(with_between(after, at) == earlier + longer);
            }
            assert(t.push(s.last()) =~= s);
            assert(with_between(after, at) =~= s);
            assert forall|i: int| 0 <= i < after.len() implies lacks(#[trigger] after[i], at) by {
                if i < before.len() - 1 {
                    assert(after[i] == before[i]);
                }
            }
        }
    }
}

/// A text without the character is one piece; and where the character stands, the
/// pieces before it and those behind it meet.
pub proof fn texts_are_split_where_they_meet(a: Seq<char>, b: Seq<char>, at: char)
    ensures
        lacks(a, at) ==> split(a, at) == seq![a],
        split(a.push(at) + b, at) == split(a, at) + split(b, at),
    decreases a.len() + b.len(),
{
    if lacks(a, at) {
        whole(a, at);
    }
    meets(a, b, at);
}

proof fn whole(a: Seq<char>, at: char)
    requires
        lacks(a, at),
    ensures
        split(a, at) == seq![a],
    decreases a.len(),
{
    if a.len() > 0 {
        let t = a.drop_last();
        assert forall|i: int| 0 <= i < t.len() implies #[trigger] t[i] != at by {
            assert(t[i] == a[i]);
        }
        whole(t, at);
        assert(a[a.len() - 1] != at);
        assert(t.push(a.last()) =~= a);
        assert(split(a, at) =~= seq![a]);
    } else {
        assert(a =~= Seq::empty());
    }
}

proof fn meets(a: Seq<char>, b: Seq<char>, at: char)
    ensures
        split(a.push(at) + b, at) == split(a, at) + split(b, at),
    decreases b.len(),
{
    let s = a.push(at) + b;
    pieces_make_up_the_text(b, at);
    if b.len() == 0 {
        assert(s =~= a.push(at));
        assert(s.drop_last() =~= a);
        assert(split(s, at) =~= split(a, at) + split(b, at));
    } else {
        let shorter = b.drop_last();
        assert(s.drop_last() =~= a.push(at) + shorter);
        assert(s.last() == b.last());
        pieces_make_up_the_text(shorter, at);
        meets(a, shorter, at);
        assert(split(s, at) =~= split(a, at) + split(b, at));
    }
}

/// A line of a text is one of its pieces.
pub proof fn lines_are_pieces(before: Seq<char>, line: Seq<char>, behind: Seq<char>)
    requires
        lacks(line, '\n'),
    ensures
        pieces(before.push('\n') + line.push('\n') + behind) == pieces(before) + seq![line]
            + pieces(behind),
        pieces(line.push('\n') + behind) == seq![line] + pieces(behind),
        pieces(before.push('\n') + line) == pieces(before) + seq![line],
        pieces(line) == seq![line],
{
    texts_are_split_where_they_meet(line, behind, '\n');
    texts_are_split_where_they_meet(before, line.push('\n') + behind, '\n');
    texts_are_split_where_they_meet(before, line, '\n');
    assert(before.push('\n') + line.push('\n') + behind =~= before.push('\n') + (line.push('\n')
        + behind));
    assert(pieces(before) + (seq![line] + pieces(behind)) =~= pieces(before) + seq![line] + pieces(
        behind,
    ));
}

/// A text begins with another exactly if it is that one and something behind it,
/// and ends with another exactly if it is something and that one behind it.
pub proof fn beginnings_and_ends(s: Seq<char>, p: Seq<char>)
    ensures
        starts_with(s, p) <==> exists|rest: Seq<char>| s == #[trigger] (p + rest),
        ends_with(s, p) <==> exists|rest: Seq<char>| s == #[trigger] (rest + p),
{
    if starts_with(s, p) {
        assert(s =~= p + s.skip(p.len() as int));
    }
    if ends_with(s, p) {
        assert(s =~= s.take(s.len() - p.len()) + p);
    }
    assert forall|rest: Seq<char>| s == #[trigger] (p + rest) implies starts_with(s, p) by {
        assert(s.take(p.len() as int) =~= p);
    }
    assert forall|rest: Seq<char>| s == #[trigger] (rest + p) implies ends_with(s, p) by {
        assert(s.skip(s.len() - p.len()) =~= p);
    }
}

/// Whether a text is made of decimal digits.
pub open spec fn is_digits(s: Seq<char>) -> bool {
    forall|i: int| 0 <= i < s.len() ==> '0' <= #[trigger] s[i] <= '9'
}

/// The number that decimal digits stand for.
pub open spec fn value_of(s: Seq<char>) -> int
    decreases s.len(),
{
    if s.len() == 0 {
        0
    } else {
        10 * value_of(s.drop_last()) + (s.last() as int - 48)
    }
}

/// A number is written in digits that stand for it, without a leading zero.
pub proof fn written_numbers_can_be_read(n: nat)
    ensures
        is_digits(decimal(n)),
        value_of(decimal(n)) == n,
        decimal(n).len() >= 1,
        decimal(n)[0] == '0' ==> n == 0 && decimal(n).len() == 1,
    decreases n,
{
    if n >= 10 {
        written_numbers_can_be_read(n / 10);
        let shorter = decimal(n / 10);
        assert(decimal(n).drop_last() =~= shorter);
        assert(decimal(n).last() == digit((n % 10) as int));
        assert(decimal(n)[0] == shorter[0]);
        assert forall|i: int| 0 <= i < decimal(n).len() implies '0' <= #[trigger] decimal(n)[i]
            <= '9' by {
            if i < shorter.len() {
                assert(decimal(n)[i] == shorter[i]);
            }
        }
    } else {
        assert(decimal(n).drop_last() =~= Seq::empty());
        assert(value_of(decimal(n).drop_last()) == 0);
    }
}

/// A negative number is written as a minus sign and its size, any other as its
/// size.
pub proof fn written_signed_numbers_can_be_read(n: int)
    ensures
        n >= 0 ==> is_digits(signed_decimal(n)) && value_of(signed_decimal(n)) == n,
        n < 0 ==> signed_decimal(n)[0] == '-' && is_digits(signed_decimal(n).skip(1)) && value_of(
            signed_decimal(n).skip(1),
        ) == -n,
{
    if n >= 0 {
        written_numbers_can_be_read(n as nat);
    } else {
        written_numbers_can_be_read((-n) as nat);
        assert(signed_decimal(n).skip(1) =~= decimal((-n) as nat));
    }
}

/// The number that a lower-case hexadecimal digit stands for.
pub open spec fn hex_value(c: char) -> int {
    if '0' <= c <= '9' {
        c as int - 48
    } else if 'a' <= c <= 'f' {
        c as int - 87
    } else {
        -1
    }
}

/// Bytes are written as two lower-case digits each, the higher one first.
pub proof fn written_bytes_can_be_read(bytes: Seq<u8>, i: int)
    requires
        0 <= i < bytes.len(),
    ensures
        hex(bytes).len() == 2 * bytes.len(),
        0 <= hex_value(hex(bytes)[2 * i]) < 16,
        0 <= hex_value(hex(bytes)[2 * i + 1]) < 16,
        16 * hex_value(hex(bytes)[2 * i]) + hex_value(hex(bytes)[2 * i + 1]) == bytes[i],
{
    assert((2 * i) % 2 == 0 && (2 * i) / 2 == i);
    assert((2 * i + 1) % 2 == 1 && (2 * i + 1) / 2 == i);
}

} // verus!
