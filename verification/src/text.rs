//! Text: comparison, concatenation, trimming, splitting and number formatting
//! over `str` and `String`, each stated over the characters of its arguments.

use vstd::prelude::*;
use vstd::utf8::*;

verus! {

/// Compares two texts.
pub fn same_text(a: &str, b: &str) -> (same: bool)
    ensures
        same == (a@ == b@),
{
    let x = a.as_bytes();
    let y = b.as_bytes();
    proof {
        encode_utf8_decode_utf8(a@);
        encode_utf8_decode_utf8(b@);
    }
    if x.len() != y.len() {
        return false;
    }
    let mut i: usize = 0;
    while i < x.len()
        invariant
            i <= x@.len(),
            x@.len() == y@.len(),
            x@ == encode_utf8(a@),
            y@ == encode_utf8(b@),
            forall|j: int| 0 <= j < i ==> x@[j] == y@[j],
        decreases x@.len() - i,
    {
        if x[i] != y[i] {
            return false;
        }
        i += 1;
    }
    assert(x@ =~= y@);
    true
}

/// The number of bytes of a text in UTF-8.
pub open spec fn byte_count(s: Seq<char>) -> nat {
    encode_utf8(s).len()
}

/// Counts the bytes of a text.
pub fn byte_len(s: &str) -> (n: usize)
    ensures
        n == byte_count(s@),
{
    s.as_bytes().len()
}

/// Joins two texts.
pub fn cat2(a: &str, b: &str) -> (r: String)
    ensures
        r@ == a@ + b@,
{
    let mut r = a.to_owned();
    r.append(b);
    r
}

/// Joins three texts.
pub fn cat3(a: &str, b: &str, c: &str) -> (r: String)
    ensures
        r@ == a@ + b@ + c@,
{
    let mut r = cat2(a, b);
    r.append(c);
    r
}

/// Joins four texts.
pub fn cat4(a: &str, b: &str, c: &str, d: &str) -> (r: String)
    ensures
        r@ == a@ + b@ + c@ + d@,
{
    let mut r = cat3(a, b, c);
    r.append(d);
    r
}

/// Joins five texts.
pub fn cat5(a: &str, b: &str, c: &str, d: &str, e: &str) -> (r: String)
    ensures
        r@ == a@ + b@ + c@ + d@ + e@,
{
    let mut r = cat4(a, b, c, d);
    r.append(e);
    r
}

/// The characters of a text, as a vector.
pub fn chars_of(s: &str) -> (r: Vec<char>)
    ensures
        r@ == s@,
{
    let mut r: Vec<char> = Vec::new();
    for c in it: s.chars()
        invariant
            r@ == it.seq().take(it.index() as int),
            it.seq() == s@,
    {
        r.push(c);
        assert(r@ =~= it.seq().take(it.index() + 1));
    }
    assert(r@ =~= s@);
    r
}

/// Whether `s` begins with `p`.
pub open spec fn starts_with(s: Seq<char>, p: Seq<char>) -> bool {
    &&& p.len() <= s.len()
    &&& s.take(p.len() as int) == p
}

/// Whether `s` ends with `p`.
pub open spec fn ends_with(s: Seq<char>, p: Seq<char>) -> bool {
    &&& p.len() <= s.len()
    &&& s.skip(s.len() - p.len()) == p
}

/// The rest of `s` behind the prefix `p`, where it has that prefix.
pub fn strip_prefix<'a>(s: &'a str, p: &str) -> (r: Option<&'a str>)
    ensures
        r is Some <==> starts_with(s@, p@),
        r matches Some(rest) ==> rest@ == s@.skip(p@.len() as int),
{
    let n: usize = p.unicode_len();
    let len: usize = s.unicode_len();
    if n <= len {
        let head = s.substring_char(0, n);
        assert(head@ =~= s@.take(n as int));
        if same_text(head, p) {
            let rest = s.substring_char(n, len);
            assert(rest@ =~= s@.skip(n as int));
            return Some(rest);
        }
    }
    None
}

/// What stands in `s` before the suffix `p`, where it has that suffix.
pub fn strip_suffix<'a>(s: &'a str, p: &str) -> (r: Option<&'a str>)
    ensures
        r is Some <==> ends_with(s@, p@),
        r matches Some(rest) ==> rest@ == s@.take(s@.len() - p@.len()),
{
    let n: usize = p.unicode_len();
    let len: usize = s.unicode_len();
    if n <= len {
        let tail = s.substring_char(len - n, len);
        assert(tail@ =~= s@.skip(len - n));
        if same_text(tail, p) {
            let rest = s.substring_char(0, len - n);
            assert(rest@ =~= s@.take(len - n));
            return Some(rest);
        }
    }
    None
}

/// Whether a character is white space (the Unicode property `White_Space`).
pub open spec fn is_space(c: char) -> bool {
    ||| '\u{9}' <= c <= '\u{d}'
    ||| c == '\u{20}'
    ||| c == '\u{85}'
    ||| c == '\u{a0}'
    ||| c == '\u{1680}'
    ||| '\u{2000}' <= c <= '\u{200a}'
    ||| c == '\u{2028}'
    ||| c == '\u{2029}'
    ||| c == '\u{202f}'
    ||| c == '\u{205f}'
    ||| c == '\u{3000}'
}

fn space(c: char) -> (r: bool)
    ensures
        r == is_space(c),
{
    ('\u{9}' <= c && c <= '\u{d}') || c == '\u{20}' || c == '\u{85}' || c == '\u{a0}' || c
        == '\u{1680}' || ('\u{2000}' <= c && c <= '\u{200a}') || c == '\u{2028}' || c == '\u{2029}'
        || c == '\u{202f}' || c == '\u{205f}' || c == '\u{3000}'
}

/// A text without its trailing white space.
pub open spec fn trimmed_end(s: Seq<char>) -> Seq<char>
    decreases s.len(),
{
    if s.len() > 0 && is_space(s.last()) {
        trimmed_end(s.drop_last())
    } else {
        s
    }
}

/// A text without its leading white space.
pub open spec fn trimmed_start(s: Seq<char>) -> Seq<char>
    decreases s.len(),
{
    if s.len() > 0 && is_space(s.first()) {
        trimmed_start(s.drop_first())
    } else {
        s
    }
}

/// A text without its leading and its trailing white space.
pub open spec fn trimmed(s: Seq<char>) -> Seq<char> {
    trimmed_end(trimmed_start(s))
}

/// Removes trailing white space.
pub fn trim_end(s: &str) -> (r: &str)
    ensures
        r@ == trimmed_end(s@),
{
    let chars = chars_of(s);
    let mut n: usize = chars.len();
    assert(s@.take(n as int) =~= s@);
    while n > 0 && space(chars[n - 1])
        invariant
            n <= chars@.len(),
            chars@ == s@,
            trimmed_end(s@) == trimmed_end(s@.take(n as int)),
        decreases n,
    {
        assert(s@.take(n as int).drop_last() =~= s@.take(n - 1));
        n -= 1;
    }
    assert(s@.subrange(0, n as int) =~= s@.take(n as int));
    s.substring_char(0, n)
}

/// Removes leading white space.
pub fn trim_start(s: &str) -> (r: &str)
    ensures
        r@ == trimmed_start(s@),
{
    let chars = chars_of(s);
    let len: usize = chars.len();
    let mut n: usize = 0;
    assert(s@.skip(0) =~= s@);
    while n < len && space(chars[n])
        invariant
            n <= len,
            len == chars@.len(),
            chars@ == s@,
            trimmed_start(s@) == trimmed_start(s@.skip(n as int)),
        decreases len - n,
    {
        assert(s@.skip(n as int).drop_first() =~= s@.skip(n + 1));
        n += 1;
    }
    assert(s@.subrange(n as int, len as int) =~= s@.skip(n as int));
    s.substring_char(n, len)
}

/// Removes leading and trailing white space.
pub fn trim(s: &str) -> (r: &str)
    ensures
        r@ == trimmed(s@),
{
    trim_end(trim_start(s))
}

/// The pieces of a text between the occurrences of a character, in order. A
/// text without that character is one piece.
pub open spec fn split(s: Seq<char>, at: char) -> Seq<Seq<char>>
    decreases s.len(),
{
    if s.len() == 0 {
        seq![Seq::<char>::empty()]
    } else {
        let before = split(s.drop_last(), at);
        if s.last() == at {
            before.push(Seq::empty())
        } else {
            before.drop_last().push(before.last().push(s.last()))
        }
    }
}

/// The pieces of a text between line feeds.
pub open spec fn pieces(s: Seq<char>) -> Seq<Seq<char>> {
    split(s, '\n')
}

/// The texts that a vector of strings holds.
pub open spec fn texts(v: Seq<String>) -> Seq<Seq<char>> {
    v.map_values(|s: String| s@)
}

proof fn lemma_split_last(s: Seq<char>, at: char, start: int)
    requires
        0 <= start <= s.len(),
        start == 0 || s[start - 1] == at,
        forall|k: int| start <= k < s.len() ==> s[k] != at,
    ensures
        split(s, at) == split(s.take(start), at).drop_last().push(s.skip(start)),
        split(s, at).len() >= 1,
        start > 0 ==> split(s.take(start), at) == split(s.take(start - 1), at).push(Seq::empty()),
    decreases s.len(),
{
    if start == s.len() {
        assert(s.take(start) =~= s);
        assert(s.skip(start) =~= Seq::<char>::empty());
        if s.len() > 0 {
            assert(s.take(start - 1) =~= s.drop_last());
        }
        assert(split(s, at).last() =~= Seq::<char>::empty());
        assert(split(s, at) =~= split(s, at).drop_last().push(Seq::empty()));
    } else {
        let t = s.drop_last();
        lemma_split_last(t, at, start);
        assert(t.take(start) =~= s.take(start));
        assert(t.skip(start).push(s.last()) =~= s.skip(start));
        assert(split(t, at).drop_last() =~= split(s.take(start), at).drop_last());
        if start > 0 {
            assert(t.take(start - 1) =~= s.take(start - 1));
        }
    }
}

/// Splits a text at the occurrences of a character.
pub fn split_text(s: &str, at: char) -> (r: Vec<String>)
    ensures
        texts(r@) == split(s@, at),
{
    let chars = chars_of(s);
    let len: usize = chars.len();
    let mut out: Vec<String> = Vec::new();
    let mut start: usize = 0;
    let mut i: usize = 0;
    assert(s@.take(0) =~= Seq::<char>::empty());
    assert(texts(out@) =~= split(s@.take(0), at).drop_last());
    while i < len
        invariant
            start <= i <= len,
            len == chars@.len(),
            chars@ == s@,
            start == 0 || s@[start - 1] == at,
            forall|k: int| start <= k < i ==> s@[k] != at,
            texts(out@) == split(s@.take(start as int), at).drop_last(),
        decreases len - i,
    {
        if chars[i] == at {
            let piece = s.substring_char(start, i).to_owned();
            proof {
                let t = s@.take(i as int);
                lemma_split_last(t, at, start as int);
                assert(t.take(start as int) =~= s@.take(start as int));
                assert(t.skip(start as int) =~= piece@);
                assert(s@.take(i + 1).drop_last() =~= t);
                assert(split(s@.take(i + 1), at).drop_last() =~= split(t, at));
            }
            let ghost before = out@;
            out.push(piece);
            assert(texts(out@) =~= texts(before).push(piece@));
            start = i + 1;
        }
        i += 1;
    }
    let piece = s.substring_char(start, len).to_owned();
    proof {
        lemma_split_last(s@, at, start as int);
        assert(s@.skip(start as int) =~= piece@);
    }
    let ghost before = out@;
    out.push(piece);
    assert(texts(out@) =~= texts(before).push(piece@));
    out
}

/// Splits a text at its line feeds.
pub fn split_lines(s: &str) -> (r: Vec<String>)
    ensures
        texts(r@) == pieces(s@),
{
    split_text(s, '\n')
}

/// The decimal digit of a number below ten.
pub open spec fn digit(n: int) -> char {
    ('0' as int + n) as char
}

/// A number in decimal notation.
pub open spec fn decimal(n: nat) -> Seq<char>
    decreases n,
{
    if n < 10 {
        seq![digit(n as int)]
    } else {
        decimal(n / 10).push(digit((n % 10) as int))
    }
}

fn digit_text(n: u64) -> (r: &'static str)
    requires
        n < 10,
    ensures
        r@ == seq![digit(n as int)],
{
    proof {
        reveal_strlit("0");
        reveal_strlit("1");
        reveal_strlit("2");
        reveal_strlit("3");
        reveal_strlit("4");
        reveal_strlit("5");
        reveal_strlit("6");
        reveal_strlit("7");
        reveal_strlit("8");
        reveal_strlit("9");
    }
    let r = if n == 0 {
        "0"
    } else if n == 1 {
        "1"
    } else if n == 2 {
        "2"
    } else if n == 3 {
        "3"
    } else if n == 4 {
        "4"
    } else if n == 5 {
        "5"
    } else if n == 6 {
        "6"
    } else if n == 7 {
        "7"
    } else if n == 8 {
        "8"
    } else {
        "9"
    };
    assert(r@ =~= seq![digit(n as int)]);
    r
}

/// Writes a number in decimal notation.
pub fn decimal_text(n: u64) -> (r: String)
    ensures
        r@ == decimal(n as nat),
    decreases n,
{
    if n < 10 {
        digit_text(n).to_owned()
    } else {
        let mut r = decimal_text(n / 10);
        r.append(digit_text(n % 10));
        assert(r@ =~= decimal((n / 10) as nat).push(digit((n % 10) as int)));
        r
    }
}

/// A signed number in decimal notation.
pub open spec fn signed_decimal(n: int) -> Seq<char> {
    if n < 0 {
        seq!['-'] + decimal((-n) as nat)
    } else {
        decimal(n as nat)
    }
}

/// Writes a signed number in decimal notation.
pub fn signed_decimal_text(n: i32) -> (r: String)
    ensures
        r@ == signed_decimal(n as int),
{
    if n < 0 {
        proof {
            reveal_strlit("-");
        }
        assert("-"@ =~= seq!['-']);
        let magnitude = decimal_text((-(n as i64)) as u64);
        cat2("-", magnitude.as_str())
    } else {
        decimal_text(n as u64)
    }
}

/// The lower-case hexadecimal digit of a number below sixteen.
pub open spec fn hex_digit(n: int) -> char {
    if n < 10 {
        ('0' as int + n) as char
    } else {
        ('a' as int + n - 10) as char
    }
}

/// The lower-case hexadecimal digits of a byte sequence, two for each byte.
pub open spec fn hex(bytes: Seq<u8>) -> Seq<char> {
    Seq::new(
        2 * bytes.len(),
        |i: int|
            if i % 2 == 0 {
                hex_digit(bytes[i / 2] as int / 16)
            } else {
                hex_digit(bytes[i / 2] as int % 16)
            },
    )
}

fn hex_text_of(n: u8) -> (r: &'static str)
    requires
        n < 16,
    ensures
        r@ == seq![hex_digit(n as int)],
{
    if n < 10 {
        digit_text(n as u64)
    } else {
        proof {
            reveal_strlit("a");
            reveal_strlit("b");
            reveal_strlit("c");
            reveal_strlit("d");
            reveal_strlit("e");
            reveal_strlit("f");
        }
        let r = if n == 10 {
            "a"
        } else if n == 11 {
            "b"
        } else if n == 12 {
            "c"
        } else if n == 13 {
            "d"
        } else if n == 14 {
            "e"
        } else {
            "f"
        };
        assert(r@ =~= seq![hex_digit(n as int)]);
        r
    }
}

/// Writes bytes in lower-case hexadecimal notation.
pub fn hex_text(bytes: &[u8]) -> (r: String)
    ensures
        r@ == hex(bytes@),
{
    let mut r = String::new();
    let mut i: usize = 0;
    assert(hex(bytes@.take(0)) =~= Seq::<char>::empty());
    while i < bytes.len()
        invariant
            i <= bytes@.len(),
            r@ == hex(bytes@.take(i as int)),
        decreases bytes@.len() - i,
    {
        let b: u8 = bytes[i];
        let ghost before = r@;
        r.append(hex_text_of(b / 16));
        r.append(hex_text_of(b % 16));
        assert(r@ =~= hex(bytes@.take(i + 1))) by {
            let longer = bytes@.take(i + 1);
            assert(longer[i as int] == b);
            assert(forall|k: int| 0 <= k < i ==> longer[k] == bytes@.take(i as int)[k]);
        }
        i += 1;
    }
    assert(bytes@.take(i as int) =~= bytes@);
    r
}

} // verus!
