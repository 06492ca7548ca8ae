//! Paths as texts. A path is a `String` whose components stand between
//! slashes; nothing here touches a file system.

use vstd::prelude::*;

use crate::error::{checked, invalid, invalid_error, Error};
use crate::text::{
    cat2, cat3, chars_of, same_text, split, split_text, starts_with, strip_prefix, texts,
};

verus! {

/// Whether a path begins at the root.
pub open spec fn is_absolute(p: Seq<char>) -> bool {
    p.len() > 0 && p[0] == '/'
}

/// Whether a component that is `.` or `..` begins at index `i` of a path.
pub open spec fn dots_at(p: Seq<char>, i: int) -> bool {
    &&& i == 0 || p[i - 1] == '/'
    &&& p[i] == '.'
    &&& {
        ||| i + 1 == p.len() || p[i + 1] == '/'
        ||| p[i + 1] == '.' && (i + 2 == p.len() || p[i + 2] == '/')
    }
}

/// Whether no component of a path is `.` or `..`.
pub open spec fn has_no_dots(p: Seq<char>) -> bool {
    forall|i: int| 0 <= i < p.len() ==> !#[trigger] dots_at(p, i)
}

/// Whether a path names a file from the root: it is absolute, does not end
/// with a slash, and has no component `.` or `..`.
pub open spec fn is_file_path(p: Seq<char>) -> bool {
    &&& is_absolute(p)
    &&& p.last() != '/'
    &&& has_no_dots(p)
}

/// The refusal of a path that names no file from the root.
pub open spec fn path_error() -> Error<Seq<char>> {
    invalid_error("destination must be absolute without dot or parent components"@)
}

/// The result of [`validate_absolute`].
pub open spec fn path_check(p: Seq<char>) -> Result<(), Error<Seq<char>>> {
    if is_file_path(p) {
        Ok(())
    } else {
        Err(path_error())
    }
}

fn file_path(path: &str) -> (r: bool)
    ensures
        r == is_file_path(path@),
{
    let p = chars_of(path);
    let n: usize = p.len();
    if n == 0 || p[0] != '/' || p[n - 1] == '/' {
        return false;
    }
    let mut i: usize = 0;
    while i < n
        invariant
            i <= n,
            n == p@.len(),
            p@ == path@,
            forall|j: int| 0 <= j < i ==> !#[trigger] dots_at(path@, j),
        decreases n - i,
    {
        if p[i] == '.' && (i == 0 || p[i - 1] == '/') {
            if i + 1 == n || p[i + 1] == '/' {
                assert(dots_at(path@, i as int));
                return false;
            }
            if p[i + 1] == '.' && (i + 2 == n || p[i + 2] == '/') {
                assert(dots_at(path@, i as int));
                return false;
            }
        }
        i += 1;
    }
    true
}

/// Refuses a path that names no file from the root.
pub fn validate_absolute(path: &str) -> (r: Result<(), Error>)
    ensures
        checked(r) == path_check(path@),
{
    if file_path(path) {
        Ok(())
    } else {
        Err(invalid("destination must be absolute without dot or parent components"))
    }
}

/// Whether a path begins at the root.
pub fn absolute(path: &str) -> (r: bool)
    ensures
        r == is_absolute(path@),
{
    path.unicode_len() > 0 && path.get_char(0) == '/'
}

/// A relative path, joined to a directory; an absolute path, by itself.
pub open spec fn joined(base: Seq<char>, path: Seq<char>) -> Seq<char> {
    if is_absolute(path) {
        path
    } else if base.len() == 0 || base.last() == '/' {
        base + path
    } else {
        base + "/"@ + path
    }
}

/// Joins a path to a directory.
pub fn join(base: &str, path: &str) -> (r: String)
    ensures
        r@ == joined(base@, path@),
{
    let n: usize = base.unicode_len();
    if absolute(path) {
        path.to_owned()
    } else if n == 0 || base.get_char(n - 1) == '/' {
        cat2(base, path)
    } else {
        cat3(base, "/", path)
    }
}

/// The index of the last slash of a path, or -1.
pub open spec fn last_slash(p: Seq<char>) -> int
    decreases p.len(),
{
    if p.len() == 0 {
        -1
    } else if p.last() == '/' {
        p.len() - 1
    } else {
        last_slash(p.drop_last())
    }
}

proof fn lemma_last_slash(p: Seq<char>)
    ensures
        -1 <= last_slash(p) < p.len(),
    decreases p.len(),
{
    if p.len() > 0 && p.last() != '/' {
        lemma_last_slash(p.drop_last());
    }
}

/// The last component of a path: what stands behind its last slash.
pub open spec fn file_name_of(p: Seq<char>) -> Seq<char> {
    p.skip(last_slash(p) + 1)
}

/// A path without its trailing slashes.
pub open spec fn unslashed(p: Seq<char>) -> Seq<char>
    decreases p.len(),
{
    if p.len() > 0 && p.last() == '/' {
        unslashed(p.drop_last())
    } else {
        p
    }
}

/// The directory that an absolute path without a trailing slash lies in.
pub open spec fn parent_of(p: Seq<char>) -> Seq<char> {
    let directory = if last_slash(p) < 0 {
        Seq::empty()
    } else {
        unslashed(p.take(last_slash(p)))
    };
    if directory.len() == 0 {
        "/"@
    } else {
        directory
    }
}

/// The position behind the last slash.
fn name_start(p: &Vec<char>) -> (r: usize)
    ensures
        r == last_slash(p@) + 1,
        r <= p@.len(),
{
    let mut n: usize = p.len();
    assert(p@.take(n as int) =~= p@);
    while n > 0 && p[n - 1] != '/'
        invariant
            n <= p@.len(),
            last_slash(p@) == last_slash(p@.take(n as int)),
        decreases n,
    {
        assert(p@.take(n as int).drop_last() =~= p@.take(n - 1));
        n -= 1;
    }
    n
}

/// The last component of a path.
pub fn file_name(path: &str) -> (r: String)
    ensures
        r@ == file_name_of(path@),
{
    let p = chars_of(path);
    let n: usize = name_start(&p);
    assert(path@.subrange(n as int, path@.len() as int) =~= path@.skip(n as int));
    path.substring_char(n, p.len()).to_owned()
}

/// The directory that an absolute path lies in.
pub fn parent(path: &str) -> (r: String)
    ensures
        r@ == parent_of(path@),
{
    let p = chars_of(path);
    let mut n: usize = name_start(&p);
    proof {
        lemma_last_slash(path@);
    }
    if n == 0 {
        return "/".to_owned();
    }
    n -= 1;
    assert(path@.take(n as int).take(n as int) =~= path@.take(n as int));
    while n > 0 && p[n - 1] == '/'
        invariant
            n <= p@.len(),
            p@ == path@,
            0 <= last_slash(path@) <= p@.len(),
            unslashed(path@.take(last_slash(path@))) == unslashed(path@.take(n as int)),
        decreases n,
    {
        assert(path@.take(n as int).drop_last() =~= path@.take(n - 1));
        n -= 1;
    }
    assert(path@.subrange(0, n as int) =~= path@.take(n as int));
    if n == 0 {
        "/".to_owned()
    } else {
        path.substring_char(0, n).to_owned()
    }
}

/// Whether a canonical path is a canonical directory or lies below it, by
/// whole components.
pub open spec fn is_within(root: Seq<char>, path: Seq<char>) -> bool {
    ||| path == root
    ||| root == "/"@ && is_absolute(path)
    ||| starts_with(path, root + "/"@)
}

/// Whether a canonical path is a canonical directory or lies below it.
pub fn within(root: &str, path: &str) -> (r: bool)
    ensures
        r == is_within(root@, path@),
{
    if same_text(path, root) {
        return true;
    }
    if same_text(root, "/") && absolute(path) {
        return true;
    }
    let prefix = cat2(root, "/");
    strip_prefix(path, prefix.as_str()).is_some()
}

/// The components among the pieces of a path: empty pieces do not count, nor
/// does a `.` that the path does not begin with.
pub open spec fn named_components(pieces: Seq<Seq<char>>) -> Seq<Seq<char>>
    decreases pieces.len(),
{
    if pieces.len() == 0 {
        pieces
    } else {
        let before = named_components(pieces.drop_last());
        let piece = pieces.last();
        if piece.len() == 0 || (piece == "."@ && pieces.len() > 1) {
            before
        } else {
            before.push(piece)
        }
    }
}

/// The components of a path.
pub open spec fn components_of(p: Seq<char>) -> Seq<Seq<char>> {
    named_components(split(p, '/'))
}

/// Whether two paths are the same, however often their slashes are repeated.
pub open spec fn is_same_path(a: Seq<char>, b: Seq<char>) -> bool {
    is_absolute(a) == is_absolute(b) && components_of(a) == components_of(b)
}

fn components(path: &str) -> (r: Vec<String>)
    ensures
        texts(r@) == components_of(path@),
{
    let pieces = split_text(path, '/');
    let ghost all = texts(pieces@);
    let mut r: Vec<String> = Vec::new();
    assert(texts(r@) =~= named_components(all.take(0)));
    let mut i: usize = 0;
    while i < pieces.len()
        invariant
            i <= pieces@.len(),
            all == texts(pieces@),
            texts(r@) == named_components(all.take(i as int)),
        decreases pieces@.len() - i,
    {
        assert(all.take(i + 1).drop_last() =~= all.take(i as int));
        assert(all.take(i + 1).last() == pieces@[i as int]@);
        let piece = pieces[i].as_str();
        if !(piece.unicode_len() == 0 || (i > 0 && same_text(piece, "."))) {
            let ghost before = r@;
            r.push(piece.to_owned());
            assert(texts(r@) =~= texts(before).push(piece@));
        }
        i += 1;
    }
    assert(all.take(i as int) =~= all);
    r
}

/// Whether one list of texts begins with another.
pub open spec fn begins_with(list: Seq<Seq<char>>, prefix: Seq<Seq<char>>) -> bool {
    prefix.len() <= list.len() && list.take(prefix.len() as int) == prefix
}

fn list_begins_with(list: &Vec<String>, prefix: &Vec<String>) -> (r: bool)
    ensures
        r == begins_with(texts(list@), texts(prefix@)),
{
    if prefix.len() > list.len() {
        return false;
    }
    let ghost a = texts(list@);
    let ghost b = texts(prefix@);
    let mut i: usize = 0;
    while i < prefix.len()
        invariant
            i <= prefix@.len() <= list@.len(),
            a == texts(list@),
            b == texts(prefix@),
            forall|j: int| 0 <= j < i ==> a[j] == b[j],
        decreases prefix@.len() - i,
    {
        assert(a[i as int] == list@[i as int]@ && b[i as int] == prefix@[i as int]@);
        if !same_text(list[i].as_str(), prefix[i].as_str()) {
            assert(a.take(b.len() as int)[i as int] != b[i as int]);
            return false;
        }
        i += 1;
    }
    assert(a.take(b.len() as int) =~= b);
    true
}

/// Tells whether two paths are the same.
pub fn same_path(a: &str, b: &str) -> (r: bool)
    ensures
        r == is_same_path(a@, b@),
{
    let x = components(a);
    let y = components(b);
    proof {
        if texts(x@).len() == texts(y@).len() {
            assert(texts(x@).take(texts(y@).len() as int) =~= texts(x@));
        }
    }
    absolute(a) == absolute(b) && x.len() == y.len() && list_begins_with(&x, &y)
}

/// The directories that the pieces of a path lead through from the root: empty
/// pieces and `.` stay where they are, and `..` goes back, though never above
/// the root.
pub open spec fn walked(pieces: Seq<Seq<char>>) -> Seq<Seq<char>>
    decreases pieces.len(),
{
    if pieces.len() == 0 {
        pieces
    } else {
        let before = walked(pieces.drop_last());
        let piece = pieces.last();
        if piece.len() == 0 || piece == "."@ {
            before
        } else if piece == ".."@ {
            if before.len() == 0 {
                before
            } else {
                before.drop_last()
            }
        } else {
            before.push(piece)
        }
    }
}

/// Where a path leads to from the root, as the names on the way.
pub open spec fn resolved(p: Seq<char>) -> Seq<Seq<char>> {
    walked(split(p, '/'))
}

/// Resolves a path as a text.
pub fn resolve(path: &str) -> (r: Vec<String>)
    ensures
        texts(r@) == resolved(path@),
{
    let pieces = split_text(path, '/');
    let ghost all = texts(pieces@);
    let mut r: Vec<String> = Vec::new();
    assert(texts(r@) =~= walked(all.take(0)));
    let mut i: usize = 0;
    while i < pieces.len()
        invariant
            i <= pieces@.len(),
            all == texts(pieces@),
            texts(r@) == walked(all.take(i as int)),
        decreases pieces@.len() - i,
    {
        assert(all.take(i + 1).drop_last() =~= all.take(i as int));
        assert(all.take(i + 1).last() == pieces@[i as int]@);
        let piece = pieces[i].as_str();
        let ghost before = r@;
        if piece.unicode_len() == 0 || same_text(piece, ".") {
        } else if same_text(piece, "..") {
            let _ = r.pop();
            assert(before.len() > 0 ==> texts(r@) =~= texts(before).drop_last());
        } else {
            r.push(piece.to_owned());
            assert(texts(r@) =~= texts(before).push(piece@));
        }
        i += 1;
    }
    assert(all.take(i as int) =~= all);
    r
}

/// Whether a path from the root leads to a directory or to somewhere below it,
/// by whole components and with `.` and `..` taken out of both.
pub open spec fn leads_into(root: Seq<char>, path: Seq<char>) -> bool {
    &&& is_absolute(root)
    &&& is_absolute(path)
    &&& begins_with(resolved(path), resolved(root))
}

/// Tells whether a path from the root leads to a directory or to somewhere
/// below it.
pub fn inside(root: &str, path: &str) -> (r: bool)
    ensures
        r == leads_into(root@, path@),
{
    absolute(root) && absolute(path) && list_begins_with(&resolve(path), &resolve(root))
}

} // verus!
