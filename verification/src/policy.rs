//! Where an operation may publish: the roots that its slug may write to, and
//! whether a destination lies below one of them.

use vstd::prelude::*;

use crate::error::{invalid, invalid_error, Error, ErrorKind};
use crate::identity::{id_error, is_id, validate_id};
use crate::json::{json_quoted, write_path};
use crate::location::{pane_dir, pane_of};
use crate::model::Identity;
use crate::path::{
    absolute, file_name, file_name_of, is_absolute, is_file_path, is_within, join, joined,
    path_error, validate_absolute, within,
};
use crate::rules::MAX_PATH_BYTES;
use crate::text::{
    byte_count, byte_len, pieces, split_lines, starts_with, strip_prefix, texts, trim, trimmed,
};

verus! {

/// The longest JSON text of a canonical destination, in bytes.
pub const MAX_CANONICAL_PATH_JSON_BYTES: usize = 8_192;

/// What is known of the directory that a destination lies in.
#[derive(Debug)]
pub struct ParentFacts {
    /// The text of the slug's sandbox configuration.
    pub config: Result<String, Error>,
    /// The canonical path of the destination's directory.
    pub parent: Result<String, Error>,
    /// The canonical path of each writable root, in order.
    pub roots: Vec<Result<String, Error>>,
    /// The destination's directory, opened component by component.
    pub directory: Result<Identity, Error>,
}

/// The root that a line of the sandbox configuration makes writable.
pub open spec fn line_root(home: Seq<char>, line: Seq<char>) -> Option<Seq<char>> {
    let entry = trimmed(line);
    if !starts_with(entry, "writable "@) {
        None
    } else {
        let root = trimmed(entry.skip("writable "@.len() as int));
        if starts_with(root, "~/"@) {
            Some(joined(home, root.skip("~/"@.len() as int)))
        } else {
            Some(root)
        }
    }
}

/// The roots that the lines of a sandbox configuration make writable.
pub open spec fn line_roots(home: Seq<char>, lines: Seq<Seq<char>>) -> Seq<Seq<char>>
    decreases lines.len(),
{
    if lines.len() == 0 {
        Seq::empty()
    } else {
        let before = line_roots(home, lines.drop_last());
        match line_root(home, lines.last()) {
            Some(root) => before.push(root),
            None => before,
        }
    }
}

/// The roots that a slug may write to: its pane, then the configured ones.
pub open spec fn roots_of(
    home: Seq<char>,
    slug: Seq<char>,
    config: Option<Seq<char>>,
) -> Seq<Seq<char>> {
    let pane = seq![pane_of(home, slug)];
    match config {
        Some(text) => pane + line_roots(home, pieces(text)),
        None => pane,
    }
}

fn root_of_line(home: &str, line: &str) -> (r: Option<String>)
    ensures
        (match r {
            Some(s) => Some(s@),
            None => None,
        }) == line_root(home@, line@),
{
    let entry = trim(line);
    match strip_prefix(entry, "writable ") {
        None => None,
        Some(rest) => {
            let root = trim(rest);
            match strip_prefix(root, "~/") {
                Some(relative) => Some(join(home, relative)),
                None => Some(root.to_owned()),
            }
        },
    }
}

/// The roots that a slug may write to, given its sandbox configuration.
pub fn writable_roots(home: &str, slug: &str, config: Option<&str>) -> (r: Vec<String>)
    ensures
        texts(r@) == roots_of(
            home@,
            slug@,
            match config {
                Some(text) => Some(text@),
                None => None,
            },
        ),
{
    let mut roots: Vec<String> = Vec::new();
    roots.push(pane_dir(home, slug));
    let ghost base = seq![pane_of(home@, slug@)];
    assert(texts(roots@) =~= base);
    if let Some(text) = config {
        let lines = split_lines(text);
        let ghost all = texts(lines@);
        assert(line_roots(home@, all.take(0)) =~= Seq::<Seq<char>>::empty());
        let mut i: usize = 0;
        while i < lines.len()
            invariant
                i <= lines@.len(),
                all == texts(lines@),
                texts(roots@) =~= base + line_roots(home@, all.take(i as int)),
            decreases lines@.len() - i,
        {
            assert(all.take(i + 1).drop_last() =~= all.take(i as int));
            assert(all.take(i + 1).last() == lines@[i as int]@);
            let ghost before = roots@;
            if let Some(root) = root_of_line(home, lines[i].as_str()) {
                roots.push(root);
                assert(texts(roots@) =~= texts(before).push(root@));
            }
            i += 1;
        }
        assert(all.take(i as int) =~= all);
    }
    roots
}

/// Whether a canonical directory lies below one of the roots from index `i` on.
/// A root that does not exist is passed over; the first root that is not
/// absolute, or cannot be resolved, refuses.
pub open spec fn admission(
    roots: Seq<Seq<char>>,
    canonical: Seq<Result<String, Error>>,
    parent: Seq<char>,
    i: int,
) -> Result<bool, Error<Seq<char>>>
    decreases roots.len() - i,
{
    if i < 0 || i >= roots.len() {
        Ok(false)
    } else if !is_absolute(roots[i]) {
        Err(invalid_error("configured writable root is not absolute"@))
    } else if i >= canonical.len() {
        admission(roots, canonical, parent, i + 1)
    } else {
        match canonical[i] {
            Ok(root) => {
                if is_within(root@, parent) {
                    Ok(true)
                } else {
                    admission(roots, canonical, parent, i + 1)
                }
            },
            Err(e) => {
                if e.kind == ErrorKind::NotFound {
                    admission(roots, canonical, parent, i + 1)
                } else {
                    Err(e@)
                }
            },
        }
    }
}

/// The sandbox configuration that was found; none where the file is missing.
pub open spec fn config_found(config: Result<String, Error>) -> Result<
    Option<Seq<char>>,
    Error<Seq<char>>,
> {
    match config {
        Ok(text) => Ok(Some(text@)),
        Err(e) => {
            if e.kind == ErrorKind::NotFound {
                Ok(None)
            } else {
                Err(e@)
            }
        },
    }
}

/// Whether a canonical destination is short enough to journal.
pub open spec fn fits_journal(destination: Seq<char>) -> bool {
    &&& byte_count(destination) <= MAX_PATH_BYTES
    &&& byte_count(json_quoted(destination)) <= MAX_CANONICAL_PATH_JSON_BYTES
}

/// The result of [`allowed_parent`]: the canonical destination and its
/// directory, where the slug may publish there.
pub open spec fn allowed(
    home: Seq<char>,
    slug: Seq<char>,
    destination: Seq<char>,
    facts: ParentFacts,
) -> Result<(Seq<char>, Identity), Error<Seq<char>>> {
    if !is_id(slug) {
        Err(id_error())
    } else if !is_file_path(destination) {
        Err(path_error())
    } else {
        match config_found(facts.config) {
            Err(e) => Err(e),
            Ok(config) => match facts.parent {
                Err(e) => Err(e@),
                Ok(parent) => match admission(
                    roots_of(home, slug, config),
                    facts.roots@,
                    parent@,
                    0,
                ) {
                    Err(e) => Err(e),
                    Ok(false) => Err(
                        invalid_error("destination is outside the slug's writable roots"@),
                    ),
                    Ok(true) => {
                        let canonical = joined(parent@, file_name_of(destination));
                        if !fits_journal(canonical) {
                            Err(
                                invalid_error("canonical destination exceeds metadata limit"@),
                            )
                        } else {
                            match facts.directory {
                                Err(e) => Err(e@),
                                Ok(directory) => Ok((canonical, directory)),
                            }
                        }
                    },
                },
            },
        }
    }
}

fn admitted(roots: &Vec<String>, canonical: &Vec<Result<String, Error>>, parent: &str) -> (r:
    Result<bool, Error>)
    ensures
        (match r {
            Ok(b) => Ok(b),
            Err(e) => Err(e@),
        }) == admission(texts(roots@), canonical@, parent@, 0),
{
    let ghost all = texts(roots@);
    let mut i: usize = 0;
    while i < roots.len()
        invariant
            i <= roots@.len(),
            all == texts(roots@),
            admission(all, canonical@, parent@, 0) == admission(
                all,
                canonical@,
                parent@,
                i as int,
            ),
        decreases roots@.len() - i,
    {
        assert(all[i as int] == roots@[i as int]@);
        if !absolute(roots[i].as_str()) {
            return Err(invalid("configured writable root is not absolute"));
        }
        if i < canonical.len() {
            match &canonical[i] {
                Ok(root) => {
                    if within(root.as_str(), parent) {
                        return Ok(true);
                    }
                },
                Err(e) => {
                    if e.kind != ErrorKind::NotFound {
                        return Err(e.clone());
                    }
                },
            }
        }
        i += 1;
    }
    Ok(false)
}

/// Decides where a destination leads and whether a slug may publish there.
pub fn allowed_parent(home: &str, slug: &str, destination: &str, facts: &ParentFacts) -> (r: Result<
    (String, Identity),
    Error,
>)
    ensures
        (match r {
            Ok(p) => Ok((p.0@, p.1)),
            Err(e) => Err(e@),
        }) == allowed(home@, slug@, destination@, *facts),
{
    validate_id(slug)?;
    validate_absolute(destination)?;
    let config: Option<&str> = match &facts.config {
        Ok(text) => Some(text.as_str()),
        Err(e) => {
            if e.kind == ErrorKind::NotFound {
                None
            } else {
                return Err(e.clone());
            }
        },
    };
    let roots = writable_roots(home, slug, config);
    let parent = match &facts.parent {
        Ok(parent) => parent,
        Err(e) => return Err(e.clone()),
    };
    if !admitted(&roots, &facts.roots, parent.as_str())? {
        return Err(invalid("destination is outside the slug's writable roots"));
    }
    let canonical = join(parent.as_str(), file_name(destination).as_str());
    if byte_len(canonical.as_str()) > MAX_PATH_BYTES || byte_len(
        write_path(canonical.as_str()).as_str(),
    ) > MAX_CANONICAL_PATH_JSON_BYTES {
        return Err(invalid("canonical destination exceeds metadata limit"));
    }
    match &facts.directory {
        Ok(directory) => Ok((canonical, *directory)),
        Err(e) => Err(e.clone()),
    }
}

} // verus!
