//! What is answered to a call that applies a patch.

use vstd::prelude::*;

use crate::jobs::{respond, response};
use crate::message::ToolOutbound;
use crate::path::{inside, join, joined, leads_into};
use crate::process::{lossy_text, read_lossy};
use crate::text::{cat2, cat3, texts, trim_end, trimmed_end};

verus! {

/// Whether a path is inside one of the writable roots.
pub open spec fn is_writable(path: Seq<char>, roots: Seq<Seq<char>>) -> bool {
    exists|i: int| 0 <= i < roots.len() && leads_into(#[trigger] roots[i], path)
}

/// The first path of a patch from index `i` on that must not be written.
pub open spec fn denied_path(
    directory: Seq<char>,
    paths: Seq<Seq<char>>,
    roots: Seq<Seq<char>>,
    i: int,
) -> Option<Seq<char>>
    decreases paths.len() - i,
{
    if i < 0 || i >= paths.len() {
        None
    } else if !is_writable(joined(directory, paths[i]), roots) {
        Some(joined(directory, paths[i]))
    } else {
        denied_path(directory, paths, roots, i + 1)
    }
}

fn writable(path: &str, roots: &Vec<String>) -> (r: bool)
    ensures
        r == is_writable(path@, texts(roots@)),
{
    let ghost all = texts(roots@);
    let mut i: usize = 0;
    while i < roots.len()
        invariant
            i <= roots@.len(),
            all == texts(roots@),
            forall|j: int| 0 <= j < i ==> !leads_into(#[trigger] all[j], path@),
        decreases roots@.len() - i,
    {
        assert(all[i as int] == roots@[i as int]@);
        if inside(roots[i].as_str(), path) {
            return true;
        }
        i += 1;
    }
    false
}

/// Finds the first path of a patch that must not be written.
pub fn find_denied(directory: &str, paths: &Vec<String>, roots: &Vec<String>) -> (r: Option<String>)
    ensures
        (match r {
            Some(s) => Some(s@),
            None => None,
        }) == denied_path(directory@, texts(paths@), texts(roots@), 0),
{
    let ghost all = texts(paths@);
    let mut i: usize = 0;
    while i < paths.len()
        invariant
            i <= paths@.len(),
            all == texts(paths@),
            denied_path(directory@, all, texts(roots@), i as int) == denied_path(
                directory@,
                all,
                texts(roots@),
                0,
            ),
        decreases paths@.len() - i,
    {
        assert(all[i as int] == paths@[i as int]@);
        let path = join(directory, paths[i].as_str());
        if !writable(path.as_str(), roots) {
            return Some(path);
        }
        i += 1;
    }
    None
}

/// A patch is let through only if every path that it touches is inside one of
/// the writable roots, by whole components and with `..` taken out.
pub proof fn patches_stay_within_the_roots(
    directory: Seq<char>,
    paths: Seq<Seq<char>>,
    roots: Seq<Seq<char>>,
    from: int,
    i: int,
)
    requires
        denied_path(directory, paths, roots, from) is None,
        0 <= from <= i < paths.len(),
    ensures
        is_writable(joined(directory, paths[i]), roots),
    decreases i - from,
{
    if from < i {
        patches_stay_within_the_roots(directory, paths, roots, from + 1, i);
    }
}

/// How the application of a patch went.
#[derive(Debug)]
pub struct Patched {
    pub stdout: Vec<u8>,
    pub stderr: Vec<u8>,
    /// Why it failed.
    pub error: Option<String>,
}

/// The answer to a call that applied a patch.
pub open spec fn patch_response(call_id: Seq<char>, p: Patched) -> ToolOutbound<Seq<char>> {
    match p.error {
        None => response(call_id, trimmed_end(lossy_text(p.stdout@)), 0),
        Some(e) => {
            let complaints = lossy_text(p.stderr@);
            if complaints.len() == 0 {
                response(call_id, "patch failed: "@ + e@, 1)
            } else {
                response(call_id, trimmed_end(complaints) + "\npatch failed: "@ + e@, 1)
            }
        },
    }
}

/// Answers a call that applied a patch.
pub fn answer_patch(call_id: &str, p: &Patched) -> (r: ToolOutbound)
    ensures
        r@ == patch_response(call_id@, *p),
{
    match &p.error {
        None => {
            let output = read_lossy(p.stdout.as_slice());
            respond(call_id, trim_end(output.as_str()).to_owned(), 0)
        },
        Some(e) => {
            let complaints = read_lossy(p.stderr.as_slice());
            let output = if complaints.as_str().unicode_len() == 0 {
                cat2("patch failed: ", e.as_str())
            } else {
                cat3(trim_end(complaints.as_str()), "\npatch failed: ", e.as_str())
            };
            respond(call_id, output, 1)
        },
    }
}

} // verus!
