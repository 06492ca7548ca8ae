//! Where things are below the home directory.

use vstd::prelude::*;

use crate::path::{join, joined};
use crate::text::{cat2, cat4, signed_decimal, signed_decimal_text};

verus! {

/// The directory that a slug works in.
pub open spec fn pane_of(home: Seq<char>, slug: Seq<char>) -> Seq<char> {
    joined(joined(home, "pane"@), slug)
}

/// The directory that a slug works in.
pub fn pane_dir(home: &str, slug: &str) -> (r: String)
    ensures
        r@ == pane_of(home@, slug@),
{
    join(join(home, "pane").as_str(), slug)
}

/// The directory of a slug's state.
pub open spec fn state_of(home: Seq<char>, slug: Seq<char>) -> Seq<char> {
    joined(joined(home, ".local/state/wicket"@), slug)
}

/// The directory of a slug's state.
pub fn wicket_state_dir(home: &str, slug: &str) -> (r: String)
    ensures
        r@ == state_of(home@, slug@),
{
    join(join(home, ".local/state/wicket").as_str(), slug)
}

/// The file that says what a slug may write to.
pub open spec fn sandbox_file_of(home: Seq<char>, slug: Seq<char>) -> Seq<char> {
    joined(state_of(home, slug), "sandbox.conf"@)
}

/// The file that says what a slug may write to.
pub fn sandbox_file(home: &str, slug: &str) -> (r: String)
    ensures
        r@ == sandbox_file_of(home@, slug@),
{
    join(wicket_state_dir(home, slug).as_str(), "sandbox.conf")
}

/// The directory of the output of a slug's background jobs on a host.
pub open spec fn jobs_of(home: Seq<char>, slug: Seq<char>, host: Seq<char>) -> Seq<char> {
    joined(joined(state_of(home, slug), "jobs"@), host)
}

/// The directory of the output of a slug's background jobs on a host.
pub fn job_dir(home: &str, slug: &str, host_identity: &str) -> (r: String)
    ensures
        r@ == jobs_of(home@, slug@, host_identity@),
{
    join(join(wicket_state_dir(home, slug).as_str(), "jobs").as_str(), host_identity)
}

/// The file that a running job writes to.
pub open spec fn running_of(
    home: Seq<char>,
    slug: Seq<char>,
    host: Seq<char>,
    job_id: Seq<char>,
) -> Seq<char> {
    joined(jobs_of(home, slug, host), job_id + ".running.job"@)
}

/// The file that a running job writes to.
pub fn running_job_path(home: &str, slug: &str, host_identity: &str, job_id: &str) -> (r: String)
    ensures
        r@ == running_of(home@, slug@, host_identity@, job_id@),
{
    join(job_dir(home, slug, host_identity).as_str(), cat2(job_id, ".running.job").as_str())
}

/// The file that holds the output of a job that has exited.
pub open spec fn finished_of(
    home: Seq<char>,
    slug: Seq<char>,
    host: Seq<char>,
    job_id: Seq<char>,
    exit_code: i32,
) -> Seq<char> {
    joined(
        jobs_of(home, slug, host),
        job_id + "."@ + signed_decimal(exit_code as int) + ".job"@,
    )
}

/// The file that holds the output of a job that has exited.
pub fn finished_job_path(
    home: &str,
    slug: &str,
    host_identity: &str,
    job_id: &str,
    exit_code: i32,
) -> (r: String)
    ensures
        r@ == finished_of(home@, slug@, host_identity@, job_id@, exit_code),
{
    let code = signed_decimal_text(exit_code);
    join(
        job_dir(home, slug, host_identity).as_str(),
        cat4(job_id, ".", code.as_str(), ".job").as_str(),
    )
}

/// The file that a tool's path argument names: relative ones start at the
/// working directory.
pub fn resolve_tool_path(directory: &str, path: &str) -> (r: String)
    ensures
        r@ == joined(directory@, path@),
{
    join(directory, path)
}

} // verus!
