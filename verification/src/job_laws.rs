//! What the executor's messages and its background jobs are for.

use vstd::prelude::*;

use crate::jobs::{
    are_distinct, exit_message, job_json, job_rows, jobs_of_transcript, jobs_without, kill_of,
    kill_response, line_message, listing, output_path_of, position, started, JobView, Kill,
    RunningJobInfo,
};
use crate::json::json_quoted;
use crate::location::{finished_of, running_of};
use crate::message::{
    channel_of, routed, tool_names, Channel, Inbound, Task, ToolCall, ToolOutbound,
};
use crate::text::{signed_decimal, trimmed_end};

verus! {

/// A list of jobs is shown job by job, in order: of each job exactly those of the
/// transcript of the slug on the host.
pub proof fn jobs_are_shown_in_order(
    a: Seq<JobView>,
    b: Seq<JobView>,
    job: JobView,
    slug: Seq<char>,
    transcript: Seq<char>,
    host: Seq<char>,
)
    ensures
        jobs_of_transcript(Seq::empty(), slug, transcript, host).len() == 0,
        job.info.slug == slug && job.info.transcript == transcript && job.info.place == host
            ==> jobs_of_transcript(seq![job], slug, transcript, host) == seq![job.info],
        job.info.slug != slug || job.info.transcript != transcript || job.info.place != host
            ==> jobs_of_transcript(seq![job], slug, transcript, host).len() == 0,
        jobs_of_transcript(a + b, slug, transcript, host) == jobs_of_transcript(
            a,
            slug,
            transcript,
            host,
        ) + jobs_of_transcript(b, slug, transcript, host),
    decreases b.len(),
{
    let one = seq![job];
    assert(one.drop_last() =~= Seq::empty());
    assert(jobs_of_transcript(one.drop_last(), slug, transcript, host) =~= Seq::empty());
    if job.info.slug == slug && job.info.transcript == transcript && job.info.place == host {
        assert(jobs_of_transcript(one, slug, transcript, host) =~= seq![job.info]);
    }
    if b.len() == 0 {
        assert(a + b =~= a);
        assert(jobs_of_transcript(a, slug, transcript, host) + jobs_of_transcript(
            b,
            slug,
            transcript,
            host,
        ) =~= jobs_of_transcript(a, slug, transcript, host));
    } else {
        jobs_are_shown_in_order(a, b.drop_last(), job, slug, transcript, host);
        assert((a + b).drop_last() =~= a + b.drop_last());
        assert(jobs_of_transcript(a + b, slug, transcript, host) =~= jobs_of_transcript(
            a,
            slug,
            transcript,
            host,
        ) + jobs_of_transcript(b, slug, transcript, host));
    }
}

/// A job that has exited is taken from the list, and every other stays where it
/// was.
pub proof fn other_jobs_stay(
    a: Seq<JobView>,
    b: Seq<JobView>,
    job: JobView,
    job_id: Seq<char>,
)
    ensures
        jobs_without(Seq::empty(), job_id).len() == 0,
        job.info.job_id == job_id ==> jobs_without(seq![job], job_id).len() == 0,
        job.info.job_id != job_id ==> jobs_without(seq![job], job_id) == seq![job],
        jobs_without(a + b, job_id) == jobs_without(a, job_id) + jobs_without(b, job_id),
    decreases b.len(),
{
    let one = seq![job];
    assert(one.drop_last() =~= Seq::empty());
    assert(jobs_without(one.drop_last(), job_id) =~= Seq::empty());
    if job.info.job_id != job_id {
        assert(jobs_without(one, job_id) =~= one);
    }
    if b.len() == 0 {
        assert(a + b =~= a);
        assert(jobs_without(a, job_id) + jobs_without(b, job_id) =~= jobs_without(a, job_id));
    } else {
        other_jobs_stay(a, b.drop_last(), job, job_id);
        assert((a + b).drop_last() =~= a + b.drop_last());
        assert(jobs_without(a + b, job_id) =~= jobs_without(a, job_id) + jobs_without(b, job_id));
    }
}

/// A job is found where it stands.
pub proof fn jobs_are_found(jobs: Seq<JobView>, job_id: Seq<char>, i: int)
    requires
        0 <= i < jobs.len(),
        jobs[i].info.job_id == job_id,
        are_distinct(jobs),
    ensures
        position(jobs, job_id) == i,
    decreases jobs.len(),
{
    assert(jobs.last() == jobs[jobs.len() - 1]);
    if i < jobs.len() - 1 {
        let earlier = jobs.drop_last();
        assert(earlier[i] == jobs[i]);
        assert forall|j: int, k: int| 0 <= j < k < earlier.len() implies (
        #[trigger] earlier[j]).info.job_id != (#[trigger] earlier[k]).info.job_id by {
            assert(earlier[j] == jobs[j] && earlier[k] == jobs[k]);
        }
        jobs_are_found(earlier, job_id, i);
    }
}

proof fn none_is_found(jobs: Seq<JobView>, job_id: Seq<char>)
    requires
        forall|i: int| 0 <= i < jobs.len() ==> (#[trigger] jobs[i]).info.job_id != job_id,
    ensures
        position(jobs, job_id) == -1,
    decreases jobs.len(),
{
    if jobs.len() > 0 {
        let earlier = jobs.drop_last();
        assert(jobs.last() == jobs[jobs.len() - 1]);
        assert forall|i: int| 0 <= i < earlier.len() implies (#[trigger] earlier[i]).info.job_id
            != job_id by {
            assert(earlier[i] == jobs[i]);
        }
        none_is_found(earlier, job_id);
    }
}

/// A running job is killed for the transcript that it belongs to, on its own host,
/// and for no other; once.
pub proof fn jobs_are_killed_for_their_transcript(
    jobs: Seq<JobView>,
    slug: Seq<char>,
    transcript: Seq<char>,
    host: Seq<char>,
    i: int,
)
    requires
        are_distinct(jobs),
        0 <= i < jobs.len(),
    ensures
        ({
            let job = jobs[i];
            let kill = kill_of(jobs, slug, transcript, host, job.info.job_id);
            let own = job.info.slug == slug && job.info.transcript == transcript
                && job.info.place == host;
            &&& kill == Kill::Deliver <==> own && job.killable
            &&& kill == Kill::AlreadyRequested <==> own && !job.killable
            &&& kill == Kill::NotRunning <==> !own
        }),
{
    jobs_are_found(jobs, jobs[i].info.job_id, i);
}

/// A job that is not running is not killed.
pub proof fn only_running_jobs_are_killed(
    jobs: Seq<JobView>,
    slug: Seq<char>,
    transcript: Seq<char>,
    host: Seq<char>,
    job_id: Seq<char>,
)
    requires
        forall|i: int| 0 <= i < jobs.len() ==> (#[trigger] jobs[i]).info.job_id != job_id,
    ensures
        kill_of(jobs, slug, transcript, host, job_id) == Kill::NotRunning,
{
    none_is_found(jobs, job_id);
}

/// A job that was started is known by what it was started with, and can be killed.
pub proof fn started_jobs_are_known(
    slug: Seq<char>,
    transcript: Seq<char>,
    host: Seq<char>,
    job_id: Seq<char>,
    command: Seq<char>,
    output_path: Seq<char>,
    at: Seq<char>,
)
    ensures
        ({
            let job = started(slug, transcript, host, job_id, command, output_path, at);
            &&& job.killable
            &&& job.info.job_id == job_id
            &&& job.info.slug == slug
            &&& job.info.transcript == transcript
            &&& job.info.place == host
            &&& job.info.command == command
            &&& job.info.output_path == output_path
            &&& job.info.started_at == at
        }),
{
}

/// What is answered to a request to kill a job.
pub proof fn kills_are_answered(
    sent: bool,
    call_id: Seq<char>,
    slug: Seq<char>,
    transcript: Seq<char>,
    host: Seq<char>,
    job_id: Seq<char>,
)
    ensures
        kill_response(Kill::Deliver, true, call_id, slug, transcript, host, job_id)
            == (ToolOutbound::Response {
            call_id,
            output: "kill requested for job "@ + job_id,
            exit_code: 0,
        }),
        kill_response(Kill::Deliver, false, call_id, slug, transcript, host, job_id)
            == (ToolOutbound::Response {
            call_id,
            output: "job "@ + job_id + " finished before kill request was delivered"@,
            exit_code: 1,
        }),
        kill_response(Kill::AlreadyRequested, sent, call_id, slug, transcript, host, job_id)
            == (ToolOutbound::Response {
            call_id,
            output: "kill already requested for job "@ + job_id,
            exit_code: 1,
        }),
        kill_response(Kill::NotRunning, sent, call_id, slug, transcript, host, job_id)
            == (ToolOutbound::Response {
            call_id,
            output: "job "@ + job_id + " is not running for slug "@ + slug + " transcript "@
                + transcript + " on "@ + host,
            exit_code: 1,
        }),
{
}

/// Whether a text holds a field of a job, on a line of its own.
pub open spec fn has_line(text: Seq<char>, name: Seq<char>, value: Seq<char>) -> bool {
    exists|before: Seq<char>, behind: Seq<char>|
        text == #[trigger] (before + ("\n    \""@ + name + "\": "@ + json_quoted(value)) + behind)
}

proof fn a_line_is_there(
    text: Seq<char>,
    before: Seq<char>,
    lead: Seq<char>,
    name: Seq<char>,
    value: Seq<char>,
    behind: Seq<char>,
)
    requires
        lead == "\n    \""@ + name + "\": "@,
        text == before + lead + json_quoted(value) + behind,
    ensures
        has_line(text, name, value),
{
    assert(text =~= before + ("\n    \""@ + name + "\": "@ + json_quoted(value)) + behind);
}

/// A running job is shown with all that is known of it.
pub proof fn jobs_are_shown_whole(j: RunningJobInfo<Seq<char>>)
    ensures
        has_line(job_json(j), "job_id"@, j.job_id),
        has_line(job_json(j), "slug"@, j.slug),
        has_line(job_json(j), "transcript"@, j.transcript),
        has_line(job_json(j), "where"@, j.place),
        has_line(job_json(j), "command"@, j.command),
        has_line(job_json(j), "output_path"@, j.output_path),
        has_line(job_json(j), "started_at"@, j.started_at),
{
    reveal_strlit("\n    \"");
    reveal_strlit("\": ");
    reveal_strlit("job_id");
    reveal_strlit("slug");
    reveal_strlit("transcript");
    reveal_strlit("where");
    reveal_strlit("command");
    reveal_strlit("output_path");
    reveal_strlit("started_at");
    reveal_strlit("  {\n    \"job_id\": ");
    reveal_strlit(",\n    \"slug\": ");
    reveal_strlit(",\n    \"transcript\": ");
    reveal_strlit(",\n    \"where\": ");
    reveal_strlit(",\n    \"command\": ");
    reveal_strlit(",\n    \"output_path\": ");
    reveal_strlit(",\n    \"started_at\": ");
    let open = seq![' ', ' ', '{'];
    let comma = seq![','];
    let id = "\n    \""@ + "job_id"@ + "\": "@;
    let slug = "\n    \""@ + "slug"@ + "\": "@;
    let transcript = "\n    \""@ + "transcript"@ + "\": "@;
    let place = "\n    \""@ + "where"@ + "\": "@;
    let command = "\n    \""@ + "command"@ + "\": "@;
    let path = "\n    \""@ + "output_path"@ + "\": "@;
    let at = "\n    \""@ + "started_at"@ + "\": "@;
    assert("  {\n    \"job_id\": "@ =~= open + id);
    assert(",\n    \"slug\": "@ =~= comma + slug);
    assert(",\n    \"transcript\": "@ =~= comma + transcript);
    assert(",\n    \"where\": "@ =~= comma + place);
    assert(",\n    \"command\": "@ =~= comma + command);
    assert(",\n    \"output_path\": "@ =~= comma + path);
    assert(",\n    \"started_at\": "@ =~= comma + at);
    let text = job_json(j);
    let t0 = open;
    let t1 = t0 + id + json_quoted(j.job_id) + comma;
    let t2 = t1 + slug + json_quoted(j.slug) + comma;
    let t3 = t2 + transcript + json_quoted(j.transcript) + comma;
    let t4 = t3 + place + json_quoted(j.place) + comma;
    let t5 = t4 + command + json_quoted(j.command) + comma;
    let t6 = t5 + path + json_quoted(j.output_path) + comma;
    assert(text =~= t6 + at + json_quoted(j.started_at) + "\n  }"@);
    let r6 = at + json_quoted(j.started_at) + "\n  }"@;
    let r5 = comma + r6;
    let r4 = comma + path + json_quoted(j.output_path) + r5;
    let r3 = comma + command + json_quoted(j.command) + r4;
    let r2 = comma + place + json_quoted(j.place) + r3;
    let r1 = comma + transcript + json_quoted(j.transcript) + r2;
    let r0 = comma + slug + json_quoted(j.slug) + r1;
    assert(text =~= t6 + at + json_quoted(j.started_at) + "\n  }"@);
    assert(text =~= t5 + path + json_quoted(j.output_path) + r5);
    assert(text =~= t4 + command + json_quoted(j.command) + r4);
    assert(text =~= t3 + place + json_quoted(j.place) + r3);
    assert(text =~= t2 + transcript + json_quoted(j.transcript) + r2);
    assert(text =~= t1 + slug + json_quoted(j.slug) + r1);
    assert(text =~= t0 + id + json_quoted(j.job_id) + r0);
    a_line_is_there(text, t0, id, "job_id"@, j.job_id, r0);
    a_line_is_there(text, t1, slug, "slug"@, j.slug, r1);
    a_line_is_there(text, t2, transcript, "transcript"@, j.transcript, r2);
    a_line_is_there(text, t3, place, "where"@, j.place, r3);
    a_line_is_there(text, t4, command, "command"@, j.command, r4);
    a_line_is_there(text, t5, path, "output_path"@, j.output_path, r5);
    a_line_is_there(text, t6, at, "started_at"@, j.started_at, "\n  }"@);
}

/// The jobs of a transcript are listed one after another, every one of them; where
/// there are none, that is said.
pub proof fn jobs_are_listed_one_after_another(
    jobs: Seq<RunningJobInfo<Seq<char>>>,
    next: RunningJobInfo<Seq<char>>,
    slug: Seq<char>,
    transcript: Seq<char>,
    host: Seq<char>,
)
    ensures
        listing(Seq::empty(), slug, transcript, host) == "no running jobs for slug "@ + slug
            + " transcript "@ + transcript + " on "@ + host,
        jobs.len() > 0 ==> listing(jobs, slug, transcript, host) == "[\n"@ + job_rows(jobs)
            + "\n]"@,
        job_rows(seq![next]) == job_json(next),
        jobs.len() > 0 ==> job_rows(jobs.push(next)) == job_rows(jobs) + ",\n"@ + job_json(next),
{
    assert(jobs.push(next).drop_last() =~= jobs);
}

/// A line that a background job wrote is sent without the white space at its end;
/// but not to a router on the same host.
pub proof fn lines_of_jobs_are_sent(
    job_id: Seq<char>,
    output_path: Seq<char>,
    host: Seq<char>,
    line: Seq<char>,
)
    ensures
        host == "localhost"@ ==> line_message(job_id, output_path, host, line) is None,
        host != "localhost"@ ==> line_message(job_id, output_path, host, line) == Some(
            ToolOutbound::BackgroundOutput { job_id, output_path, line: trimmed_end(line) },
        ),
{
}

/// The exit of a background job is told with its code and where its output is:
/// under the name that tells its code, or under its first where it could not be
/// renamed.
pub proof fn exits_of_jobs_are_told(
    home: Seq<char>,
    slug: Seq<char>,
    transcript: Seq<char>,
    job_id: Seq<char>,
    host: Seq<char>,
    code: i32,
    path: Seq<char>,
)
    ensures
        exit_message(slug, transcript, job_id, host, code, path) == (ToolOutbound::Notification {
            slug,
            transcript,
            message: "Background job exited."@,
            meta: Some(
                "job_id="@ + job_id + " where="@ + host + " exit_code="@ + signed_decimal(
                    code as int,
                ) + " output_path="@ + path,
            ),
        }),
        output_path_of(home, host, slug, job_id, code, true) == finished_of(
            home,
            slug,
            host,
            job_id,
            code,
        ),
        output_path_of(home, host, slug, job_id, code, false) == running_of(
            home,
            slug,
            host,
            job_id,
        ),
{
}

/// A call for a host becomes what the host has to do, with all that the call says:
/// a command is sandboxed unless it may leave the sandbox, and runs in the
/// background if it asks to.
pub proof fn calls_become_tasks(
    slug: Seq<char>,
    transcript: Seq<char>,
    call_id: Seq<char>,
    host: Seq<char>,
    text: Seq<char>,
    background: bool,
    timeout: Option<u64>,
    escalate: bool,
)
    ensures
        ({
            let to = |tool: ToolCall<Seq<char>>|
                routed(Inbound::Tool { slug, transcript, call_id, tool }, host);
            &&& to(
                ToolCall::Zsh {
                    command: text,
                    place: host,
                    run_in_background: background,
                    timeout,
                    escalate,
                },
            ) == Some(
                Task::Zsh {
                    slug,
                    transcript,
                    call_id,
                    command: text,
                    sandboxed: !escalate,
                    background,
                },
            )
            &&& to(ToolCall::ApplyPatch { patch: text, place: host }) == Some(
                Task::ApplyPatch { slug, call_id, patch: text },
            )
            &&& to(ToolCall::ViewImage { path: text, place: host }) == Some(
                Task::ViewImage { call_id, path: text },
            )
            &&& to(ToolCall::ReadPdf { path: text, place: host }) == Some(
                Task::ReadPdf { call_id, path: text },
            )
            &&& to(ToolCall::Job { job_id: text, place: host }) == Some(
                Task::Job { slug, call_id, job_id: text },
            )
            &&& to(ToolCall::Jobs { place: host }) == Some(
                Task::Jobs { slug, transcript, call_id },
            )
            &&& to(ToolCall::Kill { job_id: text, place: host }) == Some(
                Task::Kill { slug, transcript, call_id, job_id: text },
            )
            &&& routed(
                Inbound::Shell { slug, transcript, id: call_id, command: text, place: host },
                host,
            ) == Some(Task::Shell { slug, transcript, id: call_id, command: text })
        }),
{
}

/// A message for another host becomes nothing.
pub proof fn messages_for_other_hosts_become_nothing(
    slug: Seq<char>,
    transcript: Seq<char>,
    call_id: Seq<char>,
    place: Seq<char>,
    host: Seq<char>,
    text: Seq<char>,
    background: bool,
    timeout: Option<u64>,
    escalate: bool,
)
    requires
        place != host,
    ensures
        ({
            let to = |tool: ToolCall<Seq<char>>|
                routed(Inbound::Tool { slug, transcript, call_id, tool }, host);
            &&& to(
                ToolCall::Zsh {
                    command: text,
                    place,
                    run_in_background: background,
                    timeout,
                    escalate,
                },
            ) is None
            &&& to(ToolCall::ApplyPatch { patch: text, place }) is None
            &&& to(ToolCall::ViewImage { path: text, place }) is None
            &&& to(ToolCall::ReadPdf { path: text, place }) is None
            &&& to(ToolCall::Job { job_id: text, place }) is None
            &&& to(ToolCall::Jobs { place }) is None
            &&& to(ToolCall::Kill { job_id: text, place }) is None
            &&& routed(
                Inbound::Shell { slug, transcript, id: call_id, command: text, place },
                host,
            ) is None
        }),
{
}

/// Packets are told apart by what they announce.
pub proof fn packets_are_told_apart(what: Seq<char>)
    ensures
        channel_of("tool"@) == Channel::Call,
        channel_of("shell"@) == Channel::Call,
        channel_of("screenshot_save"@) == Channel::Screenshot,
        what != "tool"@ && what != "shell"@ && what != "screenshot_save"@ ==> channel_of(what)
            == Channel::Ignored,
{
    reveal_strlit("tool");
    reveal_strlit("shell");
    reveal_strlit("screenshot_save");
    assert("tool"@.len() == 4 && "shell"@.len() == 5 && "screenshot_save"@.len() == 15);
}

/// Seven tools are offered, each under a name of its own.
pub proof fn tools_are_offered_by_name(i: int, j: int)
    requires
        0 <= i < j < tool_names().len(),
    ensures
        tool_names().len() == 7,
        tool_names()[0] == "zsh"@,
        tool_names()[1] == "apply_patch"@,
        tool_names()[2] == "view_image"@,
        tool_names()[3] == "read_pdf"@,
        tool_names()[4] == "job"@,
        tool_names()[5] == "jobs"@,
        tool_names()[6] == "kill"@,
        tool_names()[i] != tool_names()[j],
{
    reveal_strlit("zsh");
    reveal_strlit("apply_patch");
    reveal_strlit("view_image");
    reveal_strlit("read_pdf");
    reveal_strlit("job");
    reveal_strlit("jobs");
    reveal_strlit("kill");
    assert("zsh"@[0] == 'z' && "apply_patch"@[0] == 'a' && "view_image"@[0] == 'v'
        && "read_pdf"@[0] == 'r' && "job"@[0] == 'j' && "jobs"@[0] == 'j' && "kill"@[0] == 'k');
    assert("job"@.len() == 3 && "jobs"@.len() == 4);
}

} // verus!
