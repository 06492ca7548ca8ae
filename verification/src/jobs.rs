//! The background jobs that are running, and what is answered about jobs.

use vstd::prelude::*;

use crate::clock::stamp;
use crate::json::{json_quoted, quote};
use crate::location::{finished_job_path, finished_of, running_job_path, running_of};
use crate::message::ToolOutbound;
use crate::text::{
    cat2, cat3, cat4, cat5, ends_with, same_text, signed_decimal, signed_decimal_text,
    starts_with, strip_prefix, strip_suffix, trim_end, trimmed_end,
};

verus! {

/// A background job: who asked for it, where it runs and what it writes to.
#[derive(Debug, PartialEq, Eq)]
pub struct RunningJobInfo<S = String> {
    pub job_id: S,
    pub slug: S,
    pub transcript: S,
    pub place: S,
    pub command: S,
    pub output_path: S,
    pub started_at: S,
}

impl View for RunningJobInfo<String> {
    type V = RunningJobInfo<Seq<char>>;

    open spec fn view(&self) -> RunningJobInfo<Seq<char>> {
        RunningJobInfo {
            job_id: self.job_id@,
            slug: self.slug@,
            transcript: self.transcript@,
            place: self.place@,
            command: self.command@,
            output_path: self.output_path@,
            started_at: self.started_at@,
        }
    }
}

impl Clone for RunningJobInfo<String> {
    fn clone(&self) -> (r: Self)
        ensures
            r == *self,
    {
        RunningJobInfo {
            job_id: self.job_id.clone(),
            slug: self.slug.clone(),
            transcript: self.transcript.clone(),
            place: self.place.clone(),
            command: self.command.clone(),
            output_path: self.output_path.clone(),
            started_at: self.started_at.clone(),
        }
    }
}

/// A running job, and whether its killing can still be requested.
#[derive(Debug)]
pub struct RunningJob<S = String> {
    pub info: RunningJobInfo<S>,
    pub killable: bool,
}

/// A running job, as contracts see it.
pub type JobView = RunningJob<Seq<char>>;

impl View for RunningJob<String> {
    type V = JobView;

    open spec fn view(&self) -> JobView {
        RunningJob { info: self.info@, killable: self.killable }
    }
}

/// Whether a job belongs to a transcript of a slug on a host.
pub open spec fn belongs(
    job: JobView,
    slug: Seq<char>,
    transcript: Seq<char>,
    host: Seq<char>,
) -> bool {
    job.info.slug == slug && job.info.transcript == transcript && job.info.place == host
}

/// The jobs other than one.
pub open spec fn jobs_without(jobs: Seq<JobView>, job_id: Seq<char>) -> Seq<JobView>
    decreases jobs.len(),
{
    if jobs.len() == 0 {
        jobs
    } else if jobs.last().info.job_id == job_id {
        jobs_without(jobs.drop_last(), job_id)
    } else {
        jobs_without(jobs.drop_last(), job_id).push(jobs.last())
    }
}

/// The jobs that belong to a transcript of a slug on a host, in order.
pub open spec fn jobs_of_transcript(
    jobs: Seq<JobView>,
    slug: Seq<char>,
    transcript: Seq<char>,
    host: Seq<char>,
) -> Seq<RunningJobInfo<Seq<char>>>
    decreases jobs.len(),
{
    if jobs.len() == 0 {
        Seq::empty()
    } else {
        let earlier = jobs_of_transcript(jobs.drop_last(), slug, transcript, host);
        if belongs(jobs.last(), slug, transcript, host) {
            earlier.push(jobs.last().info)
        } else {
            earlier
        }
    }
}

/// Where a job stands among the running ones, or -1.
pub open spec fn position(jobs: Seq<JobView>, job_id: Seq<char>) -> int
    decreases jobs.len(),
{
    if jobs.len() == 0 {
        -1
    } else if jobs.last().info.job_id == job_id {
        jobs.len() - 1
    } else {
        position(jobs.drop_last(), job_id)
    }
}

/// Whether no two jobs have the same identifier.
pub open spec fn are_distinct(jobs: Seq<JobView>) -> bool {
    forall|i: int, j: int|
        0 <= i < j < jobs.len() ==> (#[trigger] jobs[i]).info.job_id != (
        #[trigger] jobs[j]).info.job_id
}

proof fn lemma_without(jobs: Seq<JobView>, job_id: Seq<char>)
    requires
        are_distinct(jobs),
    ensures
        are_distinct(jobs_without(jobs, job_id)),
        forall|i: int|
            0 <= i < jobs_without(jobs, job_id).len() ==> (#[trigger] jobs_without(
                jobs,
                job_id,
            )[i]).info.job_id != job_id && jobs.contains(jobs_without(jobs, job_id)[i]),
    decreases jobs.len(),
{
    if jobs.len() > 0 {
        let earlier = jobs.drop_last();
        lemma_without(earlier, job_id);
        let rest = jobs_without(earlier, job_id);
        assert forall|i: int| 0 <= i < rest.len() implies (#[trigger] rest[i]).info.job_id
            != jobs.last().info.job_id && jobs.contains(rest[i]) by {
            let k = choose|k: int| 0 <= k < earlier.len() && earlier[k] == rest[i];
            assert(jobs[k] == rest[i]);
        }
        assert(jobs.contains(jobs.last())) by {
            assert(jobs[jobs.len() - 1] == jobs.last());
        }
        assert(jobs_without(jobs, job_id) == rest || jobs_without(jobs, job_id) == rest.push(
            jobs.last(),
        ));
        let all = jobs_without(jobs, job_id);
        assert forall|i: int| 0 <= i < all.len() implies (#[trigger] all[i]).info.job_id != job_id
            && jobs.contains(all[i]) by {
            if i < rest.len() {
                assert(all[i] == rest[i]);
            }
        }
        assert forall|i: int, j: int| 0 <= i < j < all.len() implies (
        #[trigger] all[i]).info.job_id != (#[trigger] all[j]).info.job_id by {
            assert(all[i] == rest[i]);
            if j < rest.len() {
                assert(all[j] == rest[j]);
            }
        }
    }
}

proof fn lemma_position(jobs: Seq<JobView>, job_id: Seq<char>)
    ensures
        -1 <= position(jobs, job_id) < jobs.len(),
        position(jobs, job_id) >= 0 ==> jobs[position(jobs, job_id)].info.job_id == job_id,
    decreases jobs.len(),
{
    if jobs.len() > 0 && jobs.last().info.job_id != job_id {
        lemma_position(jobs.drop_last(), job_id);
    }
}

/// What a request to kill a job comes to.
#[derive(Clone, Copy, Debug, PartialEq, Eq, Structural)]
pub enum Kill {
    /// The transcript has no such job.
    NotRunning,
    /// It was requested before.
    AlreadyRequested,
    /// It is to be delivered.
    Deliver,
}

/// What a request to kill a job comes to.
pub open spec fn kill_of(
    jobs: Seq<JobView>,
    slug: Seq<char>,
    transcript: Seq<char>,
    host: Seq<char>,
    job_id: Seq<char>,
) -> Kill {
    let i = position(jobs, job_id);
    if i < 0 || !belongs(jobs[i], slug, transcript, host) {
        Kill::NotRunning
    } else if !jobs[i].killable {
        Kill::AlreadyRequested
    } else {
        Kill::Deliver
    }
}

/// A job that was started at a time.
pub open spec fn started(
    slug: Seq<char>,
    transcript: Seq<char>,
    host: Seq<char>,
    job_id: Seq<char>,
    command: Seq<char>,
    output_path: Seq<char>,
    started_at: Seq<char>,
) -> JobView {
    RunningJob {
        info: RunningJobInfo {
            job_id,
            slug,
            transcript,
            place: host,
            command,
            output_path,
            started_at,
        },
        killable: true,
    }
}

/// The running background jobs.
pub struct Jobs {
    list: Vec<RunningJob>,
}

/// The jobs of a list, as contracts see them.
pub open spec fn viewed(list: Seq<RunningJob>) -> Seq<JobView> {
    list.map_values(|j: RunningJob| j@)
}

/// The descriptions of a list, as contracts see them.
pub open spec fn infos(list: Seq<RunningJobInfo>) -> Seq<RunningJobInfo<Seq<char>>> {
    list.map_values(|j: RunningJobInfo| j@)
}

impl View for Jobs {
    type V = Seq<JobView>;

    closed spec fn view(&self) -> Seq<JobView> {
        viewed(self.list@)
    }
}

impl Jobs {
    /// Whether no two jobs have the same identifier.
    pub open spec fn wf(&self) -> bool {
        are_distinct(self@)
    }

    /// No jobs.
    pub fn new() -> (r: Jobs)
        ensures
            r.wf(),
            r@ == Seq::<JobView>::empty(),
    {
        let r = Jobs { list: Vec::new() };
        assert(r@ =~= Seq::<JobView>::empty());
        r
    }

    /// Removes a job that has exited.
    pub fn remove(&mut self, job_id: &str)
        requires
            old(self).wf(),
        ensures
            final(self).wf(),
            final(self)@ == jobs_without(old(self)@, job_id@),
    {
        proof {
            lemma_without(self@, job_id@);
        }
        let ghost all = self@;
        assert(jobs_without(all.take(0), job_id@) =~= Seq::<JobView>::empty());
        let mut kept: Vec<RunningJob> = Vec::new();
        assert(viewed(kept@) =~= Seq::<JobView>::empty());
        let mut i: usize = 0;
        while i < self.list.len()
            invariant
                i <= self.list@.len(),
                all == viewed(self.list@),
                viewed(kept@) == jobs_without(all.take(i as int), job_id@),
            decreases self.list@.len() - i,
        {
            assert(all.take(i + 1).drop_last() =~= all.take(i as int));
            assert(all.take(i + 1).last() == self.list@[i as int]@);
            let job = &self.list[i];
            if !same_text(job.info.job_id.as_str(), job_id) {
                let ghost before = kept@;
                kept.push(RunningJob { info: job.info.clone(), killable: job.killable });
                assert(viewed(kept@) =~= viewed(before).push(job@));
            }
            i += 1;
        }
        assert(all.take(i as int) =~= all);
        self.list = kept;
    }

    /// Adds a job that was started, in place of any with its identifier.
    pub fn insert(&mut self, info: RunningJobInfo)
        requires
            old(self).wf(),
        ensures
            final(self).wf(),
            final(self)@ == jobs_without(old(self)@, info@.job_id).push(
                (RunningJob { info: info@, killable: true }),
            ),
    {
        proof {
            lemma_without(self@, info@.job_id);
        }
        self.remove(info.job_id.as_str());
        let ghost before = self.list@;
        self.list.push(RunningJob { info, killable: true });
        assert(viewed(self.list@) =~= viewed(before).push(
            (RunningJob { info: info@, killable: true }),
        ));
    }

    /// Registers a job that starts now.
    pub fn register(
        &mut self,
        slug: &str,
        transcript: &str,
        host: &str,
        job_id: &str,
        command: &str,
        output_path: &str,
    )
        requires
            old(self).wf(),
        ensures
            final(self).wf(),
            exists|started_at: Seq<char>|
                final(self)@ == jobs_without(old(self)@, job_id@).push(
                    #[trigger] started(
                        slug@,
                        transcript@,
                        host@,
                        job_id@,
                        command@,
                        output_path@,
                        started_at,
                    ),
                ),
    {
        let started_at = stamp();
        let info = RunningJobInfo {
            job_id: job_id.to_owned(),
            slug: slug.to_owned(),
            transcript: transcript.to_owned(),
            place: host.to_owned(),
            command: command.to_owned(),
            output_path: output_path.to_owned(),
            started_at,
        };
        assert(RunningJob { info: info@, killable: true } == started(
            slug@,
            transcript@,
            host@,
            job_id@,
            command@,
            output_path@,
            info@.started_at,
        ));
        self.insert(info);
    }

    /// The jobs of a transcript of a slug on a host.
    pub fn of_transcript(&self, slug: &str, transcript: &str, host: &str) -> (r: Vec<
        RunningJobInfo,
    >)
        ensures
            infos(r@) == jobs_of_transcript(self@, slug@, transcript@, host@),
    {
        let ghost all = self@;
        assert(jobs_of_transcript(all.take(0), slug@, transcript@, host@) =~= Seq::empty());
        let mut r: Vec<RunningJobInfo> = Vec::new();
        assert(infos(r@) =~= Seq::empty());
        let mut i: usize = 0;
        while i < self.list.len()
            invariant
                i <= self.list@.len(),
                all == viewed(self.list@),
                infos(r@) == jobs_of_transcript(
                    all.take(i as int),
                    slug@,
                    transcript@,
                    host@,
                ),
            decreases self.list@.len() - i,
        {
            assert(all.take(i + 1).drop_last() =~= all.take(i as int));
            assert(all.take(i + 1).last() == self.list@[i as int]@);
            let info = &self.list[i].info;
            if same_text(info.slug.as_str(), slug) && same_text(
                info.transcript.as_str(),
                transcript,
            ) && same_text(info.place.as_str(), host) {
                let ghost before = r@;
                let copy: RunningJobInfo = info.clone();
                r.push(copy);
                assert(infos(r@) =~= infos(before).push(info@));
            }
            i += 1;
        }
        assert(all.take(i as int) =~= all);
        r
    }

    fn find(&self, job_id: &str) -> (r: Option<usize>)
        ensures
            r is None <==> position(self@, job_id@) < 0,
            r matches Some(i) ==> i == position(self@, job_id@) && i < self.list@.len(),
    {
        let ghost all = self@;
        let mut left: usize = self.list.len();
        assert(all.take(left as int) =~= all);
        while left > 0
            invariant
                left <= self.list@.len(),
                all == viewed(self.list@),
                all == self@,
                position(all.take(left as int), job_id@) == position(all, job_id@),
            decreases left,
        {
            let i: usize = left - 1;
            assert(all.take(left as int).last() == self.list@[i as int]@);
            assert(all.take(left as int).drop_last() =~= all.take(i as int));
            if same_text(self.list[i].info.job_id.as_str(), job_id) {
                return Some(i);
            }
            left = i;
        }
        None
    }

    /// Requests that a job be killed. The request can be made once.
    pub fn kill(&mut self, slug: &str, transcript: &str, host: &str, job_id: &str) -> (r: Kill)
        requires
            old(self).wf(),
        ensures
            final(self).wf(),
            r == kill_of(old(self)@, slug@, transcript@, host@, job_id@),
            final(self)@ == (if r == Kill::Deliver {
                old(self)@.update(
                    position(old(self)@, job_id@),
                    RunningJob {
                        killable: false,
                        ..old(self)@[position(old(self)@, job_id@)]
                    },
                )
            } else {
                old(self)@
            }),
    {
        let i: usize = match self.find(job_id) {
            None => return Kill::NotRunning,
            Some(i) => i,
        };
        let job = &self.list[i];
        if !same_text(job.info.slug.as_str(), slug) || !same_text(
            job.info.transcript.as_str(),
            transcript,
        ) || !same_text(job.info.place.as_str(), host) {
            return Kill::NotRunning;
        }
        if !job.killable {
            return Kill::AlreadyRequested;
        }
        let ghost before = self.list@;
        let marked = RunningJob { info: job.info.clone(), killable: false };
        self.list.set(i, marked);
        assert(viewed(self.list@) =~= viewed(before).update(i as int, marked@));
        Kill::Deliver
    }
}

/// The result of a call.
pub open spec fn response(call_id: Seq<char>, output: Seq<char>, exit_code: i32) -> ToolOutbound<
    Seq<char>,
> {
    ToolOutbound::Response { call_id, output, exit_code }
}

/// Answers a call.
pub fn respond(call_id: &str, output: String, exit_code: i32) -> (r: ToolOutbound)
    ensures
        r@ == response(call_id@, output@, exit_code),
{
    ToolOutbound::Response { call_id: call_id.to_owned(), output, exit_code }
}

/// The answer to a request to kill a job; `sent` says whether it was
/// delivered.
pub open spec fn kill_response(
    kill: Kill,
    sent: bool,
    call_id: Seq<char>,
    slug: Seq<char>,
    transcript: Seq<char>,
    host: Seq<char>,
    job_id: Seq<char>,
) -> ToolOutbound<Seq<char>> {
    match kill {
        Kill::NotRunning => response(
            call_id,
            "job "@ + job_id + " is not running for slug "@ + slug + " transcript "@ + transcript
                + " on "@ + host,
            1,
        ),
        Kill::AlreadyRequested => response(
            call_id,
            "kill already requested for job "@ + job_id,
            1,
        ),
        Kill::Deliver => if sent {
            response(call_id, "kill requested for job "@ + job_id, 0)
        } else {
            response(
                call_id,
                "job "@ + job_id + " finished before kill request was delivered"@,
                1,
            )
        },
    }
}

/// Answers a request to kill a job.
pub fn answer_kill(
    kill: Kill,
    sent: bool,
    call_id: &str,
    slug: &str,
    transcript: &str,
    host: &str,
    job_id: &str,
) -> (r: ToolOutbound)
    ensures
        r@ == kill_response(kill, sent, call_id@, slug@, transcript@, host@, job_id@),
{
    match kill {
        Kill::NotRunning => {
            let mut output = cat5(
                "job ",
                job_id,
                " is not running for slug ",
                slug,
                " transcript ",
            );
            output.append(transcript);
            output.append(" on ");
            output.append(host);
            respond(call_id, output, 1)
        },
        Kill::AlreadyRequested => {
            respond(call_id, cat2("kill already requested for job ", job_id), 1)
        },
        Kill::Deliver => {
            if sent {
                respond(call_id, cat2("kill requested for job ", job_id), 0)
            } else {
                respond(
                    call_id,
                    cat3("job ", job_id, " finished before kill request was delivered"),
                    1,
                )
            }
        },
    }
}

/// The JSON text of a job in a list.
pub open spec fn job_json(j: RunningJobInfo<Seq<char>>) -> Seq<char> {
    "  {\n    \"job_id\": "@ + json_quoted(j.job_id) + ",\n    \"slug\": "@ + json_quoted(j.slug)
        + ",\n    \"transcript\": "@ + json_quoted(j.transcript) + ",\n    \"where\": "@
        + json_quoted(j.place) + ",\n    \"command\": "@ + json_quoted(j.command)
        + ",\n    \"output_path\": "@ + json_quoted(j.output_path) + ",\n    \"started_at\": "@
        + json_quoted(j.started_at) + "\n  }"@
}

fn write_job(j: &RunningJobInfo) -> (r: String)
    ensures
        r@ == job_json(j@),
{
    let mut r = "  {\n    \"job_id\": ".to_owned();
    r.append(quote(j.job_id.as_str()).as_str());
    r.append(",\n    \"slug\": ");
    r.append(quote(j.slug.as_str()).as_str());
    r.append(",\n    \"transcript\": ");
    r.append(quote(j.transcript.as_str()).as_str());
    r.append(",\n    \"where\": ");
    r.append(quote(j.place.as_str()).as_str());
    r.append(",\n    \"command\": ");
    r.append(quote(j.command.as_str()).as_str());
    r.append(",\n    \"output_path\": ");
    r.append(quote(j.output_path.as_str()).as_str());
    r.append(",\n    \"started_at\": ");
    r.append(quote(j.started_at.as_str()).as_str());
    r.append("\n  }");
    r
}

/// The JSON texts of jobs, one behind the other.
pub open spec fn job_rows(jobs: Seq<RunningJobInfo<Seq<char>>>) -> Seq<char>
    decreases jobs.len(),
{
    if jobs.len() == 0 {
        Seq::empty()
    } else if jobs.len() == 1 {
        job_json(jobs[0])
    } else {
        job_rows(jobs.drop_last()) + ",\n"@ + job_json(jobs.last())
    }
}

/// What is listed: the JSON text of the jobs, or that there are none.
pub open spec fn listing(
    jobs: Seq<RunningJobInfo<Seq<char>>>,
    slug: Seq<char>,
    transcript: Seq<char>,
    host: Seq<char>,
) -> Seq<char> {
    if jobs.len() == 0 {
        "no running jobs for slug "@ + slug + " transcript "@ + transcript + " on "@ + host
    } else {
        "[\n"@ + job_rows(jobs) + "\n]"@
    }
}

/// Answers a call that lists jobs.
pub fn answer_jobs(
    jobs: &Vec<RunningJobInfo>,
    call_id: &str,
    slug: &str,
    transcript: &str,
    host: &str,
) -> (r: ToolOutbound)
    ensures
        r@ == response(call_id@, listing(infos(jobs@), slug@, transcript@, host@), 0),
{
    let n: usize = jobs.len();
    if n == 0 {
        let mut output = cat4("no running jobs for slug ", slug, " transcript ", transcript);
        output.append(" on ");
        output.append(host);
        return respond(call_id, output, 0);
    }
    let ghost all = infos(jobs@);
    let mut rows = write_job(&jobs[0]);
    assert(all.take(1)[0] == jobs@[0]@);
    assert(rows@ == job_rows(all.take(1)));
    let mut i: usize = 1;
    while i < n
        invariant
            n == jobs@.len(),
            1 <= i <= n,
            all == infos(jobs@),
            rows@ == job_rows(all.take(i as int)),
        decreases n - i,
    {
        assert(all.take(i + 1).drop_last() =~= all.take(i as int));
        assert(all.take(i + 1).last() == jobs@[i as int]@);
        rows.append(",\n");
        rows.append(write_job(&jobs[i]).as_str());
        i += 1;
    }
    assert(all.take(n as int) =~= all);
    let mut output = cat2("[\n", rows.as_str());
    output.append("\n]");
    respond(call_id, output, 0)
}

/// Whether a name in the directory of jobs is that of the output of a job.
pub open spec fn is_output_of(job_id: Seq<char>, name: Seq<char>) -> bool {
    starts_with(name, job_id + "."@) && ends_with(name, ".job"@)
}

/// Tells whether a name in the directory of jobs is that of the output of a
/// job.
pub fn names_output(job_id: &str, name: &str) -> (r: bool)
    ensures
        r == is_output_of(job_id@, name@),
{
    let prefix = cat2(job_id, ".");
    strip_prefix(name, prefix.as_str()).is_some() && strip_suffix(name, ".job").is_some()
}

/// What is sent of a line that a background job wrote: nothing where the router
/// is on the same host and can read the file.
pub open spec fn line_message(
    job_id: Seq<char>,
    output_path: Seq<char>,
    host: Seq<char>,
    line: Seq<char>,
) -> Option<ToolOutbound<Seq<char>>> {
    if host == "localhost"@ {
        None
    } else {
        Some(ToolOutbound::BackgroundOutput { job_id, output_path, line: trimmed_end(line) })
    }
}

/// Tells what is sent of a line that a background job wrote.
pub fn append_job_stream(job_id: &str, output_path: &str, host: &str, line: &str) -> (r: Option<
    ToolOutbound,
>)
    ensures
        (match r {
            Some(m) => Some(m@),
            None => None,
        }) == line_message(job_id@, output_path@, host@, line@),
{
    if same_text(host, "localhost") {
        return None;
    }
    Some(
        ToolOutbound::BackgroundOutput {
            job_id: job_id.to_owned(),
            output_path: output_path.to_owned(),
            line: trim_end(line).to_owned(),
        },
    )
}

/// What is sent when a background job has exited.
pub open spec fn exit_message(
    slug: Seq<char>,
    transcript: Seq<char>,
    job_id: Seq<char>,
    host: Seq<char>,
    exit_code: i32,
    output_path: Seq<char>,
) -> ToolOutbound<Seq<char>> {
    ToolOutbound::Notification {
        slug,
        transcript,
        message: "Background job exited."@,
        meta: Some(
            "job_id="@ + job_id + " where="@ + host + " exit_code="@ + signed_decimal(
                exit_code as int,
            ) + " output_path="@ + output_path,
        ),
    }
}

/// Tells what is sent when a background job has exited.
pub fn notify_exit(
    slug: &str,
    transcript: &str,
    job_id: &str,
    host: &str,
    exit_code: i32,
    output_path: &str,
) -> (r: ToolOutbound)
    ensures
        r@ == exit_message(slug@, transcript@, job_id@, host@, exit_code, output_path@),
{
    let mut meta = cat4("job_id=", job_id, " where=", host);
    meta.append(" exit_code=");
    meta.append(signed_decimal_text(exit_code).as_str());
    meta.append(" output_path=");
    meta.append(output_path);
    ToolOutbound::Notification {
        slug: slug.to_owned(),
        transcript: transcript.to_owned(),
        message: "Background job exited.".to_owned(),
        meta: Some(meta),
    }
}

/// Where the output of a job is that has exited: under its final name, or under
/// its first where it could not be renamed.
pub open spec fn output_path_of(
    home: Seq<char>,
    host: Seq<char>,
    slug: Seq<char>,
    job_id: Seq<char>,
    exit_code: i32,
    renamed: bool,
) -> Seq<char> {
    if renamed {
        finished_of(home, slug, host, job_id, exit_code)
    } else {
        running_of(home, slug, host, job_id)
    }
}

/// Tells what is sent when a background job has exited, given whether its
/// output could be renamed.
pub fn job_exited(
    home: &str,
    host: &str,
    slug: &str,
    transcript: &str,
    job_id: &str,
    code: i32,
    renamed: bool,
) -> (r: ToolOutbound)
    ensures
        r@ == exit_message(
            slug@,
            transcript@,
            job_id@,
            host@,
            code,
            output_path_of(home@, host@, slug@, job_id@, code, renamed),
        ),
{
    let path = if renamed {
        finished_job_path(home, slug, host, job_id, code)
    } else {
        running_job_path(home, slug, host, job_id)
    };
    notify_exit(slug, transcript, job_id, host, code, path.as_str())
}

/// The killing of a job is requested at most once: after it was delivered, the
/// same request is refused.
pub proof fn a_kill_is_requested_once(
    jobs: Seq<JobView>,
    slug: Seq<char>,
    transcript: Seq<char>,
    host: Seq<char>,
    job_id: Seq<char>,
)
    requires
        are_distinct(jobs),
        kill_of(jobs, slug, transcript, host, job_id) == Kill::Deliver,
    ensures
        ({
            let i = position(jobs, job_id);
            let marked = jobs.update(i, RunningJob { killable: false, ..jobs[i] });
            kill_of(marked, slug, transcript, host, job_id) == Kill::AlreadyRequested
        }),
{
    let i = position(jobs, job_id);
    let marked = jobs.update(i, RunningJob { killable: false, ..jobs[i] });
    lemma_position(jobs, job_id);
    lemma_same_position(jobs, marked, job_id);
}

proof fn lemma_same_position(a: Seq<JobView>, b: Seq<JobView>, job_id: Seq<char>)
    requires
        a.len() == b.len(),
        forall|i: int| 0 <= i < a.len() ==> (#[trigger] a[i]).info.job_id == b[i].info.job_id,
    ensures
        position(a, job_id) == position(b, job_id),
    decreases a.len(),
{
    if a.len() > 0 {
        assert(a.last() == a[a.len() - 1]);
        lemma_same_position(a.drop_last(), b.drop_last(), job_id);
    }
}

proof fn lemma_transcript_last(
    jobs: Seq<JobView>,
    slug: Seq<char>,
    transcript: Seq<char>,
    host: Seq<char>,
    i: int,
)
    requires
        0 <= i < jobs_of_transcript(jobs, slug, transcript, host).len(),
    ensures
        exists|k: int|
            0 <= k < jobs.len() && (#[trigger] jobs[k]).info == jobs_of_transcript(
                jobs,
                slug,
                transcript,
                host,
            )[i] && belongs(jobs[k], slug, transcript, host),
    decreases jobs.len(),
{
    let earlier = jobs_of_transcript(jobs.drop_last(), slug, transcript, host);
    if i < earlier.len() {
        lemma_transcript_last(jobs.drop_last(), slug, transcript, host, i);
        let k = choose|k: int|
            0 <= k < jobs.drop_last().len() && (#[trigger] jobs.drop_last()[k]).info == earlier[i]
                && belongs(jobs.drop_last()[k], slug, transcript, host);
        assert(jobs[k] == jobs.drop_last()[k]);
    } else {
        assert(jobs[jobs.len() - 1] == jobs.last());
    }
}

/// A transcript is shown no jobs but its own, on its own host.
pub proof fn transcripts_see_their_own_jobs(
    jobs: Seq<JobView>,
    slug: Seq<char>,
    transcript: Seq<char>,
    host: Seq<char>,
    i: int,
)
    requires
        0 <= i < jobs_of_transcript(jobs, slug, transcript, host).len(),
    ensures
        jobs_of_transcript(jobs, slug, transcript, host)[i].slug == slug,
        jobs_of_transcript(jobs, slug, transcript, host)[i].transcript == transcript,
        jobs_of_transcript(jobs, slug, transcript, host)[i].place == host,
{
    lemma_transcript_last(jobs, slug, transcript, host, i);
}

} // verus!
