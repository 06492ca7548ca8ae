//! How a call is carried out: what has to be done for it, step by step, and what
//! is answered.
//!
//! The machine never runs a program or touches a file. It asks for an
//! [`Effect`], is told what came of it, and ends with a message.

use vstd::prelude::*;

use crate::jobs::{is_output_of, names_output, respond, response};
use crate::location::{
    job_dir, jobs_of, pane_dir, pane_of, resolve_tool_path, running_job_path, running_of,
    sandbox_file, sandbox_file_of,
};
use crate::message::{Outbound, Task};
use crate::patch::{answer_patch, denied_path, find_denied, patch_response, Patched};
use crate::path::{join, joined};
use crate::pdf::{answer_pdf, check_pdf, page_count, pdf_page_count, pdf_problem, pdf_response};
use crate::picture::{image_response, image_shrunk, image_size, show_image, MAX_EDGE};
use crate::process::{code_of, combined_output, exit_code, output_of, Finished};
use crate::sandbox::{
    bare, build_command, build_sandbox_command, read_sandbox_config, roots, sandboxed, Invocation,
    InvocationView, Kind,
};
use crate::text::{cat2, cat3, cat4, cat5, texts};

verus! {

/// The host that calls are carried out on.
#[derive(Debug)]
pub struct Host<S = String> {
    /// The home directory.
    pub home: S,
    /// The name that calls for this host give.
    pub identity: S,
    /// The working directory.
    pub directory: S,
    /// The directory for temporary files.
    pub temporary: S,
    pub sandbox: Kind,
}

impl View for Host<String> {
    type V = Host<Seq<char>>;

    open spec fn view(&self) -> Host<Seq<char>> {
        Host {
            home: self.home@,
            identity: self.identity@,
            directory: self.directory@,
            temporary: self.temporary@,
            sandbox: self.sandbox,
        }
    }
}

/// A command to run. A background job is known by its call.
#[derive(Debug)]
pub struct ZshCall<S = String> {
    pub slug: S,
    pub transcript: S,
    pub call_id: S,
    pub command: S,
    pub sandboxed: bool,
    pub background: bool,
}

impl View for ZshCall<String> {
    type V = ZshCall<Seq<char>>;

    open spec fn view(&self) -> ZshCall<Seq<char>> {
        ZshCall {
            slug: self.slug@,
            transcript: self.transcript@,
            call_id: self.call_id@,
            command: self.command@,
            sandboxed: self.sandboxed,
            background: self.background,
        }
    }
}

/// How far a call is.
#[derive(Debug)]
pub enum Running<S = String, B = Vec<u8>> {
    /// The slug's directory is being made.
    ZshDirectory { call: ZshCall<S> },
    /// The file for a job's output is being made.
    ZshOutput { call: ZshCall<S> },
    /// The sandbox configuration is being read.
    ZshConfig { call: ZshCall<S> },
    /// The command is running.
    ZshRun { call_id: S },
    /// The command is being started as a job.
    ZshSpawn { call: ZshCall<S> },
    /// The slug's directory is being made.
    ShellDirectory { slug: S, transcript: S, id: S, command: S },
    /// The operator's command is running.
    ShellRun { slug: S, transcript: S, id: S },
    /// The output of a running job is being looked for.
    JobExists { slug: S, call_id: S, job_id: S },
    /// The output of a job that has exited is being looked for.
    JobList { slug: S, call_id: S, job_id: S },
    /// The output of a job is being read.
    JobRead { call_id: S, job_id: S, path: S },
    /// The sandbox configuration is being read.
    PatchConfig { slug: S, call_id: S, patch: S },
    /// The patch is being parsed.
    PatchParse { slug: S, call_id: S, patch: S, config: Option<S> },
    /// The patch is being applied.
    PatchApply { call_id: S },
    /// The image is being read.
    ImageRead { call_id: S, path: S },
    /// The PDF is being read.
    PdfRead { call_id: S, path: S },
    /// The pages of the PDF are being counted.
    PdfCount { call_id: S, path: S, bytes: B },
}

/// How far a call is, as contracts see it.
pub type RunningView = Running<Seq<char>, Seq<u8>>;

impl View for Running<String, Vec<u8>> {
    type V = RunningView;

    open spec fn view(&self) -> RunningView {
        match *self {
            Running::ZshDirectory { call } => {
                Running::ZshDirectory { call: call@ }
            },
            Running::ZshOutput { call } => {
                Running::ZshOutput { call: call@ }
            },
            Running::ZshConfig { call } => {
                Running::ZshConfig { call: call@ }
            },
            Running::ZshRun { call_id } => {
                Running::ZshRun { call_id: call_id@ }
            },
            Running::ZshSpawn { call } => {
                Running::ZshSpawn { call: call@ }
            },
            Running::ShellDirectory { slug, transcript, id, command } => {
                Running::ShellDirectory { slug: slug@, transcript: transcript@, id: id@, command: command@ }
            },
            Running::ShellRun { slug, transcript, id } => {
                Running::ShellRun { slug: slug@, transcript: transcript@, id: id@ }
            },
            Running::JobExists { slug, call_id, job_id } => {
                Running::JobExists { slug: slug@, call_id: call_id@, job_id: job_id@ }
            },
            Running::JobList { slug, call_id, job_id } => {
                Running::JobList { slug: slug@, call_id: call_id@, job_id: job_id@ }
            },
            Running::JobRead { call_id, job_id, path } => {
                Running::JobRead { call_id: call_id@, job_id: job_id@, path: path@ }
            },
            Running::PatchConfig { slug, call_id, patch } => {
                Running::PatchConfig { slug: slug@, call_id: call_id@, patch: patch@ }
            },
            Running::PatchParse { slug, call_id, patch, config } => {
                Running::PatchParse { slug: slug@, call_id: call_id@, patch: patch@, config: match config {
                    Some(v) => Some(v@),
                    None => None,
                } }
            },
            Running::PatchApply { call_id } => {
                Running::PatchApply { call_id: call_id@ }
            },
            Running::ImageRead { call_id, path } => {
                Running::ImageRead { call_id: call_id@, path: path@ }
            },
            Running::PdfRead { call_id, path } => {
                Running::PdfRead { call_id: call_id@, path: path@ }
            },
            Running::PdfCount { call_id, path, bytes } => {
                Running::PdfCount { call_id: call_id@, path: path@, bytes: bytes@ }
            },
        }
    }
}

/// Something to do for a call.
#[derive(Debug)]
pub enum Effect {
    /// Make a directory and those above it. Answered by [`Report::Done`].
    MakeDirectory { path: String },
    /// Make a directory and those above it, if that can be done, and an empty
    /// file. Answered by [`Report::Done`].
    CreateOutput { directory: String, path: String },
    /// Read a file, if that can be done. Answered by [`Report::Config`].
    ReadConfig { path: String },
    /// Run a program in a directory, with its environment, to its end. Answered
    /// by [`Report::Ran`].
    Run { invocation: Invocation, directory: String },
    /// Start a program in a directory, with its environment. Answered by
    /// [`Report::Done`].
    Spawn { invocation: Invocation, directory: String },
    /// Tell whether a file exists. Answered by [`Report::Exists`].
    Exists { path: String },
    /// List a directory. Answered by [`Report::Names`].
    List { path: String },
    /// Read a file as text. Answered by [`Report::Text`].
    ReadText { path: String },
    /// Read a file. Answered by [`Report::Bytes`].
    ReadBytes { path: String },
    /// Parse a patch. Answered by [`Report::Paths`].
    ParsePatch { patch: String },
    /// Apply the patch that was parsed. Answered by [`Report::Patched`].
    ApplyPatch,
    /// Run `pdfinfo` on a file. Answered by [`Report::Ran`].
    CountPages { path: String },
}

/// Something to do for a call, as contracts see it.
pub enum EffectView {
    MakeDirectory { path: Seq<char> },
    CreateOutput { directory: Seq<char>, path: Seq<char> },
    ReadConfig { path: Seq<char> },
    Run { invocation: InvocationView, directory: Seq<char> },
    Spawn { invocation: InvocationView, directory: Seq<char> },
    Exists { path: Seq<char> },
    List { path: Seq<char> },
    ReadText { path: Seq<char> },
    ReadBytes { path: Seq<char> },
    ParsePatch { patch: Seq<char> },
    ApplyPatch,
    CountPages { path: Seq<char> },
}

impl View for Effect {
    type V = EffectView;

    open spec fn view(&self) -> EffectView {
        match *self {
            Effect::MakeDirectory { path } => EffectView::MakeDirectory { path: path@ },
            Effect::CreateOutput { directory, path } => {
                EffectView::CreateOutput { directory: directory@, path: path@ }
            },
            Effect::ReadConfig { path } => EffectView::ReadConfig { path: path@ },
            Effect::Run { invocation, directory } => {
                EffectView::Run { invocation: invocation@, directory: directory@ }
            },
            Effect::Spawn { invocation, directory } => {
                EffectView::Spawn { invocation: invocation@, directory: directory@ }
            },
            Effect::Exists { path } => EffectView::Exists { path: path@ },
            Effect::List { path } => EffectView::List { path: path@ },
            Effect::ReadText { path } => EffectView::ReadText { path: path@ },
            Effect::ReadBytes { path } => EffectView::ReadBytes { path: path@ },
            Effect::ParsePatch { patch } => EffectView::ParsePatch { patch: patch@ },
            Effect::ApplyPatch => EffectView::ApplyPatch,
            Effect::CountPages { path } => EffectView::CountPages { path: path@ },
        }
    }
}

/// What came of an effect. Errors are texts.
#[derive(Debug)]
pub enum Report {
    Done(Result<(), String>),
    /// The text of a file that could be read.
    Config(Option<String>),
    Ran(Result<Finished, String>),
    Exists(Result<bool, String>),
    /// The names in a directory, where they are UTF-8, up to an entry that
    /// could not be read.
    Names(Result<Vec<Result<Option<String>, String>>, String>),
    Text(Result<String, String>),
    Bytes(Result<Vec<u8>, String>),
    /// The paths that a patch touches, in order: those of the files that it
    /// adds, deletes or changes, and those that it moves files to.
    Paths(Result<Vec<String>, String>),
    Patched(Patched),
}

/// A job that was started.
#[derive(Debug)]
pub struct Started {
    pub slug: String,
    pub transcript: String,
    pub job_id: String,
    pub command: String,
    pub output_path: String,
    /// What is answered about it.
    pub message: Outbound,
}

/// A job that was started, as contracts see it.
pub struct StartedView {
    pub slug: Seq<char>,
    pub transcript: Seq<char>,
    pub job_id: Seq<char>,
    pub command: Seq<char>,
    pub output_path: Seq<char>,
    pub message: Outbound<Seq<char>>,
}

impl View for Started {
    type V = StartedView;

    open spec fn view(&self) -> StartedView {
        StartedView {
            slug: self.slug@,
            transcript: self.transcript@,
            job_id: self.job_id@,
            command: self.command@,
            output_path: self.output_path@,
            message: self.message@,
        }
    }
}

/// A call that is being carried out.
#[derive(Debug)]
pub struct Call {
    pub host: Host,
    pub running: Running,
}

/// What a call comes to.
#[derive(Debug)]
pub enum Step {
    /// It goes on once an effect has taken place.
    Do(Call, Effect),
    /// It is answered.
    Say(Outbound),
    /// It started a job, to be registered and watched.
    Start(Started),
    /// It is about the running jobs, which are kept elsewhere.
    Consult(Task),
}

/// What a call comes to, as contracts see it.
pub enum StepView {
    Do(Host<Seq<char>>, RunningView, EffectView),
    Say(Outbound<Seq<char>>),
    Start(StartedView),
    Consult(Task<Seq<char>>),
}

impl View for Step {
    type V = StepView;

    open spec fn view(&self) -> StepView {
        match *self {
            Step::Do(call, effect) => StepView::Do(call.host@, call.running@, effect@),
            Step::Say(message) => StepView::Say(message@),
            Step::Start(started) => StepView::Start(started@),
            Step::Consult(task) => StepView::Consult(task@),
        }
    }
}

/// A call is answered.
pub open spec fn said(call_id: Seq<char>, output: Seq<char>, exit_code: i32) -> StepView {
    StepView::Say(Outbound::Tool(response(call_id, output, exit_code)))
}

/// An operator's command is answered.
pub open spec fn shell_said(
    id: Seq<char>,
    slug: Seq<char>,
    transcript: Seq<char>,
    output: Seq<char>,
    exit_code: i32,
) -> StepView {
    StepView::Say(Outbound::Shell { id, slug, transcript, output, exit_code })
}

/// The beginning of a task.
pub open spec fn begun(host: Host<Seq<char>>, task: Task<Seq<char>>) -> StepView {
    match task {
        Task::Zsh { slug, transcript, call_id, command, sandboxed, background } => {
            let call = ZshCall { slug, transcript, call_id, command, sandboxed, background };
            StepView::Do(
                host,
                Running::ZshDirectory { call },
                EffectView::MakeDirectory { path: pane_of(host.home, slug) },
            )
        },
        Task::Shell { slug, transcript, id, command } => StepView::Do(
            host,
            Running::ShellDirectory { slug, transcript, id, command },
            EffectView::MakeDirectory { path: pane_of(host.home, slug) },
        ),
        Task::Job { slug, call_id, job_id } => StepView::Do(
            host,
            Running::JobExists { slug, call_id, job_id },
            EffectView::Exists { path: running_of(host.home, slug, host.identity, job_id) },
        ),
        Task::ApplyPatch { slug, call_id, patch } => StepView::Do(
            host,
            Running::PatchConfig { slug, call_id, patch },
            EffectView::ReadConfig { path: sandbox_file_of(host.home, slug) },
        ),
        Task::ViewImage { call_id, path } => {
            let file = joined(host.directory, path);
            StepView::Do(
                host,
                Running::ImageRead { call_id, path: file },
                EffectView::ReadBytes { path: file },
            )
        },
        Task::ReadPdf { call_id, path } => {
            let file = joined(host.directory, path);
            StepView::Do(
                host,
                Running::PdfRead { call_id, path: file },
                EffectView::ReadBytes { path: file },
            )
        },
        Task::Jobs { slug, transcript, call_id } => {
            StepView::Consult(Task::Jobs { slug, transcript, call_id })
        },
        Task::Kill { slug, transcript, call_id, job_id } => {
            StepView::Consult(Task::Kill { slug, transcript, call_id, job_id })
        },
    }
}

/// A command's program is known: it is run, or started as a job.
pub open spec fn launched(
    host: Host<Seq<char>>,
    call: ZshCall<Seq<char>>,
    invocation: InvocationView,
) -> StepView {
    let directory = pane_of(host.home, call.slug);
    if call.background {
        StepView::Do(
            host,
            Running::ZshSpawn { call },
            EffectView::Spawn { invocation, directory },
        )
    } else {
        StepView::Do(
            host,
            Running::ZshRun { call_id: call.call_id },
            EffectView::Run { invocation, directory },
        )
    }
}

/// A command's directories are there. Only a command that may leave the sandbox
/// runs without one.
pub open spec fn prepared(host: Host<Seq<char>>, call: ZshCall<Seq<char>>) -> StepView {
    if call.sandboxed {
        StepView::Do(
            host,
            Running::ZshConfig { call },
            EffectView::ReadConfig { path: sandbox_file_of(host.home, call.slug) },
        )
    } else {
        launched(host, call, bare(call.command))
    }
}

/// The slug's directory is there, or cannot be made.
pub open spec fn on_zsh_directory(
    host: Host<Seq<char>>,
    call: ZshCall<Seq<char>>,
    done: Result<(), String>,
) -> StepView {
    match done {
        Err(e) => said(call.call_id, "failed to create pane directory: "@ + e@, 1),
        Ok(()) => if call.background {
            StepView::Do(
                host,
                Running::ZshOutput { call },
                EffectView::CreateOutput {
                    directory: jobs_of(host.home, call.slug, host.identity),
                    path: running_of(host.home, call.slug, host.identity, call.call_id),
                },
            )
        } else {
            prepared(host, call)
        },
    }
}

/// The file for a job's output is there, or cannot be made.
pub open spec fn on_zsh_output(
    host: Host<Seq<char>>,
    call: ZshCall<Seq<char>>,
    done: Result<(), String>,
) -> StepView {
    match done {
        Err(e) => said(call.call_id, "failed to create output file: "@ + e@, 1),
        Ok(()) => prepared(host, call),
    }
}

/// A text that may be missing, as contracts see it.
pub open spec fn maybe(s: Option<String>) -> Option<Seq<char>> {
    match s {
        Some(s) => Some(s@),
        None => None,
    }
}

/// The sandbox configuration was read.
pub open spec fn on_zsh_config(
    host: Host<Seq<char>>,
    call: ZshCall<Seq<char>>,
    config: Option<Seq<char>>,
) -> StepView {
    launched(
        host,
        call,
        sandboxed(
            host.sandbox,
            call.command,
            roots(host.home, call.slug, config),
            host.temporary,
        ),
    )
}

/// The command ran to its end, or could not be run.
pub open spec fn on_zsh_run(call_id: Seq<char>, run: Result<Finished, String>) -> StepView {
    match run {
        Ok(f) => said(call_id, output_of(f), code_of(f.code)),
        Err(e) => said(call_id, "failed to execute: "@ + e@, 1),
    }
}

/// The job was started, or could not be.
pub open spec fn on_zsh_spawn(
    host: Host<Seq<char>>,
    call: ZshCall<Seq<char>>,
    done: Result<(), String>,
) -> StepView {
    let path = running_of(host.home, call.slug, host.identity, call.call_id);
    match done {
        Err(e) => said(call.call_id, "failed to spawn background task: "@ + e@, 1),
        Ok(()) => StepView::Start(
            StartedView {
                slug: call.slug,
                transcript: call.transcript,
                job_id: call.call_id,
                command: call.command,
                output_path: path,
                message: Outbound::Tool(
                    response(
                        call.call_id,
                        "Background job "@ + call.call_id + " started. Output: "@ + path,
                        0,
                    ),
                ),
            },
        ),
    }
}

/// The first file in a directory from index `i` on that holds the output of a
/// job. A name that is not UTF-8 is passed over.
pub open spec fn output_name(
    job_id: Seq<char>,
    names: Seq<Result<Option<String>, String>>,
    i: int,
) -> Result<Option<Seq<char>>, Seq<char>>
    decreases names.len() - i,
{
    if i < 0 || i >= names.len() {
        Ok(None)
    } else {
        match names[i] {
            Err(e) => Err(e@),
            Ok(None) => output_name(job_id, names, i + 1),
            Ok(Some(name)) => if is_output_of(job_id, name@) {
                Ok(Some(name@))
            } else {
                output_name(job_id, names, i + 1)
            },
        }
    }
}

/// The refusal to read the output of a job because looking for it failed.
pub open spec fn search_failed(call_id: Seq<char>, job_id: Seq<char>, e: Seq<char>) -> StepView {
    said(call_id, "failed to find job "@ + job_id + ": "@ + e, 1)
}

/// The output of a job is read.
pub open spec fn reading(
    host: Host<Seq<char>>,
    call_id: Seq<char>,
    job_id: Seq<char>,
    path: Seq<char>,
) -> StepView {
    StepView::Do(
        host,
        Running::JobRead { call_id, job_id, path },
        EffectView::ReadText { path },
    )
}

/// The output of a running job exists, or not.
pub open spec fn on_job_exists(
    host: Host<Seq<char>>,
    slug: Seq<char>,
    call_id: Seq<char>,
    job_id: Seq<char>,
    found: Result<bool, String>,
) -> StepView {
    match found {
        Err(e) => search_failed(call_id, job_id, e@),
        Ok(true) => reading(
            host,
            call_id,
            job_id,
            running_of(host.home, slug, host.identity, job_id),
        ),
        Ok(false) => StepView::Do(
            host,
            Running::JobList { slug, call_id, job_id },
            EffectView::List { path: jobs_of(host.home, slug, host.identity) },
        ),
    }
}

/// The directory of jobs was listed.
pub open spec fn on_job_list(
    host: Host<Seq<char>>,
    slug: Seq<char>,
    call_id: Seq<char>,
    job_id: Seq<char>,
    names: Result<Vec<Result<Option<String>, String>>, String>,
) -> StepView {
    match names {
        Err(e) => search_failed(call_id, job_id, e@),
        Ok(names) => match output_name(job_id, names@, 0) {
            Err(e) => search_failed(call_id, job_id, e),
            Ok(None) => said(
                call_id,
                "job "@ + job_id + " not found on "@ + host.identity,
                1,
            ),
            Ok(Some(name)) => reading(
                host,
                call_id,
                job_id,
                joined(jobs_of(host.home, slug, host.identity), name),
            ),
        },
    }
}

/// The output of a job was read, or could not be.
pub open spec fn on_job_read(
    call_id: Seq<char>,
    job_id: Seq<char>,
    path: Seq<char>,
    text: Result<String, String>,
) -> StepView {
    match text {
        Ok(output) => said(
            call_id,
            "job "@ + job_id + " output at "@ + path + "\n\n"@ + output@,
            0,
        ),
        Err(e) => said(call_id, "failed to read job "@ + job_id + ": "@ + e@, 1),
    }
}

/// The patch was parsed: it is applied if it touches nothing outside of the
/// writable roots.
pub open spec fn on_patch_parse(
    host: Host<Seq<char>>,
    slug: Seq<char>,
    call_id: Seq<char>,
    config: Option<Seq<char>>,
    paths: Result<Vec<String>, String>,
) -> StepView {
    match paths {
        Err(e) => said(call_id, "patch parse error: "@ + e@, 1),
        Ok(paths) => match denied_path(
            host.directory,
            texts(paths@),
            roots(host.home, slug, config),
            0,
        ) {
            Some(path) => said(
                call_id,
                "patch denied: "@ + path + " is not inside a writable root"@,
                1,
            ),
            None => StepView::Do(
                host,
                Running::PatchApply { call_id },
                EffectView::ApplyPatch,
            ),
        },
    }
}

/// The image was read, or could not be.
pub open spec fn on_image_read(
    call_id: Seq<char>,
    path: Seq<char>,
    bytes: Result<Vec<u8>, String>,
) -> StepView {
    match bytes {
        Err(e) => said(call_id, "cannot read image: "@ + e@, 1),
        Ok(bytes) => StepView::Say(
            Outbound::Tool(
                image_response(
                    call_id,
                    path,
                    bytes@,
                    image_size(bytes@),
                    image_shrunk(bytes@, MAX_EDGE),
                ),
            ),
        ),
    }
}

/// The PDF was read, or could not be.
pub open spec fn on_pdf_read(
    host: Host<Seq<char>>,
    call_id: Seq<char>,
    path: Seq<char>,
    bytes: Result<Vec<u8>, String>,
) -> StepView {
    match bytes {
        Err(e) => said(call_id, "cannot read PDF: "@ + e@, 1),
        Ok(bytes) => match pdf_problem(path, bytes@) {
            Some(problem) => said(call_id, problem, 1),
            None => StepView::Do(
                host,
                Running::PdfCount { call_id, path, bytes: bytes@ },
                EffectView::CountPages { path },
            ),
        },
    }
}

/// The slug's directory is there for an operator's command, or cannot be made.
pub open spec fn on_shell_directory(
    host: Host<Seq<char>>,
    slug: Seq<char>,
    transcript: Seq<char>,
    id: Seq<char>,
    command: Seq<char>,
    done: Result<(), String>,
) -> StepView {
    match done {
        Err(e) => shell_said(
            id,
            slug,
            transcript,
            "failed to create pane directory: "@ + e@,
            1,
        ),
        Ok(()) => StepView::Do(
            host,
            Running::ShellRun { slug, transcript, id },
            EffectView::Run { invocation: bare(command), directory: pane_of(host.home, slug) },
        ),
    }
}

/// An operator's command ran to its end, or could not be run.
pub open spec fn on_shell_run(
    slug: Seq<char>,
    transcript: Seq<char>,
    id: Seq<char>,
    run: Result<Finished, String>,
) -> StepView {
    match run {
        Ok(f) => shell_said(id, slug, transcript, output_of(f), code_of(f.code)),
        Err(e) => shell_said(id, slug, transcript, "failed to execute: "@ + e@, 1),
    }
}

/// Who a call is answered to.
pub open spec fn caller_of(running: RunningView) -> Seq<char> {
    match running {
        Running::ZshDirectory { call } => call.call_id,
        Running::ZshOutput { call } => call.call_id,
        Running::ZshConfig { call } => call.call_id,
        Running::ZshRun { call_id } => call_id,
        Running::ZshSpawn { call } => call.call_id,
        Running::ShellDirectory { id, .. } => id,
        Running::ShellRun { id, .. } => id,
        Running::JobExists { call_id, .. } => call_id,
        Running::JobList { call_id, .. } => call_id,
        Running::JobRead { call_id, .. } => call_id,
        Running::PatchConfig { call_id, .. } => call_id,
        Running::PatchParse { call_id, .. } => call_id,
        Running::PatchApply { call_id } => call_id,
        Running::ImageRead { call_id, .. } => call_id,
        Running::PdfRead { call_id, .. } => call_id,
        Running::PdfCount { call_id, .. } => call_id,
    }
}

/// The answer to a call that is told of something it did not ask for.
pub open spec fn confused(running: RunningView) -> StepView {
    said(caller_of(running), "the call does not wait for this report"@, 1)
}

/// What a report makes of a call.
pub open spec fn advanced(
    host: Host<Seq<char>>,
    running: RunningView,
    report: Report,
) -> StepView {
    match (running, report) {
        (Running::ZshDirectory { call }, Report::Done(done)) => on_zsh_directory(host, call, done),
        (Running::ZshOutput { call }, Report::Done(done)) => on_zsh_output(host, call, done),
        (Running::ZshConfig { call }, Report::Config(config)) => {
            on_zsh_config(host, call, maybe(config))
        },
        (Running::ZshRun { call_id }, Report::Ran(run)) => on_zsh_run(call_id, run),
        (Running::ZshSpawn { call }, Report::Done(done)) => on_zsh_spawn(host, call, done),
        (Running::ShellDirectory { slug, transcript, id, command }, Report::Done(done)) => {
            on_shell_directory(host, slug, transcript, id, command, done)
        },
        (Running::ShellRun { slug, transcript, id }, Report::Ran(run)) => {
            on_shell_run(slug, transcript, id, run)
        },
        (Running::JobExists { slug, call_id, job_id }, Report::Exists(found)) => {
            on_job_exists(host, slug, call_id, job_id, found)
        },
        (Running::JobList { slug, call_id, job_id }, Report::Names(names)) => {
            on_job_list(host, slug, call_id, job_id, names)
        },
        (Running::JobRead { call_id, job_id, path }, Report::Text(text)) => {
            on_job_read(call_id, job_id, path, text)
        },
        (Running::PatchConfig { slug, call_id, patch }, Report::Config(config)) => StepView::Do(
            host,
            Running::PatchParse { slug, call_id, patch, config: maybe(config) },
            EffectView::ParsePatch { patch },
        ),
        (Running::PatchParse { slug, call_id, config, .. }, Report::Paths(paths)) => {
            on_patch_parse(host, slug, call_id, config, paths)
        },
        (Running::PatchApply { call_id }, Report::Patched(patched)) => {
            StepView::Say(Outbound::Tool(patch_response(call_id, patched)))
        },
        (Running::ImageRead { call_id, path }, Report::Bytes(bytes)) => {
            on_image_read(call_id, path, bytes)
        },
        (Running::PdfRead { call_id, path }, Report::Bytes(bytes)) => {
            on_pdf_read(host, call_id, path, bytes)
        },
        (Running::PdfCount { call_id, path, bytes }, Report::Ran(run)) => {
            StepView::Say(Outbound::Tool(pdf_response(call_id, path, bytes, page_count(run))))
        },
        _ => confused(running),
    }
}

fn say(call_id: &str, output: String, exit_code: i32) -> (r: Step)
    ensures
        r@ == said(call_id@, output@, exit_code),
{
    Step::Say(Outbound::Tool(respond(call_id, output, exit_code)))
}

fn say_shell(id: String, slug: String, transcript: String, output: String, exit_code: i32) -> (r:
    Step)
    ensures
        r@ == shell_said(id@, slug@, transcript@, output@, exit_code),
{
    Step::Say(Outbound::Shell { id, slug, transcript, output, exit_code })
}

fn find_output(job_id: &str, names: &Vec<Result<Option<String>, String>>) -> (r: Result<
    Option<String>,
    String,
>)
    ensures
        (match r {
            Ok(name) => Ok(maybe(name)),
            Err(e) => Err(e@),
        }) == output_name(job_id@, names@, 0),
{
    let mut i: usize = 0;
    while i < names.len()
        invariant
            i <= names@.len(),
            output_name(job_id@, names@, i as int) == output_name(job_id@, names@, 0),
        decreases names@.len() - i,
    {
        match &names[i] {
            Err(e) => return Err(e.clone()),
            Ok(None) => {},
            Ok(Some(name)) => {
                if names_output(job_id, name.as_str()) {
                    return Ok(Some(name.clone()));
                }
            },
        }
        i += 1;
    }
    Ok(None)
}

impl Host<String> {
    fn launch(self, call: ZshCall, invocation: Invocation) -> (r: Step)
        ensures
            r@ == launched(self@, call@, invocation@),
    {
        let directory = pane_dir(self.home.as_str(), call.slug.as_str());
        if call.background {
            Step::Do(
                Call { host: self, running: Running::ZshSpawn { call } },
                Effect::Spawn { invocation, directory },
            )
        } else {
            Step::Do(
                Call { host: self, running: Running::ZshRun { call_id: call.call_id } },
                Effect::Run { invocation, directory },
            )
        }
    }

    fn prepare(self, call: ZshCall) -> (r: Step)
        ensures
            r@ == prepared(self@, call@),
    {
        if call.sandboxed {
            let path = sandbox_file(self.home.as_str(), call.slug.as_str());
            Step::Do(
                Call { host: self, running: Running::ZshConfig { call } },
                Effect::ReadConfig { path },
            )
        } else {
            let invocation = build_command(call.command.as_str());
            self.launch(call, invocation)
        }
    }

    fn on_zsh_directory(self, call: ZshCall, done: Result<(), String>) -> (r: Step)
        ensures
            r@ == on_zsh_directory(self@, call@, done),
    {
        if let Err(e) = done {
            return say(
                call.call_id.as_str(),
                cat2("failed to create pane directory: ", e.as_str()),
                1,
            );
        }
        if !call.background {
            return self.prepare(call);
        }
        let directory = job_dir(self.home.as_str(), call.slug.as_str(), self.identity.as_str());
        let path = running_job_path(
            self.home.as_str(),
            call.slug.as_str(),
            self.identity.as_str(),
            call.call_id.as_str(),
        );
        Step::Do(
            Call { host: self, running: Running::ZshOutput { call } },
            Effect::CreateOutput { directory, path },
        )
    }

    fn on_zsh_config(self, call: ZshCall, config: Option<String>) -> (r: Step)
        ensures
            r@ == on_zsh_config(self@, call@, maybe(config)),
    {
        let content: Option<&str> = match &config {
            Some(text) => Some(text.as_str()),
            None => None,
        };
        let sandbox = read_sandbox_config(self.home.as_str(), call.slug.as_str(), content);
        let invocation = build_sandbox_command(
            self.sandbox,
            call.command.as_str(),
            &sandbox,
            self.temporary.as_str(),
        );
        self.launch(call, invocation)
    }

    fn on_zsh_spawn(self, call: ZshCall, done: Result<(), String>) -> (r: Step)
        ensures
            r@ == on_zsh_spawn(self@, call@, done),
    {
        if let Err(e) = done {
            return say(
                call.call_id.as_str(),
                cat2("failed to spawn background task: ", e.as_str()),
                1,
            );
        }
        let path = running_job_path(
            self.home.as_str(),
            call.slug.as_str(),
            self.identity.as_str(),
            call.call_id.as_str(),
        );
        let output = cat4(
            "Background job ",
            call.call_id.as_str(),
            " started. Output: ",
            path.as_str(),
        );
        let message = Outbound::Tool(respond(call.call_id.as_str(), output, 0));
        Step::Start(
            Started {
                slug: call.slug,
                transcript: call.transcript,
                job_id: call.call_id,
                command: call.command,
                output_path: path,
                message,
            },
        )
    }

    fn read_job(self, call_id: String, job_id: String, path: String) -> (r: Step)
        ensures
            r@ == reading(self@, call_id@, job_id@, path@),
    {
        Step::Do(
            Call { host: self, running: Running::JobRead { call_id, job_id, path: path.clone() } },
            Effect::ReadText { path },
        )
    }

    fn on_job_exists(
        self,
        slug: String,
        call_id: String,
        job_id: String,
        found: Result<bool, String>,
    ) -> (r: Step)
        ensures
            r@ == on_job_exists(self@, slug@, call_id@, job_id@, found),
    {
        match found {
            Err(e) => say(
                call_id.as_str(),
                cat4("failed to find job ", job_id.as_str(), ": ", e.as_str()),
                1,
            ),
            Ok(true) => {
                let path = running_job_path(
                    self.home.as_str(),
                    slug.as_str(),
                    self.identity.as_str(),
                    job_id.as_str(),
                );
                self.read_job(call_id, job_id, path)
            },
            Ok(false) => {
                let path = job_dir(self.home.as_str(), slug.as_str(), self.identity.as_str());
                Step::Do(
                    Call { host: self, running: Running::JobList { slug, call_id, job_id } },
                    Effect::List { path },
                )
            },
        }
    }

    fn on_job_list(
        self,
        slug: String,
        call_id: String,
        job_id: String,
        names: Result<Vec<Result<Option<String>, String>>, String>,
    ) -> (r: Step)
        ensures
            r@ == on_job_list(self@, slug@, call_id@, job_id@, names),
    {
        let found = match names {
            Err(e) => Err(e),
            Ok(names) => find_output(job_id.as_str(), &names),
        };
        match found {
            Err(e) => say(
                call_id.as_str(),
                cat4("failed to find job ", job_id.as_str(), ": ", e.as_str()),
                1,
            ),
            Ok(None) => say(
                call_id.as_str(),
                cat4("job ", job_id.as_str(), " not found on ", self.identity.as_str()),
                1,
            ),
            Ok(Some(name)) => {
                let directory = job_dir(
                    self.home.as_str(),
                    slug.as_str(),
                    self.identity.as_str(),
                );
                let path = join(directory.as_str(), name.as_str());
                self.read_job(call_id, job_id, path)
            },
        }
    }

    fn on_patch_parse(
        self,
        slug: String,
        call_id: String,
        config: Option<String>,
        paths: Result<Vec<String>, String>,
    ) -> (r: Step)
        ensures
            r@ == on_patch_parse(self@, slug@, call_id@, maybe(config), paths),
    {
        let paths = match paths {
            Err(e) => {
                return say(call_id.as_str(), cat2("patch parse error: ", e.as_str()), 1);
            },
            Ok(paths) => paths,
        };
        let content: Option<&str> = match &config {
            Some(text) => Some(text.as_str()),
            None => None,
        };
        let sandbox = read_sandbox_config(self.home.as_str(), slug.as_str(), content);
        match find_denied(self.directory.as_str(), &paths, &sandbox.writable) {
            Some(path) => say(
                call_id.as_str(),
                cat3("patch denied: ", path.as_str(), " is not inside a writable root"),
                1,
            ),
            None => Step::Do(
                Call { host: self, running: Running::PatchApply { call_id } },
                Effect::ApplyPatch,
            ),
        }
    }

    fn on_pdf_read(self, call_id: String, path: String, bytes: Result<Vec<u8>, String>) -> (r: Step)
        ensures
            r@ == on_pdf_read(self@, call_id@, path@, bytes),
    {
        let bytes = match bytes {
            Err(e) => return say(call_id.as_str(), cat2("cannot read PDF: ", e.as_str()), 1),
            Ok(bytes) => bytes,
        };
        match check_pdf(path.as_str(), &bytes) {
            Some(problem) => say(call_id.as_str(), problem, 1),
            None => Step::Do(
                Call {
                    host: self,
                    running: Running::PdfCount { call_id, path: path.clone(), bytes },
                },
                Effect::CountPages { path },
            ),
        }
    }

    fn on_shell_directory(
        self,
        slug: String,
        transcript: String,
        id: String,
        command: String,
        done: Result<(), String>,
    ) -> (r: Step)
        ensures
            r@ == on_shell_directory(self@, slug@, transcript@, id@, command@, done),
    {
        if let Err(e) = done {
            return say_shell(
                id,
                slug,
                transcript,
                cat2("failed to create pane directory: ", e.as_str()),
                1,
            );
        }
        let directory = pane_dir(self.home.as_str(), slug.as_str());
        let invocation = build_command(command.as_str());
        Step::Do(
            Call { host: self, running: Running::ShellRun { slug, transcript, id } },
            Effect::Run { invocation, directory },
        )
    }
}

fn on_zsh_output_done(host: Host, call: ZshCall, done: Result<(), String>) -> (r: Step)
    ensures
        r@ == on_zsh_output(host@, call@, done),
{
    match done {
        Err(e) => say(
            call.call_id.as_str(),
            cat2("failed to create output file: ", e.as_str()),
            1,
        ),
        Ok(()) => host.prepare(call),
    }
}

fn on_zsh_ran(call_id: String, run: Result<Finished, String>) -> (r: Step)
    ensures
        r@ == on_zsh_run(call_id@, run),
{
    match run {
        Ok(f) => say(call_id.as_str(), combined_output(&f), exit_code(f.code)),
        Err(e) => say(call_id.as_str(), cat2("failed to execute: ", e.as_str()), 1),
    }
}

fn on_shell_ran(slug: String, transcript: String, id: String, run: Result<Finished, String>) -> (r:
    Step)
    ensures
        r@ == on_shell_run(slug@, transcript@, id@, run),
{
    match run {
        Ok(f) => {
            let output = combined_output(&f);
            say_shell(id, slug, transcript, output, exit_code(f.code))
        },
        Err(e) => {
            say_shell(id, slug, transcript, cat2("failed to execute: ", e.as_str()), 1)
        },
    }
}

fn on_job_text(call_id: String, job_id: String, path: String, text: Result<String, String>) -> (r:
    Step)
    ensures
        r@ == on_job_read(call_id@, job_id@, path@, text),
{
    match text {
        Ok(output) => {
            let mut said = cat5("job ", job_id.as_str(), " output at ", path.as_str(), "\n\n");
            said.append(output.as_str());
            say(call_id.as_str(), said, 0)
        },
        Err(e) => say(
            call_id.as_str(),
            cat4("failed to read job ", job_id.as_str(), ": ", e.as_str()),
            1,
        ),
    }
}

fn on_image_bytes(call_id: String, path: String, bytes: Result<Vec<u8>, String>) -> (r: Step)
    ensures
        r@ == on_image_read(call_id@, path@, bytes),
{
    match bytes {
        Err(e) => say(call_id.as_str(), cat2("cannot read image: ", e.as_str()), 1),
        Ok(bytes) => Step::Say(
            Outbound::Tool(show_image(call_id.as_str(), path.as_str(), &bytes)),
        ),
    }
}

impl Call {
    /// Starts a task.
    pub fn start(host: Host, task: Task) -> (r: Step)
        ensures
            r@ == begun(host@, task@),
    {
        match task {
            Task::Zsh { slug, transcript, call_id, command, sandboxed, background } => {
                let path = pane_dir(host.home.as_str(), slug.as_str());
                let call = ZshCall { slug, transcript, call_id, command, sandboxed, background };
                Step::Do(
                    Call { host, running: Running::ZshDirectory { call } },
                    Effect::MakeDirectory { path },
                )
            },
            Task::Shell { slug, transcript, id, command } => {
                let path = pane_dir(host.home.as_str(), slug.as_str());
                Step::Do(
                    Call {
                        host,
                        running: Running::ShellDirectory { slug, transcript, id, command },
                    },
                    Effect::MakeDirectory { path },
                )
            },
            Task::Job { slug, call_id, job_id } => {
                let path = running_job_path(
                    host.home.as_str(),
                    slug.as_str(),
                    host.identity.as_str(),
                    job_id.as_str(),
                );
                Step::Do(
                    Call { host, running: Running::JobExists { slug, call_id, job_id } },
                    Effect::Exists { path },
                )
            },
            Task::ApplyPatch { slug, call_id, patch } => {
                let path = sandbox_file(host.home.as_str(), slug.as_str());
                Step::Do(
                    Call { host, running: Running::PatchConfig { slug, call_id, patch } },
                    Effect::ReadConfig { path },
                )
            },
            Task::ViewImage { call_id, path } => {
                let file = resolve_tool_path(host.directory.as_str(), path.as_str());
                Step::Do(
                    Call { host, running: Running::ImageRead { call_id, path: file.clone() } },
                    Effect::ReadBytes { path: file },
                )
            },
            Task::ReadPdf { call_id, path } => {
                let file = resolve_tool_path(host.directory.as_str(), path.as_str());
                Step::Do(
                    Call { host, running: Running::PdfRead { call_id, path: file.clone() } },
                    Effect::ReadBytes { path: file },
                )
            },
            Task::Jobs { slug, transcript, call_id } => {
                Step::Consult(Task::Jobs { slug, transcript, call_id })
            },
            Task::Kill { slug, transcript, call_id, job_id } => {
                Step::Consult(Task::Kill { slug, transcript, call_id, job_id })
            },
        }
    }

    fn caller(running: &Running) -> (r: String)
        ensures
            r@ == caller_of(running@),
    {
        match running {
            Running::ZshDirectory { call } => call.call_id.clone(),
            Running::ZshOutput { call } => call.call_id.clone(),
            Running::ZshConfig { call } => call.call_id.clone(),
            Running::ZshRun { call_id } => call_id.clone(),
            Running::ZshSpawn { call } => call.call_id.clone(),
            Running::ShellDirectory { id, .. } => id.clone(),
            Running::ShellRun { id, .. } => id.clone(),
            Running::JobExists { call_id, .. } => call_id.clone(),
            Running::JobList { call_id, .. } => call_id.clone(),
            Running::JobRead { call_id, .. } => call_id.clone(),
            Running::PatchConfig { call_id, .. } => call_id.clone(),
            Running::PatchParse { call_id, .. } => call_id.clone(),
            Running::PatchApply { call_id } => call_id.clone(),
            Running::ImageRead { call_id, .. } => call_id.clone(),
            Running::PdfRead { call_id, .. } => call_id.clone(),
            Running::PdfCount { call_id, .. } => call_id.clone(),
        }
    }

    /// Goes on with a call, now that its effect has taken place.
    pub fn advance(self, report: Report) -> (r: Step)
        ensures
            r@ == advanced(self.host@, self.running@, report),
    {
        let caller = Self::caller(&self.running);
        match (self.running, report) {
            (Running::ZshDirectory { call }, Report::Done(done)) => {
                self.host.on_zsh_directory(call, done)
            },
            (Running::ZshOutput { call }, Report::Done(done)) => {
                on_zsh_output_done(self.host, call, done)
            },
            (Running::ZshConfig { call }, Report::Config(config)) => {
                self.host.on_zsh_config(call, config)
            },
            (Running::ZshRun { call_id }, Report::Ran(run)) => on_zsh_ran(call_id, run),
            (Running::ZshSpawn { call }, Report::Done(done)) => self.host.on_zsh_spawn(call, done),
            (Running::ShellDirectory { slug, transcript, id, command }, Report::Done(done)) => {
                self.host.on_shell_directory(slug, transcript, id, command, done)
            },
            (Running::ShellRun { slug, transcript, id }, Report::Ran(run)) => {
                on_shell_ran(slug, transcript, id, run)
            },
            (Running::JobExists { slug, call_id, job_id }, Report::Exists(found)) => {
                self.host.on_job_exists(slug, call_id, job_id, found)
            },
            (Running::JobList { slug, call_id, job_id }, Report::Names(names)) => {
                self.host.on_job_list(slug, call_id, job_id, names)
            },
            (Running::JobRead { call_id, job_id, path }, Report::Text(text)) => {
                on_job_text(call_id, job_id, path, text)
            },
            (Running::PatchConfig { slug, call_id, patch }, Report::Config(config)) => Step::Do(
                Call {
                    host: self.host,
                    running: Running::PatchParse { slug, call_id, patch: patch.clone(), config },
                },
                Effect::ParsePatch { patch },
            ),
            (Running::PatchParse { slug, call_id, config, .. }, Report::Paths(paths)) => {
                self.host.on_patch_parse(slug, call_id, config, paths)
            },
            (Running::PatchApply { call_id }, Report::Patched(patched)) => {
                Step::Say(Outbound::Tool(answer_patch(call_id.as_str(), &patched)))
            },
            (Running::ImageRead { call_id, path }, Report::Bytes(bytes)) => {
                on_image_bytes(call_id, path, bytes)
            },
            (Running::PdfRead { call_id, path }, Report::Bytes(bytes)) => {
                self.host.on_pdf_read(call_id, path, bytes)
            },
            (Running::PdfCount { call_id, path, bytes }, Report::Ran(run)) => {
                let pages = pdf_page_count(&run);
                Step::Say(
                    Outbound::Tool(
                        answer_pdf(call_id.as_str(), path.as_str(), &bytes, pages),
                    ),
                )
            },
            _ => say(caller.as_str(), "the call does not wait for this report".to_owned(), 1),
        }
    }
}

} // verus!
