//! The messages between the executor and the router it connects to.

use vstd::prelude::*;

use crate::text::same_text;

verus! {

/// What a tool sends.
#[derive(Debug, PartialEq, Eq)]
pub enum ToolOutbound<S = String> {
    /// The result of a call.
    Response { call_id: S, output: S, exit_code: i32 },
    /// A line that a background job wrote.
    BackgroundOutput { job_id: S, output_path: S, line: S },
    /// A background job has exited.
    Notification { slug: S, transcript: S, message: S, meta: Option<S> },
}

impl View for ToolOutbound<String> {
    type V = ToolOutbound<Seq<char>>;

    open spec fn view(&self) -> ToolOutbound<Seq<char>> {
        match *self {
            ToolOutbound::Response { call_id, output, exit_code } => {
                ToolOutbound::Response { call_id: call_id@, output: output@, exit_code }
            },
            ToolOutbound::BackgroundOutput { job_id, output_path, line } => {
                ToolOutbound::BackgroundOutput { job_id: job_id@, output_path: output_path@, line: line@ }
            },
            ToolOutbound::Notification { slug, transcript, message, meta } => {
                ToolOutbound::Notification { slug: slug@, transcript: transcript@, message: message@, meta: match meta {
                    Some(v) => Some(v@),
                    None => None,
                } }
            },
        }
    }
}

/// What the executor sends while it is connected.
#[derive(Debug, PartialEq, Eq)]
pub enum Outbound<S = String> {
    /// A tool's message.
    Tool(ToolOutbound<S>),
    /// The result of an operator's command.
    Shell { id: S, slug: S, transcript: S, output: S, exit_code: i32 },
}

impl View for Outbound<String> {
    type V = Outbound<Seq<char>>;

    open spec fn view(&self) -> Outbound<Seq<char>> {
        match *self {
            Outbound::Tool(x) => Outbound::Tool(x@),
            Outbound::Shell { id, slug, transcript, output, exit_code } => {
                Outbound::Shell { id: id@, slug: slug@, transcript: transcript@, output: output@, exit_code }
            },
        }
    }
}

/// A call of a tool. Each names the host that it is for.
#[derive(Debug, PartialEq, Eq)]
pub enum ToolCall<S = String> {
    /// Run a command; `escalate` asks to run it without a sandbox.
    Zsh { command: S, place: S, run_in_background: bool, timeout: Option<u64>, escalate: bool },
    /// Apply a patch.
    ApplyPatch { patch: S, place: S },
    /// Show an image.
    ViewImage { path: S, place: S },
    /// Show a PDF.
    ReadPdf { path: S, place: S },
    /// Read the output of a background job.
    Job { job_id: S, place: S },
    /// List the running background jobs.
    Jobs { place: S },
    /// Kill a background job.
    Kill { job_id: S, place: S },
}

impl View for ToolCall<String> {
    type V = ToolCall<Seq<char>>;

    open spec fn view(&self) -> ToolCall<Seq<char>> {
        match *self {
            ToolCall::Zsh { command, place, run_in_background, timeout, escalate } => {
                ToolCall::Zsh { command: command@, place: place@, run_in_background, timeout, escalate }
            },
            ToolCall::ApplyPatch { patch, place } => {
                ToolCall::ApplyPatch { patch: patch@, place: place@ }
            },
            ToolCall::ViewImage { path, place } => {
                ToolCall::ViewImage { path: path@, place: place@ }
            },
            ToolCall::ReadPdf { path, place } => {
                ToolCall::ReadPdf { path: path@, place: place@ }
            },
            ToolCall::Job { job_id, place } => {
                ToolCall::Job { job_id: job_id@, place: place@ }
            },
            ToolCall::Jobs { place } => {
                ToolCall::Jobs { place: place@ }
            },
            ToolCall::Kill { job_id, place } => {
                ToolCall::Kill { job_id: job_id@, place: place@ }
            },
        }
    }
}

/// What the executor is sent.
#[derive(Debug, PartialEq, Eq)]
pub enum Inbound<S = String> {
    /// A call of a tool.
    Tool { slug: S, transcript: S, call_id: S, tool: ToolCall<S> },
    /// An operator's command.
    Shell { slug: S, transcript: S, id: S, command: S, place: S },
}

impl View for Inbound<String> {
    type V = Inbound<Seq<char>>;

    open spec fn view(&self) -> Inbound<Seq<char>> {
        match *self {
            Inbound::Tool { slug, transcript, call_id, tool } => {
                Inbound::Tool { slug: slug@, transcript: transcript@, call_id: call_id@, tool: tool@ }
            },
            Inbound::Shell { slug, transcript, id, command, place } => {
                Inbound::Shell { slug: slug@, transcript: transcript@, id: id@, command: command@, place: place@ }
            },
        }
    }
}

/// What the executor has to do.
#[derive(Debug, PartialEq, Eq)]
pub enum Task<S = String> {
    /// Run a command. A background job is known by its call.
    Zsh { slug: S, transcript: S, call_id: S, command: S, sandboxed: bool, background: bool },
    /// Apply a patch.
    ApplyPatch { slug: S, call_id: S, patch: S },
    /// Show an image.
    ViewImage { call_id: S, path: S },
    /// Show a PDF.
    ReadPdf { call_id: S, path: S },
    /// Read the output of a background job.
    Job { slug: S, call_id: S, job_id: S },
    /// List the running background jobs.
    Jobs { slug: S, transcript: S, call_id: S },
    /// Kill a background job.
    Kill { slug: S, transcript: S, call_id: S, job_id: S },
    /// Run an operator's command.
    Shell { slug: S, transcript: S, id: S, command: S },
}

impl View for Task<String> {
    type V = Task<Seq<char>>;

    open spec fn view(&self) -> Task<Seq<char>> {
        match *self {
            Task::Zsh { slug, transcript, call_id, command, sandboxed, background } => {
                Task::Zsh { slug: slug@, transcript: transcript@, call_id: call_id@, command: command@, sandboxed, background }
            },
            Task::ApplyPatch { slug, call_id, patch } => {
                Task::ApplyPatch { slug: slug@, call_id: call_id@, patch: patch@ }
            },
            Task::ViewImage { call_id, path } => {
                Task::ViewImage { call_id: call_id@, path: path@ }
            },
            Task::ReadPdf { call_id, path } => {
                Task::ReadPdf { call_id: call_id@, path: path@ }
            },
            Task::Job { slug, call_id, job_id } => {
                Task::Job { slug: slug@, call_id: call_id@, job_id: job_id@ }
            },
            Task::Jobs { slug, transcript, call_id } => {
                Task::Jobs { slug: slug@, transcript: transcript@, call_id: call_id@ }
            },
            Task::Kill { slug, transcript, call_id, job_id } => {
                Task::Kill { slug: slug@, transcript: transcript@, call_id: call_id@, job_id: job_id@ }
            },
            Task::Shell { slug, transcript, id, command } => {
                Task::Shell { slug: slug@, transcript: transcript@, id: id@, command: command@ }
            },
        }
    }
}

/// What kind of message a packet is.
#[derive(Clone, Copy, Debug, PartialEq, Eq, Structural)]
pub enum Channel {
    /// A call of a tool or an operator's command.
    Call,
    /// A screenshot command, which is kept out of the logs.
    Screenshot,
    /// Nothing for this executor.
    Ignored,
}

/// The kind of message that a packet's `what` announces.
pub open spec fn channel_of(what: Seq<char>) -> Channel {
    if what == "tool"@ || what == "shell"@ {
        Channel::Call
    } else if what == "screenshot_save"@ {
        Channel::Screenshot
    } else {
        Channel::Ignored
    }
}

/// Tells what kind of message a packet is by its `what`.
pub fn channel(what: &str) -> (r: Channel)
    ensures
        r == channel_of(what@),
{
    if same_text(what, "tool") || same_text(what, "shell") {
        Channel::Call
    } else if same_text(what, "screenshot_save") {
        Channel::Screenshot
    } else {
        Channel::Ignored
    }
}

/// The host that a call is for.
pub open spec fn place_of(tool: ToolCall<Seq<char>>) -> Seq<char> {
    match tool {
        ToolCall::Zsh { place, .. } => place,
        ToolCall::ApplyPatch { place, .. } => place,
        ToolCall::ViewImage { place, .. } => place,
        ToolCall::ReadPdf { place, .. } => place,
        ToolCall::Job { place, .. } => place,
        ToolCall::Jobs { place } => place,
        ToolCall::Kill { place, .. } => place,
    }
}

/// The host that a message is for.
pub open spec fn destination_of(message: Inbound<Seq<char>>) -> Seq<char> {
    match message {
        Inbound::Tool { tool, .. } => place_of(tool),
        Inbound::Shell { place, .. } => place,
    }
}

/// What a message asks for.
pub open spec fn task_of(message: Inbound<Seq<char>>) -> Task<Seq<char>> {
    match message {
        Inbound::Tool { slug, transcript, call_id, tool } => match tool {
            ToolCall::Zsh { command, run_in_background, escalate, .. } => Task::Zsh {
                slug,
                transcript,
                call_id,
                command,
                sandboxed: !escalate,
                background: run_in_background,
            },
            ToolCall::ApplyPatch { patch, .. } => Task::ApplyPatch { slug, call_id, patch },
            ToolCall::ViewImage { path, .. } => Task::ViewImage { call_id, path },
            ToolCall::ReadPdf { path, .. } => Task::ReadPdf { call_id, path },
            ToolCall::Job { job_id, .. } => Task::Job { slug, call_id, job_id },
            ToolCall::Jobs { .. } => Task::Jobs { slug, transcript, call_id },
            ToolCall::Kill { job_id, .. } => Task::Kill { slug, transcript, call_id, job_id },
        },
        Inbound::Shell { slug, transcript, id, command, .. } => {
            Task::Shell { slug, transcript, id, command }
        },
    }
}

/// What a host has to do about a message. A message for another host is none of
/// its business.
pub open spec fn routed(message: Inbound<Seq<char>>, host: Seq<char>) -> Option<Task<Seq<char>>> {
    if destination_of(message) == host {
        Some(task_of(message))
    } else {
        None
    }
}

fn is_for(message: &Inbound, host: &str) -> (r: bool)
    ensures
        r == (destination_of(message@) == host@),
{
    let place: &String = match message {
        Inbound::Shell { place, .. } => place,
        Inbound::Tool { tool, .. } => match tool {
            ToolCall::Zsh { place, .. } => place,
            ToolCall::ApplyPatch { place, .. } => place,
            ToolCall::ViewImage { place, .. } => place,
            ToolCall::ReadPdf { place, .. } => place,
            ToolCall::Job { place, .. } => place,
            ToolCall::Jobs { place } => place,
            ToolCall::Kill { place, .. } => place,
        },
    };
    same_text(place.as_str(), host)
}

/// Decides what a host has to do about a message.
pub fn route(message: Inbound, host: &str) -> (r: Option<Task>)
    ensures
        (match r {
            Some(task) => Some(task@),
            None => None,
        }) == routed(message@, host@),
{
    if !is_for(&message, host) {
        return None;
    }
    Some(
        match message {
            Inbound::Tool { slug, transcript, call_id, tool } => match tool {
                ToolCall::Zsh { command, run_in_background, escalate, .. } => Task::Zsh {
                    slug,
                    transcript,
                    call_id,
                    command,
                    sandboxed: !escalate,
                    background: run_in_background,
                },
                ToolCall::ApplyPatch { patch, .. } => Task::ApplyPatch { slug, call_id, patch },
                ToolCall::ViewImage { path, .. } => Task::ViewImage { call_id, path },
                ToolCall::ReadPdf { path, .. } => Task::ReadPdf { call_id, path },
                ToolCall::Job { job_id, .. } => Task::Job { slug, call_id, job_id },
                ToolCall::Jobs { .. } => Task::Jobs { slug, transcript, call_id },
                ToolCall::Kill { job_id, .. } => {
                    Task::Kill { slug, transcript, call_id, job_id }
                },
            },
            Inbound::Shell { slug, transcript, id, command, .. } => {
                Task::Shell { slug, transcript, id, command }
            },
        },
    )
}

/// A tool that is offered when the executor connects.
#[derive(Debug, PartialEq, Eq)]
pub struct ToolDef {
    pub f: String,
    pub description: String,
}

/// The names of the tools that are offered. The operator's shell is not among
/// them.
pub open spec fn tool_names() -> Seq<Seq<char>> {
    seq!["zsh"@, "apply_patch"@, "view_image"@, "read_pdf"@, "job"@, "jobs"@, "kill"@]
}

fn define(f: &str, description: &str) -> (r: ToolDef)
    ensures
        r.f@ == f@,
        r.description@ == description@,
{
    ToolDef { f: f.to_owned(), description: description.to_owned() }
}

/// What the tools that are offered do, in the words that they are offered with.
pub open spec fn tool_descriptions() -> Seq<Seq<char>> {
    seq![
        "Execute a command in a sandboxed Zsh shell. The command runs inside a deny-default sandbox with full read and restricted write. Args: command (string, required), where (string, required, the host identity e.g. \"localhost\"), run_in_background (bool, default false, returns immediately with a job ID and notifies on completion), timeout (int ms, optional), escalate (bool, default false, requests operator approval to run unsandboxed)."@,
        "Apply a structured diff patch to files. The patch format uses markers: *** Begin Patch, *** End Patch, *** Add File: <path>, *** Delete File: <path>, *** Update File: <path>. Update hunks use unified diff format with @@ line markers, context lines prefixed with space, removals with -, additions with +. Args: patch (string, required — the full patch text), where (string, required — the host identity)."@,
        "View an image file. Reads the file, resizes to fit within 1568px on the long edge if needed, and returns the image inline as a content block. Supports JPEG, PNG, GIF, WebP. Args: path (string, required — absolute or relative file path), where (string, required — the host identity)."@,
        "Read a PDF file and return it inline as an Anthropic document content block. This refuses PDFs over 20 pages; use a PDF utility to split or render a smaller page range first. Args: path (string, required — absolute or relative PDF path), where (string, required — the host identity)."@,
        "Read a background job's saved output from this host. Args: job_id (string, required — the background job ID returned by zsh), where (string, required — the host identity)."@,
        "List currently running background jobs for this slug and transcript on this host. Does not scan saved job files. Args: where (string, required — the host identity)."@,
        "Kill a currently running background job for this slug and transcript on this host. Args: job_id (string, required — the running background job ID), where (string, required — the host identity)."@,
    ]
}

/// The names of tools, as contracts see them.
pub open spec fn names_of(tools: Seq<ToolDef>) -> Seq<Seq<char>> {
    tools.map_values(|t: ToolDef| t.f@)
}

/// The descriptions of tools, as contracts see them.
pub open spec fn descriptions_of(tools: Seq<ToolDef>) -> Seq<Seq<char>> {
    tools.map_values(|t: ToolDef| t.description@)
}

/// The tools that are offered when the executor connects.
pub fn tools() -> (r: Vec<ToolDef>)
    ensures
        names_of(r@) == tool_names(),
        descriptions_of(r@) == tool_descriptions(),
{
    let r: Vec<ToolDef> = vec![
        define(
            "zsh",
            "Execute a command in a sandboxed Zsh shell. The command runs inside a deny-default sandbox with full read and restricted write. Args: command (string, required), where (string, required, the host identity e.g. \"localhost\"), run_in_background (bool, default false, returns immediately with a job ID and notifies on completion), timeout (int ms, optional), escalate (bool, default false, requests operator approval to run unsandboxed).",
        ),
        define(
            "apply_patch",
            "Apply a structured diff patch to files. The patch format uses markers: *** Begin Patch, *** End Patch, *** Add File: <path>, *** Delete File: <path>, *** Update File: <path>. Update hunks use unified diff format with @@ line markers, context lines prefixed with space, removals with -, additions with +. Args: patch (string, required — the full patch text), where (string, required — the host identity).",
        ),
        define(
            "view_image",
            "View an image file. Reads the file, resizes to fit within 1568px on the long edge if needed, and returns the image inline as a content block. Supports JPEG, PNG, GIF, WebP. Args: path (string, required — absolute or relative file path), where (string, required — the host identity).",
        ),
        define(
            "read_pdf",
            "Read a PDF file and return it inline as an Anthropic document content block. This refuses PDFs over 20 pages; use a PDF utility to split or render a smaller page range first. Args: path (string, required — absolute or relative PDF path), where (string, required — the host identity).",
        ),
        define(
            "job",
            "Read a background job's saved output from this host. Args: job_id (string, required — the background job ID returned by zsh), where (string, required — the host identity).",
        ),
        define(
            "jobs",
            "List currently running background jobs for this slug and transcript on this host. Does not scan saved job files. Args: where (string, required — the host identity).",
        ),
        define(
            "kill",
            "Kill a currently running background job for this slug and transcript on this host. Args: job_id (string, required — the running background job ID), where (string, required — the host identity).",
        ),
    ];
    assert(names_of(r@) =~= tool_names());
    assert(descriptions_of(r@) =~= tool_descriptions());
    r
}

/// The operator's shell is never offered as a tool.
pub proof fn the_shell_is_not_offered(i: int)
    requires
        0 <= i < tool_names().len(),
    ensures
        tool_names()[i] != "shell"@,
{
    reveal_strlit("shell");
    reveal_strlit("zsh");
    reveal_strlit("apply_patch");
    reveal_strlit("view_image");
    reveal_strlit("read_pdf");
    reveal_strlit("job");
    reveal_strlit("jobs");
    reveal_strlit("kill");
    assert("shell"@[0] == 's');
    assert("zsh"@[0] == 'z' && "apply_patch"@[0] == 'a' && "view_image"@[0] == 'v'
        && "read_pdf"@[0] == 'r' && "job"@[0] == 'j' && "jobs"@[0] == 'j' && "kill"@[0] == 'k');
}

} // verus!
