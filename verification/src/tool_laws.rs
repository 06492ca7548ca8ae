//! What holds of calls, whatever they meet with.

use vstd::prelude::*;

use crate::location::pane_of;
use crate::message::{destination_of, routed, Inbound, Outbound, Task, ToolCall, ToolOutbound};
use crate::patch::{is_writable, patches_stay_within_the_roots};
use crate::path::joined;
use crate::sandbox::{added_environment, roots, sandboxed, InvocationView};
use crate::text::texts;
use crate::tool::{
    advanced, caller_of, maybe, EffectView, Host, Report, Running, RunningView, StepView, ZshCall,
};

verus! {

/// A message for another host is none of this host's business.
pub proof fn other_hosts_are_left_alone(message: Inbound<Seq<char>>, host: Seq<char>)
    ensures
        routed(message, host) is Some <==> destination_of(message) == host,
{
}

/// A command leaves the sandbox only where the call asks for that.
pub proof fn only_escalation_leaves_the_sandbox(message: Inbound<Seq<char>>, host: Seq<char>)
    ensures
        routed(message, host) matches Some(Task::Zsh { sandboxed, .. }) ==> {
            &&& message matches Inbound::Tool { tool, .. }
            &&& tool matches ToolCall::Zsh { escalate, .. }
            &&& sandboxed == !escalate
        },
{
}

/// The command that a call is about to run.
pub open spec fn zsh_of(running: RunningView) -> Option<ZshCall<Seq<char>>> {
    match running {
        Running::ZshDirectory { call } => Some(call),
        Running::ZshOutput { call } => Some(call),
        Running::ZshConfig { call } => Some(call),
        Running::ZshSpawn { call } => Some(call),
        _ => None,
    }
}

/// The program that an effect runs.
pub open spec fn program_of(effect: EffectView) -> Option<InvocationView> {
    match effect {
        EffectView::Run { invocation, .. } => Some(invocation),
        EffectView::Spawn { invocation, .. } => Some(invocation),
        _ => None,
    }
}

/// A sandboxed command is run in the host's sandbox, with the roots that its
/// slug's configuration lists, and in no other way.
pub proof fn sandboxed_commands_run_in_the_sandbox(
    host: Host<Seq<char>>,
    running: RunningView,
    report: Report,
    call: ZshCall<Seq<char>>,
    invocation: InvocationView,
)
    requires
        zsh_of(running) == Some(call),
        call.sandboxed,
        advanced(host, running, report) matches StepView::Do(_, _, effect) && program_of(effect)
            == Some(invocation),
    ensures
        report matches Report::Config(config) && invocation == sandboxed(
            host.sandbox,
            call.command,
            roots(host.home, call.slug, maybe(config)),
            host.temporary,
        ),
{
}

/// The slug that a call works for.
pub open spec fn slug_of(running: RunningView) -> Seq<char> {
    match running {
        Running::ShellDirectory { slug, .. } => slug,
        _ => zsh_of(running)->Some_0.slug,
    }
}

/// Every command, the operator's too, runs in its slug's directory and is told
/// that it runs under this executor.
pub proof fn commands_run_under_the_executor(
    host: Host<Seq<char>>,
    running: RunningView,
    report: Report,
    effect: EffectView,
)
    requires
        advanced(host, running, report) matches StepView::Do(_, _, e) && e == effect,
        program_of(effect) is Some,
    ensures
        program_of(effect)->Some_0.environment == added_environment(),
        match effect {
            EffectView::Run { directory, .. } => directory == pane_of(host.home, slug_of(running)),
            EffectView::Spawn { directory, .. } => {
                directory == pane_of(host.home, slug_of(running))
            },
            _ => false,
        },
{
}

/// A patch is applied only where every path that it touches is inside one of
/// the roots that its slug may write to; else nothing of it is.
pub proof fn patches_are_applied_whole_or_not_at_all(
    host: Host<Seq<char>>,
    running: RunningView,
    report: Report,
    i: int,
)
    requires
        advanced(host, running, report) matches StepView::Do(_, _, effect) && effect
            is ApplyPatch,
        report matches Report::Paths(Ok(paths)) ==> 0 <= i < paths@.len(),
    ensures
        ({
            &&& running matches Running::PatchParse { slug, config, .. }
            &&& report matches Report::Paths(Ok(paths))
            &&& is_writable(
                joined(host.directory, paths@[i]@),
                roots(host.home, slug, config),
            )
        }),
{
    match (running, report) {
        (Running::PatchParse { slug, config, .. }, Report::Paths(Ok(paths))) => {
            patches_stay_within_the_roots(
                host.directory,
                texts(paths@),
                roots(host.home, slug, config),
                0,
                i,
            );
        },
        _ => {},
    }
}

/// An upper bound for the number of effects that a call still takes.
pub open spec fn effects_left(running: RunningView) -> nat {
    match running {
        Running::ZshDirectory { .. } => 4,
        Running::ZshOutput { .. } => 3,
        Running::ZshConfig { .. } => 2,
        Running::ZshRun { .. } => 1,
        Running::ZshSpawn { .. } => 1,
        Running::ShellDirectory { .. } => 2,
        Running::ShellRun { .. } => 1,
        Running::JobExists { .. } => 3,
        Running::JobList { .. } => 2,
        Running::JobRead { .. } => 1,
        Running::PatchConfig { .. } => 3,
        Running::PatchParse { .. } => 2,
        Running::PatchApply { .. } => 1,
        Running::ImageRead { .. } => 1,
        Running::PdfRead { .. } => 2,
        Running::PdfCount { .. } => 1,
    }
}

/// Who an answer is for.
pub open spec fn addressee(message: Outbound<Seq<char>>) -> Option<Seq<char>> {
    match message {
        Outbound::Tool(ToolOutbound::Response { call_id, .. }) => Some(call_id),
        Outbound::Tool(_) => None,
        Outbound::Shell { id, .. } => Some(id),
    }
}

/// Every call ends: each report brings it closer to its answer, and the answer
/// goes to its caller.
pub proof fn every_call_is_answered(host: Host<Seq<char>>, running: RunningView, report: Report)
    ensures
        match advanced(host, running, report) {
            StepView::Do(same, next, _) => {
                &&& same == host
                &&& caller_of(next) == caller_of(running)
                &&& effects_left(next) < effects_left(running)
            },
            StepView::Say(message) => addressee(message) == Some(caller_of(running)),
            StepView::Start(started) => {
                &&& started.job_id == caller_of(running)
                &&& addressee(started.message) == Some(caller_of(running))
            },
            StepView::Consult(_) => false,
        },
{
}

} // verus!
