//! What the store asks of the file system, what it is told in return, and what
//! it waits for in between.
//!
//! The store never touches a file. An operation yields a [`Step`]: either an
//! [`Action`] to perform, whose [`Event`] is handed back to the store, or the
//! operation's result. Whoever performs the actions keeps three things open:
//! for each transfer its staging file and that file's directory; the directory
//! of the latest survey; and the files of the latest evidence.

use vstd::prelude::*;

use crate::error::Error;
use crate::facts::{EvidenceFacts, FileFacts, Removal, StageFacts};
use crate::model::{
    Attempt, Identity, Intent, OperationId, Receipt, Receiving, Status, Ticket, TicketView,
    VerifiedPng,
};
use crate::policy::ParentFacts;

verus! {

/// What an operation answers with once the record that it concerns is settled.
#[derive(Clone, Copy, Debug, PartialEq, Eq, Structural)]
pub enum After {
    /// The status that a lookup found.
    Found,
    /// A status.
    Status,
    /// That a record was recovered.
    Recovered,
}

/// What a survey of a destination's directory is for.
#[derive(Debug)]
pub enum Goal<S = String> {
    /// To create the staging file of a new transfer.
    Begin { key: S, operation: OperationId<S>, attempt: Attempt<S>, intent: Intent<S> },
    /// To accept a transfer whose bytes are verified.
    Accept { key: S, verified: VerifiedPng<S> },
    /// To publish an accepted operation.
    Publish { key: S },
    /// To look for evidence that an accepted operation was published.
    Reconcile { key: S, after: After },
    /// To remove the staging file of an operation that has ended.
    Cleanup { key: S, after: After },
}

impl View for Goal<String> {
    type V = Goal<Seq<char>>;

    open spec fn view(&self) -> Goal<Seq<char>> {
        match *self {
            Goal::Begin { key, operation, attempt, intent } => {
                Goal::Begin { key: key@, operation: operation@, attempt: attempt@, intent: intent@ }
            },
            Goal::Accept { key, verified } => {
                Goal::Accept { key: key@, verified: verified@ }
            },
            Goal::Publish { key } => {
                Goal::Publish { key: key@ }
            },
            Goal::Reconcile { key, after } => {
                Goal::Reconcile { key: key@, after }
            },
            Goal::Cleanup { key, after } => {
                Goal::Cleanup { key: key@, after }
            },
        }
    }
}

/// What the store waits for.
#[derive(Debug)]
pub enum Pending<S = String, T = Ticket, B = Vec<u8>> {
    /// Nothing: no operation is under way.
    Idle,
    /// The length of a staging file, to report it.
    Length { ticket: T, after: After },
    /// The state of a staging file, to append a chunk.
    AppendInspect { key: S, offset: u64, bytes: B },
    /// The writing of a chunk.
    AppendWrite { end: u64 },
    /// The state of a staging file, to start it anew.
    ReplaceInspect { key: S, attempt: Attempt<S> },
    /// The truncation of a staging file.
    ReplaceTruncate { key: S, attempt: Attempt<S> },
    /// A survey of a destination's directory.
    Survey(Goal<S>),
    /// Random bytes, to name a staging file.
    BeginRandom {
        key: S,
        operation: OperationId<S>,
        attempt: Attempt<S>,
        intent: Intent<S>,
        destination: S,
    },
    /// The creation of a staging file.
    BeginCreate {
        key: S,
        operation: OperationId<S>,
        attempt: Attempt<S>,
        intent: Intent<S>,
        destination: S,
        stage_name: S,
    },
    /// The bytes of a staging file, to verify them.
    FinishRead { key: S },
    /// The state of a staging file, to accept it.
    FinishInspect { key: S, verified: VerifiedPng<S>, destination: S, parent: Identity },
    /// The synchronization of a staging file and its directory.
    FinishSync {
        key: S,
        verified: VerifiedPng<S>,
        destination: S,
        parent: Identity,
        stage: Identity,
    },
    /// The journaling of an acceptance.
    AcceptJournal { key: S },
    /// The state of an accepted staging file, to publish it.
    PublishStage { key: S },
    /// The publication.
    PublishLink { key: S },
    /// The synchronization that makes a publication durable.
    PublishSync { key: S },
    /// Evidence of a publication.
    ReconcileEvidence { key: S, after: After },
    /// The synchronization of a published file.
    ReconcileStage { key: S, after: After },
    /// The synchronization that makes a proved publication durable.
    ReconcileParent { key: S, after: After },
    /// The journaling of a receipt.
    TerminalJournal { key: S, receipt: Receipt<S>, after: After },
    /// The state of a staging file, to remove it.
    CleanupStage { key: S, after: After },
    /// The removal of a staging file.
    CleanupUnlink { key: S, after: After },
    /// The state of an unaccepted staging file, to remove it.
    DiscardInspect { live: Receiving<S, T>, ending: Option<Receipt<S>> },
    /// The removal of an unaccepted staging file.
    DiscardUnlink { live: Receiving<S, T>, ending: Option<Receipt<S>> },
}

/// What the store waits for, as contracts see it.
pub type PendingView = Pending<Seq<char>, TicketView, Seq<u8>>;

impl View for Pending<String, Ticket, Vec<u8>> {
    type V = PendingView;

    open spec fn view(&self) -> PendingView {
        match *self {
            Pending::Idle => Pending::Idle,
            Pending::Length { ticket, after } => {
                Pending::Length { ticket: ticket@, after }
            },
            Pending::AppendInspect { key, offset, bytes } => {
                Pending::AppendInspect { key: key@, offset, bytes: bytes@ }
            },
            Pending::AppendWrite { end } => {
                Pending::AppendWrite { end }
            },
            Pending::ReplaceInspect { key, attempt } => {
                Pending::ReplaceInspect { key: key@, attempt: attempt@ }
            },
            Pending::ReplaceTruncate { key, attempt } => {
                Pending::ReplaceTruncate { key: key@, attempt: attempt@ }
            },
            Pending::Survey(x) => Pending::Survey(x@),
            Pending::BeginRandom { key, operation, attempt, intent, destination } => {
                Pending::BeginRandom { key: key@, operation: operation@, attempt: attempt@, intent: intent@, destination: destination@ }
            },
            Pending::BeginCreate { key, operation, attempt, intent, destination, stage_name } => {
                Pending::BeginCreate { key: key@, operation: operation@, attempt: attempt@, intent: intent@, destination: destination@, stage_name: stage_name@ }
            },
            Pending::FinishRead { key } => {
                Pending::FinishRead { key: key@ }
            },
            Pending::FinishInspect { key, verified, destination, parent } => {
                Pending::FinishInspect { key: key@, verified: verified@, destination: destination@, parent }
            },
            Pending::FinishSync { key, verified, destination, parent, stage } => {
                Pending::FinishSync { key: key@, verified: verified@, destination: destination@, parent, stage }
            },
            Pending::AcceptJournal { key } => {
                Pending::AcceptJournal { key: key@ }
            },
            Pending::PublishStage { key } => {
                Pending::PublishStage { key: key@ }
            },
            Pending::PublishLink { key } => {
                Pending::PublishLink { key: key@ }
            },
            Pending::PublishSync { key } => {
                Pending::PublishSync { key: key@ }
            },
            Pending::ReconcileEvidence { key, after } => {
                Pending::ReconcileEvidence { key: key@, after }
            },
            Pending::ReconcileStage { key, after } => {
                Pending::ReconcileStage { key: key@, after }
            },
            Pending::ReconcileParent { key, after } => {
                Pending::ReconcileParent { key: key@, after }
            },
            Pending::TerminalJournal { key, receipt, after } => {
                Pending::TerminalJournal { key: key@, receipt: receipt@, after }
            },
            Pending::CleanupStage { key, after } => {
                Pending::CleanupStage { key: key@, after }
            },
            Pending::CleanupUnlink { key, after } => {
                Pending::CleanupUnlink { key: key@, after }
            },
            Pending::DiscardInspect { live, ending } => {
                Pending::DiscardInspect { live: live@, ending: match ending {
                Some(v) => Some(v@),
                None => None,
            } }
            },
            Pending::DiscardUnlink { live, ending } => {
                Pending::DiscardUnlink { live: live@, ending: match ending {
                Some(v) => Some(v@),
                None => None,
            } }
            },
        }
    }
}

/// Something to do in the file system. Names are single components.
#[derive(Debug, PartialEq, Eq)]
pub enum Action<S = String, B = Vec<u8>> {
    /// Read the slug's sandbox configuration, resolve the destination's directory
    /// and the slug's writable roots, and open the directory component by
    /// component without following links. It becomes the surveyed directory.
    /// Answered by [`Event::Survey`].
    Survey { slug: S, destination: S },
    /// Draw sixteen random bytes. Answered by [`Event::Random`].
    Random,
    /// Create a file that must not exist in the surveyed directory, and hold it and
    /// the directory for the transfer. Answered by [`Event::Effect`].
    CreateStage { key: S, name: S },
    /// Measure the transfer's staging file. Answered by [`Event::Length`].
    Length { key: S },
    /// Look at the transfer's staging file, by name and as held. Answered by
    /// [`Event::Stage`].
    Inspect { key: S, name: S },
    /// Write bytes at the end of the transfer's staging file. Answered by
    /// [`Event::Effect`].
    Append { key: S, bytes: B },
    /// Empty the transfer's staging file. Answered by [`Event::Effect`].
    Truncate { key: S },
    /// Look at the transfer's staging file and read it from its start, one byte
    /// more than the limit at most. Answered by [`Event::Contents`].
    Read { key: S, name: S, limit: u64 },
    /// Synchronize the transfer's staging file, then the surveyed directory.
    /// Answered by [`Event::Effect`].
    Sync { key: S },
    /// Write a text to a new file `<key>.new` in the journal, synchronize it,
    /// rename it to `<key>.json` and synchronize the journal. Answered by
    /// [`Event::Effect`].
    WriteJournal { key: S, text: S },
    /// Look at a file of the surveyed directory. Answered by [`Event::File`].
    OpenStage { name: S },
    /// Give a file of the surveyed directory a second name, which must not exist.
    /// Answered by [`Event::Effect`].
    Link { from: S, to: S },
    /// Synchronize the surveyed directory. Answered by [`Event::Effect`].
    SyncParent,
    /// Look at two files of the surveyed directory and read the first, one byte
    /// more than the limit at most. Answered by [`Event::Evidence`].
    Evidence { stage: S, destination: S, limit: u64 },
    /// Synchronize the first file of the latest evidence. Answered by
    /// [`Event::Effect`].
    SyncEvidence,
    /// Remove a name from the surveyed directory, then synchronize it. Answered by
    /// [`Event::Removed`].
    Unlink { name: S },
    /// Remove a name from the directory held for the transfer, then synchronize
    /// it. Answered by [`Event::Removed`].
    Discard { key: S, name: S },
}

/// An action, as contracts see it.
pub type ActionView = Action<Seq<char>, Seq<u8>>;

impl View for Action<String, Vec<u8>> {
    type V = ActionView;

    open spec fn view(&self) -> ActionView {
        match *self {
            Action::Survey { slug, destination } => {
                Action::Survey { slug: slug@, destination: destination@ }
            },
            Action::Random => Action::Random,
            Action::CreateStage { key, name } => {
                Action::CreateStage { key: key@, name: name@ }
            },
            Action::Length { key } => {
                Action::Length { key: key@ }
            },
            Action::Inspect { key, name } => {
                Action::Inspect { key: key@, name: name@ }
            },
            Action::Append { key, bytes } => {
                Action::Append { key: key@, bytes: bytes@ }
            },
            Action::Truncate { key } => {
                Action::Truncate { key: key@ }
            },
            Action::Read { key, name, limit } => {
                Action::Read { key: key@, name: name@, limit }
            },
            Action::Sync { key } => {
                Action::Sync { key: key@ }
            },
            Action::WriteJournal { key, text } => {
                Action::WriteJournal { key: key@, text: text@ }
            },
            Action::OpenStage { name } => {
                Action::OpenStage { name: name@ }
            },
            Action::Link { from, to } => {
                Action::Link { from: from@, to: to@ }
            },
            Action::SyncParent => Action::SyncParent,
            Action::Evidence { stage, destination, limit } => {
                Action::Evidence { stage: stage@, destination: destination@, limit }
            },
            Action::SyncEvidence => Action::SyncEvidence,
            Action::Unlink { name } => {
                Action::Unlink { name: name@ }
            },
            Action::Discard { key, name } => {
                Action::Discard { key: key@, name: name@ }
            },
        }
    }
}

/// How an action went.
#[derive(Debug)]
pub enum Event {
    Survey(ParentFacts),
    Random(Result<[u8; 16], Error>),
    Length(Result<u64, Error>),
    Stage(StageFacts),
    /// The state of a staging file, and its bytes.
    Contents(StageFacts, Result<Vec<u8>, Error>),
    File(Result<FileFacts, Error>),
    Evidence(EvidenceFacts),
    Effect(Result<(), Error>),
    Removed(Removal),
}

/// The result of an operation that succeeded.
#[derive(Debug, PartialEq, Eq)]
pub enum Answer<S = String, T = Ticket> {
    /// What a lookup found.
    Found(Option<Status<S, T>>),
    /// Where an operation stands.
    Status(Status<S, T>),
    /// The authority over a restarted transfer.
    Ticket(T),
    /// A chunk was written; the transfer now ends at this offset.
    Written { end: u64 },
    /// A record was recovered, or a transfer discarded.
    Recovered,
}

/// An answer, as contracts see it.
pub type AnswerView = Answer<Seq<char>, TicketView>;

impl View for Answer<String, Ticket> {
    type V = AnswerView;

    open spec fn view(&self) -> AnswerView {
        match *self {
            Answer::Found(x) => Answer::Found(match x {
                Some(v) => Some(v@),
                None => None,
            }),
            Answer::Status(x) => Answer::Status(x@),
            Answer::Ticket(x) => Answer::Ticket(x@),
            Answer::Written { end } => {
                Answer::Written { end }
            },
            Answer::Recovered => Answer::Recovered,
        }
    }
}

/// What an operation comes to: an action to perform first, or its result.
#[derive(Debug)]
pub enum Step<S = String, T = Ticket, B = Vec<u8>> {
    Act(Action<S, B>),
    Done(Result<Answer<S, T>, Error<S>>),
}

/// A step, as contracts see it.
pub type StepView = Step<Seq<char>, TicketView, Seq<u8>>;

impl View for Step<String, Ticket, Vec<u8>> {
    type V = StepView;

    open spec fn view(&self) -> StepView {
        match *self {
            Step::Act(action) => Step::Act(action@),
            Step::Done(Ok(answer)) => Step::Done(Ok(answer@)),
            Step::Done(Err(error)) => Step::Done(Err(error@)),
        }
    }
}

} // verus!
