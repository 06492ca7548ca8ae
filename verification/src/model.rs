//! The vocabulary of the screenshot store: what an operation is, what it asks
//! for, and what became of it. Each type has a text parameter, which is
//! `String` in the program; contracts use the same types over character
//! sequences.

use vstd::prelude::*;

use crate::path::{is_same_path, same_path};
use crate::text::same_text;

verus! {

/// The largest PNG, in bytes.
pub const MAX_PNG_BYTES: u64 = 33_554_432;

/// The largest chunk of a transfer, in bytes.
pub const MAX_CHUNK_BYTES: usize = 65_536;

/// The number of transfers that may be received at one time.
pub const MAX_TRANSFERS: usize = 4;

/// The number of bytes that all received transfers together may announce.
pub const MAX_RECEIVING_BYTES: u64 = 67_108_864;

/// The largest width and the largest height of an image, in pixels.
pub const MAX_DIMENSION: u32 = 32_768;

/// The largest number of pixels of an image.
pub const MAX_PIXELS: u64 = 33_554_432;

/// An optional text as contracts see it.
pub open spec fn optional_text(v: Option<String>) -> Option<Seq<char>> {
    match v {
        Some(s) => Some(s@),
        None => None,
    }
}

/// Which part of a page a capture shows.
#[derive(Clone, Copy, Debug, PartialEq, Eq, Structural)]
pub enum CaptureMode {
    Viewport,
    FullPage,
}

/// A file's identity on this machine.
#[derive(Clone, Copy, Debug, PartialEq, Eq, Structural)]
pub struct Identity {
    pub device: u64,
    pub inode: u64,
}

/// Identity supplied by the trusted caller or router, never copied from a
/// chunk. An operation identifier is scoped by its slug; another caller under
/// the same identifier conflicts.
#[derive(Debug, PartialEq, Eq)]
pub struct OperationId<S = String> {
    pub slug: S,
    pub caller: S,
    pub operation_id: S,
}

impl View for OperationId<String> {
    type V = OperationId<Seq<char>>;

    open spec fn view(&self) -> OperationId<Seq<char>> {
        OperationId {
            slug: self.slug@,
            caller: self.caller@,
            operation_id: self.operation_id@,
        }
    }
}

impl Clone for OperationId<String> {
    fn clone(&self) -> (r: Self)
        ensures
            r == *self,
    {
        OperationId {
            slug: self.slug.clone(),
            caller: self.caller.clone(),
            operation_id: self.operation_id.clone(),
        }
    }
}

/// One attempt at an operation.
#[derive(Debug, PartialEq, Eq)]
pub struct Attempt<S = String> {
    pub call_id: S,
    pub attempt_id: S,
}

impl View for Attempt<String> {
    type V = Attempt<Seq<char>>;

    open spec fn view(&self) -> Attempt<Seq<char>> {
        Attempt {
            call_id: self.call_id@,
            attempt_id: self.attempt_id@,
        }
    }
}

impl Clone for Attempt<String> {
    fn clone(&self) -> (r: Self)
        ensures
            r == *self,
    {
        Attempt {
            call_id: self.call_id.clone(),
            attempt_id: self.attempt_id.clone(),
        }
    }
}

/// What a sender announces about a capture. Only the byte count and the digest
/// are verified; the rest are claims.
#[derive(Debug, PartialEq, Eq)]
pub struct Intent<S = String> {
    /// The file to publish, as the sender names it.
    pub destination: S,
    pub bytes: u64,
    pub sha256: S,
    pub mode: CaptureMode,
    pub source_url: S,
    pub captured_at: S,
}

impl View for Intent<String> {
    type V = Intent<Seq<char>>;

    open spec fn view(&self) -> Intent<Seq<char>> {
        Intent {
            destination: self.destination@,
            bytes: self.bytes,
            sha256: self.sha256@,
            mode: self.mode,
            source_url: self.source_url@,
            captured_at: self.captured_at@,
        }
    }
}

impl Clone for Intent<String> {
    fn clone(&self) -> (r: Self)
        ensures
            r == *self,
    {
        Intent {
            destination: self.destination.clone(),
            bytes: self.bytes,
            sha256: self.sha256.clone(),
            mode: self.mode,
            source_url: self.source_url.clone(),
            captured_at: self.captured_at.clone(),
        }
    }
}

/// What was verified of the received bytes.
#[derive(Debug, PartialEq, Eq)]
pub struct VerifiedPng<S = String> {
    pub mime_type: S,
    pub bytes: u64,
    pub sha256: S,
    pub pixel_width: u32,
    pub pixel_height: u32,
}

impl View for VerifiedPng<String> {
    type V = VerifiedPng<Seq<char>>;

    open spec fn view(&self) -> VerifiedPng<Seq<char>> {
        VerifiedPng {
            mime_type: self.mime_type@,
            bytes: self.bytes,
            sha256: self.sha256@,
            pixel_width: self.pixel_width,
            pixel_height: self.pixel_height,
        }
    }
}

impl Clone for VerifiedPng<String> {
    fn clone(&self) -> (r: Self)
        ensures
            r == *self,
    {
        VerifiedPng {
            mime_type: self.mime_type.clone(),
            bytes: self.bytes,
            sha256: self.sha256.clone(),
            pixel_width: self.pixel_width,
            pixel_height: self.pixel_height,
        }
    }
}

/// What became of an operation.
#[derive(Debug, PartialEq, Eq)]
pub enum Outcome<S = String> {
    /// Published, and the publication is durable.
    Stored,
    /// Published; the directory could not be synchronized.
    PublishedDurabilityUnconfirmed { reason: S },
    /// Nothing was published.
    Failed { action: S, reason: S },
    /// Cancelled before it was accepted.
    Aborted,
}

impl View for Outcome<String> {
    type V = Outcome<Seq<char>>;

    open spec fn view(&self) -> Outcome<Seq<char>> {
        match *self {
            Outcome::Stored => Outcome::Stored,
            Outcome::PublishedDurabilityUnconfirmed { reason } => {
                Outcome::PublishedDurabilityUnconfirmed { reason: reason@ }
            },
            Outcome::Failed { action, reason } => {
                Outcome::Failed { action: action@, reason: reason@ }
            },
            Outcome::Aborted => Outcome::Aborted,
        }
    }
}

impl Clone for Outcome<String> {
    fn clone(&self) -> (r: Self)
        ensures
            r == *self,
    {
        match self {
            Outcome::Stored => Outcome::Stored,
            Outcome::PublishedDurabilityUnconfirmed { reason } => {
                Outcome::PublishedDurabilityUnconfirmed { reason: reason.clone() }
            },
            Outcome::Failed { action, reason } => {
                Outcome::Failed { action: action.clone(), reason: reason.clone() }
            },
            Outcome::Aborted => Outcome::Aborted,
        }
    }
}

/// The outcome of an operation, with everything that it answers for.
#[derive(Debug, PartialEq, Eq)]
pub struct Receipt<S = String> {
    pub operation: OperationId<S>,
    pub attempt: Attempt<S>,
    pub event_id: S,
    pub requested: Intent<S>,
    /// The file, as the file system names it.
    pub destination: S,
    pub verified: Option<VerifiedPng<S>>,
    /// When the stage was ready, just before the acceptance was journaled. None
    /// for an outcome before acceptance, which only this process remembers.
    pub accepted_at: Option<S>,
    /// When the outcome was observed, possibly during recovery.
    pub observed_at: S,
    pub outcome: Outcome<S>,
}

impl View for Receipt<String> {
    type V = Receipt<Seq<char>>;

    open spec fn view(&self) -> Receipt<Seq<char>> {
        Receipt {
            operation: self.operation@,
            attempt: self.attempt@,
            event_id: self.event_id@,
            requested: self.requested@,
            destination: self.destination@,
            verified: match self.verified {
                Some(v) => Some(v@),
                None => None,
            },
            accepted_at: optional_text(self.accepted_at),
            observed_at: self.observed_at@,
            outcome: self.outcome@,
        }
    }
}

impl Clone for Receipt<String> {
    fn clone(&self) -> (r: Self)
        ensures
            r == *self,
    {
        Receipt {
            operation: self.operation.clone(),
            attempt: self.attempt.clone(),
            event_id: self.event_id.clone(),
            requested: self.requested.clone(),
            destination: self.destination.clone(),
            verified: match &self.verified {
                Some(v) => Some(v.clone()),
                None => None,
            },
            accepted_at: match &self.accepted_at {
                Some(v) => Some(v.clone()),
                None => None,
            },
            observed_at: self.observed_at.clone(),
            outcome: self.outcome.clone(),
        }
    }
}

/// The authority to write to one transfer. Only its store can make or read
/// one; a replacement or a reopened store makes earlier ones worthless.
#[derive(Debug, PartialEq, Eq)]
pub struct Ticket {
    key: String,
    owner: u64,
    generation: u64,
}

/// A ticket as contracts see it.
pub struct TicketView {
    /// The journal key of the operation.
    pub key: Seq<char>,
    /// The store that issued the ticket.
    pub owner: u64,
    /// The position of the ticket among those that the store issued.
    pub generation: u64,
}

impl View for Ticket {
    type V = TicketView;

    closed spec fn view(&self) -> TicketView {
        TicketView { key: self.key@, owner: self.owner, generation: self.generation }
    }
}

impl Clone for Ticket {
    fn clone(&self) -> (r: Self)
        ensures
            r == *self,
    {
        Ticket { key: self.key.clone(), owner: self.owner, generation: self.generation }
    }
}

impl Ticket {
    /// Makes a ticket.
    pub(crate) fn issue(key: &str, owner: u64, generation: u64) -> (r: Self)
        ensures
            r@ == (TicketView { key: key@, owner, generation }),
    {
        Ticket { key: key.to_owned(), owner, generation }
    }

    /// The journal key of the operation.
    pub(crate) fn key(&self) -> (r: &str)
        ensures
            r@ == self@.key,
    {
        self.key.as_str()
    }

    /// The store that issued the ticket.
    pub(crate) fn owner(&self) -> (r: u64)
        ensures
            r == self@.owner,
    {
        self.owner
    }

    /// The position of the ticket among those that the store issued.
    pub(crate) fn generation(&self) -> (r: u64)
        ensures
            r == self@.generation,
    {
        self.generation
    }

    /// Whether two tickets are the same authority.
    pub(crate) fn same(&self, other: &Ticket) -> (r: bool)
        ensures
            r == (self@ == other@),
    {
        same_text(self.key.as_str(), other.key.as_str()) && self.owner == other.owner
            && self.generation == other.generation
    }
}

/// Where an operation stands.
#[derive(Debug, PartialEq, Eq)]
pub enum Status<S = String, T = Ticket> {
    Receiving { ticket: T, received: u64 },
    Terminal(Box<Receipt<S>>),
    Unresolved {
        operation: OperationId<S>,
        destination: S,
        /// Some(true) only when this store saw its own link to the destination
        /// succeed, Some(false) when that was refused for good; None otherwise,
        /// as after a restart without sufficient evidence.
        published: Option<bool>,
        reason: S,
    },
}

/// A status as contracts see it.
pub type StatusView = Status<Seq<char>, TicketView>;

impl View for Status<String, Ticket> {
    type V = StatusView;

    open spec fn view(&self) -> StatusView {
        match *self {
            Status::Receiving { ticket, received } => {
                Status::Receiving { ticket: ticket@, received }
            },
            Status::Terminal(receipt) => Status::Terminal(Box::new(receipt@)),
            Status::Unresolved { operation, destination, published, reason } => {
                Status::Unresolved {
                    operation: operation@,
                    destination: destination@,
                    published,
                    reason: reason@,
                }
            },
        }
    }
}

impl Clone for Status<String, Ticket> {
    fn clone(&self) -> (r: Self)
        ensures
            r == *self,
    {
        match self {
            Status::Receiving { ticket, received } => {
                Status::Receiving { ticket: ticket.clone(), received: *received }
            },
            Status::Terminal(receipt) => {
                let copy: Receipt = (&**receipt).clone();
                Status::Terminal(Box::new(copy))
            },
            Status::Unresolved { operation, destination, published, reason } => {
                Status::Unresolved {
                    operation: operation.clone(),
                    destination: destination.clone(),
                    published: *published,
                    reason: reason.clone(),
                }
            },
        }
    }
}

/// An accepted operation, as the journal keeps it.
#[derive(Debug, PartialEq, Eq)]
pub struct Record<S = String> {
    pub version: u32,
    pub operation: OperationId<S>,
    pub attempt: Attempt<S>,
    pub intent: Intent<S>,
    pub destination: S,
    pub parent_identity: Identity,
    pub stage_name: S,
    pub stage_identity: Identity,
    pub verified: VerifiedPng<S>,
    pub accepted_at: S,
    pub terminal: Option<Receipt<S>>,
}

impl View for Record<String> {
    type V = Record<Seq<char>>;

    open spec fn view(&self) -> Record<Seq<char>> {
        Record {
            version: self.version,
            operation: self.operation@,
            attempt: self.attempt@,
            intent: self.intent@,
            destination: self.destination@,
            parent_identity: self.parent_identity,
            stage_name: self.stage_name@,
            stage_identity: self.stage_identity,
            verified: self.verified@,
            accepted_at: self.accepted_at@,
            terminal: match self.terminal {
                Some(v) => Some(v@),
                None => None,
            },
        }
    }
}

impl Clone for Record<String> {
    fn clone(&self) -> (r: Self)
        ensures
            r == *self,
    {
        Record {
            version: self.version,
            operation: self.operation.clone(),
            attempt: self.attempt.clone(),
            intent: self.intent.clone(),
            destination: self.destination.clone(),
            parent_identity: self.parent_identity,
            stage_name: self.stage_name.clone(),
            stage_identity: self.stage_identity,
            verified: self.verified.clone(),
            accepted_at: self.accepted_at.clone(),
            terminal: match &self.terminal {
                Some(v) => Some(v.clone()),
                None => None,
            },
        }
    }
}

/// A transfer that is being received. Its staging file and directory are held
/// open by whoever performs the store's actions.
#[derive(Debug, PartialEq, Eq)]
pub struct Receiving<S = String, T = Ticket> {
    pub operation: OperationId<S>,
    pub attempt: Attempt<S>,
    pub intent: Intent<S>,
    pub destination: S,
    pub stage_name: S,
    pub ticket: T,
}

impl View for Receiving<String, Ticket> {
    type V = Receiving<Seq<char>, TicketView>;

    open spec fn view(&self) -> Receiving<Seq<char>, TicketView> {
        Receiving {
            operation: self.operation@,
            attempt: self.attempt@,
            intent: self.intent@,
            destination: self.destination@,
            stage_name: self.stage_name@,
            ticket: self.ticket@,
        }
    }
}

impl Clone for Receiving<String, Ticket> {
    fn clone(&self) -> (r: Self)
        ensures
            r == *self,
    {
        Receiving {
            operation: self.operation.clone(),
            attempt: self.attempt.clone(),
            intent: self.intent.clone(),
            destination: self.destination.clone(),
            stage_name: self.stage_name.clone(),
            ticket: self.ticket.clone(),
        }
    }
}

/// A transfer as contracts see it.
pub type ReceivingView = Receiving<Seq<char>, TicketView>;

/// Whether two values of this type say the same.
pub(crate) fn operations_equal(a: &OperationId, b: &OperationId) -> (r: bool)
    ensures
        r == (a@ == b@),
{
    same_text(a.slug.as_str(), b.slug.as_str()) && same_text(a.caller.as_str(), b.caller.as_str())
        && same_text(a.operation_id.as_str(), b.operation_id.as_str())
}

/// Whether two values of this type say the same.
pub(crate) fn attempts_equal(a: &Attempt, b: &Attempt) -> (r: bool)
    ensures
        r == (a@ == b@),
{
    same_text(a.call_id.as_str(), b.call_id.as_str()) && same_text(
        a.attempt_id.as_str(),
        b.attempt_id.as_str(),
    )
}

/// Whether two intents say the same: their destinations may be spelled with more
/// or fewer slashes.
pub open spec fn is_same_intent(a: Intent<Seq<char>>, b: Intent<Seq<char>>) -> bool {
    &&& a == (Intent { destination: a.destination, ..b })
    &&& is_same_path(a.destination, b.destination)
}

/// Whether two values of this type say the same.
pub(crate) fn intents_equal(a: &Intent, b: &Intent) -> (r: bool)
    ensures
        r == is_same_intent(a@, b@),
{
    same_path(a.destination.as_str(), b.destination.as_str()) && a.bytes == b.bytes && same_text(
        a.sha256.as_str(),
        b.sha256.as_str(),
    ) && a.mode == b.mode && same_text(a.source_url.as_str(), b.source_url.as_str()) && same_text(
        a.captured_at.as_str(),
        b.captured_at.as_str(),
    )
}

/// Whether two values of this type say the same.
pub(crate) fn pngs_equal(a: &VerifiedPng, b: &VerifiedPng) -> (r: bool)
    ensures
        r == (a@ == b@),
{
    same_text(a.mime_type.as_str(), b.mime_type.as_str()) && a.bytes == b.bytes && same_text(
        a.sha256.as_str(),
        b.sha256.as_str(),
    ) && a.pixel_width == b.pixel_width && a.pixel_height == b.pixel_height
}

} // verus!
