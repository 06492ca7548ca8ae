//! The screenshot commands of the wire: their form, the answers to them, and
//! the one owner of the store and of its live tickets.
//!
//! Whoever routes the commands supplies the binding. Nothing that answers a
//! command quotes the data of a chunk or what a parser says of it.

use vstd::prelude::*;

use crate::identity::{is_id, valid_id};
use crate::model::{
    attempts_equal, operations_equal, optional_text, Attempt, Intent, OperationId, Outcome, Receipt,
    Status, StatusView,
};
use crate::observation::Observation;
use crate::text::{byte_count, byte_len, same_text};

verus! {

/// The longest command, in bytes.
pub const MAX_PACKET_BYTES: usize = 98_304;

/// The number of commands that may wait for the owner of the store.
pub const QUEUE_CAPACITY: usize = 8;

/// The longest text of a chunk, in bytes: what the largest chunk takes in
/// base64.
pub const MAX_DATA_BYTES: usize = 87_384;

/// Whom a command comes from: an operation, an attempt at it, and the sockets
/// that the attempt is bound to.
#[derive(Debug, PartialEq, Eq)]
pub struct Binding<S = String> {
    pub operation: OperationId<S>,
    pub attempt: Attempt<S>,
    pub source_socket: u64,
    pub writer_socket: u64,
}

impl View for Binding<String> {
    type V = Binding<Seq<char>>;

    open spec fn view(&self) -> Binding<Seq<char>> {
        Binding {
            operation: self.operation@,
            attempt: self.attempt@,
            source_socket: self.source_socket,
            writer_socket: self.writer_socket,
        }
    }
}

impl Clone for Binding<String> {
    fn clone(&self) -> (r: Self)
        ensures
            r == *self,
    {
        Binding {
            operation: self.operation.clone(),
            attempt: self.attempt.clone(),
            source_socket: self.source_socket,
            writer_socket: self.writer_socket,
        }
    }
}

pub(crate) fn bindings_equal(a: &Binding, b: &Binding) -> (r: bool)
    ensures
        r == (a@ == b@),
{
    operations_equal(&a.operation, &b.operation) && attempts_equal(&a.attempt, &b.attempt)
        && a.source_socket == b.source_socket && a.writer_socket == b.writer_socket
}

/// A command.
#[derive(Debug, PartialEq, Eq)]
pub struct Request<S = String> {
    pub what: S,
    pub why: S,
    pub binding: Binding<S>,
    pub sequence: u64,
    pub intent: Option<Intent<S>>,
    pub offset: Option<u64>,
    pub data: Option<S>,
}

impl View for Request<String> {
    type V = Request<Seq<char>>;

    open spec fn view(&self) -> Request<Seq<char>> {
        Request {
            what: self.what@,
            why: self.why@,
            binding: self.binding@,
            sequence: self.sequence,
            intent: match self.intent {
                Some(v) => Some(v@),
                None => None,
            },
            offset: self.offset,
            data: optional_text(self.data),
        }
    }
}

/// Whether a binding is one that commands may come from.
pub open spec fn is_bound(b: Binding<Seq<char>>) -> bool {
    &&& b.operation.caller == "shotgun"@
    &&& is_id(b.operation.slug)
    &&& is_id(b.operation.operation_id)
    &&& is_id(b.attempt.call_id)
    &&& is_id(b.attempt.attempt_id)
}

/// Whether a command has the fields that it needs, and no others.
pub open spec fn has_fields(r: Request<Seq<char>>) -> bool {
    if r.why == "begin"@ {
        r.intent is Some && r.offset is None && r.data is None
    } else if r.why == "chunk"@ {
        &&& r.intent is None
        &&& r.offset is Some
        &&& r.data matches Some(data)
        &&& byte_count(data) <= MAX_DATA_BYTES
    } else {
        &&& r.why == "finish"@ || r.why == "cancel"@ || r.why == "status"@
        &&& r.intent is None && r.offset is None && r.data is None
    }
}

/// The result of [`Request::check`]: the first rule that a command breaks.
pub open spec fn request_check(r: Request<Seq<char>>) -> Result<(), Seq<char>> {
    if r.what != "screenshot_save"@ || !is_bound(r.binding) {
        Err("invalid screenshot binding"@)
    } else if !has_fields(r) {
        Err("invalid screenshot command fields"@)
    } else {
        Ok(())
    }
}

/// The result of [`Request::parse`], given what the text was decoded to.
pub open spec fn parsed(text: Seq<char>, decoded: Option<Request<Seq<char>>>) -> Result<
    Request<Seq<char>>,
    Seq<char>,
> {
    if byte_count(text) > MAX_PACKET_BYTES {
        Err("screenshot packet exceeds limit"@)
    } else {
        match decoded {
            None => Err("invalid screenshot command"@),
            Some(request) => match request_check(request) {
                Err(why) => Err(why),
                Ok(()) => Ok(request),
            },
        }
    }
}

/// A parse result as contracts see it.
pub open spec fn command(r: Result<Request, &'static str>) -> Result<Request<Seq<char>>, Seq<char>> {
    match r {
        Ok(request) => Ok(request@),
        Err(why) => Err(why@),
    }
}

/// What a text was decoded to, as contracts see it.
pub open spec fn decoding(r: Option<Request>) -> Option<Request<Seq<char>>> {
    match r {
        Some(request) => Some(request@),
        None => None,
    }
}

impl Request<String> {
    /// Takes a command from a text. `decode` reads the text's JSON; it is not
    /// called for a text that is too long. The errors hold nothing of the text
    /// and nothing of what `decode` found wrong.
    pub fn parse<F: Fn(&str) -> Option<Request>>(text: &str, decode: F) -> (r: Result<
        Request,
        &'static str,
    >)
        requires
            call_requires(decode, (text,)),
        ensures
            byte_count(text@) > MAX_PACKET_BYTES ==> command(r) == parsed(text@, None),
            byte_count(text@) <= MAX_PACKET_BYTES ==> exists|decoded: Option<Request>|
                #![trigger call_ensures(decode, (text,), decoded)]
                call_ensures(decode, (text,), decoded) && command(r) == parsed(
                    text@,
                    decoding(decoded),
                ),
    {
        if byte_len(text) > MAX_PACKET_BYTES {
            return Err("screenshot packet exceeds limit");
        }
        let decoded = decode(text);
        Self::accept(text, decoded)
    }

    /// Takes a command from what a text was decoded to.
    pub fn accept(text: &str, decoded: Option<Request>) -> (r: Result<Request, &'static str>)
        ensures
            command(r) == parsed(text@, decoding(decoded)),
    {
        if byte_len(text) > MAX_PACKET_BYTES {
            return Err("screenshot packet exceeds limit");
        }
        match decoded {
            None => Err("invalid screenshot command"),
            Some(request) => {
                request.check()?;
                Ok(request)
            },
        }
    }

    /// Refuses a command whose binding or whose fields are not in order.
    pub fn check(&self) -> (r: Result<(), &'static str>)
        ensures
            (match r {
                Ok(()) => Ok(()),
                Err(why) => Err(why@),
            }) == request_check(self@),
    {
        let binding = &self.binding;
        if !same_text(self.what.as_str(), "screenshot_save") || !same_text(
            binding.operation.caller.as_str(),
            "shotgun",
        ) || !valid_id(binding.operation.slug.as_str()) || !valid_id(
            binding.operation.operation_id.as_str(),
        ) || !valid_id(binding.attempt.call_id.as_str()) || !valid_id(
            binding.attempt.attempt_id.as_str(),
        ) {
            return Err("invalid screenshot binding");
        }
        let why = self.why.as_str();
        let complete = if same_text(why, "begin") {
            self.intent.is_some() && self.offset.is_none() && self.data.is_none()
        } else if same_text(why, "chunk") {
            let fits = match &self.data {
                Some(data) => byte_len(data.as_str()) <= MAX_DATA_BYTES,
                None => false,
            };
            self.intent.is_none() && self.offset.is_some() && fits
        } else {
            (same_text(why, "finish") || same_text(why, "cancel") || same_text(why, "status"))
                && self.intent.is_none() && self.offset.is_none() && self.data.is_none()
        };
        if complete {
            Ok(())
        } else {
            Err("invalid screenshot command fields")
        }
    }

    /// Answers that no outcome can be told.
    pub fn unavailable(&self, reason: &str) -> (r: Reply)
        ensures
            r@ == unavailable(self@, reason@),
    {
        self.reply("unresolved", Some(reason), None)
    }

    pub(crate) fn reply(&self, why: &str, reason: Option<&str>, next_offset: Option<u64>) -> (r: Reply)
        ensures
            r@ == reply(
                self@,
                why@,
                match reason {
                    Some(s) => Some(s@),
                    None => None,
                },
                next_offset,
            ),
    {
        Reply {
            why: why.to_owned(),
            binding: self.binding.clone(),
            sequence: self.sequence,
            reason: match reason {
                Some(s) => Some(s.to_owned()),
                None => None,
            },
            next_offset,
            receipt: None,
        }
    }

    pub(crate) fn status_reply(&self, status: Status, receiving: &str) -> (r: Reply)
        ensures
            r@ == status_reply(self@, status@, receiving@),
    {
        match status {
            Status::Receiving { received, .. } => self.reply(receiving, None, Some(received)),
            Status::Unresolved { reason, .. } => {
                self.reply("unresolved", Some(reason.as_str()), None)
            },
            Status::Terminal(receipt) => {
                let receipt: Receipt = *receipt;
                let why = match &receipt.outcome {
                    Outcome::Stored => "stored",
                    Outcome::PublishedDurabilityUnconfirmed { .. } => "published",
                    Outcome::Failed { .. } => "failed",
                    Outcome::Aborted => "aborted",
                };
                let mut packet = self.reply(why, None, None);
                packet.receipt = Some(receipt);
                packet
            },
        }
    }
}

/// The answer to a command.
#[derive(Debug, PartialEq, Eq)]
pub struct Reply<S = String> {
    pub why: S,
    pub binding: Binding<S>,
    pub sequence: u64,
    pub reason: Option<S>,
    pub next_offset: Option<u64>,
    pub receipt: Option<Receipt<S>>,
}

impl View for Reply<String> {
    type V = Reply<Seq<char>>;

    open spec fn view(&self) -> Reply<Seq<char>> {
        Reply {
            why: self.why@,
            binding: self.binding@,
            sequence: self.sequence,
            reason: optional_text(self.reason),
            next_offset: self.next_offset,
            receipt: match self.receipt {
                Some(v) => Some(v@),
                None => None,
            },
        }
    }
}

/// An answer, with what was observed on the way to it.
#[derive(Debug, PartialEq, Eq)]
pub struct Completion {
    pub packet: Reply,
    pub observations: Vec<Observation>,
}

/// An answer to a command.
pub open spec fn reply(
    request: Request<Seq<char>>,
    why: Seq<char>,
    reason: Option<Seq<char>>,
    next_offset: Option<u64>,
) -> Reply<Seq<char>> {
    Reply {
        why,
        binding: request.binding,
        sequence: request.sequence,
        reason,
        next_offset,
        receipt: None,
    }
}

/// The answer that no outcome can be told.
pub open spec fn unavailable(request: Request<Seq<char>>, reason: Seq<char>) -> Reply<Seq<char>> {
    reply(request, "unresolved"@, Some(reason), None)
}

/// The refusal of a command.
pub open spec fn rejected(request: Request<Seq<char>>, reason: Seq<char>) -> Reply<Seq<char>> {
    reply(request, "rejected"@, Some(reason), None)
}

/// What an outcome is called on the wire.
pub open spec fn outcome_word(o: Outcome<Seq<char>>) -> Seq<char> {
    match o {
        Outcome::Stored => "stored"@,
        Outcome::PublishedDurabilityUnconfirmed { .. } => "published"@,
        Outcome::Failed { .. } => "failed"@,
        Outcome::Aborted => "aborted"@,
    }
}

/// The answer that tells where an operation stands.
pub open spec fn status_reply(
    request: Request<Seq<char>>,
    status: StatusView,
    receiving: Seq<char>,
) -> Reply<Seq<char>> {
    match status {
        Status::Receiving { received, .. } => reply(request, receiving, None, Some(received)),
        Status::Unresolved { reason, .. } => reply(request, "unresolved"@, Some(reason), None),
        Status::Terminal(receipt) => Reply {
            receipt: Some(*receipt),
            ..reply(request, outcome_word(receipt.outcome), None, None)
        },
    }
}

} // verus!
