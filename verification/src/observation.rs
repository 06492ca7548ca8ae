//! What the store reports about operations that ended, and the receipts that
//! it makes.

use vstd::prelude::*;

use crate::model::{optional_text, OperationId, Outcome, Receipt, Receiving, ReceivingView, Record};
use crate::path::{join, joined, parent, parent_of};
use crate::rules::terminal_event;
use crate::text::{cat2, cat3, decimal, decimal_text, same_text};

verus! {

/// What an observation carries.
#[derive(Debug, PartialEq, Eq)]
pub enum Detail<S = String> {
    /// The receipt of an operation that ended. `unconfirmed` says that the file
    /// is published and that this may not survive a crash.
    Receipt { receipt: Receipt<S>, unconfirmed: bool },
    /// A staging file was not cleaned up. `unlinked` says that its name is gone
    /// and only the directory could not be synchronized.
    Cleanup { operation: OperationId<S>, unlinked: bool },
}

impl View for Detail<String> {
    type V = Detail<Seq<char>>;

    open spec fn view(&self) -> Detail<Seq<char>> {
        match *self {
            Detail::Receipt { receipt, unconfirmed } => {
                Detail::Receipt { receipt: receipt@, unconfirmed }
            },
            Detail::Cleanup { operation, unlinked } => {
                Detail::Cleanup { operation: operation@, unlinked }
            },
        }
    }
}

/// A fact for the log: who did what, where, how, and why not.
#[derive(Debug, PartialEq, Eq)]
pub struct Observation<S = String> {
    pub who: S,
    pub what: S,
    pub place: S,
    pub how: S,
    pub why: Option<S>,
    pub detail: Detail<S>,
}

impl View for Observation<String> {
    type V = Observation<Seq<char>>;

    open spec fn view(&self) -> Observation<Seq<char>> {
        Observation {
            who: self.who@,
            what: self.what@,
            place: self.place@,
            how: self.how@,
            why: optional_text(self.why),
            detail: self.detail@,
        }
    }
}

/// The observations of a list, as contracts see them.
pub open spec fn seen(list: Seq<Observation>) -> Seq<Observation<Seq<char>>> {
    list.map_values(|o: Observation| o@)
}

/// What an outcome is called in the log.
pub open spec fn outcome_name(o: Outcome<Seq<char>>) -> Seq<char> {
    match o {
        Outcome::Stored => "store"@,
        Outcome::PublishedDurabilityUnconfirmed { .. } => "fail_sync"@,
        Outcome::Failed { action, .. } => "fail_"@ + action,
        Outcome::Aborted => "abort"@,
    }
}

/// Why an operation did not end as it should.
pub open spec fn outcome_reason(o: Outcome<Seq<char>>) -> Option<Seq<char>> {
    match o {
        Outcome::Stored => None,
        Outcome::PublishedDurabilityUnconfirmed { reason } => Some(reason),
        Outcome::Failed { reason, .. } => Some(reason),
        Outcome::Aborted => None,
    }
}

/// By what means an outcome came about.
pub open spec fn outcome_means(o: Outcome<Seq<char>>) -> Seq<char> {
    match o {
        Outcome::Aborted => "receiving ticket invalidation"@,
        Outcome::PublishedDurabilityUnconfirmed { .. } => {
            "directory synchronization after atomic no-clobber linkat"@
        },
        Outcome::Failed { action, .. } => {
            if action == "verify"@ {
                "PNG decode, byte count and SHA-256 verification"@
            } else if action == "prepare"@ {
                "rooted staging-file preparation"@
            } else if action == "sync"@ {
                "staging-file and parent synchronization"@
            } else {
                "rooted filesystem / atomic no-clobber linkat"@
            }
        },
        Outcome::Stored => "rooted filesystem / atomic no-clobber linkat"@,
    }
}

/// The observation of a receipt.
pub open spec fn receipt_seen(r: Receipt<Seq<char>>) -> Observation<Seq<char>> {
    Observation {
        who: "screenshot"@,
        what: outcome_name(r.outcome),
        place: r.destination,
        how: outcome_means(r.outcome),
        why: outcome_reason(r.outcome),
        detail: Detail::Receipt {
            receipt: r,
            unconfirmed: r.outcome is PublishedDurabilityUnconfirmed,
        },
    }
}

/// Reports a receipt.
pub fn receipt_record(receipt: &Receipt) -> (r: Observation)
    ensures
        r@ == receipt_seen(receipt@),
{
    let (what, how, why, unconfirmed): (String, &str, Option<String>, bool) = match &receipt.outcome {
        Outcome::Stored => (
            "store".to_owned(),
            "rooted filesystem / atomic no-clobber linkat",
            None,
            false,
        ),
        Outcome::PublishedDurabilityUnconfirmed { reason } => (
            "fail_sync".to_owned(),
            "directory synchronization after atomic no-clobber linkat",
            Some(reason.clone()),
            true,
        ),
        Outcome::Failed { action, reason } => {
            let how: &str = if same_text(action.as_str(), "verify") {
                "PNG decode, byte count and SHA-256 verification"
            } else if same_text(action.as_str(), "prepare") {
                "rooted staging-file preparation"
            } else if same_text(action.as_str(), "sync") {
                "staging-file and parent synchronization"
            } else {
                "rooted filesystem / atomic no-clobber linkat"
            };
            (cat2("fail_", action.as_str()), how, Some(reason.clone()), false)
        },
        Outcome::Aborted => ("abort".to_owned(), "receiving ticket invalidation", None, false),
    };
    Observation {
        who: "screenshot".to_owned(),
        what,
        place: receipt.destination.clone(),
        how: how.to_owned(),
        why,
        detail: Detail::Receipt { receipt: receipt.clone(), unconfirmed },
    }
}

/// The observation of a staging file that was not cleaned up.
pub open spec fn cleanup_seen(
    destination: Seq<char>,
    name: Seq<char>,
    operation: OperationId<Seq<char>>,
    unlinked: bool,
    reason: Seq<char>,
) -> Observation<Seq<char>> {
    Observation {
        who: "screenshot"@,
        what: if unlinked {
            "fail_sync"@
        } else {
            "fail_unlink"@
        },
        place: joined(parent_of(destination), name),
        how: "unlinkat and directory synchronization"@,
        why: Some(reason),
        detail: Detail::Cleanup { operation, unlinked },
    }
}

/// Reports a staging file that was not cleaned up.
pub fn cleanup_record(
    destination: &str,
    name: &str,
    operation: &OperationId,
    unlinked: bool,
    reason: &str,
) -> (r: Observation)
    ensures
        r@ == cleanup_seen(destination@, name@, operation@, unlinked, reason@),
{
    let what: &str = if unlinked {
        "fail_sync"
    } else {
        "fail_unlink"
    };
    Observation {
        who: "screenshot".to_owned(),
        what: what.to_owned(),
        place: join(parent(destination).as_str(), name),
        how: "unlinkat and directory synchronization".to_owned(),
        why: Some(reason.to_owned()),
        detail: Detail::Cleanup { operation: operation.clone(), unlinked },
    }
}

/// The receipt of a transfer that ended before it was accepted.
pub open spec fn temporary(
    live: ReceivingView,
    outcome: Outcome<Seq<char>>,
    at: Seq<char>,
) -> Receipt<Seq<char>> {
    Receipt {
        operation: live.operation,
        attempt: live.attempt,
        event_id: live.stage_name + "-"@ + decimal(live.ticket.generation as nat) + "-temporary"@,
        requested: live.intent,
        destination: live.destination,
        verified: None,
        accepted_at: None,
        observed_at: at,
        outcome,
    }
}

/// Makes the receipt of a transfer that ended before it was accepted.
pub fn temporary_receipt(live: &Receiving, outcome: Outcome, at: &str) -> (r: Receipt)
    ensures
        r@ == temporary(live@, outcome@, at@),
{
    let mut event_id = cat3(
        live.stage_name.as_str(),
        "-",
        decimal_text(live.ticket.generation()).as_str(),
    );
    event_id.append("-temporary");
    Receipt {
        operation: live.operation.clone(),
        attempt: live.attempt.clone(),
        event_id,
        requested: live.intent.clone(),
        destination: live.destination.clone(),
        verified: None,
        accepted_at: None,
        observed_at: at.to_owned(),
        outcome,
    }
}

/// The receipt that ends an accepted operation.
pub open spec fn conclusion(
    key: Seq<char>,
    record: Record<Seq<char>>,
    outcome: Outcome<Seq<char>>,
    at: Seq<char>,
) -> Receipt<Seq<char>> {
    Receipt {
        operation: record.operation,
        attempt: record.attempt,
        event_id: terminal_event(key),
        requested: record.intent,
        destination: record.destination,
        verified: Some(record.verified),
        accepted_at: Some(record.accepted_at),
        observed_at: at,
        outcome,
    }
}

/// Makes the receipt that ends an accepted operation.
pub fn terminal_receipt(key: &str, record: &Record, outcome: Outcome, at: &str) -> (r: Receipt)
    ensures
        r@ == conclusion(key@, record@, outcome@, at@),
{
    Receipt {
        operation: record.operation.clone(),
        attempt: record.attempt.clone(),
        event_id: cat3("screenshot-", key, "-terminal"),
        requested: record.intent.clone(),
        destination: record.destination.clone(),
        verified: Some(record.verified.clone()),
        accepted_at: Some(record.accepted_at.clone()),
        observed_at: at.to_owned(),
        outcome,
    }
}

} // verus!
