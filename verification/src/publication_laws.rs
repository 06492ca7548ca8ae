//! What the store is for once a transfer is finished: how its bytes are verified,
//! accepted, published and concluded, step by step.

use vstd::prelude::*;

use crate::action::{Action, After, Answer, Event, Goal, PendingView};
use crate::error::{Error, ErrorKind};
use crate::facts::{EvidenceFacts, FileFacts, Removal, StageFacts};
use crate::identity::{is_id, key_of};
use crate::json::record_json;
use crate::model::{
    Attempt, Identity, Intent, OperationId, Outcome, Receipt, Record, Status, StatusView,
    TicketView, VerifiedPng,
};
use crate::observation::{cleanup_seen, receipt_seen};
use crate::path::{file_name_of, is_same_path};
use crate::png::{bytes_check, verified_png};
use crate::policy::{allowed, ParentFacts};
use crate::protocol::{
    begin, cancel, dismiss, finish, lookup, recover, resumed, StoreView, Turn,
};
use crate::rules::intent_check;
use crate::text::byte_count;
use crate::transfer_laws::{
    answers, asks, gives_up, holds, holds_the_same, is_named, is_own, next, refuses,
};

verus! {

/// Whether a finished transfer is the caller's to finish: its parts are
/// identities, its ticket is the transfer's, and nothing of it has ended.
pub open spec fn is_finishing(
    v: StoreView,
    operation: OperationId<Seq<char>>,
    ticket: TicketView,
) -> bool {
    &&& v.poisoned is None
    &&& is_id(operation.slug) && is_id(operation.caller) && is_id(operation.operation_id)
    &&& ticket.key == key_of(operation.slug, operation.operation_id)
    &&& ticket.owner == v.owner
    &&& holds(v, ticket)
    &&& v.receiving[ticket.key].operation == operation
    &&& !v.records.contains_key(ticket.key)
    &&& !v.outcomes.contains_key(ticket.key)
}

/// Whether a file of at most 33,554,432 bytes was read.
pub open spec fn was_read(
    file: Result<FileFacts, Error>,
    read: Result<Vec<u8>, Error>,
    bytes: Seq<u8>,
) -> bool {
    &&& file matches Ok(file)
    &&& file.is_file
    &&& file.length <= 33_554_432
    &&& read matches Ok(read)
    &&& read@ == bytes
    &&& bytes.len() <= 33_554_432
}

/// A finished transfer is read, and its destination surveyed, if its staging file
/// is its own and the bytes are those that it announced. Nothing changes.
pub proof fn finished_transfers_are_verified(
    v: StoreView,
    operation: OperationId<Seq<char>>,
    ticket: TicketView,
    facts: StageFacts,
    file: Identity,
    length: u64,
    read: Result<Vec<u8>, Error>,
    bytes: Seq<u8>,
    at: Seq<char>,
)
    requires
        is_finishing(v, operation, ticket),
        is_own(facts, file, length),
        was_read(facts.held, read, bytes),
        verified_png(v.receiving[ticket.key].intent, bytes) is Ok,
    ensures
        ({
            let live = v.receiving[ticket.key];
            let first = finish(v, operation, ticket);
            let second = next(first, Event::Contents(facts, read), at);
            &&& asks(
                first,
                Action::Read { key: ticket.key, name: live.stage_name, limit: 33_554_432 },
            )
            &&& asks(
                second,
                Action::Survey { slug: operation.slug, destination: live.intent.destination },
            )
            &&& second.store.pending == PendingView::Survey(
                Goal::Accept {
                    key: ticket.key,
                    verified: verified_png(live.intent, bytes)->Ok_0,
                },
            )
            &&& holds_the_same(first.store, v)
            &&& holds_the_same(second.store, v)
        }),
{
}

/// A finished transfer whose staging file was replaced, cannot be read, is too
/// long, or whose bytes are not those that it announced, is given up: it failed
/// to verify, for that reason.
pub proof fn transfers_that_do_not_verify_fail(
    v: StoreView,
    operation: OperationId<Seq<char>>,
    ticket: TicketView,
    facts: StageFacts,
    file: Identity,
    length: u64,
    read: Result<Vec<u8>, Error>,
    bytes: Seq<u8>,
    at: Seq<char>,
    seen: StageFacts,
    later: Seq<char>,
)
    requires
        is_finishing(v, operation, ticket),
    ensures
        ({
            let live = v.receiving[ticket.key];
            let t = next(finish(v, operation, ticket), Event::Contents(facts, read), at);
            let fails = |reason: Seq<char>|
                gives_up(
                    v,
                    t,
                    ticket.key,
                    Outcome::Failed { action: "verify"@, reason },
                    at,
                    seen,
                    later,
                );
            &&& facts.named matches Err(e) ==> fails(e.message@)
            &&& facts.named matches Ok(named) ==> (!named.is_file ==> fails(
                "receiving stage was replaced or hard-linked"@,
            ))
            &&& facts.named matches Ok(named) ==> (facts.held matches Ok(held) ==> (named.identity
                != held.identity || held.links != 1 ==> fails(
                "receiving stage was replaced or hard-linked"@,
            )))
            &&& is_own(facts, file, length) ==> {
                &&& !facts.held->Ok_0.is_file || length > 33_554_432 ==> fails(
                    "file is not regular or exceeds limit"@,
                )
                &&& facts.held->Ok_0.is_file && length <= 33_554_432 ==> {
                    &&& read matches Err(e) ==> fails(e.message@)
                    &&& read matches Ok(b) ==> (b@.len() > 33_554_432 ==> fails(
                        "file exceeds limit"@,
                    ))
                }
                &&& was_read(facts.held, read, bytes) ==> (verified_png(live.intent, bytes) matches Err(
                    e,
                ) ==> fails(e.message))
            }
        }),
{
    gives_up_anyhow(v, ticket.key, at, seen, later);
}

proof fn gives_up_anyhow(
    v: StoreView,
    key: Seq<char>,
    at: Seq<char>,
    seen: StageFacts,
    later: Seq<char>,
)
    requires
        v.receiving.contains_key(key),
        v.receiving[key].ticket.key == key,
    ensures
        forall|action: Seq<char>, reason: Seq<char>| #[trigger]
            crate::protocol::failed(v, key, action, reason, at) == crate::protocol::discard(
                v,
                key,
                Some(
                    crate::observation::temporary(
                        v.receiving[key],
                        Outcome::Failed { action, reason },
                        at,
                    ),
                ),
            ) && gives_up(
                v,
                crate::protocol::failed(v, key, action, reason, at),
                key,
                Outcome::Failed { action, reason },
                at,
                seen,
                later,
            ),
        forall|action: Seq<char>, reason: Seq<char>| #[trigger]
            crate::protocol::failed(
                StoreView { pending: PendingView::Idle, ..v },
                key,
                action,
                reason,
                at,
            ) == crate::protocol::failed(v, key, action, reason, at),
{
    assert forall|action: Seq<char>, reason: Seq<char>| gives_up(
        v,
        #[trigger] crate::protocol::failed(v, key, action, reason, at),
        key,
        Outcome::Failed { action, reason },
        at,
        seen,
        later,
    ) by {
        crate::transfer_laws::giving_up_ends_with_the_receipt(
            v,
            key,
            Outcome::Failed { action, reason },
            at,
            seen,
            later,
        );
    }
}

/// A verified transfer is accepted where its destination and its staging file are
/// still what they were: both are synchronized, and then the record of it is
/// journaled. From then on the operation is the record's, and the transfer is over.
pub proof fn verified_transfers_are_accepted(
    v: StoreView,
    key: Seq<char>,
    verified: VerifiedPng<Seq<char>>,
    surveyed: ParentFacts,
    destination: Seq<char>,
    parent: Identity,
    facts: StageFacts,
    stage: Identity,
    length: u64,
    at: Seq<char>,
)
    requires
        v.poisoned is None,
        v.receiving.contains_key(key),
        v.pending == PendingView::Survey(Goal::Accept { key, verified }),
        ({
            let live = v.receiving[key];
            &&& allowed(v.home, live.operation.slug, live.intent.destination, surveyed) == Ok::<
                (Seq<char>, Identity),
                Error<Seq<char>>,
            >((destination, parent))
            &&& is_same_path(destination, live.destination)
        }),
        facts.parent == Ok::<Identity, Error>(parent),
        is_own(facts, stage, length),
    ensures
        ({
            let live = v.receiving[key];
            let record = Record {
                version: 2,
                operation: live.operation,
                attempt: live.attempt,
                intent: live.intent,
                destination,
                parent_identity: parent,
                stage_name: live.stage_name,
                stage_identity: stage,
                verified,
                accepted_at: at,
                terminal: None,
            };
            let first = resumed(v, Event::Survey(surveyed), at);
            let second = next(first, Event::Stage(facts), at);
            let last = next(second, Event::Effect(Ok(())), at);
            &&& asks(first, Action::Inspect { key, name: live.stage_name })
            &&& asks(second, Action::Sync { key })
            &&& holds_the_same(second.store, v)
            &&& byte_count(record_json(record)) <= 65_536 ==> {
                &&& asks(last, Action::WriteJournal { key, text: record_json(record) })
                &&& last.store.pending == (PendingView::AcceptJournal { key })
                &&& holds_the_same(
                    last.store,
                    StoreView {
                        receiving: v.receiving.remove(key),
                        records: v.records.insert(key, record),
                        ..v
                    },
                )
            }
        }),
{
}

/// A verified transfer whose destination may no longer be published at or has
/// moved, whose staging file was moved or replaced, or whose staging file cannot
/// be synchronized, is given up, for that reason.
pub proof fn transfers_that_cannot_be_accepted_fail(
    v: StoreView,
    key: Seq<char>,
    verified: VerifiedPng<Seq<char>>,
    surveyed: ParentFacts,
    facts: StageFacts,
    file: Identity,
    length: u64,
    e: Error,
    at: Seq<char>,
    seen: StageFacts,
    later: Seq<char>,
)
    requires
        v.receiving.contains_key(key),
        v.receiving[key].ticket.key == key,
        v.pending == PendingView::Survey(Goal::Accept { key, verified }),
    ensures
        ({
            let live = v.receiving[key];
            let first = resumed(v, Event::Survey(surveyed), at);
            let second = next(first, Event::Stage(facts), at);
            let unsynced = next(second, Event::Effect(Err(e)), at);
            let fails = |t: Turn, action: Seq<char>, reason: Seq<char>|
                gives_up(v, t, key, Outcome::Failed { action, reason }, at, seen, later);
            let moved = "destination parent moved or was replaced"@;
            match allowed(v.home, live.operation.slug, live.intent.destination, surveyed) {
                Err(why) => fails(first, "prepare"@, why.message),
                Ok((destination, parent)) => {
                    &&& !is_same_path(destination, live.destination) ==> fails(
                        first,
                        "prepare"@,
                        moved,
                    )
                    &&& is_same_path(destination, live.destination) ==> {
                        &&& facts.parent matches Err(why) ==> fails(
                            second,
                            "prepare"@,
                            why.message@,
                        )
                        &&& facts.parent matches Ok(held) ==> (held != parent ==> fails(
                            second,
                            "prepare"@,
                            moved,
                        ))
                        &&& facts.parent == Ok::<Identity, Error>(parent) ==> {
                            &&& facts.named matches Err(why) ==> fails(
                                second,
                                "prepare"@,
                                why.message@,
                            )
                            &&& facts.named matches Ok(named) ==> (facts.held matches Ok(held) ==> (
                            named.identity != held.identity || held.links != 1 ==> fails(
                                second,
                                "prepare"@,
                                "receiving stage was replaced or hard-linked"@,
                            )))
                            &&& is_own(facts, file, length) ==> fails(
                                unsynced,
                                "sync"@,
                                e.message@,
                            )
                        }
                    }
                },
            }
        }),
{
    gives_up_anyhow(v, key, at, seen, later);
}

/// Whether a survey found the directory that an operation was accepted for, where
/// its slug may still publish.
pub open spec fn is_in_place(v: StoreView, record: Record<Seq<char>>, facts: ParentFacts) -> bool {
    match allowed(v.home, record.operation.slug, record.intent.destination, facts) {
        Ok((destination, parent)) => is_same_path(destination, record.destination) && parent
            == record.parent_identity,
        Err(_) => false,
    }
}

/// Whether a file is the staging file that was accepted.
pub open spec fn is_accepted_file(
    record: Record<Seq<char>>,
    file: Result<FileFacts, Error>,
) -> bool {
    &&& file matches Ok(file)
    &&& file.is_file
    &&& file.identity == record.stage_identity
}

/// Whether a receipt ends an accepted operation.
pub open spec fn concludes(
    receipt: Receipt<Seq<char>>,
    key: Seq<char>,
    record: Record<Seq<char>>,
    outcome: Outcome<Seq<char>>,
    at: Seq<char>,
) -> bool {
    &&& receipt.operation == record.operation
    &&& receipt.attempt == record.attempt
    &&& receipt.event_id == "screenshot-"@ + key + "-terminal"@
    &&& receipt.requested == record.intent
    &&& receipt.destination == record.destination
    &&& receipt.verified == Some(record.verified)
    &&& receipt.accepted_at == Some(record.accepted_at)
    &&& receipt.observed_at == at
    &&& receipt.outcome == outcome
}

/// Whether a turn journals the receipt of an accepted operation, where its record
/// is not too long for that.
pub open spec fn journals_receipt(
    v: StoreView,
    t: Turn,
    key: Seq<char>,
    outcome: Outcome<Seq<char>>,
    at: Seq<char>,
    after: After,
) -> bool {
    let record = v.records[key];
    exists|receipt: Receipt<Seq<char>>| #[trigger]
        concludes(receipt, key, record, outcome, at) && {
            let text = record_json(Record { terminal: Some(receipt), ..record });
            byte_count(text) <= 65_536 ==> {
                &&& asks(t, Action::WriteJournal { key, text })
                &&& t.store.pending == (PendingView::TerminalJournal { key, receipt, after })
                &&& holds_the_same(t.store, v)
            }
        }
}

proof fn receipts_conclude(
    key: Seq<char>,
    record: Record<Seq<char>>,
    outcome: Outcome<Seq<char>>,
    at: Seq<char>,
)
    ensures
        concludes(
            crate::observation::conclusion(key, record, outcome, at),
            key,
            record,
            outcome,
            at,
        ),
{
}

/// A journaled acceptance is published: where its directory and its staging file
/// are still the accepted ones, the staging file is linked to the destination's
/// name, which is made durable, and then the receipt is journaled. The operation
/// is stored; or it is published without a sign that this is durable, for the
/// reason that the synchronization gave.
pub proof fn accepted_operations_are_published(
    v: StoreView,
    key: Seq<char>,
    surveyed: ParentFacts,
    file: Result<FileFacts, Error>,
    synced: Result<(), Error>,
    at: Seq<char>,
)
    requires
        v.poisoned is None,
        v.records.contains_key(key),
        v.records[key].terminal is None,
        v.pending == (PendingView::AcceptJournal { key }),
        is_in_place(v, v.records[key], surveyed),
        is_accepted_file(v.records[key], file),
    ensures
        ({
            let record = v.records[key];
            let first = resumed(v, Event::Effect(Ok(())), at);
            let second = next(first, Event::Survey(surveyed), at);
            let third = next(second, Event::File(file), at);
            let fourth = next(third, Event::Effect(Ok(())), at);
            let last = next(fourth, Event::Effect(synced), at);
            let outcome = match synced {
                Ok(()) => Outcome::Stored,
                Err(e) => Outcome::PublishedDurabilityUnconfirmed { reason: e.message@ },
            };
            &&& asks(
                first,
                Action::Survey {
                    slug: record.operation.slug,
                    destination: record.intent.destination,
                },
            )
            &&& asks(second, Action::OpenStage { name: record.stage_name })
            &&& asks(
                third,
                Action::Link { from: record.stage_name, to: file_name_of(record.destination) },
            )
            &&& holds_the_same(third.store, v)
            &&& asks(fourth, Action::SyncParent)
            &&& holds_the_same(
                fourth.store,
                StoreView {
                    publication: v.publication.insert(key, true),
                    linked: v.linked.insert(key),
                    ..v
                },
            )
            &&& journals_receipt(fourth.store, last, key, outcome, at, After::Status)
        }),
{
    let outcome = match synced {
        Ok(()) => Outcome::Stored,
        Err(e) => Outcome::PublishedDurabilityUnconfirmed { reason: e.message@ },
    };
    receipts_conclude(key, v.records[key], outcome, at);
}

/// Where the destination exists, nothing is replaced: the operation failed to
/// publish. Any other fault, before the link is made, leaves it unresolved, and
/// nothing changes.
pub proof fn refused_publications_replace_nothing(
    v: StoreView,
    key: Seq<char>,
    surveyed: ParentFacts,
    file: Result<FileFacts, Error>,
    e: Error,
    at: Seq<char>,
)
    requires
        v.poisoned is None,
        v.records.contains_key(key),
        v.records[key].terminal is None,
        !v.publication.contains_key(key),
        !v.linked.contains(key),
        v.pending == PendingView::Survey(Goal::Publish { key }),
    ensures
        ({
            let record = v.records[key];
            let second = resumed(v, Event::Survey(surveyed), at);
            let third = next(second, Event::File(file), at);
            let last = next(third, Event::Effect(Err(e)), at);
            let unresolved = Status::Unresolved {
                operation: record.operation,
                destination: record.destination,
                published: None,
                reason: "publication evidence is incomplete; no automatic continuation"@,
            };
            let refused = StoreView { publication: v.publication.insert(key, false), ..v };
            &&& is_in_place(v, record, surveyed) && is_accepted_file(record, file) ==> {
                &&& e.kind == ErrorKind::AlreadyExists ==> journals_receipt(
                    refused,
                    last,
                    key,
                    Outcome::Failed {
                        action: "publish"@,
                        reason: "destination already exists; nothing replaced"@,
                    },
                    at,
                    After::Status,
                )
                &&& e.kind != ErrorKind::AlreadyExists ==> answers(
                    last,
                    Answer::Status(unresolved),
                ) && holds_the_same(last.store, v)
            }
            &&& is_in_place(v, record, surveyed) ==> (file matches Ok(f) ==> (!f.is_file
                || f.identity != record.stage_identity ==> answers(
                third,
                Answer::Status(unresolved),
            ) && holds_the_same(third.store, v)))
            &&& allowed(v.home, record.operation.slug, record.intent.destination, surveyed) is Ok
                && !is_in_place(v, record, surveyed) ==> answers(
                second,
                Answer::Status(unresolved),
            ) && holds_the_same(second.store, v)
        }),
{
    receipts_conclude(
        key,
        v.records[key],
        Outcome::Failed {
            action: "publish"@,
            reason: "destination already exists; nothing replaced"@,
        },
        at,
    );
}

/// Whether a turn answers with a status, as the operation under way would.
pub open spec fn tells(t: Turn, status: StatusView, after: After) -> bool {
    match after {
        After::Found => answers(t, Answer::Found(Some(status))),
        After::Status => answers(t, Answer::Status(status)),
        After::Recovered => answers(t, Answer::Recovered),
    }
}

/// A journaled receipt is the operation's from then on, and is observed. The
/// staging file is removed where it is still the accepted one, and the receipt
/// is answered whether or not that could be done.
pub proof fn journaled_receipts_are_answered(
    v: StoreView,
    key: Seq<char>,
    receipt: Receipt<Seq<char>>,
    after: After,
    surveyed: ParentFacts,
    file: Result<FileFacts, Error>,
    removal: Removal,
    at: Seq<char>,
)
    requires
        v.records.contains_key(key),
        v.pending == (PendingView::TerminalJournal { key, receipt, after }),
    ensures
        ({
            let record = v.records[key];
            let kept = StoreView {
                records: v.records.insert(key, Record { terminal: Some(receipt), ..record }),
                observations: v.observations.push(receipt_seen(receipt)),
                ..v
            };
            let status = Status::Terminal(Box::new(receipt));
            let first = resumed(v, Event::Effect(Ok(())), at);
            let second = next(first, Event::Survey(surveyed), at);
            let third = next(second, Event::File(file), at);
            let last = next(third, Event::Removed(removal), at);
            &&& asks(
                first,
                Action::Survey {
                    slug: record.operation.slug,
                    destination: record.intent.destination,
                },
            )
            &&& holds_the_same(first.store, kept)
            &&& !is_in_place(v, record, surveyed) ==> tells(second, status, after)
                && holds_the_same(second.store, kept)
            &&& is_in_place(v, record, surveyed) ==> {
                &&& asks(second, Action::OpenStage { name: record.stage_name })
                &&& !is_accepted_file(record, file) ==> tells(third, status, after)
                    && holds_the_same(third.store, kept)
                &&& is_accepted_file(record, file) ==> {
                    &&& asks(third, Action::Unlink { name: record.stage_name })
                    &&& tells(last, status, after)
                    &&& last.store.records == kept.records
                    &&& removal is Removed ==> holds_the_same(last.store, kept)
                }
            }
        }),
{
}

/// A journal entry that may not have landed freezes the store: the operation is
/// unresolved for that reason, and so is every other without a receipt.
pub proof fn uncertain_journals_freeze_the_store(
    v: StoreView,
    key: Seq<char>,
    receipt: Receipt<Seq<char>>,
    after: After,
    e: Error,
    at: Seq<char>,
)
    requires
        v.records.contains_key(key),
        v.records[key].terminal is None,
        v.pending == (PendingView::AcceptJournal { key }) && after == After::Status || v.pending
            == (PendingView::TerminalJournal { key, receipt, after }),
    ensures
        ({
            let record = v.records[key];
            let reason = "journal synchronization uncertain: "@ + e.message@
                + "; reopen the capability"@;
            let t = resumed(v, Event::Effect(Err(e)), at);
            let status = Status::Unresolved {
                operation: record.operation,
                destination: record.destination,
                published: if v.linked.contains(key) {
                    Some(true)
                } else if v.publication.contains_pair(key, false) {
                    Some(false)
                } else {
                    None
                },
                reason,
            };
            &&& tells(t, status, after)
            &&& holds_the_same(t.store, StoreView { poisoned: Some(reason), ..v })
        }),
{
}

/// Whether files prove that an operation was published: the staging file is the
/// accepted one, the destination is the same file, and the bytes are those that
/// were announced.
pub open spec fn proves(record: Record<Seq<char>>, facts: EvidenceFacts, bytes: Seq<u8>) -> bool {
    &&& is_accepted_file(record, facts.stage)
    &&& facts.destination matches Ok(destination)
    &&& destination.identity == record.stage_identity
    &&& was_read(facts.stage, facts.bytes, bytes)
    &&& bytes_check(record.intent, bytes) is Ok
}

/// A lookup of an operation without a receipt looks into it: where files prove
/// that it was published, that is made durable and its receipt is journaled; else
/// the operation stays unresolved, and nothing changes.
pub proof fn unresolved_operations_are_looked_into(
    v: StoreView,
    operation: OperationId<Seq<char>>,
    surveyed: ParentFacts,
    facts: EvidenceFacts,
    bytes: Seq<u8>,
    synced: Result<(), Error>,
    e: Error,
    at: Seq<char>,
)
    requires
        v.poisoned is None,
        is_id(operation.slug) && is_id(operation.caller) && is_id(operation.operation_id),
        ({
            let key = key_of(operation.slug, operation.operation_id);
            &&& v.records.contains_key(key)
            &&& v.records[key].operation == operation
            &&& v.records[key].terminal is None
            &&& !v.linked.contains(key)
            &&& !v.publication.contains_key(key)
        }),
    ensures
        ({
            let key = key_of(operation.slug, operation.operation_id);
            let record = v.records[key];
            let first = lookup(v, operation);
            let second = next(first, Event::Survey(surveyed), at);
            let third = next(second, Event::Evidence(facts), at);
            let unsynced = next(third, Event::Effect(Err(e)), at);
            let fourth = next(third, Event::Effect(Ok(())), at);
            let last = next(fourth, Event::Effect(synced), at);
            let unresolved = Status::Unresolved {
                operation: record.operation,
                destination: record.destination,
                published: None,
                reason: "publication evidence is incomplete; no automatic continuation"@,
            };
            let outcome = match synced {
                Ok(()) => Outcome::Stored,
                Err(e) => Outcome::PublishedDurabilityUnconfirmed { reason: e.message@ },
            };
            &&& asks(
                first,
                Action::Survey {
                    slug: record.operation.slug,
                    destination: record.intent.destination,
                },
            )
            &&& !is_in_place(v, record, surveyed) ==> answers(
                second,
                Answer::Found(Some(unresolved)),
            ) && holds_the_same(second.store, v)
            &&& is_in_place(v, record, surveyed) ==> {
                &&& asks(
                    second,
                    Action::Evidence {
                        stage: record.stage_name,
                        destination: file_name_of(record.destination),
                        limit: 33_554_432,
                    },
                )
                &&& (forall|b: Seq<u8>| !(#[trigger] proves(record, facts, b))) ==> answers(
                    third,
                    Answer::Found(Some(unresolved)),
                ) && holds_the_same(third.store, v)
                &&& proves(record, facts, bytes) ==> answers(
                    unsynced,
                    Answer::Found(Some(unresolved)),
                ) && holds_the_same(unsynced.store, v)
                &&& proves(record, facts, bytes) ==> {
                    &&& asks(third, Action::SyncEvidence)
                    &&& asks(fourth, Action::SyncParent)
                    &&& holds_the_same(
                        fourth.store,
                        StoreView { publication: v.publication.insert(key, true), ..v },
                    )
                    &&& journals_receipt(fourth.store, last, key, outcome, at, After::Found)
                }
            }
        }),
{
    let key = key_of(operation.slug, operation.operation_id);
    let outcome = match synced {
        Ok(()) => Outcome::Stored,
        Err(e) => Outcome::PublishedDurabilityUnconfirmed { reason: e.message@ },
    };
    receipts_conclude(key, v.records[key], outcome, at);
    if crate::protocol::evidence_check(v.records[key], facts) is Ok {
        assert(proves(v.records[key], facts, facts.bytes->Ok_0@));
    }
}

/// An operation with a receipt is found with it, and nothing changes.
pub proof fn concluded_operations_are_found(v: StoreView, operation: OperationId<Seq<char>>)
    requires
        is_id(operation.slug) && is_id(operation.caller) && is_id(operation.operation_id),
        ({
            let key = key_of(operation.slug, operation.operation_id);
            &&& v.records.contains_key(key)
            &&& v.records[key].operation == operation
            &&& v.records[key].terminal is Some
        }),
    ensures
        ({
            let key = key_of(operation.slug, operation.operation_id);
            let receipt = v.records[key].terminal->Some_0;
            &&& answers(
                lookup(v, operation),
                Answer::Found(Some(Status::Terminal(Box::new(receipt)))),
            )
            &&& holds_the_same(lookup(v, operation).store, v)
        }),
{
}

/// A record that an earlier store left is recovered: one with a receipt has its
/// staging file removed where it is still the accepted one, and one without is
/// looked into like an operation that is looked up.
pub proof fn records_are_recovered(
    v: StoreView,
    key: Seq<char>,
    surveyed: ParentFacts,
    file: Result<FileFacts, Error>,
    facts: EvidenceFacts,
    bytes: Seq<u8>,
    at: Seq<char>,
)
    requires
        v.poisoned is None,
        v.records.contains_key(key),
    ensures
        ({
            let record = v.records[key];
            let first = recover(v, key);
            let second = next(first, Event::Survey(surveyed), at);
            let opened = next(second, Event::File(file), at);
            let removed = next(opened, Event::Removed(Removal::Removed), at);
            let proved = next(second, Event::Evidence(facts), at);
            &&& asks(
                first,
                Action::Survey {
                    slug: record.operation.slug,
                    destination: record.intent.destination,
                },
            )
            &&& !is_in_place(v, record, surveyed) ==> answers(second, Answer::Recovered)
                && holds_the_same(second.store, v)
            &&& is_in_place(v, record, surveyed) && record.terminal is Some ==> {
                &&& asks(second, Action::OpenStage { name: record.stage_name })
                &&& is_accepted_file(record, file) ==> asks(
                    opened,
                    Action::Unlink { name: record.stage_name },
                ) && answers(removed, Answer::Recovered) && holds_the_same(removed.store, v)
                &&& !is_accepted_file(record, file) ==> answers(opened, Answer::Recovered)
                    && holds_the_same(opened.store, v)
            }
            &&& is_in_place(v, record, surveyed) && record.terminal is None ==> {
                &&& asks(
                    second,
                    Action::Evidence {
                        stage: record.stage_name,
                        destination: file_name_of(record.destination),
                        limit: 33_554_432,
                    },
                )
                &&& proves(record, facts, bytes) ==> asks(proved, Action::SyncEvidence)
            }
        }),
{
}

/// An operation that was accepted or has ended is not ended again: to finish or to
/// cancel it answers with its receipt, and nothing changes.
pub proof fn ended_operations_stay_ended(
    v: StoreView,
    operation: OperationId<Seq<char>>,
    ticket: TicketView,
    receipt: Receipt<Seq<char>>,
    at: Seq<char>,
)
    requires
        is_id(operation.slug) && is_id(operation.caller) && is_id(operation.operation_id),
        ticket.key == key_of(operation.slug, operation.operation_id),
        ticket.owner == v.owner,
        receipt.operation == operation,
        v.records.contains_key(ticket.key) && v.records[ticket.key].operation == operation
            && v.records[ticket.key].terminal == Some(receipt) || !v.records.contains_key(
            ticket.key,
        ) && v.outcomes.contains_key(ticket.key) && v.outcomes[ticket.key] == receipt,
    ensures
        ({
            let status = Status::Terminal(Box::new(receipt));
            &&& answers(finish(v, operation, ticket), Answer::Status(status))
            &&& answers(cancel(v, operation, ticket, at), Answer::Status(status))
            &&& holds_the_same(finish(v, operation, ticket).store, v)
            &&& holds_the_same(cancel(v, operation, ticket, at).store, v)
        }),
{
}

/// An operation with a receipt that is begun again with the same intent is answered
/// with its receipt, and nothing changes.
pub proof fn concluded_operations_do_not_begin_again(
    v: StoreView,
    operation: OperationId<Seq<char>>,
    attempt: Attempt<Seq<char>>,
    intent: Intent<Seq<char>>,
    receipt: Receipt<Seq<char>>,
)
    requires
        is_named(operation, attempt),
        intent_check(intent) is Ok,
        ({
            let key = key_of(operation.slug, operation.operation_id);
            &&& v.records.contains_key(key)
            &&& v.records[key].operation == operation
            &&& v.records[key].intent == intent
            &&& v.records[key].terminal == Some(receipt)
        }),
    ensures
        answers(
            begin(v, operation, attempt, intent),
            Answer::Status(Status::Terminal(Box::new(receipt))),
        ),
        holds_the_same(begin(v, operation, attempt, intent).store, v),
{
}

/// A transfer is finished or cancelled by the holder of its ticket alone; any other
/// ticket is refused, and nothing changes.
pub proof fn other_tickets_end_nothing(
    v: StoreView,
    operation: OperationId<Seq<char>>,
    ticket: TicketView,
    at: Seq<char>,
)
    requires
        v.poisoned is None,
        is_id(operation.slug) && is_id(operation.caller) && is_id(operation.operation_id),
    ensures
        ({
            let key = key_of(operation.slug, operation.operation_id);
            let open = !v.records.contains_key(key) && !v.outcomes.contains_key(key);
            let refused = |message: Seq<char>|
                {
                    &&& refuses(
                        finish(v, operation, ticket),
                        ErrorKind::InvalidData,
                        message,
                    )
                    &&& refuses(
                        cancel(v, operation, ticket, at),
                        ErrorKind::InvalidData,
                        message,
                    )
                    &&& holds_the_same(finish(v, operation, ticket).store, v)
                    &&& holds_the_same(cancel(v, operation, ticket, at).store, v)
                };
            &&& ticket.key != key || ticket.owner != v.owner ==> refused(
                "stale or foreign ticket"@,
            )
            &&& ticket.key == key && ticket.owner == v.owner && open ==> {
                &&& !v.receiving.contains_key(key) ==> refused("no live receive for ticket"@)
                &&& v.receiving.contains_key(key) && v.receiving[key].ticket != ticket
                    ==> refused("stale or foreign ticket"@)
                &&& holds(v, ticket) && v.receiving[key].operation != operation ==> refused(
                    "operation identity or caller conflicts"@,
                )
            }
        }),
{
}

/// A record that is too long to be journaled freezes the store.
pub proof fn records_that_are_too_long_freeze_the_store(
    v: StoreView,
    key: Seq<char>,
    verified: VerifiedPng<Seq<char>>,
    destination: Seq<char>,
    parent: Identity,
    stage: Identity,
    at: Seq<char>,
)
    requires
        v.poisoned is None,
        v.receiving.contains_key(key),
        v.pending == (PendingView::FinishSync { key, verified, destination, parent, stage }),
    ensures
        ({
            let t = resumed(v, Event::Effect(Ok(())), at);
            let record = t.store.records[key];
            let reason = "journal synchronization uncertain: "@ + "journal entry exceeds limit"@
                + "; reopen the capability"@;
            byte_count(record_json(record)) > 65_536 && !v.linked.contains(key)
                && !v.publication.contains_key(key) ==> {
                &&& t.store.poisoned == Some(reason)
                &&& answers(
                    t,
                    Answer::Status(
                        Status::Unresolved {
                            operation: record.operation,
                            destination: record.destination,
                            published: None,
                            reason,
                        },
                    ),
                )
            }
        }),
{
}

/// Nothing is recovered or forgotten where nothing is known.
pub proof fn unknown_keys_are_passed_over(v: StoreView, key: Seq<char>)
    ensures
        !v.records.contains_key(key) ==> answers(recover(v, key), Answer::Recovered)
            && holds_the_same(recover(v, key).store, v),
        !v.receiving.contains_key(key) ==> answers(dismiss(v, key), Answer::Recovered)
            && holds_the_same(dismiss(v, key).store, v),
{
}

/// The staging file of an ended operation that could not be removed, or whose
/// removal may not be durable, is observed; the answer is the receipt all the same.
pub proof fn leftover_accepted_files_are_observed(
    v: StoreView,
    key: Seq<char>,
    receipt: Receipt<Seq<char>>,
    after: After,
    e: Error,
    at: Seq<char>,
)
    requires
        v.records.contains_key(key),
        v.records[key].terminal == Some(receipt),
        v.pending == (PendingView::CleanupUnlink { key, after }),
    ensures
        ({
            let record = v.records[key];
            let stayed = resumed(v, Event::Removed(Removal::NotUnlinked(e)), at);
            let unsure = resumed(v, Event::Removed(Removal::NotSynced(e)), at);
            let status = Status::Terminal(Box::new(receipt));
            let seen = |unlinked: bool|
                StoreView {
                    observations: v.observations.push(
                        cleanup_seen(
                            record.destination,
                            record.stage_name,
                            record.operation,
                            unlinked,
                            e.message@,
                        ),
                    ),
                    ..v
                };
            &&& tells(stayed, status, after) && holds_the_same(stayed.store, seen(false))
            &&& tells(unsure, status, after) && holds_the_same(unsure.store, seen(true))
        }),
{
}

} // verus!
