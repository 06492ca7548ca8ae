//! What the store is for before a transfer is accepted: what a transfer asks of
//! the file system, step by step, and what it is answered.

use vstd::prelude::*;

use crate::action::{Action, ActionView, Answer, AnswerView, Event, Step};
use crate::error::{Error, ErrorKind};
use crate::facts::{Removal, StageFacts};
use crate::identity::{is_id, key_of};
use crate::model::{
    is_same_intent, Attempt, Identity, Intent, OperationId, Outcome, Receipt, Receiving,
    ReceivingView, Status, TicketView,
};
use crate::observation::{cleanup_seen, receipt_seen};
use crate::policy::{allowed, ParentFacts};
use crate::protocol::{
    append, begin, cancel, dismiss, finish, lookup, replace, resumed, total, StoreView, Turn,
};
use crate::rules::intent_check;
use crate::text::{decimal, hex};

verus! {

/// What an event makes of the store that a turn left.
pub open spec fn next(t: Turn, event: Event, at: Seq<char>) -> Turn {
    resumed(t.store, event, at)
}

/// Whether a turn asks for an action.
pub open spec fn asks(t: Turn, action: ActionView) -> bool {
    t.step == Step::<Seq<char>, TicketView, Seq<u8>>::Act(action)
}

/// Whether a turn ends an operation with an answer.
pub open spec fn answers(t: Turn, answer: AnswerView) -> bool {
    t.step == Step::<Seq<char>, TicketView, Seq<u8>>::Done(Ok(answer))
}

/// Whether a turn ends an operation with an error.
pub open spec fn refuses(t: Turn, kind: ErrorKind, message: Seq<char>) -> bool {
    t.step == Step::<Seq<char>, TicketView, Seq<u8>>::Done(Err(Error { kind, message }))
}

/// Whether two stores are the same but for what they wait for.
pub open spec fn holds_the_same(v: StoreView, w: StoreView) -> bool {
    v == (StoreView { pending: v.pending, ..w })
}

/// Whether a ticket is the one of a transfer that is being received.
pub open spec fn holds(v: StoreView, ticket: TicketView) -> bool {
    v.receiving.contains_key(ticket.key) && v.receiving[ticket.key].ticket == ticket
}

/// Whether a staging file is the transfer's own, under its name and no other,
/// and how long it is.
pub open spec fn is_own(facts: StageFacts, file: Identity, length: u64) -> bool {
    &&& facts.named matches Ok(named)
    &&& named.is_file
    &&& named.identity == file
    &&& facts.held matches Ok(held)
    &&& held.identity == file
    &&& held.links == 1
    &&& held.length == length
}

/// A chunk of 1 to 65,536 bytes that begins where the staging file ends, and that
/// goes no further than the transfer announced, is written as it is, wherever that
/// may be; and then its sender is told where it ends. Nothing else changes.
pub proof fn chunks_are_written_one_after_another(
    v: StoreView,
    ticket: TicketView,
    bytes: Seq<u8>,
    facts: StageFacts,
    file: Identity,
    length: u64,
    inspected_at: Seq<char>,
    written_at: Seq<char>,
)
    requires
        v.poisoned is None,
        holds(v, ticket),
        1 <= bytes.len() <= 65_536,
        is_own(facts, file, length),
        length + bytes.len() <= v.receiving[ticket.key].intent.bytes,
    ensures
        ({
            let first = append(v, ticket, length, bytes);
            let second = next(first, Event::Stage(facts), inspected_at);
            let last = next(second, Event::Effect(Ok(())), written_at);
            &&& asks(
                first,
                Action::Inspect { key: ticket.key, name: v.receiving[ticket.key].stage_name },
            )
            &&& asks(second, Action::Append { key: ticket.key, bytes })
            &&& answers(last, Answer::Written { end: (length + bytes.len()) as u64 })
            &&& length + bytes.len() <= u64::MAX
            &&& holds_the_same(first.store, v)
            &&& holds_the_same(second.store, v)
            &&& holds_the_same(last.store, v)
        }),
{
}

/// A chunk that cannot be written is refused with why, and nothing changes: one
/// without a transfer, one under another ticket, one that is empty or too long,
/// one that does not begin where the staging file ends or goes too far, one whose
/// staging file is no longer the transfer's own.
pub proof fn chunks_that_do_not_fit_are_refused(
    v: StoreView,
    ticket: TicketView,
    offset: u64,
    bytes: Seq<u8>,
    facts: StageFacts,
    at: Seq<char>,
)
    requires
        v.poisoned is None,
    ensures
        ({
            let first = append(v, ticket, offset, bytes);
            let second = next(first, Event::Stage(facts), at);
            let bad = ErrorKind::InvalidData;
            &&& holds_the_same(first.store, v)
            &&& holds_the_same(second.store, v)
            &&& !v.receiving.contains_key(ticket.key) ==> refuses(
                first,
                bad,
                "no live receive for ticket"@,
            )
            &&& v.receiving.contains_key(ticket.key) && v.receiving[ticket.key].ticket != ticket
                ==> refuses(first, bad, "stale or foreign ticket"@)
            &&& holds(v, ticket) && (bytes.len() == 0 || bytes.len() > 65_536) ==> refuses(
                first,
                bad,
                "invalid screenshot chunk size"@,
            )
            &&& holds(v, ticket) && 1 <= bytes.len() <= 65_536 ==> {
                &&& facts.named matches Err(e) ==> refuses(second, e.kind, e.message@)
                &&& facts.named matches Ok(named) ==> (!named.is_file ==> refuses(
                    second,
                    bad,
                    "receiving stage was replaced or hard-linked"@,
                ))
                &&& facts.named matches Ok(named) ==> (facts.held matches Ok(held) ==> (
                named.identity != held.identity || held.links != 1 ==> refuses(
                    second,
                    bad,
                    "receiving stage was replaced or hard-linked"@,
                )))
                &&& facts.held matches Ok(held) ==> (is_own(facts, held.identity, held.length) && (
                held.length != offset || held.length + bytes.len()
                    > v.receiving[ticket.key].intent.bytes) ==> refuses(
                    second,
                    bad,
                    "chunk offset or byte count exceeds manifest"@,
                ))
            }
        }),
{
}

/// Whether a new transfer of some bytes can be received: fewer than 4 are, they
/// announce no more than 67,108,864 bytes with this one, and fewer than 1,024
/// outcomes and observations are kept.
pub open spec fn has_a_place(v: StoreView, bytes: u64) -> bool {
    &&& v.receiving.len() < 4
    &&& total(v.receiving) + bytes <= 67_108_864
    &&& v.outcomes.len() < 1_024
    &&& v.observations.len() < 1_024
    &&& v.generation < u64::MAX
}

/// Whether the parts of an operation and of an attempt are identities.
pub open spec fn is_named(o: OperationId<Seq<char>>, a: Attempt<Seq<char>>) -> bool {
    is_id(o.slug) && is_id(o.caller) && is_id(o.operation_id) && is_id(a.call_id) && is_id(
        a.attempt_id,
    )
}

/// Whether nothing is known of a key.
pub open spec fn is_new(v: StoreView, key: Seq<char>) -> bool {
    !v.receiving.contains_key(key) && !v.records.contains_key(key) && !v.outcomes.contains_key(key)
}

/// A new transfer that has a place, for a destination that its slug may publish
/// at, is received: its staging file is created under a name of its own, and its
/// sender gets a ticket that was never issued before. Nothing else changes.
pub proof fn new_transfers_are_received(
    v: StoreView,
    operation: OperationId<Seq<char>>,
    attempt: Attempt<Seq<char>>,
    intent: Intent<Seq<char>>,
    facts: ParentFacts,
    random: [u8; 16],
    at: Seq<char>,
)
    requires
        v.poisoned is None,
        is_named(operation, attempt),
        intent_check(intent) is Ok,
        is_new(v, key_of(operation.slug, operation.operation_id)),
        has_a_place(v, intent.bytes),
        allowed(v.home, operation.slug, intent.destination, facts) is Ok,
    ensures
        ({
            let key = key_of(operation.slug, operation.operation_id);
            let name = ".wicket-screenshot-"@ + key + "-"@ + hex(random@) + ".stage"@;
            let first = begin(v, operation, attempt, intent);
            let second = next(first, Event::Survey(facts), at);
            let third = next(second, Event::Random(Ok(random)), at);
            let last = next(third, Event::Effect(Ok(())), at);
            let ticket = TicketView {
                key,
                owner: v.owner,
                generation: (v.generation + 1) as u64,
            };
            &&& asks(
                first,
                Action::Survey { slug: operation.slug, destination: intent.destination },
            )
            &&& asks(second, Action::Random)
            &&& asks(third, Action::CreateStage { key, name })
            &&& answers(last, Answer::Status(Status::Receiving { ticket, received: 0 }))
            &&& holds_the_same(
                last.store,
                StoreView {
                    generation: ticket.generation,
                    receiving: v.receiving.insert(
                        key,
                        Receiving {
                            operation,
                            attempt,
                            intent,
                            destination: allowed(
                                v.home,
                                operation.slug,
                                intent.destination,
                                facts,
                            )->Ok_0.0,
                            stage_name: name,
                            ticket,
                        },
                    ),
                    ..v
                },
            )
        }),
{
}

/// A transfer that cannot begin is refused with why, and nothing changes.
pub proof fn transfers_that_cannot_begin_are_refused(
    v: StoreView,
    operation: OperationId<Seq<char>>,
    attempt: Attempt<Seq<char>>,
    intent: Intent<Seq<char>>,
)
    requires
        is_new(v, key_of(operation.slug, operation.operation_id)),
    ensures
        ({
            let t = begin(v, operation, attempt, intent);
            let bad = ErrorKind::InvalidData;
            &&& holds_the_same(t.store, v)
            &&& !is_named(operation, attempt) ==> refuses(
                t,
                bad,
                "identity must contain 1..128 ASCII letters, digits, hyphens or underscores"@,
            )
            &&& is_named(operation, attempt) ==> (intent_check(intent) matches Err(why) ==> refuses(
                t,
                why.kind,
                why.message,
            ))
            &&& is_named(operation, attempt) && intent_check(intent) is Ok ==> {
                &&& v.poisoned matches Some(why) ==> refuses(t, ErrorKind::Other, why)
                &&& v.poisoned is None && (v.receiving.len() >= 4 || total(v.receiving)
                    + intent.bytes > 67_108_864) ==> refuses(
                    t,
                    bad,
                    "screenshot receive admission limit reached"@,
                )
                &&& v.poisoned is None && v.receiving.len() < 4 && total(v.receiving)
                    + intent.bytes <= 67_108_864 && !has_a_place(v, intent.bytes) ==> refuses(
                    t,
                    bad,
                    "screenshot session capacity reached"@,
                )
            }
        }),
{
}

/// A transfer whose destination may not be published at, or whose staging file
/// cannot be named or created, is refused with why, and nothing changes.
pub proof fn transfers_that_cannot_be_staged_are_refused(
    v: StoreView,
    operation: OperationId<Seq<char>>,
    attempt: Attempt<Seq<char>>,
    intent: Intent<Seq<char>>,
    facts: ParentFacts,
    random: [u8; 16],
    e: Error,
    at: Seq<char>,
)
    requires
        v.poisoned is None,
        is_named(operation, attempt),
        intent_check(intent) is Ok,
        is_new(v, key_of(operation.slug, operation.operation_id)),
        has_a_place(v, intent.bytes),
    ensures
        ({
            let second = next(begin(v, operation, attempt, intent), Event::Survey(facts), at);
            let third = next(second, Event::Random(Ok(random)), at);
            let unnamed = next(second, Event::Random(Err(e)), at);
            let uncreated = next(third, Event::Effect(Err(e)), at);
            match allowed(v.home, operation.slug, intent.destination, facts) {
                Err(why) => refuses(second, why.kind, why.message) && holds_the_same(
                    second.store,
                    v,
                ),
                Ok(_) => {
                    &&& refuses(unnamed, e.kind, e.message@)
                    &&& refuses(uncreated, e.kind, e.message@)
                    &&& holds_the_same(unnamed.store, v)
                    &&& holds_the_same(uncreated.store, v)
                },
            }
        }),
{
}

/// A transfer that is being received is found under its operation, and begun anew
/// under the same attempt and intent it goes on: either way its sender gets the
/// ticket it holds, and how long its staging file is. Nothing changes.
pub proof fn transfers_go_on(
    v: StoreView,
    operation: OperationId<Seq<char>>,
    attempt: Attempt<Seq<char>>,
    intent: Intent<Seq<char>>,
    length: u64,
    at: Seq<char>,
)
    requires
        v.poisoned is None,
        is_named(operation, attempt),
        intent_check(intent) is Ok,
        ({
            let key = key_of(operation.slug, operation.operation_id);
            &&& !v.records.contains_key(key)
            &&& !v.outcomes.contains_key(key)
            &&& v.receiving.contains_key(key)
            &&& v.receiving[key].operation == operation
            &&& v.receiving[key].attempt == attempt
            &&& v.receiving[key].intent == intent
        }),
    ensures
        ({
            let key = key_of(operation.slug, operation.operation_id);
            let status = Status::Receiving {
                ticket: v.receiving[key].ticket,
                received: length,
            };
            let again = begin(v, operation, attempt, intent);
            let asked = lookup(v, operation);
            &&& asks(again, Action::Length { key })
            &&& asks(asked, Action::Length { key })
            &&& answers(next(again, Event::Length(Ok(length)), at), Answer::Status(status))
            &&& answers(next(asked, Event::Length(Ok(length)), at), Answer::Found(Some(status)))
            &&& holds_the_same(next(again, Event::Length(Ok(length)), at).store, v)
            &&& holds_the_same(next(asked, Event::Length(Ok(length)), at).store, v)
        }),
{
}

/// A lookup of what is not known finds nothing.
pub proof fn unknown_operations_are_not_found(v: StoreView, operation: OperationId<Seq<char>>)
    requires
        is_id(operation.slug) && is_id(operation.caller) && is_id(operation.operation_id),
        is_new(v, key_of(operation.slug, operation.operation_id)),
    ensures
        answers(lookup(v, operation), Answer::Found(None)),
        holds_the_same(lookup(v, operation).store, v),
{
}

/// Another caller, another attempt or another intent under the same operation is
/// told apart, whether the operation is being received, accepted or ended.
pub proof fn conflicting_operations_are_refused(
    v: StoreView,
    operation: OperationId<Seq<char>>,
    attempt: Attempt<Seq<char>>,
    intent: Intent<Seq<char>>,
)
    requires
        is_named(operation, attempt),
        intent_check(intent) is Ok,
    ensures
        ({
            let key = key_of(operation.slug, operation.operation_id);
            let t = begin(v, operation, attempt, intent);
            let bad = ErrorKind::InvalidData;
            let taken = "operation identity or caller conflicts"@;
            let bound = "operation ID already binds different intent"@;
            let live = !v.records.contains_key(key) && !v.outcomes.contains_key(key)
                && v.poisoned is None && v.receiving.contains_key(key);
            &&& v.records.contains_key(key) && v.records[key].operation != operation ==> refuses(
                t,
                bad,
                taken,
            ) && refuses(lookup(v, operation), bad, taken)
            &&& !v.records.contains_key(key) && v.outcomes.contains_key(key)
                && v.outcomes[key].operation != operation ==> refuses(t, bad, taken) && refuses(
                lookup(v, operation),
                bad,
                taken,
            )
            &&& live && v.receiving[key].operation != operation ==> refuses(t, bad, taken)
                && refuses(lookup(v, operation), bad, taken)
            &&& v.records.contains_key(key) && v.records[key].operation == operation
                && !is_same_intent(intent, v.records[key].intent) ==> refuses(t, bad, bound)
            &&& !v.records.contains_key(key) && v.outcomes.contains_key(key)
                && v.outcomes[key].operation == operation && !is_same_intent(
                intent,
                v.outcomes[key].requested,
            ) ==> refuses(t, bad, bound)
            &&& live && v.receiving[key].operation == operation && !is_same_intent(
                intent,
                v.receiving[key].intent,
            ) ==> refuses(t, bad, bound)
            &&& live && v.receiving[key].operation == operation && v.receiving[key].intent
                == intent && v.receiving[key].attempt != attempt ==> refuses(
                t,
                bad,
                "live attempt must be explicitly replaced"@,
            )
            &&& holds_the_same(t.store, v)
        }),
{
}

/// A transfer that ended before it was accepted is found with its receipt, by a
/// lookup and by another beginning.
pub proof fn ended_transfers_are_found(
    v: StoreView,
    operation: OperationId<Seq<char>>,
    attempt: Attempt<Seq<char>>,
    intent: Intent<Seq<char>>,
)
    requires
        is_named(operation, attempt),
        intent_check(intent) is Ok,
        ({
            let key = key_of(operation.slug, operation.operation_id);
            &&& !v.records.contains_key(key)
            &&& v.outcomes.contains_key(key)
            &&& v.outcomes[key].operation == operation
            &&& v.outcomes[key].requested == intent
        }),
    ensures
        ({
            let key = key_of(operation.slug, operation.operation_id);
            let status = Status::Terminal(Box::new(v.outcomes[key]));
            &&& answers(lookup(v, operation), Answer::Found(Some(status)))
            &&& answers(begin(v, operation, attempt, intent), Answer::Status(status))
        }),
{
}

/// The attempt of a transfer is replaced by another: its staging file is emptied,
/// and the new attempt gets a ticket that was never issued before. The operation,
/// the intent, the destination and the staging file stay, and nothing else
/// changes.
pub proof fn attempts_are_replaced(
    v: StoreView,
    ticket: TicketView,
    attempt: Attempt<Seq<char>>,
    facts: StageFacts,
    file: Identity,
    length: u64,
    at: Seq<char>,
)
    requires
        v.poisoned is None,
        holds(v, ticket),
        is_id(attempt.call_id) && is_id(attempt.attempt_id),
        attempt.attempt_id != v.receiving[ticket.key].attempt.attempt_id,
        v.generation < u64::MAX,
        is_own(facts, file, length),
    ensures
        ({
            let key = ticket.key;
            let live = v.receiving[key];
            let first = replace(v, ticket, attempt);
            let second = next(first, Event::Stage(facts), at);
            let last = next(second, Event::Effect(Ok(())), at);
            let issued = TicketView {
                key,
                owner: v.owner,
                generation: (v.generation + 1) as u64,
            };
            &&& asks(first, Action::Inspect { key, name: live.stage_name })
            &&& asks(second, Action::Truncate { key })
            &&& answers(last, Answer::Ticket(issued))
            &&& holds_the_same(first.store, v)
            &&& holds_the_same(second.store, v)
            &&& holds_the_same(
                last.store,
                StoreView {
                    generation: issued.generation,
                    receiving: v.receiving.insert(
                        key,
                        Receiving {
                            operation: live.operation,
                            attempt,
                            intent: live.intent,
                            destination: live.destination,
                            stage_name: live.stage_name,
                            ticket: issued,
                        },
                    ),
                    ..v
                },
            )
        }),
{
}

/// An attempt that cannot be replaced stays, and whoever asked is told why.
pub proof fn attempts_that_cannot_be_replaced_stay(
    v: StoreView,
    ticket: TicketView,
    attempt: Attempt<Seq<char>>,
)
    requires
        v.poisoned is None,
    ensures
        ({
            let t = replace(v, ticket, attempt);
            let bad = ErrorKind::InvalidData;
            let named = is_id(attempt.call_id) && is_id(attempt.attempt_id);
            &&& !named ==> refuses(t, bad, "identity must contain 1..128 ASCII letters, digits, hyphens or underscores"@)
            &&& named && !v.receiving.contains_key(ticket.key) ==> refuses(
                t,
                bad,
                "no live receive for ticket"@,
            )
            &&& named && v.receiving.contains_key(ticket.key) && !holds(v, ticket) ==> refuses(
                t,
                bad,
                "stale or foreign ticket"@,
            )
            &&& named && holds(v, ticket) && v.receiving[ticket.key].attempt.attempt_id
                == attempt.attempt_id ==> refuses(
                t,
                bad,
                "replacement needs a new attempt identity"@,
            )
            &&& named && holds(v, ticket) && v.receiving[ticket.key].attempt.attempt_id
                != attempt.attempt_id && v.generation == u64::MAX ==> refuses(
                t,
                bad,
                "screenshot session capacity reached"@,
            )
            &&& holds_the_same(t.store, v)
        }),
{
}

/// Whether a receipt ends a transfer before it was accepted.
pub open spec fn ends(
    receipt: Receipt<Seq<char>>,
    live: ReceivingView,
    outcome: Outcome<Seq<char>>,
    at: Seq<char>,
) -> bool {
    &&& receipt.operation == live.operation
    &&& receipt.attempt == live.attempt
    &&& receipt.event_id == live.stage_name + "-"@ + decimal(live.ticket.generation as nat)
        + "-temporary"@
    &&& receipt.requested == live.intent
    &&& receipt.destination == live.destination
    &&& receipt.verified is None
    &&& receipt.accepted_at is None
    &&& receipt.observed_at == at
    &&& receipt.outcome == outcome
}

/// Whether a turn ends a transfer before it is accepted: its receipt is kept in
/// its place, and its staging file is inspected. Once that shows the transfer's
/// own file, the file is removed; either way the receipt is observed and is the
/// answer.
pub open spec fn gives_up(
    v: StoreView,
    t: Turn,
    key: Seq<char>,
    outcome: Outcome<Seq<char>>,
    at: Seq<char>,
    facts: StageFacts,
    later: Seq<char>,
) -> bool {
    let live = v.receiving[key];
    let receipt = t.store.outcomes[key];
    let second = next(t, Event::Stage(facts), later);
    let last = if exists|file: Identity, length: u64| is_own(facts, file, length) {
        next(second, Event::Removed(Removal::Removed), later)
    } else {
        second
    };
    &&& ends(receipt, live, outcome, at)
    &&& holds_the_same(
        t.store,
        StoreView {
            receiving: v.receiving.remove(key),
            outcomes: v.outcomes.insert(key, receipt),
            ..v
        },
    )
    &&& asks(t, Action::Inspect { key: live.ticket.key, name: live.stage_name })
    &&& (exists|file: Identity, length: u64| is_own(facts, file, length)) ==> asks(
        second,
        Action::Discard { key: live.ticket.key, name: live.stage_name },
    )
    &&& answers(last, Answer::Status(Status::Terminal(Box::new(receipt))))
    &&& holds_the_same(
        last.store,
        StoreView { observations: v.observations.push(receipt_seen(receipt)), ..t.store },
    )
}

pub(crate) proof fn giving_up_ends_with_the_receipt(
    v: StoreView,
    key: Seq<char>,
    outcome: Outcome<Seq<char>>,
    at: Seq<char>,
    facts: StageFacts,
    later: Seq<char>,
)
    requires
        v.receiving.contains_key(key),
        v.receiving[key].ticket.key == key,
    ensures
        gives_up(
            v,
            crate::protocol::discard(
                v,
                key,
                Some(crate::observation::temporary(v.receiving[key], outcome, at)),
            ),
            key,
            outcome,
            at,
            facts,
            later,
        ),
{
    if facts.held is Ok {
        let held = facts.held->Ok_0;
        if crate::facts::stage_check(facts) is Ok {
            assert(is_own(facts, held.identity, held.length));
        }
    }
}

/// A transfer that is cancelled is given up as aborted.
pub proof fn cancelled_transfers_are_aborted(
    v: StoreView,
    operation: OperationId<Seq<char>>,
    ticket: TicketView,
    at: Seq<char>,
    facts: StageFacts,
    later: Seq<char>,
)
    requires
        is_id(operation.slug) && is_id(operation.caller) && is_id(operation.operation_id),
        ticket.key == key_of(operation.slug, operation.operation_id),
        ticket.owner == v.owner,
        holds(v, ticket),
        v.receiving[ticket.key].operation == operation,
        !v.records.contains_key(ticket.key),
        !v.outcomes.contains_key(ticket.key),
    ensures
        gives_up(
            v,
            cancel(v, operation, ticket, at),
            ticket.key,
            Outcome::Aborted,
            at,
            facts,
            later,
        ),
{
    giving_up_ends_with_the_receipt(v, ticket.key, Outcome::Aborted, at, facts, later);
}

/// A transfer whose store is closed is forgotten, and its staging file is removed
/// if it is the transfer's own.
pub proof fn closing_forgets_transfers(
    v: StoreView,
    key: Seq<char>,
    facts: StageFacts,
    file: Identity,
    length: u64,
    at: Seq<char>,
)
    requires
        v.receiving.contains_key(key),
        v.receiving[key].ticket.key == key,
        is_own(facts, file, length),
    ensures
        ({
            let live = v.receiving[key];
            let first = dismiss(v, key);
            let second = next(first, Event::Stage(facts), at);
            let last = next(second, Event::Removed(Removal::Removed), at);
            &&& asks(first, Action::Inspect { key, name: live.stage_name })
            &&& asks(second, Action::Discard { key, name: live.stage_name })
            &&& answers(last, Answer::Recovered)
            &&& holds_the_same(
                last.store,
                StoreView { receiving: v.receiving.remove(key), ..v },
            )
        }),
{
}

/// A step that the file system failed is refused with why, and nothing changes.
pub proof fn failures_are_told(
    v: StoreView,
    ticket: TicketView,
    bytes: Seq<u8>,
    attempt: Attempt<Seq<char>>,
    facts: StageFacts,
    file: Identity,
    length: u64,
    e: Error,
    at: Seq<char>,
)
    requires
        v.poisoned is None,
        holds(v, ticket),
        is_own(facts, file, length),
    ensures
        ({
            let written = next(
                next(append(v, ticket, length, bytes), Event::Stage(facts), at),
                Event::Effect(Err(e)),
                at,
            );
            let emptied = next(
                next(replace(v, ticket, attempt), Event::Stage(facts), at),
                Event::Effect(Err(e)),
                at,
            );
            let replaced = next(replace(v, ticket, attempt), Event::Stage(facts), at);
            &&& 1 <= bytes.len() <= 65_536 && length + bytes.len()
                <= v.receiving[ticket.key].intent.bytes ==> refuses(written, e.kind, e.message@)
                && holds_the_same(written.store, v)
            &&& is_id(attempt.call_id) && is_id(attempt.attempt_id) && attempt.attempt_id
                != v.receiving[ticket.key].attempt.attempt_id && v.generation < u64::MAX
                ==> refuses(emptied, e.kind, e.message@) && holds_the_same(emptied.store, v)
                && asks(replaced, Action::Truncate { key: ticket.key })
        }),
{
}

/// A transfer whose staging file cannot be measured is answered with why.
pub proof fn unmeasured_files_are_told(
    v: StoreView,
    operation: OperationId<Seq<char>>,
    e: Error,
    at: Seq<char>,
)
    requires
        is_id(operation.slug) && is_id(operation.caller) && is_id(operation.operation_id),
        ({
            let key = key_of(operation.slug, operation.operation_id);
            &&& !v.records.contains_key(key)
            &&& !v.outcomes.contains_key(key)
            &&& v.receiving.contains_key(key)
            &&& v.receiving[key].operation == operation
        }),
    ensures
        ({
            let t = next(lookup(v, operation), Event::Length(Err(e)), at);
            refuses(t, e.kind, e.message@) && holds_the_same(t.store, v)
        }),
{
}

/// A staging file that could not be removed, or whose removal may not be durable,
/// is observed before the receipt is; and the answer is the receipt all the same.
pub proof fn leftover_staging_files_are_observed(
    v: StoreView,
    operation: OperationId<Seq<char>>,
    ticket: TicketView,
    facts: StageFacts,
    file: Identity,
    length: u64,
    e: Error,
    at: Seq<char>,
)
    requires
        is_id(operation.slug) && is_id(operation.caller) && is_id(operation.operation_id),
        ticket.key == key_of(operation.slug, operation.operation_id),
        ticket.owner == v.owner,
        holds(v, ticket),
        v.receiving[ticket.key].operation == operation,
        !v.records.contains_key(ticket.key),
        !v.outcomes.contains_key(ticket.key),
        is_own(facts, file, length),
    ensures
        ({
            let live = v.receiving[ticket.key];
            let first = cancel(v, operation, ticket, at);
            let receipt = first.store.outcomes[ticket.key];
            let second = next(first, Event::Stage(facts), at);
            let stayed = next(second, Event::Removed(Removal::NotUnlinked(e)), at);
            let unsure = next(second, Event::Removed(Removal::NotSynced(e)), at);
            let seen = |unlinked: bool|
                v.observations.push(
                    cleanup_seen(
                        live.destination,
                        live.stage_name,
                        live.operation,
                        unlinked,
                        e.message@,
                    ),
                ).push(receipt_seen(receipt));
            &&& answers(stayed, Answer::Status(Status::Terminal(Box::new(receipt))))
            &&& answers(unsure, Answer::Status(Status::Terminal(Box::new(receipt))))
            &&& stayed.store.observations == seen(false)
            &&& unsure.store.observations == seen(true)
        }),
{
}

/// An event that the store does not wait for is refused, and changes nothing.
pub proof fn unexpected_events_are_refused(v: StoreView, event: Event, at: Seq<char>)
    requires
        v.pending is Idle,
    ensures
        refuses(
            resumed(v, event, at),
            ErrorKind::InvalidData,
            "the store does not wait for this event"@,
        ),
        holds_the_same(resumed(v, event, at).store, v),
{
}

/// A store that is frozen refuses chunks, replacements and the end of a transfer,
/// with why it is frozen, and changes nothing.
pub proof fn frozen_stores_refuse_to_write(
    v: StoreView,
    operation: OperationId<Seq<char>>,
    ticket: TicketView,
    offset: u64,
    bytes: Seq<u8>,
    attempt: Attempt<Seq<char>>,
    reason: Seq<char>,
)
    requires
        v.poisoned == Some(reason),
    ensures
        refuses(append(v, ticket, offset, bytes), ErrorKind::Other, reason),
        refuses(replace(v, ticket, attempt), ErrorKind::Other, reason),
        is_id(operation.slug) && is_id(operation.caller) && is_id(operation.operation_id)
            && ticket.key == key_of(operation.slug, operation.operation_id) && ticket.owner
            == v.owner && !v.records.contains_key(ticket.key) && !v.outcomes.contains_key(
            ticket.key,
        ) ==> refuses(finish(v, operation, ticket), ErrorKind::Other, reason),
        holds_the_same(append(v, ticket, offset, bytes).store, v),
        holds_the_same(replace(v, ticket, attempt).store, v),
{
}

} // verus!
