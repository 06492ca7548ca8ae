//! What it means that a journal entry may have landed or not.

use vstd::prelude::*;

use crate::action::{After, Answer, Event, Pending, PendingView, Step};
use crate::error::{Error, ErrorKind};
use crate::evidence::{is_published, publication_is_seen};
use crate::laws::{
    a_frozen_store_writes_nothing, calls_change, changes, intent_of, is_write, keeps,
    nothing_is_lost,
};
use crate::model::{is_same_intent, Attempt, Intent, OperationId, Status, TicketView};
use crate::protocol;
use crate::protocol::{record_standing, StoreView};
use crate::rules::{attempt_check, intent_check, key_of_operation};
use crate::soundness::{after_calls, is_due, is_kept, sound, stays_sound, turn, Call};

verus! {

/// A failed write of an acceptance is answered as unresolved, never as a
/// failure: the record and its staging file are kept, nothing is observed, and
/// the store is frozen.
pub proof fn an_uncertain_acceptance_is_unresolved(
    v: StoreView,
    key: Seq<char>,
    e: Error,
    at: Seq<char>,
)
    requires
        sound(v),
        v.pending == (PendingView::AcceptJournal { key }),
    ensures
        ({
            let t = protocol::resumed(v, Event::Effect(Err(e)), at);
            let reason = "journal synchronization uncertain: "@ + e.message@
                + "; reopen the capability"@;
            &&& v.records.contains_key(key)
            &&& v.records[key].terminal is None
            &&& t.store == (StoreView { pending: Pending::Idle, poisoned: Some(reason), ..v })
            &&& t.step == Step::<Seq<char>, TicketView, Seq<u8>>::Done(
                Ok(
                    Answer::Status(
                        Status::Unresolved {
                            operation: v.records[key].operation,
                            destination: v.records[key].destination,
                            published: None,
                            reason,
                        },
                    ),
                ),
            )
        }),
{
    reveal(sound);
}

/// A frozen store changes no accepted operation any more, whatever is called:
/// none gets a receipt, none is published or counts as published, and none is
/// added. It stays frozen, for the same reason.
pub proof fn a_frozen_store_resolves_nothing(v: StoreView, call: Call, at: Seq<char>)
    requires
        sound(v),
        v.poisoned is Some,
    ensures
        turn(v, call, at).store.poisoned == v.poisoned,
        turn(v, call, at).store.records == v.records,
        forall|k: Seq<char>| #[trigger]
            is_published(turn(v, call, at).store, k) ==> is_published(v, k),
        turn(v, call, at).step matches Step::Act(action) ==> !is_write(action),
{
    let w = turn(v, call, at).store;
    a_frozen_store_writes_nothing(v, call, at);
    assert(is_due(v)) by {
        reveal(sound);
    }
    assert(w.records == v.records) by {
        calls_change(v, call, at);
        reveal(changes);
    }
    assert forall|k: Seq<char>| #[trigger] is_published(w, k) implies is_published(v, k) by {
        if !is_published(v, k) {
            publication_is_seen(v, call, at, k);
        }
    }
}

/// Asked for in any way, an accepted operation without a receipt in a frozen
/// store is answered at once, as unresolved and with the reason why the store
/// is frozen; and the asking changes nothing.
pub proof fn frozen_operations_are_unresolved(
    v: StoreView,
    key: Seq<char>,
    reason: Seq<char>,
    attempt: Attempt<Seq<char>>,
    intent: Intent<Seq<char>>,
    ticket: TicketView,
    at: Seq<char>,
)
    requires
        sound(v),
        v.poisoned == Some(reason),
        v.records.contains_key(key),
        v.records[key].terminal is None,
        attempt_check(attempt) is Ok,
        intent_check(intent) is Ok,
        is_same_intent(intent, intent_of(v, key)),
        ticket.key == key,
        ticket.owner == v.owner,
    ensures
        ({
            let operation = v.records[key].operation;
            let status = record_standing(v, key);
            &&& status matches Status::Unresolved { operation: o, reason: r, .. } && o == operation
                && r == reason
            &&& protocol::lookup(v, operation) == protocol::found(v, status, After::Found)
            &&& protocol::begin(v, operation, attempt, intent) == protocol::found(
                v,
                status,
                After::Status,
            )
            &&& protocol::finish(v, operation, ticket) == protocol::found(
                v,
                status,
                After::Status,
            )
            &&& protocol::cancel(v, operation, ticket, at) == protocol::found(
                v,
                status,
                After::Status,
            )
        }),
{
    assert(is_kept(key, v.records[key])) by {
        reveal(sound);
    }
}

/// A frozen store refuses every chunk and every replacement, and it neither
/// begins nor finishes an operation that has no outcome yet.
pub proof fn a_frozen_store_refuses(
    v: StoreView,
    reason: Seq<char>,
    operation: OperationId<Seq<char>>,
    attempt: Attempt<Seq<char>>,
    intent: Intent<Seq<char>>,
    ticket: TicketView,
    offset: u64,
    bytes: Seq<u8>,
)
    requires
        v.poisoned == Some(reason),
    ensures
        ({
            let frozen = protocol::refused(v, Error { kind: ErrorKind::Other, message: reason });
            &&& protocol::append(v, ticket, offset, bytes) == frozen
            &&& protocol::replace(v, ticket, attempt) == frozen
            &&& key_of_operation(operation) matches Ok(key) ==> (!v.records.contains_key(key)
                && !v.outcomes.contains_key(key) ==> {
                &&& attempt_check(attempt) is Ok && intent_check(intent) is Ok ==> protocol::begin(
                    v,
                    operation,
                    attempt,
                    intent,
                ) == frozen
                &&& ticket.key == key && ticket.owner == v.owner ==> protocol::finish(
                    v,
                    operation,
                    ticket,
                ) == frozen
            })
        }),
{
}

/// A frozen store stays as it is, whatever is called.
proof fn frozen_stores_stay(v: StoreView, calls: Seq<(Call, Seq<char>)>, key: Seq<char>)
    requires
        sound(v),
        v.poisoned is Some,
        !is_published(v, key),
    ensures
        sound(after_calls(v, calls)),
        after_calls(v, calls).poisoned == v.poisoned,
        after_calls(v, calls).records == v.records,
        after_calls(v, calls).owner == v.owner,
        !is_published(after_calls(v, calls), key),
    decreases calls.len(),
{
    if calls.len() > 0 {
        let w = after_calls(v, calls.drop_last());
        let (call, at) = calls.last();
        frozen_stores_stay(v, calls.drop_last(), key);
        stays_sound(w, call, at);
        a_frozen_store_resolves_nothing(w, call, at);
        assert(turn(w, call, at).store.owner == w.owner) by {
            nothing_is_lost(w, call, at);
            reveal(keeps);
        }
    }
}

/// What a failed write of an acceptance means for every later call: the
/// operation stays unresolved, and is answered so when it is looked up, begun
/// again, finished or cancelled; it never counts as published; and no chunk and
/// no replacement is taken any more.
pub proof fn an_uncertain_acceptance_stays_unresolved(
    v: StoreView,
    key: Seq<char>,
    e: Error,
    now: Seq<char>,
    calls: Seq<(Call, Seq<char>)>,
    attempt: Attempt<Seq<char>>,
    intent: Intent<Seq<char>>,
    ticket: TicketView,
    offset: u64,
    bytes: Seq<u8>,
    at: Seq<char>,
)
    requires
        sound(v),
        v.pending == (PendingView::AcceptJournal { key }),
        attempt_check(attempt) is Ok,
        intent_check(intent) is Ok,
        is_same_intent(intent, intent_of(v, key)),
        ticket.key == key,
        ticket.owner == v.owner,
    ensures
        ({
            let reason = "journal synchronization uncertain: "@ + e.message@
                + "; reopen the capability"@;
            let w = after_calls(
                protocol::resumed(v, Event::Effect(Err(e)), now).store,
                calls,
            );
            let operation = v.records[key].operation;
            let status = record_standing(w, key);
            let frozen = protocol::refused(w, Error { kind: ErrorKind::Other, message: reason });
            &&& w.records == v.records
            &&& !is_published(w, key)
            &&& status matches Status::Unresolved { operation: o, published, reason: r, .. } && o
                == operation && published != Some(true) && r == reason
            &&& protocol::lookup(w, operation) == protocol::found(w, status, After::Found)
            &&& protocol::begin(w, operation, attempt, intent) == protocol::found(
                w,
                status,
                After::Status,
            )
            &&& protocol::finish(w, operation, ticket) == protocol::found(
                w,
                status,
                After::Status,
            )
            &&& protocol::cancel(w, operation, ticket, at) == protocol::found(
                w,
                status,
                After::Status,
            )
            &&& protocol::append(w, ticket, offset, bytes) == frozen
            &&& protocol::replace(w, ticket, attempt) == frozen
        }),
{
    let reason = "journal synchronization uncertain: "@ + e.message@ + "; reopen the capability"@;
    let event = Event::Effect(Err(e));
    let u = protocol::resumed(v, event, now).store;
    an_uncertain_acceptance_is_unresolved(v, key, e, now);
    stays_sound(v, Call::Resume { event }, now);
    assert(!is_published(u, key)) by {
        reveal(sound);
    }
    frozen_stores_stay(u, calls, key);
    let w = after_calls(u, calls);
    assert(!w.linked.contains(key)) by {
        reveal(sound);
    }
    frozen_operations_are_unresolved(w, key, reason, attempt, intent, ticket, at);
    a_frozen_store_refuses(
        w,
        reason,
        v.records[key].operation,
        attempt,
        intent,
        ticket,
        offset,
        bytes,
    );
}

} // verus!
