//! What the owner of the store is for: which commands it takes, what they ask of
//! the store, and how they are answered.

use vstd::prelude::*;

use crate::action::{Action, ActionView, Answer, Event, Step};
use crate::adapter::{
    handled, live_key, opened, wire_resumed, AdapterView, Await, Live, WireStepView, WireTurn,
};
use crate::encoding::base64_decoded;
use crate::facts::StageFacts;
use crate::identity::{is_id, key_of};
use crate::model::{is_same_intent, Identity, Intent, Outcome, Receipt, Status, TicketView};
use crate::policy::{allowed, ParentFacts};
use crate::protocol::{cancel, finish, lookup, resumed, StoreView};
use crate::rules::intent_check;
use crate::text::{byte_count, hex};
use crate::transfer_laws::{has_a_place, holds, holds_the_same, is_named, is_new, is_own};
use crate::wire::{parsed, request_check, status_reply, Reply, Request};

verus! {

/// Whether a command comes from where commands may come from.
pub open spec fn is_addressed(r: Request<Seq<char>>) -> bool {
    &&& r.what == "screenshot_save"@
    &&& r.binding.operation.caller == "shotgun"@
    &&& is_id(r.binding.operation.slug)
    &&& is_id(r.binding.operation.operation_id)
    &&& is_id(r.binding.attempt.call_id)
    &&& is_id(r.binding.attempt.attempt_id)
}

/// A command is taken exactly if it is one of five and has the fields that it
/// needs and no others: an intent to begin, an offset and data of at most 87,384
/// bytes for a chunk, nothing to finish, cancel or ask for the status.
pub proof fn commands_are_taken_with_their_fields(r: Request<Seq<char>>)
    ensures
        ({
            let bare = r.intent is None && r.offset is None && r.data is None;
            let begins = r.intent is Some && r.offset is None && r.data is None;
            let carries = r.intent is None && r.offset is Some && r.data is Some && byte_count(
                r.data->Some_0,
            ) <= 87_384;
            &&& r.why == "begin"@ ==> (request_check(r) is Ok <==> is_addressed(r) && begins)
            &&& r.why == "chunk"@ ==> (request_check(r) is Ok <==> is_addressed(r) && carries)
            &&& r.why == "finish"@ || r.why == "cancel"@ || r.why == "status"@ ==> (request_check(
                r,
            ) is Ok <==> is_addressed(r) && bare)
            &&& request_check(r) is Ok ==> r.why == "begin"@ || r.why == "chunk"@ || r.why
                == "finish"@ || r.why == "cancel"@ || r.why == "status"@
            &&& !is_addressed(r) ==> request_check(r) == Err::<(), Seq<char>>(
                "invalid screenshot binding"@,
            )
            &&& is_addressed(r) && request_check(r) is Err ==> request_check(r) == Err::<
                (),
                Seq<char>,
            >("invalid screenshot command fields"@)
        }),
{
    reveal_strlit("begin");
    reveal_strlit("chunk");
    reveal_strlit("finish");
    reveal_strlit("cancel");
    reveal_strlit("status");
    assert("begin"@[0] == 'b' && "chunk"@[1] == 'h' && "finish"@[0] == 'f' && "cancel"@[1] == 'a'
        && "status"@[0] == 's');
    assert("chunk"@[0] == 'c' && "cancel"@[0] == 'c');
}

/// A text of at most 98,304 bytes is taken for the command that it holds, if that
/// is one that is taken.
pub proof fn short_texts_are_taken(text: Seq<char>, r: Request<Seq<char>>)
    ensures
        byte_count(text) > 98_304 ==> parsed(text, Some(r)) == Err::<
            Request<Seq<char>>,
            Seq<char>,
        >("screenshot packet exceeds limit"@) && parsed(text, None) == Err::<
            Request<Seq<char>>,
            Seq<char>,
        >("screenshot packet exceeds limit"@),
        byte_count(text) <= 98_304 ==> {
            &&& parsed(text, None) == Err::<Request<Seq<char>>, Seq<char>>(
                "invalid screenshot command"@,
            )
            &&& request_check(r) is Ok ==> parsed(text, Some(r)) == Ok::<
                Request<Seq<char>>,
                Seq<char>,
            >(r)
            &&& request_check(r) matches Err(why) ==> parsed(text, Some(r)) == Err::<
                Request<Seq<char>>,
                Seq<char>,
            >(why)
        },
{
}

/// Whether a step asks for an action of the store.
pub open spec fn asks_for(t: WireTurn, action: ActionView) -> bool {
    t.step == WireStepView::Act(action)
}

/// Whether a step answers a command, in a word, and waits for nothing more.
pub open spec fn replies(
    t: WireTurn,
    request: Request<Seq<char>>,
    why: Seq<char>,
    reason: Option<Seq<char>>,
    next_offset: Option<u64>,
    receipt: Option<Receipt<Seq<char>>>,
) -> bool {
    &&& t.step == WireStepView::Done(
        Reply {
            why,
            binding: request.binding,
            sequence: request.sequence,
            reason,
            next_offset,
            receipt,
        },
    )
    &&& t.adapter.awaiting == Await::<Seq<char>, TicketView>::Idle
}

/// Whether a command is for a transfer that the owner knows, and is its turn.
pub open spec fn is_next(v: AdapterView, request: Request<Seq<char>>, ticket: TicketView) -> bool {
    let key = live_key(request.binding.operation);
    &&& v.live.contains_key(key)
    &&& v.live[key].binding == request.binding
    &&& v.live[key].ticket == ticket
    &&& v.live[key].sequence < request.sequence
}

/// The live transfers, once a command was their turn.
pub open spec fn counted(v: AdapterView, request: Request<Seq<char>>) -> Map<
    Seq<char>,
    Live<Seq<char>, TicketView>,
> {
    let key = live_key(request.binding.operation);
    v.live.insert(
        key,
        Live {
            binding: v.live[key].binding,
            intent: v.live[key].intent,
            ticket: v.live[key].ticket,
            sequence: request.sequence,
        },
    )
}

/// A chunk of 1 to 65,536 bytes that begins where the staging file ends and goes no
/// further than the transfer announced is written as it was sent, and is
/// acknowledged with where it ends.
pub proof fn chunks_are_acknowledged(
    v: AdapterView,
    store: StoreView,
    request: Request<Seq<char>>,
    ticket: TicketView,
    data: Seq<char>,
    bytes: Seq<u8>,
    facts: StageFacts,
    file: Identity,
    length: u64,
    at: Seq<char>,
)
    requires
        v.store == Some(store),
        store.poisoned is None,
        request.why == "chunk"@,
        request.intent is None,
        request.offset == Some(length),
        request.data == Some(data),
        base64_decoded(data) == Some(bytes),
        1 <= bytes.len() <= 65_536,
        is_next(v, request, ticket),
        holds(store, ticket),
        is_own(facts, file, length),
        length + bytes.len() <= store.receiving[ticket.key].intent.bytes,
    ensures
        ({
            let first = handled(v, request, at);
            let second = wire_resumed(first.adapter, Event::Stage(facts), at);
            let last = wire_resumed(second.adapter, Event::Effect(Ok(())), at);
            &&& asks_for(
                first,
                Action::Inspect {
                    key: ticket.key,
                    name: store.receiving[ticket.key].stage_name,
                },
            )
            &&& asks_for(second, Action::Append { key: ticket.key, bytes })
            &&& replies(last, request, "ack"@, None, Some((length + bytes.len()) as u64), None)
            &&& last.adapter.store matches Some(after)
            &&& holds_the_same(after, store)
            &&& last.adapter.live == counted(v, request)
        }),
{
    reveal_strlit("begin");
    reveal_strlit("chunk");
    reveal_strlit("status");
    assert("begin"@[0] == 'b' && "chunk"@[0] == 'c' && "status"@[0] == 's');
}

/// A chunk that is no base64, is empty or is too long ends its transfer, like a
/// cancellation.
pub proof fn broken_chunks_end_their_transfer(
    v: AdapterView,
    store: StoreView,
    request: Request<Seq<char>>,
    ticket: TicketView,
    data: Seq<char>,
    at: Seq<char>,
)
    requires
        v.store == Some(store),
        request.why == "chunk"@,
        request.intent is None,
        request.data == Some(data),
        match base64_decoded(data) {
            Some(bytes) => bytes.len() == 0 || bytes.len() > 65_536,
            None => true,
        },
        is_next(v, request, ticket),
    ensures
        ({
            let t = handled(v, request, at);
            let c = cancel(store, request.binding.operation, ticket, at);
            c.step matches Step::Act(action) ==> asks_for(t, action) && t.adapter.store == Some(
                c.store,
            ) && t.adapter.awaiting == (Await::<Seq<char>, TicketView>::Outcome { request })
                && t.adapter.live == counted(v, request)
        }),
{
    reveal_strlit("begin");
    reveal_strlit("chunk");
    reveal_strlit("status");
    assert("begin"@[0] == 'b' && "chunk"@[0] == 'c' && "status"@[0] == 's');
}

/// A chunk that could not be written ends its transfer, like a cancellation, before
/// it is answered.
pub proof fn unwritten_chunks_end_their_transfer(
    v: AdapterView,
    store: StoreView,
    request: Request<Seq<char>>,
    ticket: TicketView,
    event: Event,
    at: Seq<char>,
)
    requires
        v.store == Some(store),
        v.awaiting == (Await::<Seq<char>, TicketView>::Append { request, ticket }),
        resumed(store, event, at).step matches Step::Done(Err(_)),
    ensures
        ({
            let t = wire_resumed(v, event, at);
            let c = cancel(
                resumed(store, event, at).store,
                request.binding.operation,
                ticket,
                at,
            );
            c.step matches Step::Act(action) ==> asks_for(t, action) && t.adapter.store == Some(
                c.store,
            ) && t.adapter.awaiting == (Await::<Seq<char>, TicketView>::Outcome { request })
        }),
{
}

/// A new transfer is ready for its first byte once its staging file is created, and
/// is live under its binding from then on.
pub proof fn new_transfers_are_ready(
    v: AdapterView,
    store: StoreView,
    request: Request<Seq<char>>,
    intent: Intent<Seq<char>>,
    facts: ParentFacts,
    random: [u8; 16],
    at: Seq<char>,
)
    requires
        v.store == Some(store),
        store.poisoned is None,
        request.why == "begin"@,
        request.intent == Some(intent),
        is_named(request.binding.operation, request.binding.attempt),
        intent_check(intent) is Ok,
        !v.live.contains_key(live_key(request.binding.operation)),
        is_new(
            store,
            key_of(request.binding.operation.slug, request.binding.operation.operation_id),
        ),
        has_a_place(store, intent.bytes),
        allowed(store.home, request.binding.operation.slug, intent.destination, facts) is Ok,
    ensures
        ({
            let operation = request.binding.operation;
            let key = key_of(operation.slug, operation.operation_id);
            let name = ".wicket-screenshot-"@ + key + "-"@ + hex(random@) + ".stage"@;
            let first = handled(v, request, at);
            let second = wire_resumed(first.adapter, Event::Survey(facts), at);
            let third = wire_resumed(second.adapter, Event::Random(Ok(random)), at);
            let last = wire_resumed(third.adapter, Event::Effect(Ok(())), at);
            let ticket = TicketView {
                key,
                owner: store.owner,
                generation: (store.generation + 1) as u64,
            };
            &&& asks_for(
                first,
                Action::Survey { slug: operation.slug, destination: intent.destination },
            )
            &&& asks_for(second, Action::Random)
            &&& asks_for(third, Action::CreateStage { key, name })
            &&& replies(last, request, "ready"@, None, Some(0), None)
            &&& last.adapter.live == v.live.insert(
                live_key(operation),
                Live { binding: request.binding, intent, ticket, sequence: request.sequence },
            )
            &&& last.adapter.store matches Some(after)
            &&& holds(after, ticket)
        }),
{
    reveal_strlit("begin");
    reveal_strlit("status");
    assert("begin"@[0] == 'b' && "status"@[0] == 's');
}

/// A transfer that cannot begin is refused, and nothing becomes live.
pub proof fn refused_beginnings_are_told(
    v: AdapterView,
    store: StoreView,
    request: Request<Seq<char>>,
    intent: Intent<Seq<char>>,
    event: Event,
    at: Seq<char>,
)
    requires
        v.store == Some(store),
        v.awaiting == (Await::<Seq<char>, TicketView>::Begin { request, intent }),
        resumed(store, event, at).step matches Step::Done(Err(_)),
    ensures
        ({
            let t = wire_resumed(v, event, at);
            &&& replies(
                t,
                request,
                "rejected"@,
                Some("screenshot begin refused; no receive was admitted for this binding"@),
                None,
                None,
            )
            &&& t.adapter.live == v.live
        }),
{
}

/// A live transfer that is begun anew under another attempt, with the same intent
/// and for the same operation, is replaced: once its staging file is empty, the new
/// attempt is ready for its first byte, and live in the place of the other.
pub proof fn new_attempts_replace_the_old(
    v: AdapterView,
    store: StoreView,
    request: Request<Seq<char>>,
    intent: Intent<Seq<char>>,
    ticket: TicketView,
    facts: StageFacts,
    file: Identity,
    length: u64,
    at: Seq<char>,
)
    requires
        v.store == Some(store),
        store.poisoned is None,
        request.why == "begin"@,
        request.intent == Some(intent),
        is_named(request.binding.operation, request.binding.attempt),
        ({
            let key = live_key(request.binding.operation);
            &&& v.live.contains_key(key)
            &&& v.live[key].ticket == ticket
            &&& is_same_intent(v.live[key].intent, intent)
            &&& v.live[key].binding.operation == request.binding.operation
            &&& v.live[key].binding.attempt.attempt_id != request.binding.attempt.attempt_id
        }),
        holds(store, ticket),
        store.receiving[ticket.key].attempt.attempt_id != request.binding.attempt.attempt_id,
        store.generation < u64::MAX,
        is_own(facts, file, length),
    ensures
        ({
            let key = live_key(request.binding.operation);
            let first = handled(v, request, at);
            let second = wire_resumed(first.adapter, Event::Stage(facts), at);
            let last = wire_resumed(second.adapter, Event::Effect(Ok(())), at);
            let issued = TicketView {
                key: ticket.key,
                owner: store.owner,
                generation: (store.generation + 1) as u64,
            };
            &&& asks_for(
                first,
                Action::Inspect {
                    key: ticket.key,
                    name: store.receiving[ticket.key].stage_name,
                },
            )
            &&& asks_for(second, Action::Truncate { key: ticket.key })
            &&& replies(last, request, "ready"@, None, Some(0), None)
            &&& last.adapter.live == v.live.insert(
                key,
                Live {
                    binding: request.binding,
                    intent,
                    ticket: issued,
                    sequence: request.sequence,
                },
            )
        }),
{
    reveal_strlit("begin");
    reveal_strlit("status");
    assert("begin"@[0] == 'b' && "status"@[0] == 's');
}

/// A command to finish or to cancel a live transfer, whose turn it is, asks the
/// store for that.
pub proof fn live_transfers_are_ended_on_command(
    v: AdapterView,
    store: StoreView,
    request: Request<Seq<char>>,
    ticket: TicketView,
    at: Seq<char>,
)
    requires
        v.store == Some(store),
        is_next(v, request, ticket),
        request.why == "finish"@ || request.why == "cancel"@,
    ensures
        ({
            let t = handled(v, request, at);
            let c = if request.why == "finish"@ {
                finish(store, request.binding.operation, ticket)
            } else {
                cancel(store, request.binding.operation, ticket, at)
            };
            c.step matches Step::Act(action) ==> asks_for(t, action) && t.adapter.store == Some(
                c.store,
            ) && t.adapter.awaiting == (Await::<Seq<char>, TicketView>::Outcome { request })
                && t.adapter.live == counted(v, request)
        }),
{
    reveal_strlit("begin");
    reveal_strlit("chunk");
    reveal_strlit("finish");
    reveal_strlit("cancel");
    reveal_strlit("status");
    assert("begin"@[0] == 'b' && "chunk"@[1] == 'h' && "finish"@[0] == 'f' && "cancel"@[1] == 'a'
        && "status"@[0] == 's');
    assert("chunk"@[0] == 'c' && "cancel"@[0] == 'c');
}

/// The word for an outcome.
pub open spec fn is_word_for(word: Seq<char>, outcome: Outcome<Seq<char>>) -> bool {
    match outcome {
        Outcome::Stored => word == "stored"@,
        Outcome::PublishedDurabilityUnconfirmed { .. } => word == "published"@,
        Outcome::Failed { .. } => word == "failed"@,
        Outcome::Aborted => word == "aborted"@,
    }
}

/// Once a transfer has ended, the command that ended it is answered with the
/// receipt and the word for its outcome, and the transfer is no longer live. One
/// that is unresolved is answered as that, with why.
pub proof fn endings_are_answered(
    v: AdapterView,
    store: StoreView,
    request: Request<Seq<char>>,
    event: Event,
    receipt: Receipt<Seq<char>>,
    word: Seq<char>,
    at: Seq<char>,
)
    requires
        v.store == Some(store),
        v.awaiting == (Await::<Seq<char>, TicketView>::Outcome { request }),
        is_word_for(word, receipt.outcome),
    ensures
        ({
            let t = wire_resumed(v, event, at);
            let s = resumed(store, event, at).step;
            let gone = v.live.remove(live_key(request.binding.operation));
            &&& s == Step::<Seq<char>, TicketView, Seq<u8>>::Done(
                Ok(Answer::Status(Status::Terminal(Box::new(receipt)))),
            ) ==> replies(t, request, word, None, None, Some(receipt)) && t.adapter.live == gone
            &&& s matches Step::Done(
                Ok(Answer::Status(Status::Unresolved { reason, .. })),
            ) ==> replies(t, request, "unresolved"@, Some(reason), None, None) && t.adapter.live
                == gone
            &&& s matches Step::Done(Err(_)) ==> replies(
                t,
                request,
                "unresolved"@,
                Some("screenshot command could not establish an outcome; query status"@),
                None,
                None,
            ) && t.adapter.live == v.live
            &&& s matches Step::Act(action) ==> asks_for(t, action) && t.adapter.live == v.live
                && t.adapter.awaiting == v.awaiting
        }),
{
}

/// A status is asked of the store, and told: how far a transfer is, how an
/// operation ended, that it is unknown, or that it cannot be told. One that is
/// unresolved is told as that while transfers are live; else the store is opened
/// again to look into it.
pub proof fn statuses_are_told(
    v: AdapterView,
    store: StoreView,
    request: Request<Seq<char>>,
    event: Event,
    receipt: Receipt<Seq<char>>,
    word: Seq<char>,
    at: Seq<char>,
)
    requires
        v.store == Some(store),
        v.awaiting == (Await::<Seq<char>, TicketView>::Status { request }),
        is_word_for(word, receipt.outcome),
    ensures
        ({
            let t = wire_resumed(v, event, at);
            let s = resumed(store, event, at).step;
            &&& s == Step::<Seq<char>, TicketView, Seq<u8>>::Done(
                Ok(Answer::Found(Some(Status::Terminal(Box::new(receipt))))),
            ) ==> replies(t, request, word, None, None, Some(receipt))
            &&& s matches Step::Done(
                Ok(Answer::Found(Some(Status::Receiving { received, .. }))),
            ) ==> replies(t, request, "receiving"@, None, Some(received), None)
            &&& s matches Step::Done(
                Ok(Answer::Found(Some(Status::Unresolved { reason, .. }))),
            ) ==> {
                &&& (exists|key: Seq<char>| #[trigger] v.live.contains_key(key)) ==> replies(
                    t,
                    request,
                    "unresolved"@,
                    Some(reason),
                    None,
                    None,
                )
                &&& v.live == Map::<Seq<char>, Live<Seq<char>, TicketView>>::empty() ==> t.step
                    == WireStepView::Reopen(resumed(store, event, at).store)
                    && t.adapter.awaiting == (Await::<Seq<char>, TicketView>::Reopen { request })
                    && t.adapter.store is None
            }
            &&& s matches Step::Done(Ok(Answer::Found(None))) ==> replies(
                t,
                request,
                "unknown"@,
                None,
                None,
                None,
            )
            &&& s matches Step::Done(Err(_)) ==> replies(
                t,
                request,
                "unresolved"@,
                Some("operation lookup unavailable"@),
                None,
                None,
            )
            &&& t.adapter.live == v.live
        }),
{
}

/// A status is looked up in the store.
pub proof fn statuses_are_looked_up(
    v: AdapterView,
    store: StoreView,
    request: Request<Seq<char>>,
    at: Seq<char>,
)
    requires
        v.store == Some(store),
        request.why == "status"@,
    ensures
        ({
            let t = handled(v, request, at);
            let c = lookup(store, request.binding.operation);
            &&& c.step matches Step::Act(action) ==> asks_for(t, action) && t.adapter.store
                == Some(c.store) && t.adapter.awaiting == (Await::<
                Seq<char>,
                TicketView,
            >::Status { request })
            &&& c.step matches Step::Done(Ok(Answer::Found(None))) ==> replies(
                t,
                request,
                "unknown"@,
                None,
                None,
                None,
            )
            &&& t.adapter.live == v.live
        }),
{
}

/// A command without a live transfer: to finish or to cancel looks the operation up
/// and tells how it ended; a chunk is answered at once that there is no attempt.
pub proof fn commands_without_a_transfer_are_told(
    v: AdapterView,
    store: StoreView,
    request: Request<Seq<char>>,
    at: Seq<char>,
)
    requires
        v.store == Some(store),
        !v.live.contains_key(live_key(request.binding.operation)),
    ensures
        ({
            let t = handled(v, request, at);
            let c = lookup(store, request.binding.operation);
            let none = "no live attempt; query status with the operation ID"@;
            &&& request.why == "chunk"@ ==> replies(
                t,
                request,
                "unresolved"@,
                Some(none),
                None,
                None,
            )
            &&& request.why == "finish"@ || request.why == "cancel"@ ==> {
                &&& c.step matches Step::Act(action) ==> asks_for(t, action) && t.adapter.awaiting
                    == (Await::<Seq<char>, TicketView>::Find { request })
                &&& c.step matches Step::Done(
                    Ok(Answer::Found(Some(Status::Terminal(receipt)))),
                ) ==> replies(
                    t,
                    request,
                    status_reply(request, Status::Terminal(receipt), "receiving"@).why,
                    None,
                    None,
                    Some(*receipt),
                )
                &&& c.step matches Step::Done(Ok(Answer::Found(None))) ==> replies(
                    t,
                    request,
                    "unresolved"@,
                    Some(none),
                    None,
                    None,
                )
            }
            &&& request.why == "chunk"@ || request.why == "finish"@ || request.why == "cancel"@
                ==> t.adapter.live == v.live
        }),
{
    reveal_strlit("begin");
    reveal_strlit("chunk");
    reveal_strlit("finish");
    reveal_strlit("cancel");
    reveal_strlit("status");
    assert("begin"@[0] == 'b' && "chunk"@[1] == 'h' && "finish"@[0] == 'f' && "cancel"@[1] == 'a'
        && "status"@[0] == 's');
    assert("chunk"@[0] == 'c' && "cancel"@[0] == 'c');
}

/// A command under another binding, or out of its turn, is refused, and nothing
/// changes.
pub proof fn foreign_commands_are_refused(
    v: AdapterView,
    store: StoreView,
    request: Request<Seq<char>>,
    at: Seq<char>,
)
    requires
        v.store == Some(store),
        v.live.contains_key(live_key(request.binding.operation)),
        request.why == "chunk"@ || request.why == "finish"@ || request.why == "cancel"@,
        ({
            let live = v.live[live_key(request.binding.operation)];
            live.binding != request.binding || live.sequence >= request.sequence
        }),
    ensures
        ({
            let t = handled(v, request, at);
            &&& replies(
                t,
                request,
                "rejected"@,
                Some("stale or foreign attempt binding"@),
                None,
                None,
            )
            &&& t.adapter.live == v.live
            &&& t.adapter.store == v.store
        }),
{
    reveal_strlit("begin");
    reveal_strlit("chunk");
    reveal_strlit("finish");
    reveal_strlit("cancel");
    reveal_strlit("status");
    assert("begin"@[0] == 'b' && "chunk"@[1] == 'h' && "finish"@[0] == 'f' && "cancel"@[1] == 'a'
        && "status"@[0] == 's');
    assert("chunk"@[0] == 'c' && "cancel"@[0] == 'c');
}

/// The first command opens the store, and is then served like any other. Where the
/// store cannot be opened, no outcome can be told.
pub proof fn the_store_is_opened_for_commands(
    v: AdapterView,
    store: StoreView,
    request: Request<Seq<char>>,
    at: Seq<char>,
)
    requires
        v.store is None,
    ensures
        ({
            let first = handled(v, request, at);
            let again = AdapterView {
                awaiting: Await::Reopen { request },
                store: v.store,
                live: v.live,
            };
            &&& first.step == WireStepView::Open
            &&& first.adapter == (AdapterView { awaiting: Await::Open { request }, ..v })
            &&& opened(first.adapter, Some(store), at) == handled(
                AdapterView { store: Some(store), ..first.adapter },
                request,
                at,
            )
            &&& replies(
                opened(first.adapter, None, at),
                request,
                "unresolved"@,
                Some("screenshot store unavailable; operation requires reconciliation"@),
                None,
                None,
            )
            &&& replies(
                opened(again, None, at),
                request,
                "unresolved"@,
                Some("screenshot store could not reopen for reconciliation"@),
                None,
                None,
            )
            &&& lookup(store, request.binding.operation).step matches Step::Act(action) ==> {
                let t = opened(again, Some(store), at);
                asks_for(t, action) && t.adapter.awaiting == (Await::<
                    Seq<char>,
                    TicketView,
                >::StatusAgain { request })
            }
        }),
{
}

/// A lookup in a store that was opened again is told whatever it found.
pub proof fn second_lookups_are_told(
    v: AdapterView,
    store: StoreView,
    request: Request<Seq<char>>,
    event: Event,
    receipt: Receipt<Seq<char>>,
    word: Seq<char>,
    at: Seq<char>,
)
    requires
        v.store == Some(store),
        v.awaiting == (Await::<Seq<char>, TicketView>::StatusAgain { request }),
        is_word_for(word, receipt.outcome),
    ensures
        ({
            let t = wire_resumed(v, event, at);
            let s = resumed(store, event, at).step;
            &&& s == Step::<Seq<char>, TicketView, Seq<u8>>::Done(
                Ok(Answer::Found(Some(Status::Terminal(Box::new(receipt))))),
            ) ==> replies(t, request, word, None, None, Some(receipt))
            &&& s matches Step::Done(
                Ok(Answer::Found(Some(Status::Unresolved { reason, .. }))),
            ) ==> replies(t, request, "unresolved"@, Some(reason), None, None)
            &&& s matches Step::Done(Ok(Answer::Found(None))) ==> replies(
                t,
                request,
                "unknown"@,
                None,
                None,
                None,
            )
        }),
{
}

/// A beginning that comes again under its binding, in its turn, tells how far the
/// transfer is.
pub proof fn repeated_beginnings_tell_how_far_it_is(
    v: AdapterView,
    store: StoreView,
    request: Request<Seq<char>>,
    intent: Intent<Seq<char>>,
    ticket: TicketView,
    length: u64,
    at: Seq<char>,
)
    requires
        v.store == Some(store),
        store.poisoned is None,
        request.why == "begin"@,
        request.intent == Some(intent),
        is_named(request.binding.operation, request.binding.attempt),
        intent_check(intent) is Ok,
        is_next(v, request, ticket),
        ticket.key == key_of(
            request.binding.operation.slug,
            request.binding.operation.operation_id,
        ),
        holds(store, ticket),
        store.receiving[ticket.key].operation == request.binding.operation,
        store.receiving[ticket.key].attempt == request.binding.attempt,
        store.receiving[ticket.key].intent == intent,
        !store.records.contains_key(ticket.key),
        !store.outcomes.contains_key(ticket.key),
    ensures
        ({
            let first = handled(v, request, at);
            let last = wire_resumed(first.adapter, Event::Length(Ok(length)), at);
            &&& asks_for(first, Action::Length { key: ticket.key })
            &&& replies(last, request, "ready"@, None, Some(length), None)
            &&& last.adapter.live == v.live.insert(
                live_key(request.binding.operation),
                Live { binding: request.binding, intent, ticket, sequence: request.sequence },
            )
        }),
{
    reveal_strlit("begin");
    reveal_strlit("status");
    assert("begin"@[0] == 'b' && "status"@[0] == 's');
}

/// A beginning out of its turn is refused, and so is one for another intent or
/// caller, or under the same attempt from elsewhere; nothing changes.
pub proof fn other_beginnings_are_refused(
    v: AdapterView,
    store: StoreView,
    request: Request<Seq<char>>,
    intent: Intent<Seq<char>>,
    at: Seq<char>,
)
    requires
        v.store == Some(store),
        request.why == "begin"@,
        request.intent == Some(intent),
        v.live.contains_key(live_key(request.binding.operation)),
    ensures
        ({
            let live = v.live[live_key(request.binding.operation)];
            let t = handled(v, request, at);
            let refused = |reason: Seq<char>|
                replies(t, request, "rejected"@, Some(reason), None, None) && t.adapter.live
                    == v.live && t.adapter.store == v.store;
            &&& live.binding == request.binding && request.sequence <= live.sequence ==> refused(
                "stale command sequence"@,
            )
            &&& live.binding != request.binding && (!is_same_intent(live.intent, intent)
                || live.binding.operation != request.binding.operation
                || live.binding.attempt.attempt_id == request.binding.attempt.attempt_id)
                ==> refused("operation intent or caller conflicts"@)
        }),
{
    reveal_strlit("begin");
    reveal_strlit("status");
    assert("begin"@[0] == 'b' && "status"@[0] == 's');
}

} // verus!
