//! What holds of the owner of the store across commands.

use vstd::prelude::*;

use crate::action::{Answer, Event, Step};
use crate::adapter::{
    answered, begin_command, begun, dispatched, handled, live_command, live_key, lookup_of,
    on_append, on_begin, on_find, on_outcome, on_replace, on_status, on_status_again, opened,
    status_of, wire_resumed, AdapterView, Await, AwaitView, Live, LiveView, WireStepView, WireTurn,
};
use crate::encoding::{base64_decoded, chunk_of};
use crate::identity::{is_id, is_id_char};
use crate::model::{is_same_intent, Intent, OperationId, Status, StatusView, TicketView};
use crate::protocol;
use crate::protocol::{StoreView, Turn};
use crate::wire::{
    outcome_word, parsed, rejected, reply, status_reply, unavailable, Reply, Request,
};

verus! {

/// The errors of a command that cannot be taken are fixed texts: none holds
/// anything of the command, or of what was found wrong with it.
pub proof fn refused_commands_are_not_quoted(
    text: Seq<char>,
    decoded: Option<Request<Seq<char>>>,
    error: Seq<char>,
)
    requires
        parsed(text, decoded) == Err::<Request<Seq<char>>, Seq<char>>(error),
    ensures
        error == "screenshot packet exceeds limit"@ || error == "invalid screenshot command"@
            || error == "invalid screenshot binding"@ || error
            == "invalid screenshot command fields"@,
{
}

/// Operations with different slugs or identifiers are different live transfers.
pub proof fn live_transfers_are_told_apart(
    a: OperationId<Seq<char>>,
    b: OperationId<Seq<char>>,
)
    requires
        is_id(a.slug),
        is_id(b.slug),
        live_key(a) == live_key(b),
    ensures
        a.slug == b.slug,
        a.operation_id == b.operation_id,
{
    reveal_strlit("\0");
    let k = live_key(a);
    let n = a.slug.len() as int;
    let m = b.slug.len() as int;
    assert(k[n] == '\0');
    assert(k[m] == '\0');
    if n < m {
        assert(is_id_char(b.slug[n]));
        assert(k[n] == b.slug[n]);
    } else if m < n {
        assert(is_id_char(a.slug[m]));
        assert(k[m] == a.slug[m]);
    }
    assert(a.slug =~= k.take(n));
    assert(b.slug =~= k.take(m));
    assert(a.operation_id =~= k.skip(n + 1));
    assert(b.operation_id =~= k.skip(m + 1));
}

/// The command that is being carried out.
pub open spec fn request_of(awaiting: AwaitView) -> Option<Request<Seq<char>>> {
    match awaiting {
        Await::Idle => None,
        Await::Open { request } => Some(request),
        Await::Reopen { request } => Some(request),
        Await::Status { request } => Some(request),
        Await::StatusAgain { request } => Some(request),
        Await::Begin { request, .. } => Some(request),
        Await::Replace { request, .. } => Some(request),
        Await::Find { request } => Some(request),
        Await::Append { request, .. } => Some(request),
        Await::Outcome { request } => Some(request),
    }
}

/// Whether the live transfers after a turn are those before it, where the
/// latest sequence number of a binding can only have grown.
pub open spec fn in_sequence(
    before: Map<Seq<char>, LiveView>,
    after: Map<Seq<char>, LiveView>,
) -> bool {
    forall|k: Seq<char>| #[trigger]
        after.contains_key(k) && before.contains_key(k) && after[k].binding == before[k].binding
            ==> after[k].sequence >= before[k].sequence
}

/// Whether it is the turn of the command that is being carried out to begin a
/// transfer: no later command of its binding was carried out.
pub open spec fn has_its_turn(v: AdapterView) -> bool {
    match v.awaiting {
        Await::Begin { request, .. } => is_latest(v, request),
        Await::Replace { request, .. } => is_latest(v, request),
        _ => true,
    }
}

/// Whether no later command of a command's binding was carried out.
pub open spec fn is_latest(v: AdapterView, request: Request<Seq<char>>) -> bool {
    let key = live_key(request.binding.operation);
    v.live.contains_key(key) && v.live[key].binding == request.binding ==> v.live[key].sequence
        <= request.sequence
}

/// Whether a turn serves a command: it answers that very command, or goes on
/// with it; it keeps sequence numbers in order; and it closes no store while a
/// transfer is live.
#[verifier::opaque]
pub open spec fn serves(
    live: Map<Seq<char>, LiveView>,
    request: Request<Seq<char>>,
    t: WireTurn,
) -> bool {
    &&& match t.step {
        WireStepView::Idle => false,
        WireStepView::Done(reply) => {
            &&& reply.binding == request.binding
            &&& reply.sequence == request.sequence
            &&& t.adapter.awaiting is Idle
        },
        _ => request_of(t.adapter.awaiting) == Some(request),
    }
    &&& t.step is Reopen ==> live == Map::<Seq<char>, LiveView>::empty()
    &&& in_sequence(live, t.adapter.live)
    &&& has_its_turn(t.adapter)
}

proof fn serves_begun(
    live: Map<Seq<char>, LiveView>,
    v: AdapterView,
    request: Request<Seq<char>>,
    intent: Intent<Seq<char>>,
    status: Option<StatusView>,
)
    requires
        in_sequence(live, v.live),
        is_latest(v, request),
        is_latest(AdapterView { live, ..v }, request),
    ensures
        serves(live, request, begun(v, request, intent, status)),
{
    reveal(serves);
}

proof fn serves_begin(
    live: Map<Seq<char>, LiveView>,
    v: AdapterView,
    request: Request<Seq<char>>,
    intent: Intent<Seq<char>>,
    t: Turn,
)
    requires
        v.live == live,
        is_latest(v, request),
    ensures
        serves(live, request, on_begin(v, request, intent, t)),
{
    match t.step {
        Step::Act(_) => {
            reveal(serves);
        },
        Step::Done(r) => {
            serves_begun(
                live,
                AdapterView { store: Some(t.store), ..v },
                request,
                intent,
                status_of(r),
            );
        },
    }
}

proof fn serves_replace(
    live: Map<Seq<char>, LiveView>,
    v: AdapterView,
    request: Request<Seq<char>>,
    intent: Intent<Seq<char>>,
    ticket: TicketView,
    t: Turn,
    at: Seq<char>,
)
    requires
        v.live == live,
        is_latest(v, request),
    ensures
        serves(live, request, on_replace(v, request, intent, ticket, t, at)),
{
    match t.step {
        Step::Act(_) => {
            reveal(serves);
        },
        Step::Done(Ok(Answer::Ticket(issued))) => {
            serves_begun(
                live,
                AdapterView { store: Some(t.store), ..v },
                request,
                intent,
                Some(Status::Receiving { ticket: issued, received: 0 }),
            );
        },
        Step::Done(_) => {
            serves_begin(
                live,
                v,
                request,
                intent,
                protocol::cancel(t.store, request.binding.operation, ticket, at),
            );
        },
    }
}

proof fn serves_outcome(
    live: Map<Seq<char>, LiveView>,
    v: AdapterView,
    request: Request<Seq<char>>,
    t: Turn,
)
    requires
        in_sequence(live, v.live),
    ensures
        serves(live, request, on_outcome(v, request, t)),
{
    reveal(serves);
}

proof fn serves_append(
    live: Map<Seq<char>, LiveView>,
    v: AdapterView,
    request: Request<Seq<char>>,
    ticket: TicketView,
    t: Turn,
    at: Seq<char>,
)
    requires
        in_sequence(live, v.live),
    ensures
        serves(live, request, on_append(v, request, ticket, t, at)),
{
    serves_outcome(
        live,
        v,
        request,
        protocol::cancel(t.store, request.binding.operation, ticket, at),
    );
    reveal(serves);
}

proof fn serves_looked_up(
    v: AdapterView,
    request: Request<Seq<char>>,
    t: Turn,
)
    ensures
        serves(v.live, request, on_status(v, request, t)),
        serves(v.live, request, on_status_again(v, request, t)),
        serves(v.live, request, on_find(v, request, t)),
{
    reveal(serves);
}

proof fn serves_dispatched(
    v: AdapterView,
    store: StoreView,
    request: Request<Seq<char>>,
    at: Seq<char>,
)
    ensures
        serves(v.live, request, dispatched(v, store, request, at)),
{
    let operation = request.binding.operation;
    let attempt = request.binding.attempt;
    let key = live_key(operation);
    if request.why == "status"@ {
        serves_looked_up(v, request, protocol::lookup(store, operation));
    } else if request.why == "begin"@ && request.intent is Some {
        let intent = request.intent->Some_0;
        if v.live.contains_key(key) && !(v.live[key].binding == request.binding
            && request.sequence > v.live[key].sequence) {
            if v.live[key].binding != request.binding {
                serves_replace(
                    v.live,
                    v,
                    request,
                    intent,
                    v.live[key].ticket,
                    protocol::replace(store, v.live[key].ticket, attempt),
                    at,
                );
            }
            reveal(serves);
        } else {
            serves_begin(
                v.live,
                v,
                request,
                intent,
                protocol::begin(store, operation, attempt, intent),
            );
        }
    } else if !v.live.contains_key(key) {
        serves_looked_up(v, request, protocol::lookup(store, operation));
        reveal(serves);
    } else {
        serves_live(v, store, request, at);
    }
}

proof fn serves_live(
    v: AdapterView,
    store: StoreView,
    request: Request<Seq<char>>,
    at: Seq<char>,
)
    requires
        v.live.contains_key(live_key(request.binding.operation)),
        request.why != "status"@,
        !(request.why == "begin"@ && request.intent is Some),
    ensures
        serves(v.live, request, dispatched(v, store, request, at)),
{
    let operation = request.binding.operation;
    let key = live_key(operation);
    let live = v.live[key];
    if live.binding != request.binding || request.sequence <= live.sequence {
        reveal(serves);
    } else {
        let w = AdapterView {
            live: v.live.insert(key, Live { sequence: request.sequence, ..live }),
            ..v
        };
        assert(in_sequence(v.live, w.live));
        serves_outcome(v.live, w, request, protocol::cancel(store, operation, live.ticket, at));
        serves_outcome(v.live, w, request, protocol::finish(store, operation, live.ticket));
        if let Some(data) = request.data {
            if let (Some(bytes), Some(offset)) = (
                chunk_of(base64_decoded(data)),
                request.offset,
            ) {
                serves_append(
                    v.live,
                    w,
                    request,
                    live.ticket,
                    protocol::append(store, live.ticket, offset, bytes),
                    at,
                );
            }
        }
    }
}

/// A command is answered as itself, with its own binding and sequence number,
/// or is being carried out. The sequence numbers of a binding never go back,
/// and no store is closed while a transfer is live.
pub proof fn commands_are_served(v: AdapterView, request: Request<Seq<char>>, at: Seq<char>)
    ensures
        serves(v.live, request, handled(v, request, at)),
{
    match v.store {
        None => {
            reveal(serves);
        },
        Some(store) => {
            serves_dispatched(v, store, request, at);
        },
    }
}

/// A command that waited for the store is served, whether the store could be
/// opened or not.
pub proof fn commands_are_served_after_opening(
    v: AdapterView,
    store: Option<StoreView>,
    request: Request<Seq<char>>,
    at: Seq<char>,
)
    requires
        v.awaiting == (AwaitView::Open { request }) || v.awaiting == (AwaitView::Reopen {
            request,
        }),
    ensures
        serves(v.live, request, opened(v, store, at)),
{
    match store {
        None => {
            reveal(serves);
        },
        Some(store) => {
            let w = AdapterView { store: Some(store), ..v };
            serves_dispatched(w, store, request, at);
            serves_looked_up(w, request, protocol::lookup(store, request.binding.operation));
        },
    }
}

/// A command that waited for an action is served, however the action went.
pub proof fn commands_are_served_after_actions(
    v: AdapterView,
    event: Event,
    request: Request<Seq<char>>,
    at: Seq<char>,
)
    requires
        request_of(v.awaiting) == Some(request),
        !(v.awaiting is Open),
        !(v.awaiting is Reopen),
        has_its_turn(v),
    ensures
        serves(v.live, request, wire_resumed(v, event, at)),
{
    let t = protocol::resumed(v.store->Some_0, event, at);
    match v.awaiting {
        Await::Status { .. } => {
            serves_looked_up(v, request, t);
        },
        Await::StatusAgain { .. } => {
            serves_looked_up(v, request, t);
        },
        Await::Find { .. } => {
            serves_looked_up(v, request, t);
        },
        Await::Begin { intent, .. } => {
            serves_begin(v.live, v, request, intent, t);
        },
        Await::Replace { intent, ticket, .. } => {
            serves_replace(v.live, v, request, intent, ticket, t, at);
        },
        Await::Append { ticket, .. } => {
            serves_append(v.live, v, request, ticket, t, at);
        },
        Await::Outcome { .. } => {
            serves_outcome(v.live, v, request, t);
        },
        _ => {},
    }
}

/// A command of an old binding or with an old sequence number is refused, and
/// changes neither the store nor any transfer.
pub proof fn stale_commands_change_nothing(
    v: AdapterView,
    request: Request<Seq<char>>,
    at: Seq<char>,
)
    requires
        v.store is Some,
        request.why == "chunk"@ || request.why == "finish"@ || request.why == "cancel"@,
        v.live.contains_key(live_key(request.binding.operation)),
        v.live[live_key(request.binding.operation)].binding != request.binding || request.sequence
            <= v.live[live_key(request.binding.operation)].sequence,
    ensures
        handled(v, request, at) == answered(
            v,
            rejected(request, "stale or foreign attempt binding"@),
        ),
{
    reveal_strlit("chunk");
    reveal_strlit("finish");
    reveal_strlit("cancel");
    reveal_strlit("status");
    reveal_strlit("begin");
    assert("chunk"@[0] == 'c' && "finish"@[0] == 'f' && "cancel"@[0] == 'c' && "status"@[0] == 's'
        && "begin"@[0] == 'b');
}

/// A beginning for a live transfer is refused unless it repeats the binding
/// with a later sequence number, or replaces the attempt at the same intent of
/// the same caller; and then it changes neither the store nor any transfer.
pub proof fn conflicting_beginnings_change_nothing(
    v: AdapterView,
    request: Request<Seq<char>>,
    at: Seq<char>,
)
    requires
        v.store is Some,
        request.why == "begin"@,
        request.intent is Some,
        v.live.contains_key(live_key(request.binding.operation)),
        ({
            let live = v.live[live_key(request.binding.operation)];
            if live.binding == request.binding {
                request.sequence <= live.sequence
            } else {
                !is_same_intent(live.intent, request.intent->Some_0) || live.binding.operation
                    != request.binding.operation || live.binding.attempt.attempt_id
                    == request.binding.attempt.attempt_id
            }
        }),
    ensures
        handled(v, request, at).adapter == (AdapterView { awaiting: Await::Idle, ..v }),
        handled(v, request, at).step matches WireStepView::Done(reply) && reply.why
            == "rejected"@,
{
    reveal_strlit("status");
    reveal_strlit("begin");
    assert("status"@[0] == 's' && "begin"@[0] == 'b');
}

/// Whether a word says that an operation has ended, and how.
pub open spec fn is_outcome_word(why: Seq<char>) -> bool {
    why == "stored"@ || why == "published"@ || why == "failed"@ || why == "aborted"@
}

/// Whether a word says that a transfer can go on.
pub open spec fn is_progress_word(why: Seq<char>) -> bool {
    why == "ready"@ || why == "receiving"@ || why == "ack"@
}

/// Whether a word says that a command was refused, or that no outcome can be
/// told.
pub open spec fn is_refusal_word(why: Seq<char>) -> bool {
    why == "rejected"@ || why == "unresolved"@
}

/// Whether an answer has the fields that its word asks for, and no others: a
/// receipt with the word of its outcome, an offset where a transfer can go on, a
/// reason where something is refused or unresolved, and nothing where an
/// operation is unknown. There are no other words.
#[verifier::opaque]
pub open spec fn is_worded(reply: Reply<Seq<char>>) -> bool {
    &&& is_outcome_word(reply.why) || is_progress_word(reply.why) || is_refusal_word(reply.why)
        || reply.why == "unknown"@
    &&& reply.receipt is Some <==> is_outcome_word(reply.why)
    &&& reply.receipt matches Some(receipt) ==> reply.why == outcome_word(receipt.outcome)
    &&& reply.next_offset is Some <==> is_progress_word(reply.why)
    &&& reply.reason is Some <==> is_refusal_word(reply.why)
}

/// The words of answers are told apart.
proof fn words_are_told_apart()
    ensures
        forall|why: Seq<char>| #[trigger] is_outcome_word(why) ==> !is_progress_word(why),
        forall|why: Seq<char>| #[trigger] is_outcome_word(why) ==> !is_refusal_word(why),
        forall|why: Seq<char>| #[trigger] is_progress_word(why) ==> !is_refusal_word(why),
        !is_outcome_word("unknown"@),
        !is_progress_word("unknown"@),
        !is_refusal_word("unknown"@),
{
    reveal_strlit("stored");
    reveal_strlit("published");
    reveal_strlit("failed");
    reveal_strlit("aborted");
    reveal_strlit("ready");
    reveal_strlit("receiving");
    reveal_strlit("ack");
    reveal_strlit("rejected");
    reveal_strlit("unresolved");
    reveal_strlit("unknown");
    assert("stored"@[0] == 's' && "published"@[0] == 'p' && "failed"@[0] == 'f');
    assert("aborted"@[0] == 'a' && "aborted"@[1] == 'b' && "ack"@[0] == 'a' && "ack"@[1] == 'c');
    assert("ready"@[0] == 'r' && "receiving"@[0] == 'r' && "rejected"@[0] == 'r');
    assert("ready"@[2] == 'a' && "receiving"@[2] == 'c' && "rejected"@[2] == 'j');
    assert("unresolved"@[0] == 'u' && "unknown"@[0] == 'u');
    assert("unresolved"@[2] == 'r' && "unknown"@[2] == 'k');
}

proof fn words_of_replies(request: Request<Seq<char>>, offset: u64, reason: Seq<char>)
    ensures
        is_worded(reply(request, "ready"@, None, Some(offset))),
        is_worded(reply(request, "receiving"@, None, Some(offset))),
        is_worded(reply(request, "ack"@, None, Some(offset))),
        is_worded(reply(request, "unknown"@, None, None)),
        is_worded(unavailable(request, reason)),
        is_worded(rejected(request, reason)),
{
    words_are_told_apart();
    assert(is_progress_word("ready"@) && is_progress_word("receiving"@) && is_progress_word(
        "ack"@,
    ));
    assert(is_refusal_word("unresolved"@) && is_refusal_word("rejected"@));
    reveal(is_worded);
}

proof fn words_of_statuses(
    request: Request<Seq<char>>,
    status: StatusView,
    receiving: Seq<char>,
)
    requires
        receiving == "ready"@ || receiving == "receiving"@,
    ensures
        is_worded(status_reply(request, status, receiving)),
{
    match status {
        Status::Receiving { received, .. } => {
            words_of_replies(request, received, Seq::empty());
        },
        Status::Unresolved { reason, .. } => {
            words_of_replies(request, 0, reason);
        },
        Status::Terminal(receipt) => {
            words_are_told_apart();
            assert(is_outcome_word(outcome_word(receipt.outcome)));
            reveal(is_worded);
        },
    }
}

/// Whether a turn that answers does so in the words of the wire.
#[verifier::opaque]
pub open spec fn keeps_to_words(t: WireTurn) -> bool {
    t.step matches WireStepView::Done(reply) ==> is_worded(reply)
}

proof fn words_of_lookups(v: AdapterView, request: Request<Seq<char>>, t: Turn)
    ensures
        keeps_to_words(on_status(v, request, t)),
        keeps_to_words(on_status_again(v, request, t)),
        keeps_to_words(on_find(v, request, t)),
{
    reveal(keeps_to_words);
    if let Step::Done(r) = t.step {
        if let Some(Some(status)) = lookup_of(r) {
            words_of_statuses(request, status, "receiving"@);
        }
        words_of_replies(request, 0, "operation lookup unavailable"@);
        words_of_replies(request, 0, "no live attempt; query status with the operation ID"@);
    }
}

proof fn words_of_begun(
    v: AdapterView,
    request: Request<Seq<char>>,
    intent: Intent<Seq<char>>,
    status: Option<StatusView>,
)
    ensures
        keeps_to_words(begun(v, request, intent, status)),
{
    reveal(keeps_to_words);
    match status {
        Some(status) => {
            words_of_statuses(request, status, "ready"@);
        },
        None => {
            words_of_replies(
                request,
                0,
                "screenshot begin refused; no receive was admitted for this binding"@,
            );
        },
    }
}

proof fn words_of_begin(
    v: AdapterView,
    request: Request<Seq<char>>,
    intent: Intent<Seq<char>>,
    t: Turn,
)
    ensures
        keeps_to_words(on_begin(v, request, intent, t)),
{
    match t.step {
        Step::Act(_) => {
            reveal(keeps_to_words);
        },
        Step::Done(r) => {
            words_of_begun(
                AdapterView { store: Some(t.store), ..v },
                request,
                intent,
                status_of(r),
            );
        },
    }
}

proof fn words_of_replacement(
    v: AdapterView,
    request: Request<Seq<char>>,
    intent: Intent<Seq<char>>,
    ticket: TicketView,
    t: Turn,
    at: Seq<char>,
)
    ensures
        keeps_to_words(on_replace(v, request, intent, ticket, t, at)),
{
    match t.step {
        Step::Act(_) => {
            reveal(keeps_to_words);
        },
        Step::Done(Ok(Answer::Ticket(issued))) => {
            words_of_begun(
                AdapterView { store: Some(t.store), ..v },
                request,
                intent,
                Some(Status::Receiving { ticket: issued, received: 0 }),
            );
        },
        Step::Done(_) => {
            words_of_begin(
                v,
                request,
                intent,
                protocol::cancel(t.store, request.binding.operation, ticket, at),
            );
        },
    }
}

proof fn words_of_outcome(v: AdapterView, request: Request<Seq<char>>, t: Turn)
    ensures
        keeps_to_words(on_outcome(v, request, t)),
{
    reveal(keeps_to_words);
    if let Step::Done(r) = t.step {
        match status_of(r) {
            Some(status) => {
                words_of_statuses(request, status, "receiving"@);
            },
            None => {
                words_of_replies(
                    request,
                    0,
                    "screenshot command could not establish an outcome; query status"@,
                );
            },
        }
    }
}

proof fn words_of_append(
    v: AdapterView,
    request: Request<Seq<char>>,
    ticket: TicketView,
    t: Turn,
    at: Seq<char>,
)
    ensures
        keeps_to_words(on_append(v, request, ticket, t, at)),
{
    match t.step {
        Step::Act(_) => {
            reveal(keeps_to_words);
        },
        Step::Done(Ok(Answer::Written { end })) => {
            words_of_replies(request, end, Seq::empty());
            reveal(keeps_to_words);
        },
        Step::Done(_) => {
            words_of_outcome(
                v,
                request,
                protocol::cancel(t.store, request.binding.operation, ticket, at),
            );
        },
    }
}

proof fn words_of_answer(v: AdapterView, reply: Reply<Seq<char>>)
    requires
        is_worded(reply),
    ensures
        keeps_to_words(answered(v, reply)),
{
    reveal(keeps_to_words);
}

proof fn words_of_beginning(
    v: AdapterView,
    store: StoreView,
    request: Request<Seq<char>>,
    intent: Intent<Seq<char>>,
    at: Seq<char>,
)
    ensures
        keeps_to_words(begin_command(v, store, request, intent, at)),
{
    let attempt = request.binding.attempt;
    let key = live_key(request.binding.operation);
    words_of_begin(
        v,
        request,
        intent,
        protocol::begin(store, request.binding.operation, attempt, intent),
    );
    words_of_replies(request, 0, "stale command sequence"@);
    words_of_answer(v, rejected(request, "stale command sequence"@));
    words_of_replies(request, 0, "operation intent or caller conflicts"@);
    words_of_answer(v, rejected(request, "operation intent or caller conflicts"@));
    let ticket = v.live[key].ticket;
    words_of_replacement(
        v,
        request,
        intent,
        ticket,
        protocol::replace(store, ticket, attempt),
        at,
    );
}

proof fn words_of_live_commands(
    v: AdapterView,
    store: StoreView,
    request: Request<Seq<char>>,
    ticket: TicketView,
    at: Seq<char>,
)
    ensures
        keeps_to_words(live_command(v, store, request, ticket, at)),
{
    let operation = request.binding.operation;
    words_of_outcome(v, request, protocol::cancel(store, operation, ticket, at));
    words_of_outcome(v, request, protocol::finish(store, operation, ticket));
    if let (Some(bytes), Some(offset)) = (
        chunk_of(base64_decoded(request.data->Some_0)),
        request.offset,
    ) {
        words_of_append(
            v,
            request,
            ticket,
            protocol::append(store, ticket, offset, bytes),
            at,
        );
    }
}

proof fn words_of_dispatch(
    v: AdapterView,
    store: StoreView,
    request: Request<Seq<char>>,
    at: Seq<char>,
)
    ensures
        keeps_to_words(dispatched(v, store, request, at)),
{
    let operation = request.binding.operation;
    let key = live_key(operation);
    if request.why == "status"@ {
        words_of_lookups(v, request, protocol::lookup(store, operation));
    } else if request.why == "begin"@ && request.intent is Some {
        words_of_beginning(v, store, request, request.intent->Some_0, at);
    } else if !v.live.contains_key(key) {
        words_of_lookups(v, request, protocol::lookup(store, operation));
        let reason = "no live attempt; query status with the operation ID"@;
        words_of_replies(request, 0, reason);
        words_of_answer(v, unavailable(request, reason));
    } else {
        let live = v.live[key];
        words_of_replies(request, 0, "stale or foreign attempt binding"@);
        words_of_answer(v, rejected(request, "stale or foreign attempt binding"@));
        words_of_live_commands(
            AdapterView {
                live: v.live.insert(key, Live { sequence: request.sequence, ..live }),
                ..v
            },
            store,
            request,
            live.ticket,
            at,
        );
    }
}

/// Every answer goes with its word: a receipt comes with `stored`, `published`,
/// `failed` and `aborted`, the next offset with `ready`, `receiving` and `ack`, a
/// reason with `rejected` and `unresolved`, and nothing with `unknown`. No other
/// word is answered.
pub proof fn answers_keep_to_their_words(v: AdapterView, request: Request<Seq<char>>, at: Seq<char>)
    ensures
        keeps_to_words(handled(v, request, at)),
{
    match v.store {
        None => {
            reveal(keeps_to_words);
        },
        Some(store) => {
            words_of_dispatch(v, store, request, at);
        },
    }
}

/// The same when the command waited for the store.
pub proof fn answers_keep_to_their_words_after_opening(
    v: AdapterView,
    store: Option<StoreView>,
    at: Seq<char>,
)
    ensures
        keeps_to_words(opened(v, store, at)),
{
    match (v.awaiting, store) {
        (Await::Open { request }, None) => {
            let reason = "screenshot store unavailable; operation requires reconciliation"@;
            words_of_replies(request, 0, reason);
            words_of_answer(v, unavailable(request, reason));
        },
        (Await::Open { request }, Some(s)) => {
            words_of_dispatch(AdapterView { store, ..v }, s, request, at);
        },
        (Await::Reopen { request }, None) => {
            let reason = "screenshot store could not reopen for reconciliation"@;
            words_of_replies(request, 0, reason);
            words_of_answer(v, unavailable(request, reason));
        },
        (Await::Reopen { request }, Some(s)) => {
            words_of_lookups(
                AdapterView { store, ..v },
                request,
                protocol::lookup(s, request.binding.operation),
            );
        },
        _ => {
            reveal(keeps_to_words);
        },
    }
}

/// The same when the command waited for an action.
pub proof fn answers_keep_to_their_words_after_actions(
    v: AdapterView,
    event: Event,
    at: Seq<char>,
)
    ensures
        keeps_to_words(wire_resumed(v, event, at)),
{
    let t = protocol::resumed(v.store->Some_0, event, at);
    match v.awaiting {
        Await::Status { request } => {
            words_of_lookups(v, request, t);
        },
        Await::StatusAgain { request } => {
            words_of_lookups(v, request, t);
        },
        Await::Find { request } => {
            words_of_lookups(v, request, t);
        },
        Await::Begin { request, intent } => {
            words_of_begin(v, request, intent, t);
        },
        Await::Replace { request, intent, ticket } => {
            words_of_replacement(v, request, intent, ticket, t, at);
        },
        Await::Append { request, ticket } => {
            words_of_append(v, request, ticket, t, at);
        },
        Await::Outcome { request } => {
            words_of_outcome(v, request, t);
        },
        _ => {
            reveal(keeps_to_words);
        },
    }
}

} // verus!
