//! What commands are answered once an operation has its receipt.

use vstd::prelude::*;

use crate::action::{After, Answer, AnswerView, Event, Goal, Pending, PendingView, Step};
use crate::adapter::{
    answered, dispatched, handled, live_command, live_key, needs_no_store, on_append, on_begin,
    on_find, on_outcome, on_replace, on_status, on_status_again, opened, wire_resumed, AdapterView,
    Await, Live, WireStepView, WireTurn,
};
use crate::encoding::{base64_decoded, chunk_of};
use crate::error::{Error, ErrorKind};
use crate::facts::{retained_check, FileFacts, StageFacts};
use crate::journal::{goes_with, Journal};
use crate::laws::{keeps, nothing_is_lost, receipt_of};
use crate::model::{Intent, OperationId, Outcome, Receipt, Status, TicketView};
use crate::observation::temporary;
use crate::opening::{started, ProgressView, Report};
use crate::path::is_same_path;
use crate::policy::{allowed, ParentFacts};
use crate::protocol;
use crate::protocol::{StoreView, Turn};
use crate::restart::{after, reads, receipts_are_found_again, the_journal_is_restored};
use crate::rules::key_of_operation;
use crate::soundness::{is_due, is_kept, is_live, is_temporary, sound, stays_sound, turn, Call};
use crate::wire::{status_reply, Request};
use crate::wire_laws::live_transfers_are_told_apart;

verus! {

/// Whether a store has this receipt for the accepted operation that it is of.
pub open spec fn has_receipt(s: StoreView, receipt: Receipt<Seq<char>>) -> bool {
    &&& key_of_operation(receipt.operation) matches Ok(key)
    &&& s.records.contains_key(key)
    &&& s.records[key].terminal == Some(receipt)
}

/// Whether an operation has ended for the owner of the store: it is no live
/// transfer, its receipt is in the store whenever that is open, and the command
/// under way is none that begins it.
pub open spec fn is_concluded(v: AdapterView, receipt: Receipt<Seq<char>>) -> bool {
    &&& key_of_operation(receipt.operation) is Ok
    &&& !v.live.contains_key(live_key(receipt.operation))
    &&& match v.store {
        Some(store) => sound(store) && has_receipt(store, receipt),
        None => needs_no_store(v.awaiting),
    }
    &&& match v.awaiting {
        Await::Begin { request, .. } => live_key(request.binding.operation) != live_key(
            receipt.operation,
        ),
        Await::Replace { request, .. } => live_key(request.binding.operation) != live_key(
            receipt.operation,
        ),
        _ => true,
    }
}

/// A receipt of an accepted operation stays with the store.
proof fn receipts_stay(v: StoreView, call: Call, at: Seq<char>, receipt: Receipt<Seq<char>>)
    requires
        sound(v),
        has_receipt(v, receipt),
    ensures
        sound(turn(v, call, at).store),
        has_receipt(turn(v, call, at).store, receipt),
{
    stays_sound(v, call, at);
    nothing_is_lost(v, call, at);
    reveal(keeps);
}

/// Asked again to cancel, to finish or for its status, an operation that has
/// ended is answered with its receipt. The store stays as it is, so that nothing
/// is reported.
pub proof fn concluded_operations_are_answered_with_their_receipt(
    v: AdapterView,
    store: StoreView,
    receipt: Receipt<Seq<char>>,
    request: Request<Seq<char>>,
    at: Seq<char>,
)
    requires
        is_concluded(v, receipt),
        v.store == Some(store),
        request.binding.operation == receipt.operation,
        request.why == "status"@ || request.why == "finish"@ || request.why == "cancel"@,
    ensures
        ({
            let reply = status_reply(request, Status::Terminal(Box::new(receipt)), "receiving"@);
            &&& handled(v, request, at) == answered(
                AdapterView {
                    store: Some(StoreView { pending: Pending::Idle, ..store }),
                    ..v
                },
                reply,
            )
            &&& reply.receipt == Some(receipt)
            &&& receipt.outcome is Stored ==> reply.why == "stored"@
        }),
{
    words_differ();
    let key = key_of_operation(receipt.operation)->Ok_0;
    assert(is_kept(key, store.records[key])) by {
        reveal(sound);
    }
}

/// The words of commands are told apart.
proof fn words_differ()
    ensures
        "status"@ != "begin"@,
        "finish"@ != "begin"@,
        "cancel"@ != "begin"@,
        "chunk"@ != "begin"@,
{
    reveal_strlit("chunk");
    reveal_strlit("finish");
    reveal_strlit("cancel");
    reveal_strlit("status");
    reveal_strlit("begin");
    assert("chunk"@[0] == 'c' && "finish"@[0] == 'f' && "cancel"@[0] == 'c' && "status"@[0] == 's'
        && "begin"@[0] == 'b');
}

proof fn begin_stays_concluded(
    v: AdapterView,
    request: Request<Seq<char>>,
    intent: Intent<Seq<char>>,
    t: Turn,
    receipt: Receipt<Seq<char>>,
)
    requires
        is_concluded(AdapterView { store: Some(t.store), awaiting: Await::Idle, ..v }, receipt),
        live_key(request.binding.operation) != live_key(receipt.operation),
    ensures
        is_concluded(on_begin(v, request, intent, t).adapter, receipt),
{
}

proof fn replacement_stays_concluded(
    v: AdapterView,
    request: Request<Seq<char>>,
    intent: Intent<Seq<char>>,
    ticket: TicketView,
    t: Turn,
    at: Seq<char>,
    receipt: Receipt<Seq<char>>,
)
    requires
        is_concluded(AdapterView { store: Some(t.store), awaiting: Await::Idle, ..v }, receipt),
        live_key(request.binding.operation) != live_key(receipt.operation),
    ensures
        is_concluded(on_replace(v, request, intent, ticket, t, at).adapter, receipt),
{
    let operation = request.binding.operation;
    receipts_stay(t.store, Call::Cancel { operation, ticket }, at, receipt);
    begin_stays_concluded(
        v,
        request,
        intent,
        protocol::cancel(t.store, operation, ticket, at),
        receipt,
    );
}

proof fn lookup_stays_concluded(
    v: AdapterView,
    request: Request<Seq<char>>,
    t: Turn,
    receipt: Receipt<Seq<char>>,
)
    requires
        is_concluded(AdapterView { store: Some(t.store), awaiting: Await::Idle, ..v }, receipt),
    ensures
        is_concluded(on_status(v, request, t).adapter, receipt),
        is_concluded(on_status_again(v, request, t).adapter, receipt),
        is_concluded(on_find(v, request, t).adapter, receipt),
        is_concluded(on_outcome(v, request, t).adapter, receipt),
{
}

proof fn append_stays_concluded(
    v: AdapterView,
    request: Request<Seq<char>>,
    ticket: TicketView,
    t: Turn,
    at: Seq<char>,
    receipt: Receipt<Seq<char>>,
)
    requires
        is_concluded(AdapterView { store: Some(t.store), awaiting: Await::Idle, ..v }, receipt),
    ensures
        is_concluded(on_append(v, request, ticket, t, at).adapter, receipt),
{
    let operation = request.binding.operation;
    receipts_stay(t.store, Call::Cancel { operation, ticket }, at, receipt);
    lookup_stays_concluded(
        v,
        request,
        protocol::cancel(t.store, operation, ticket, at),
        receipt,
    );
}

/// A beginning of an operation that has ended is answered at once.
proof fn ended_operations_do_not_begin(
    v: AdapterView,
    store: StoreView,
    request: Request<Seq<char>>,
    intent: Intent<Seq<char>>,
    receipt: Receipt<Seq<char>>,
)
    requires
        is_concluded(AdapterView { store: Some(store), awaiting: Await::Idle, ..v }, receipt),
        live_key(request.binding.operation) == live_key(receipt.operation),
    ensures
        is_concluded(
            on_begin(
                v,
                request,
                intent,
                protocol::begin(store, request.binding.operation, request.binding.attempt, intent),
            ).adapter,
            receipt,
        ),
{
    let operation = request.binding.operation;
    if key_of_operation(operation) is Ok {
        live_transfers_are_told_apart(operation, receipt.operation);
    }
    receipts_stay(
        store,
        Call::Begin { operation, attempt: request.binding.attempt, intent },
        Seq::empty(),
        receipt,
    );
}

proof fn live_commands_stay_concluded(
    v: AdapterView,
    store: StoreView,
    request: Request<Seq<char>>,
    ticket: TicketView,
    at: Seq<char>,
    receipt: Receipt<Seq<char>>,
)
    requires
        is_concluded(AdapterView { store: Some(store), awaiting: Await::Idle, ..v }, receipt),
    ensures
        is_concluded(live_command(v, store, request, ticket, at).adapter, receipt),
{
    let operation = request.binding.operation;
    receipts_stay(store, Call::Cancel { operation, ticket }, at, receipt);
    receipts_stay(store, Call::Finish { operation, ticket }, at, receipt);
    lookup_stays_concluded(v, request, protocol::cancel(store, operation, ticket, at), receipt);
    lookup_stays_concluded(v, request, protocol::finish(store, operation, ticket), receipt);
    if let (Some(bytes), Some(offset)) = (
        chunk_of(base64_decoded(request.data->Some_0)),
        request.offset,
    ) {
        receipts_stay(store, Call::Append { ticket, offset, bytes }, at, receipt);
        append_stays_concluded(
            v,
            request,
            ticket,
            protocol::append(store, ticket, offset, bytes),
            at,
            receipt,
        );
    }
}

proof fn dispatch_stays_concluded(
    v: AdapterView,
    store: StoreView,
    request: Request<Seq<char>>,
    at: Seq<char>,
    receipt: Receipt<Seq<char>>,
)
    requires
        is_concluded(AdapterView { store: Some(store), awaiting: Await::Idle, ..v }, receipt),
        v.store == Some(store),
    ensures
        is_concluded(dispatched(v, store, request, at).adapter, receipt),
{
    let operation = request.binding.operation;
    let attempt = request.binding.attempt;
    let key = live_key(operation);
    receipts_stay(store, Call::Lookup { operation }, at, receipt);
    lookup_stays_concluded(v, request, protocol::lookup(store, operation), receipt);
    if request.why == "status"@ {
    } else if request.why == "begin"@ && request.intent is Some {
        let intent = request.intent->Some_0;
        if key == live_key(receipt.operation) {
            ended_operations_do_not_begin(v, store, request, intent, receipt);
        } else {
            receipts_stay(store, Call::Begin { operation, attempt, intent }, at, receipt);
            begin_stays_concluded(
                v,
                request,
                intent,
                protocol::begin(store, operation, attempt, intent),
                receipt,
            );
            let ticket = v.live[key].ticket;
            receipts_stay(store, Call::Replace { ticket, attempt }, at, receipt);
            replacement_stays_concluded(
                v,
                request,
                intent,
                ticket,
                protocol::replace(store, ticket, attempt),
                at,
                receipt,
            );
        }
    } else if v.live.contains_key(key) {
        let live = v.live[key];
        live_commands_stay_concluded(
            AdapterView {
                live: v.live.insert(key, Live { sequence: request.sequence, ..live }),
                ..v
            },
            store,
            request,
            live.ticket,
            at,
            receipt,
        );
    }
}

/// An operation that has ended stays ended, whatever is commanded.
pub proof fn conclusions_outlast_commands(
    v: AdapterView,
    receipt: Receipt<Seq<char>>,
    request: Request<Seq<char>>,
    at: Seq<char>,
)
    requires
        is_concluded(v, receipt),
    ensures
        is_concluded(handled(v, request, at).adapter, receipt),
{
    if let Some(store) = v.store {
        dispatch_stays_concluded(v, store, request, at, receipt);
    }
}

/// An operation that has ended stays ended when the store is opened, or opened
/// again, from a journal that holds its receipt, and when it cannot be opened.
pub proof fn conclusions_outlast_openings(
    v: AdapterView,
    store: Option<StoreView>,
    receipt: Receipt<Seq<char>>,
    at: Seq<char>,
)
    requires
        is_concluded(v, receipt),
        store matches Some(s) ==> sound(s) && has_receipt(s, receipt),
    ensures
        is_concluded(opened(v, store, at).adapter, receipt),
{
    if let Some(s) = store {
        let w = AdapterView { store, ..v };
        match v.awaiting {
            Await::Open { request } => {
                dispatch_stays_concluded(w, s, request, at, receipt);
            },
            Await::Reopen { request } => {
                let operation = request.binding.operation;
                receipts_stay(s, Call::Lookup { operation }, at, receipt);
                lookup_stays_concluded(w, request, protocol::lookup(s, operation), receipt);
            },
            _ => {},
        }
    }
}

/// An operation that has ended stays ended, however the actions of other
/// commands go.
pub proof fn conclusions_outlast_actions(
    v: AdapterView,
    receipt: Receipt<Seq<char>>,
    event: Event,
    at: Seq<char>,
)
    requires
        is_concluded(v, receipt),
        v.store is Some,
    ensures
        is_concluded(wire_resumed(v, event, at).adapter, receipt),
{
    let store = v.store->Some_0;
    let t = protocol::resumed(store, event, at);
    receipts_stay(store, Call::Resume { event }, at, receipt);
    match v.awaiting {
        Await::Begin { request, intent } => {
            begin_stays_concluded(v, request, intent, t, receipt);
        },
        Await::Replace { request, intent, ticket } => {
            replacement_stays_concluded(v, request, intent, ticket, t, at, receipt);
        },
        Await::Append { request, ticket } => {
            append_stays_concluded(v, request, ticket, t, at, receipt);
        },
        Await::Status { request } => {
            lookup_stays_concluded(v, request, t, receipt);
        },
        Await::StatusAgain { request } => {
            lookup_stays_concluded(v, request, t, receipt);
        },
        Await::Find { request } => {
            lookup_stays_concluded(v, request, t, receipt);
        },
        Await::Outcome { request } => {
            lookup_stays_concluded(v, request, t, receipt);
        },
        _ => {},
    }
}

/// The operation that the answer is going to be about, while a transfer is
/// ended or an operation is looked up.
pub open spec fn subject(pending: PendingView) -> Option<Seq<char>> {
    match pending {
        Pending::Length { ticket, .. } => Some(ticket.key),
        Pending::FinishRead { key } => Some(key),
        Pending::Survey(Goal::Accept { key, .. }) => Some(key),
        Pending::FinishInspect { key, .. } => Some(key),
        Pending::FinishSync { key, .. } => Some(key),
        Pending::AcceptJournal { key } => Some(key),
        Pending::Survey(Goal::Publish { key }) => Some(key),
        Pending::PublishStage { key } => Some(key),
        Pending::PublishLink { key } => Some(key),
        Pending::PublishSync { key } => Some(key),
        Pending::Survey(Goal::Reconcile { key, .. }) => Some(key),
        Pending::ReconcileEvidence { key, .. } => Some(key),
        Pending::ReconcileStage { key, .. } => Some(key),
        Pending::ReconcileParent { key, .. } => Some(key),
        Pending::TerminalJournal { key, .. } => Some(key),
        Pending::Survey(Goal::Cleanup { key, .. }) => Some(key),
        Pending::CleanupStage { key, .. } => Some(key),
        Pending::CleanupUnlink { key, .. } => Some(key),
        Pending::DiscardInspect { live, .. } => Some(live.ticket.key),
        Pending::DiscardUnlink { live, .. } => Some(live.ticket.key),
        _ => None,
    }
}

/// Whether what a store knows under a key is of this operation.
pub open spec fn is_of(s: StoreView, key: Seq<char>, operation: OperationId<Seq<char>>) -> bool {
    &&& s.records.contains_key(key) ==> s.records[key].operation == operation
    &&& s.outcomes.contains_key(key) ==> s.outcomes[key].operation == operation
    &&& s.receiving.contains_key(key) ==> s.receiving[key].operation == operation
}

/// Whether a store is at work on an operation.
pub open spec fn is_at_work(s: StoreView, operation: OperationId<Seq<char>>) -> bool {
    &&& key_of_operation(operation) matches Ok(key)
    &&& subject(s.pending) == Some(key)
    &&& is_of(s, key, operation)
}

/// The receipt in an answer.
pub open spec fn receipt_in(answer: AnswerView) -> Option<Receipt<Seq<char>>> {
    match answer {
        Answer::Status(Status::Terminal(receipt)) => Some(*receipt),
        Answer::Found(Some(Status::Terminal(receipt))) => Some(*receipt),
        _ => None,
    }
}

/// Whether a turn goes on with an operation, or answers about it: with its
/// receipt, if with any.
#[verifier::opaque]
spec fn answers(t: Turn, operation: OperationId<Seq<char>>) -> bool {
    match t.step {
        Step::Act(_) => is_at_work(t.store, operation),
        Step::Done(Err(_)) => true,
        Step::Done(Ok(answer)) => receipt_in(answer) matches Some(receipt) ==> {
            &&& key_of_operation(operation) matches Ok(key)
            &&& receipt_of(t.store, key) == Some(receipt)
            &&& is_of(t.store, key, operation)
        },
    }
}

proof fn discards_answer(
    v: StoreView,
    key: Seq<char>,
    receipt: Receipt<Seq<char>>,
    operation: OperationId<Seq<char>>,
)
    requires
        sound(v),
        key_of_operation(operation) == Ok::<Seq<char>, Error<Seq<char>>>(key),
        v.receiving.contains_key(key),
        is_of(v, key, operation),
        receipt.operation == operation,
    ensures
        answers(protocol::discard(v, key, Some(receipt)), operation),
{
    reveal(answers);
    reveal(sound);
    assert(is_live(v, key, v.receiving[key]));
}

proof fn failures_answer(
    v: StoreView,
    key: Seq<char>,
    action: Seq<char>,
    reason: Seq<char>,
    at: Seq<char>,
    operation: OperationId<Seq<char>>,
)
    requires
        sound(v),
        key_of_operation(operation) == Ok::<Seq<char>, Error<Seq<char>>>(key),
        v.receiving.contains_key(key),
        is_of(v, key, operation),
    ensures
        answers(protocol::failed(v, key, action, reason, at), operation),
{
    discards_answer(
        v,
        key,
        temporary(v.receiving[key], Outcome::Failed { action, reason }, at),
        operation,
    );
}

proof fn lookups_answer(v: StoreView, operation: OperationId<Seq<char>>)
    requires
        sound(v),
    ensures
        answers(protocol::lookup(v, operation), operation),
{
    reveal(answers);
    if let Ok(key) = key_of_operation(operation) {
        reveal(sound);
        if v.receiving.contains_key(key) {
            assert(is_live(v, key, v.receiving[key]));
        }
    }
}

proof fn finishes_answer(v: StoreView, operation: OperationId<Seq<char>>, ticket: TicketView)
    requires
        sound(v),
    ensures
        answers(protocol::finish(v, operation, ticket), operation),
{
    reveal(answers);
    reveal(sound);
}

proof fn cancels_answer(
    v: StoreView,
    operation: OperationId<Seq<char>>,
    ticket: TicketView,
    at: Seq<char>,
)
    requires
        sound(v),
    ensures
        answers(protocol::cancel(v, operation, ticket, at), operation),
{
    let t = protocol::cancel(v, operation, ticket, at);
    if t == protocol::discard(
        v,
        ticket.key,
        Some(temporary(v.receiving[ticket.key], Outcome::Aborted, at)),
    ) && key_of_operation(operation) == Ok::<Seq<char>, Error<Seq<char>>>(ticket.key)
        && v.receiving.contains_key(ticket.key) && v.receiving[ticket.key].operation
        == operation {
        assert(is_of(v, ticket.key, operation)) by {
            reveal(sound);
        }
        discards_answer(
            v,
            ticket.key,
            temporary(v.receiving[ticket.key], Outcome::Aborted, at),
            operation,
        );
    } else {
        reveal(answers);
        reveal(sound);
    }
}

proof fn endings_answer(
    v: StoreView,
    key: Seq<char>,
    outcome: Outcome<Seq<char>>,
    at: Seq<char>,
    after: After,
    operation: OperationId<Seq<char>>,
)
    requires
        key_of_operation(operation) == Ok::<Seq<char>, Error<Seq<char>>>(key),
        is_of(v, key, operation),
    ensures
        answers(protocol::terminalize(v, key, outcome, at, after), operation),
{
    reveal(answers);
}

proof fn refusals_answer(
    v: StoreView,
    key: Seq<char>,
    kind: ErrorKind,
    at: Seq<char>,
    operation: OperationId<Seq<char>>,
)
    requires
        key_of_operation(operation) == Ok::<Seq<char>, Error<Seq<char>>>(key),
        is_of(v, key, operation),
    ensures
        answers(protocol::publish_refused(v, key, kind, at), operation),
{
    endings_answer(
        StoreView { publication: v.publication.insert(key, false), ..v },
        key,
        Outcome::Failed {
            action: "publish"@,
            reason: "destination already exists; nothing replaced"@,
        },
        at,
        After::Status,
        operation,
    );
    assert(answers(protocol::settled(v, key, After::Status), operation)) by {
        reveal(answers);
    }
}

proof fn surveys_answer(
    v: StoreView,
    w: StoreView,
    goal: Goal<Seq<char>>,
    facts: ParentFacts,
    at: Seq<char>,
    operation: OperationId<Seq<char>>,
)
    requires
        sound(v),
        v.pending == PendingView::Survey(goal),
        w == (StoreView { pending: Pending::Idle, ..v }),
        is_at_work(v, operation),
    ensures
        answers(protocol::on_survey(w, goal, facts, at), operation),
{
    assert(is_due(v)) by {
        reveal(sound);
    }
    assert(sound(w)) by {
        reveal(sound);
    }
    match goal {
        Goal::Accept { key, .. } => {
            let live = w.receiving[key];
            match allowed(w.home, live.operation.slug, live.intent.destination, facts) {
                Err(e) => {
                    failures_answer(w, key, "prepare"@, e.message, at, operation);
                },
                Ok((destination, _)) => {
                    if is_same_path(destination, live.destination) {
                        reveal(answers);
                    } else {
                        failures_answer(
                            w,
                            key,
                            "prepare"@,
                            protocol::moved_error().message,
                            at,
                            operation,
                        );
                    }
                },
            }
        },
        Goal::Publish { key } => {
            match protocol::record_parent(w, w.records[key], facts) {
                Err(e) => {
                    refusals_answer(w, key, e.kind, at, operation);
                },
                Ok(()) => {
                    reveal(answers);
                },
            }
        },
        _ => {
            reveal(answers);
        },
    }
}

proof fn inspections_answer(
    v: StoreView,
    w: StoreView,
    facts: StageFacts,
    at: Seq<char>,
    operation: OperationId<Seq<char>>,
)
    requires
        sound(v),
        w == (StoreView { pending: Pending::Idle, ..v }),
        is_at_work(v, operation),
    ensures
        answers(protocol::on_stage(w, v.pending, facts, at), operation),
{
    assert(is_due(v)) by {
        reveal(sound);
    }
    assert(sound(w)) by {
        reveal(sound);
    }
    match v.pending {
        Pending::FinishInspect { key, parent, .. } => {
            match protocol::place_check(parent, facts) {
                Err(e) => {
                    failures_answer(w, key, "prepare"@, e.message, at, operation);
                },
                Ok(_) => {
                    reveal(answers);
                },
            }
        },
        _ => {
            reveal(answers);
        },
    }
}

proof fn effects_answer(
    v: StoreView,
    w: StoreView,
    effect: Result<(), Error>,
    at: Seq<char>,
    operation: OperationId<Seq<char>>,
)
    requires
        sound(v),
        w == (StoreView { pending: Pending::Idle, ..v }),
        is_at_work(v, operation),
    ensures
        answers(protocol::on_effect(w, v.pending, effect, at), operation),
{
    assert(is_due(v)) by {
        reveal(sound);
    }
    assert(sound(w)) by {
        reveal(sound);
    }
    match v.pending {
        Pending::FinishSync { key, .. } => {
            match effect {
                Err(e) => {
                    failures_answer(w, key, "sync"@, e.message@, at, operation);
                },
                Ok(()) => {
                    reveal(answers);
                    assert(!v.outcomes.contains_key(key)) by {
                        reveal(sound);
                    }
                },
            }
        },
        Pending::PublishLink { key } => {
            match effect {
                Err(e) => {
                    refusals_answer(w, key, e.kind, at, operation);
                },
                Ok(()) => {
                    reveal(answers);
                },
            }
        },
        Pending::PublishSync { key } => {
            endings_answer(w, key, protocol::published(effect), at, After::Status, operation);
        },
        Pending::ReconcileParent { key, after } => {
            endings_answer(w, key, protocol::published(effect), at, after, operation);
        },
        _ => {
            reveal(answers);
        },
    }
}

proof fn events_answer(
    v: StoreView,
    event: Event,
    at: Seq<char>,
    operation: OperationId<Seq<char>>,
)
    requires
        sound(v),
        is_at_work(v, operation),
    ensures
        answers(protocol::resumed(v, event, at), operation),
{
    let w = StoreView { pending: Pending::Idle, ..v };
    assert(is_due(v)) by {
        reveal(sound);
    }
    assert(sound(w)) by {
        reveal(sound);
    }
    match event {
        Event::Survey(facts) => {
            if let Pending::Survey(goal) = v.pending {
                surveys_answer(v, w, goal, facts, at, operation);
            } else {
                reveal(answers);
            }
        },
        Event::Stage(facts) => {
            inspections_answer(v, w, facts, at, operation);
        },
        Event::Contents(facts, bytes) => {
            if let Pending::FinishRead { key } = v.pending {
                match protocol::contents_check(w.receiving[key].intent, facts, bytes) {
                    Err(e) => {
                        failures_answer(w, key, "verify"@, e.message, at, operation);
                    },
                    Ok(_) => {
                        reveal(answers);
                    },
                }
            } else {
                reveal(answers);
            }
        },
        Event::File(file) => {
            if let Pending::PublishStage { key } = v.pending {
                match retained_check(file, w.records[key].stage_identity) {
                    Err(e) => {
                        refusals_answer(w, key, e.kind, at, operation);
                    },
                    Ok(()) => {
                        reveal(answers);
                    },
                }
            } else {
                reveal(answers);
            }
        },
        Event::Effect(effect) => {
            effects_answer(v, w, effect, at, operation);
        },
        _ => {
            reveal(answers);
        },
    }
}

/// Whether the owner of the store is at work on the operation of the command
/// that ends it or asks for its end.
pub open spec fn is_on_track(v: AdapterView) -> bool {
    match v.awaiting {
        Await::Outcome { request } => v.store matches Some(s) && is_at_work(
            s,
            request.binding.operation,
        ),
        Await::Find { request } => {
            &&& v.store matches Some(s) && is_at_work(s, request.binding.operation)
            &&& !v.live.contains_key(live_key(request.binding.operation))
        },
        _ => true,
    }
}

/// Whether a turn that ends a command to end an operation leaves that operation
/// ended, if it is answered as stored.
#[verifier::opaque]
pub open spec fn concludes(t: WireTurn) -> bool {
    &&& is_on_track(t.adapter)
    &&& t.step matches WireStepView::Done(reply) ==> (reply.receipt matches Some(receipt)
        ==> receipt.outcome is Stored ==> is_concluded(t.adapter, receipt)
        && receipt.operation == reply.binding.operation)
}

proof fn outcome_concludes(v: AdapterView, request: Request<Seq<char>>, t: Turn)
    requires
        sound(t.store),
        answers(t, request.binding.operation),
    ensures
        concludes(on_outcome(v, request, t)),
        !v.live.contains_key(live_key(request.binding.operation)) ==> concludes(
            on_find(v, request, t),
        ),
{
    reveal(concludes);
    reveal(answers);
    let operation = request.binding.operation;
    if let Step::Done(Ok(answer)) = t.step {
        if let Some(receipt) = receipt_in(answer) {
            let key = key_of_operation(operation)->Ok_0;
            if t.store.records.contains_key(key) {
                assert(is_kept(key, t.store.records[key])) by {
                    reveal(sound);
                }
            } else {
                assert(is_temporary(key, t.store.outcomes[key])) by {
                    reveal(sound);
                }
            }
        }
    }
}

/// When a command to finish or to cancel is answered with the receipt of a
/// stored operation, that operation has ended for the owner: from then on it is
/// answered with this receipt. Until such a command is answered, the store is at
/// work on its operation.
pub proof fn finishing_concludes(
    v: AdapterView,
    store: StoreView,
    request: Request<Seq<char>>,
    at: Seq<char>,
)
    requires
        v.store == Some(store),
        sound(store),
        request.why == "finish"@ || request.why == "cancel"@,
    ensures
        concludes(handled(v, request, at)),
{
    reveal_strlit("finish");
    reveal_strlit("cancel");
    reveal_strlit("status");
    reveal_strlit("chunk");
    assert("finish"@[0] == 'f' && "cancel"@[1] == 'a' && "status"@[0] == 's' && "chunk"@[1]
        == 'h');
    assert("cancel"@[0] == 'c');
    words_differ();
    let operation = request.binding.operation;
    let key = live_key(operation);
    if v.live.contains_key(key) {
        let live = v.live[key];
        let w = AdapterView {
            live: v.live.insert(key, Live { sequence: request.sequence, ..live }),
            ..v
        };
        if live.binding != request.binding || request.sequence <= live.sequence {
            reveal(concludes);
        } else {
            stays_sound(store, Call::Finish { operation, ticket: live.ticket }, at);
            stays_sound(store, Call::Cancel { operation, ticket: live.ticket }, at);
            finishes_answer(store, operation, live.ticket);
            cancels_answer(store, operation, live.ticket, at);
            outcome_concludes(w, request, protocol::finish(store, operation, live.ticket));
            outcome_concludes(w, request, protocol::cancel(store, operation, live.ticket, at));
        }
    } else {
        stays_sound(store, Call::Lookup { operation }, at);
        lookups_answer(store, operation);
        outcome_concludes(v, request, protocol::lookup(store, operation));
    }
}

/// The same when the command is answered after an action of the store.
pub proof fn finishing_concludes_after_actions(
    v: AdapterView,
    store: StoreView,
    event: Event,
    at: Seq<char>,
)
    requires
        v.store == Some(store),
        sound(store),
        is_on_track(v),
        v.awaiting is Outcome || v.awaiting is Find,
    ensures
        concludes(wire_resumed(v, event, at)),
{
    let t = protocol::resumed(store, event, at);
    stays_sound(store, Call::Resume { event }, at);
    match v.awaiting {
        Await::Outcome { request } => {
            events_answer(store, event, at, request.binding.operation);
            outcome_concludes(v, request, t);
        },
        Await::Find { request } => {
            events_answer(store, event, at, request.binding.operation);
            outcome_concludes(v, request, t);
        },
        _ => {},
    }
}

/// An owner that starts anew answers with the receipts that an earlier owner's
/// store had given: its store is opened from the journal of that one. No receipt
/// of the operation is reported again.
pub proof fn a_new_owner_answers_with_the_receipt(
    v: StoreView,
    j: Journal,
    receipt: Receipt<Seq<char>>,
    home: Seq<char>,
    owner: u64,
    lock: FileFacts,
    replies: Seq<(Report, Seq<char>)>,
    s: StoreView,
    request: Request<Seq<char>>,
    at: Seq<char>,
)
    requires
        sound(v),
        has_receipt(v, receipt),
        goes_with(j, v),
        reads(started(home, owner, lock), replies, j),
        after(started(home, owner, lock), replies) == ProgressView::Opened(s),
        request.binding.operation == receipt.operation,
        request.why == "status"@ || request.why == "finish"@ || request.why == "cancel"@,
    ensures
        ({
            let new = AdapterView { store: None, live: Map::empty(), awaiting: Await::Idle };
            let first = handled(new, request, at);
            let next = AdapterView {
                store: Some(StoreView { pending: Pending::Idle, ..s }),
                ..new
            };
            &&& first.step == WireStepView::Open
            &&& opened(first.adapter, Some(s), at) == answered(
                next,
                status_reply(request, Status::Terminal(Box::new(receipt)), "receiving"@),
            )
            &&& is_concluded(next, receipt)
        }),
{
    let new = AdapterView { store: None, live: Map::empty(), awaiting: Await::Idle };
    let key = key_of_operation(receipt.operation)->Ok_0;
    receipts_are_found_again(v, j, key, receipt, home, owner, lock, replies, s);
    the_journal_is_restored(home, owner, lock, replies, j, s);
    let w = AdapterView { store: Some(s), awaiting: Await::Open { request }, ..new };
    concluded_operations_are_answered_with_their_receipt(w, s, receipt, request, at);
    conclusions_outlast_commands(w, receipt, request, at);
}

/// What can happen to the owner of a store.
pub enum Happening {
    /// A command comes.
    Command { request: Request<Seq<char>> },
    /// The store is open, or cannot be opened.
    Opening { store: Option<StoreView> },
    /// An action of the store was performed.
    Action { event: Event },
}

/// The owner of a store after a number of happenings, each at its time.
pub open spec fn after_all(v: AdapterView, all: Seq<(Happening, Seq<char>)>) -> AdapterView
    decreases all.len(),
{
    if all.len() == 0 {
        v
    } else {
        let w = after_all(v, all.drop_last());
        let at = all.last().1;
        match all.last().0 {
            Happening::Command { request } => handled(w, request, at).adapter,
            Happening::Opening { store } => opened(w, store, at).adapter,
            Happening::Action { event } => wire_resumed(w, event, at).adapter,
        }
    }
}

/// Whether happenings are in order, for a receipt that is in the journal: a
/// store that is opened has it, and actions are those of an open store.
pub open spec fn in_order(
    v: AdapterView,
    all: Seq<(Happening, Seq<char>)>,
    receipt: Receipt<Seq<char>>,
) -> bool
    decreases all.len(),
{
    all.len() > 0 ==> {
        &&& in_order(v, all.drop_last(), receipt)
        &&& match all.last().0 {
            Happening::Command { .. } => true,
            Happening::Opening { store } => store matches Some(s) ==> sound(s) && has_receipt(
                s,
                receipt,
            ),
            Happening::Action { .. } => after_all(v, all.drop_last()).store is Some,
        }
    }
}

proof fn conclusions_last(
    v: AdapterView,
    all: Seq<(Happening, Seq<char>)>,
    receipt: Receipt<Seq<char>>,
)
    requires
        is_concluded(v, receipt),
        in_order(v, all, receipt),
    ensures
        is_concluded(after_all(v, all), receipt),
    decreases all.len(),
{
    if all.len() > 0 {
        let w = after_all(v, all.drop_last());
        let at = all.last().1;
        conclusions_last(v, all.drop_last(), receipt);
        match all.last().0 {
            Happening::Command { request } => {
                conclusions_outlast_commands(w, receipt, request, at);
            },
            Happening::Opening { store } => {
                conclusions_outlast_openings(w, store, receipt, at);
            },
            Happening::Action { event } => {
                conclusions_outlast_actions(w, receipt, event, at);
            },
        }
    }
}

/// What was answered as stored stays stored: whatever happens to the owner
/// afterwards, the operation is answered with the same receipt when it is
/// cancelled, finished or asked for again, and nothing is reported.
pub proof fn what_is_stored_stays_stored(
    v: AdapterView,
    receipt: Receipt<Seq<char>>,
    all: Seq<(Happening, Seq<char>)>,
    store: StoreView,
    request: Request<Seq<char>>,
    at: Seq<char>,
)
    requires
        is_concluded(v, receipt),
        receipt.outcome is Stored,
        in_order(v, all, receipt),
        after_all(v, all).store == Some(store),
        request.binding.operation == receipt.operation,
        request.why == "status"@ || request.why == "finish"@ || request.why == "cancel"@,
    ensures
        ({
            let t = handled(after_all(v, all), request, at);
            &&& t.step matches WireStepView::Done(reply)
            &&& reply.why == "stored"@
            &&& reply.receipt == Some(receipt)
            &&& t.adapter.store == Some(StoreView { pending: Pending::Idle, ..store })
        }),
{
    conclusions_last(v, all, receipt);
    concluded_operations_are_answered_with_their_receipt(
        after_all(v, all),
        store,
        receipt,
        request,
        at,
    );
}

} // verus!
