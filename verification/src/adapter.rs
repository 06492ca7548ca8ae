//! The one owner of the store: it turns commands into operations of the store,
//! and results into answers.
//!
//! The store is opened at the first command and not before; that it cannot be
//! opened concerns screenshots only. A ticket never leaves the owner: a command
//! is bound to it by its binding and its sequence number.

use vstd::prelude::*;

use crate::action::{Action, ActionView, Answer, AnswerView, Event, Step};
use crate::clock::now;
use crate::encoding::{base64_decoded, chunk_of, read_chunk};
use crate::error::Error;
use crate::model::{
    intents_equal, is_same_intent, operations_equal, Intent, OperationId, Status, StatusView,
    Ticket, TicketView,
};
use crate::observation::{seen, Observation};
use crate::protocol;
use crate::protocol::{StoreView, Turn};
use crate::store::Store;
use crate::table::Table;
use crate::text::{cat3, same_text};
use crate::wire::{
    bindings_equal, rejected, reply, status_reply, unavailable, Binding, Completion, Reply,
    Request,
};

verus! {

/// A transfer that commands may still add to.
pub struct Live<S = String, T = Ticket> {
    pub binding: Binding<S>,
    pub intent: Intent<S>,
    pub ticket: T,
    /// The sequence number of the latest command that was carried out.
    pub sequence: u64,
}

/// A transfer that commands may still add to, as contracts see it.
pub type LiveView = Live<Seq<char>, TicketView>;

impl View for Live<String, Ticket> {
    type V = LiveView;

    open spec fn view(&self) -> LiveView {
        Live {
            binding: self.binding@,
            intent: self.intent@,
            ticket: self.ticket@,
            sequence: self.sequence,
        }
    }
}

/// What a command waits for.
pub enum Await<S = String, T = Ticket> {
    /// Nothing: no command is being carried out.
    Idle,
    /// The store, which is being opened.
    Open { request: Request<S> },
    /// The store, which is being opened again to look into an operation.
    Reopen { request: Request<S> },
    /// A lookup.
    Status { request: Request<S> },
    /// A lookup in a store that was opened again for it.
    StatusAgain { request: Request<S> },
    /// The beginning of a transfer, or the end of one that could not be
    /// restarted.
    Begin { request: Request<S>, intent: Intent<S> },
    /// The replacement of an attempt.
    Replace { request: Request<S>, intent: Intent<S>, ticket: T },
    /// A lookup for a command without a transfer.
    Find { request: Request<S> },
    /// The writing of a chunk.
    Append { request: Request<S>, ticket: T },
    /// The end of a transfer.
    Outcome { request: Request<S> },
}

/// What a command waits for, as contracts see it.
pub type AwaitView = Await<Seq<char>, TicketView>;

/// An optional value, as contracts see it.
pub open spec fn optional_view<V: View>(v: Option<V>) -> Option<V::V> {
    match v {
        Some(v) => Some(v@),
        None => None,
    }
}

impl View for Await<String, Ticket> {
    type V = AwaitView;

    open spec fn view(&self) -> AwaitView {
        match *self {
            Await::Idle => Await::Idle,
            Await::Open { request } => Await::Open { request: request@ },
            Await::Reopen { request } => Await::Reopen { request: request@ },
            Await::Status { request } => Await::Status { request: request@ },
            Await::StatusAgain { request } => Await::StatusAgain { request: request@ },
            Await::Begin { request, intent } => {
                Await::Begin { request: request@, intent: intent@ }
            },
            Await::Replace { request, intent, ticket } => {
                Await::Replace { request: request@, intent: intent@, ticket: ticket@ }
            },
            Await::Find { request } => Await::Find { request: request@ },
            Await::Append { request, ticket } => {
                Await::Append { request: request@, ticket: ticket@ }
            },
            Await::Outcome { request } => Await::Outcome { request: request@ },
        }
    }
}

/// What a command comes to.
pub enum WireStep {
    /// No command is being carried out.
    Idle,
    /// Open the store.
    Open,
    /// Close this store, and open it again.
    Reopen(Store),
    /// Perform an action of the store.
    Act(Action),
    /// The command is answered.
    Done(Reply),
}

/// What a command comes to, as contracts see it.
pub enum WireStepView {
    Idle,
    Open,
    Reopen(StoreView),
    Act(ActionView),
    Done(Reply<Seq<char>>),
}

impl View for WireStep {
    type V = WireStepView;

    open spec fn view(&self) -> WireStepView {
        match *self {
            WireStep::Idle => WireStepView::Idle,
            WireStep::Open => WireStepView::Open,
            WireStep::Reopen(store) => WireStepView::Reopen(store@),
            WireStep::Act(action) => WireStepView::Act(action@),
            WireStep::Done(reply) => WireStepView::Done(reply@),
        }
    }
}

/// The state of the owner.
#[verifier::ext_equal]
pub struct AdapterView {
    pub store: Option<StoreView>,
    /// The live transfers, by slug and operation.
    pub live: Map<Seq<char>, LiveView>,
    pub awaiting: AwaitView,
}

/// A state of the owner, and the step that led there.
pub struct WireTurn {
    pub adapter: AdapterView,
    pub step: WireStepView,
}

/// What an operation is known by among the live transfers.
pub open spec fn live_key(operation: OperationId<Seq<char>>) -> Seq<char> {
    operation.slug + "\0"@ + operation.operation_id
}

/// The command is answered.
pub open spec fn answered(v: AdapterView, reply: Reply<Seq<char>>) -> WireTurn {
    WireTurn {
        adapter: AdapterView { awaiting: Await::Idle, ..v },
        step: WireStepView::Done(reply),
    }
}

/// A turn of the store leaves the owner waiting for an action.
pub open spec fn waiting(v: AdapterView, awaiting: AwaitView, t: Turn) -> WireTurn {
    WireTurn {
        adapter: AdapterView { store: Some(t.store), awaiting, ..v },
        step: WireStepView::Act(t.step->Act_0),
    }
}

/// A status that an operation of the store ended with.
pub open spec fn status_of(r: Result<AnswerView, Error<Seq<char>>>) -> Option<StatusView> {
    match r {
        Ok(Answer::Status(status)) => Some(status),
        _ => None,
    }
}

/// A status that a lookup found, or that it found none.
pub open spec fn lookup_of(r: Result<AnswerView, Error<Seq<char>>>) -> Option<Option<StatusView>> {
    match r {
        Ok(Answer::Found(found)) => Some(found),
        _ => None,
    }
}

/// The answer to a lookup.
pub open spec fn lookup_reply(
    request: Request<Seq<char>>,
    found: Option<Option<StatusView>>,
) -> Reply<Seq<char>> {
    match found {
        Some(Some(status)) => status_reply(request, status, "receiving"@),
        Some(None) => reply(request, "unknown"@, None, None),
        None => unavailable(request, "operation lookup unavailable"@),
    }
}

/// A lookup in a store that was opened again.
pub open spec fn on_status_again(v: AdapterView, request: Request<Seq<char>>, t: Turn) -> WireTurn {
    match t.step {
        Step::Act(_) => waiting(v, Await::StatusAgain { request }, t),
        Step::Done(r) => answered(
            AdapterView { store: Some(t.store), ..v },
            lookup_reply(request, lookup_of(r)),
        ),
    }
}

/// A lookup. An operation that stays unresolved is looked into by a store that
/// is opened again, once no live ticket would be lost by that.
pub open spec fn on_status(v: AdapterView, request: Request<Seq<char>>, t: Turn) -> WireTurn {
    match t.step {
        Step::Act(_) => waiting(v, Await::Status { request }, t),
        Step::Done(r) => if is_unresolved(lookup_of(r)) && v.live == Map::<
            Seq<char>,
            LiveView,
        >::empty() {
            WireTurn {
                adapter: AdapterView { store: None, awaiting: Await::Reopen { request }, ..v },
                step: WireStepView::Reopen(t.store),
            }
        } else {
            answered(
                AdapterView { store: Some(t.store), ..v },
                lookup_reply(request, lookup_of(r)),
            )
        },
    }
}

/// Whether a lookup found an operation unresolved.
pub open spec fn is_unresolved(found: Option<Option<StatusView>>) -> bool {
    found matches Some(Some(status)) && status is Unresolved
}

/// Whether a lookup found an operation that has ended or is unresolved.
pub open spec fn is_past_receiving(found: Option<Option<StatusView>>) -> bool {
    found matches Some(Some(status)) && !(status is Receiving)
}

/// A transfer has begun, or not.
pub open spec fn begun(
    v: AdapterView,
    request: Request<Seq<char>>,
    intent: Intent<Seq<char>>,
    status: Option<StatusView>,
) -> WireTurn {
    let key = live_key(request.binding.operation);
    match status {
        None => answered(
            v,
            rejected(
                request,
                "screenshot begin refused; no receive was admitted for this binding"@,
            ),
        ),
        Some(status) => answered(
            AdapterView {
                live: match status {
                    Status::Receiving { ticket, .. } => v.live.insert(
                        key,
                        Live {
                            binding: request.binding,
                            intent,
                            ticket,
                            sequence: request.sequence,
                        },
                    ),
                    _ => v.live.remove(key),
                },
                ..v
            },
            status_reply(request, status, "ready"@),
        ),
    }
}

/// The beginning of a transfer, or the end of one that could not be restarted.
pub open spec fn on_begin(
    v: AdapterView,
    request: Request<Seq<char>>,
    intent: Intent<Seq<char>>,
    t: Turn,
) -> WireTurn {
    match t.step {
        Step::Act(_) => waiting(v, Await::Begin { request, intent }, t),
        Step::Done(r) => begun(
            AdapterView { store: Some(t.store), ..v },
            request,
            intent,
            status_of(r),
        ),
    }
}

/// The replacement of an attempt. A transfer that cannot be restarted is ended,
/// since nobody is left who may finish it.
pub open spec fn on_replace(
    v: AdapterView,
    request: Request<Seq<char>>,
    intent: Intent<Seq<char>>,
    ticket: TicketView,
    t: Turn,
    at: Seq<char>,
) -> WireTurn {
    match t.step {
        Step::Act(_) => waiting(v, Await::Replace { request, intent, ticket }, t),
        Step::Done(Ok(Answer::Ticket(issued))) => begun(
            AdapterView { store: Some(t.store), ..v },
            request,
            intent,
            Some(Status::Receiving { ticket: issued, received: 0 }),
        ),
        Step::Done(_) => on_begin(
            v,
            request,
            intent,
            protocol::cancel(t.store, request.binding.operation, ticket, at),
        ),
    }
}

/// A lookup for a command without a transfer.
pub open spec fn on_find(v: AdapterView, request: Request<Seq<char>>, t: Turn) -> WireTurn {
    match t.step {
        Step::Act(_) => waiting(v, Await::Find { request }, t),
        Step::Done(r) => answered(
            AdapterView { store: Some(t.store), ..v },
            if is_past_receiving(lookup_of(r)) {
                lookup_reply(request, lookup_of(r))
            } else {
                unavailable(request, "no live attempt; query status with the operation ID"@)
            },
        ),
    }
}

/// The end of a transfer.
pub open spec fn on_outcome(v: AdapterView, request: Request<Seq<char>>, t: Turn) -> WireTurn {
    match t.step {
        Step::Act(_) => waiting(v, Await::Outcome { request }, t),
        Step::Done(r) => match status_of(r) {
            Some(status) => answered(
                AdapterView {
                    store: Some(t.store),
                    live: v.live.remove(live_key(request.binding.operation)),
                    ..v
                },
                status_reply(request, status, "receiving"@),
            ),
            None => answered(
                AdapterView { store: Some(t.store), ..v },
                unavailable(
                    request,
                    "screenshot command could not establish an outcome; query status"@,
                ),
            ),
        },
    }
}

/// The writing of a chunk. A transfer whose chunk was not written is ended
/// before that is answered.
pub open spec fn on_append(
    v: AdapterView,
    request: Request<Seq<char>>,
    ticket: TicketView,
    t: Turn,
    at: Seq<char>,
) -> WireTurn {
    match t.step {
        Step::Act(_) => waiting(v, Await::Append { request, ticket }, t),
        Step::Done(Ok(Answer::Written { end })) => answered(
            AdapterView { store: Some(t.store), ..v },
            reply(request, "ack"@, None, Some(end)),
        ),
        Step::Done(_) => on_outcome(
            v,
            request,
            protocol::cancel(t.store, request.binding.operation, ticket, at),
        ),
    }
}

/// A command to begin.
pub open spec fn begin_command(
    v: AdapterView,
    store: StoreView,
    request: Request<Seq<char>>,
    intent: Intent<Seq<char>>,
    at: Seq<char>,
) -> WireTurn {
    let operation = request.binding.operation;
    let attempt = request.binding.attempt;
    let key = live_key(operation);
    if v.live.contains_key(key) {
        let live = v.live[key];
        if live.binding == request.binding {
            if request.sequence <= live.sequence {
                answered(v, rejected(request, "stale command sequence"@))
            } else {
                on_begin(v, request, intent, protocol::begin(store, operation, attempt, intent))
            }
        } else if is_same_intent(live.intent, intent) && live.binding.operation == operation
            && live.binding.attempt.attempt_id != attempt.attempt_id {
            on_replace(
                v,
                request,
                intent,
                live.ticket,
                protocol::replace(store, live.ticket, attempt),
                at,
            )
        } else {
            answered(v, rejected(request, "operation intent or caller conflicts"@))
        }
    } else {
        on_begin(v, request, intent, protocol::begin(store, operation, attempt, intent))
    }
}

/// A command for a live transfer, whose turn it is.
pub open spec fn live_command(
    v: AdapterView,
    store: StoreView,
    request: Request<Seq<char>>,
    ticket: TicketView,
    at: Seq<char>,
) -> WireTurn {
    let operation = request.binding.operation;
    if request.why == "chunk"@ {
        match (chunk_of(base64_decoded(request.data->Some_0)), request.data, request.offset) {
            (Some(bytes), Some(_), Some(offset)) => on_append(
                v,
                request,
                ticket,
                protocol::append(store, ticket, offset, bytes),
                at,
            ),
            _ => on_outcome(v, request, protocol::cancel(store, operation, ticket, at)),
        }
    } else if request.why == "finish"@ {
        on_outcome(v, request, protocol::finish(store, operation, ticket))
    } else {
        on_outcome(v, request, protocol::cancel(store, operation, ticket, at))
    }
}

/// A command, once the store is open.
pub open spec fn dispatched(
    v: AdapterView,
    store: StoreView,
    request: Request<Seq<char>>,
    at: Seq<char>,
) -> WireTurn {
    let operation = request.binding.operation;
    let key = live_key(operation);
    if request.why == "status"@ {
        on_status(v, request, protocol::lookup(store, operation))
    } else if request.why == "begin"@ && request.intent is Some {
        begin_command(v, store, request, request.intent->Some_0, at)
    } else if !v.live.contains_key(key) {
        if request.why == "finish"@ || request.why == "cancel"@ {
            on_find(v, request, protocol::lookup(store, operation))
        } else {
            answered(
                v,
                unavailable(request, "no live attempt; query status with the operation ID"@),
            )
        }
    } else {
        let live = v.live[key];
        if live.binding != request.binding || request.sequence <= live.sequence {
            answered(v, rejected(request, "stale or foreign attempt binding"@))
        } else {
            live_command(
                AdapterView {
                    live: v.live.insert(key, Live { sequence: request.sequence, ..live }),
                    ..v
                },
                store,
                request,
                live.ticket,
                at,
            )
        }
    }
}

/// A command.
pub open spec fn handled(v: AdapterView, request: Request<Seq<char>>, at: Seq<char>) -> WireTurn {
    match v.store {
        None => WireTurn {
            adapter: AdapterView { awaiting: Await::Open { request }, ..v },
            step: WireStepView::Open,
        },
        Some(store) => dispatched(v, store, request, at),
    }
}

/// The store is open, or cannot be opened.
pub open spec fn opened(v: AdapterView, store: Option<StoreView>, at: Seq<char>) -> WireTurn {
    match v.awaiting {
        Await::Open { request } => match store {
            None => answered(
                v,
                unavailable(
                    request,
                    "screenshot store unavailable; operation requires reconciliation"@,
                ),
            ),
            Some(store) => dispatched(
                AdapterView { store: Some(store), ..v },
                store,
                request,
                at,
            ),
        },
        Await::Reopen { request } => match store {
            None => answered(
                v,
                unavailable(request, "screenshot store could not reopen for reconciliation"@),
            ),
            Some(store) => on_status_again(
                AdapterView { store: Some(store), ..v },
                request,
                protocol::lookup(store, request.binding.operation),
            ),
        },
        _ => WireTurn { adapter: v, step: WireStepView::Idle },
    }
}

/// An action of the store was performed.
pub open spec fn wire_resumed(v: AdapterView, event: Event, at: Seq<char>) -> WireTurn {
    let t = protocol::resumed(v.store->Some_0, event, at);
    match v.awaiting {
        Await::Status { request } => on_status(v, request, t),
        Await::StatusAgain { request } => on_status_again(v, request, t),
        Await::Begin { request, intent } => on_begin(v, request, intent, t),
        Await::Replace { request, intent, ticket } => {
            on_replace(v, request, intent, ticket, t, at)
        },
        Await::Find { request } => on_find(v, request, t),
        Await::Append { request, ticket } => on_append(v, request, ticket, t, at),
        Await::Outcome { request } => on_outcome(v, request, t),
        _ => WireTurn { adapter: v, step: WireStepView::Idle },
    }
}

/// The owner of the store.
pub struct Adapter {
    store: Option<Store>,
    live: Table<Live>,
    awaiting: Await,
}

impl View for Adapter {
    type V = AdapterView;

    closed spec fn view(&self) -> AdapterView {
        AdapterView {
            store: optional_view(self.store),
            live: self.live@,
            awaiting: self.awaiting@,
        }
    }
}

/// Whether a command waits for the store to be opened, or for nothing.
pub open spec fn needs_no_store(a: AwaitView) -> bool {
    a is Idle || a is Open || a is Reopen
}

impl Adapter {
    /// Whether the store is well-formed, and is there if a command waits for
    /// it.
    pub closed spec fn wf(&self) -> bool {
        &&& self.store matches Some(store) ==> store.wf()
        &&& self.store is None ==> needs_no_store(self.awaiting@)
    }

    /// Whether a step and the state after it are those of a turn.
    pub open spec fn took(&self, step: WireStep, turn: WireTurn) -> bool {
        &&& self.wf()
        &&& self@ == turn.adapter
        &&& step@ == turn.step
        &&& step matches WireStep::Reopen(store) ==> store.wf()
    }

    /// An owner whose store is not open.
    pub fn new() -> (r: Adapter)
        ensures
            r.wf(),
            r@ == (AdapterView { store: None, live: Map::empty(), awaiting: Await::Idle }),
    {
        Adapter { store: None, live: Table::new(), awaiting: Await::Idle }
    }

    fn answered(&mut self, store: Store, reply: Reply) -> (step: WireStep)
        requires
            store.wf(),
        ensures
            final(self).took(
                step,
                answered(AdapterView { store: Some(store@), ..old(self)@ }, reply@),
            ),
    {
        self.store = Some(store);
        self.awaiting = Await::Idle;
        WireStep::Done(reply)
    }

    fn waiting(&mut self, awaiting: Await, store: Store, action: Action) -> (step: WireStep)
        requires
            store.wf(),
        ensures
            final(self).took(
                step,
                waiting(
                    old(self)@,
                    awaiting@,
                    Turn { store: store@, step: Step::Act(action@) },
                ),
            ),
    {
        self.store = Some(store);
        self.awaiting = awaiting;
        WireStep::Act(action)
    }

    fn lookup_reply(request: &Request, found: Option<Option<Status>>) -> (r: Reply)
        ensures
            r@ == lookup_reply(
                request@,
                match found {
                    Some(Some(status)) => Some(Some(status@)),
                    Some(None) => Some(None),
                    None => None,
                },
            ),
    {
        match found {
            Some(Some(status)) => request.status_reply(status, "receiving"),
            Some(None) => request.reply("unknown", None, None),
            None => request.unavailable("operation lookup unavailable"),
        }
    }

    fn lookup_of(r: Result<Answer, Error>) -> (found: Option<Option<Status>>)
        ensures
            (match found {
                Some(Some(status)) => Some(Some(status@)),
                Some(None) => Some(None),
                None => None,
            }) == lookup_of(
                match r {
                    Ok(answer) => Ok(answer@),
                    Err(e) => Err(e@),
                },
            ),
    {
        match r {
            Ok(Answer::Found(found)) => Some(found),
            _ => None,
        }
    }

    fn status_of(r: Result<Answer, Error>) -> (status: Option<Status>)
        ensures
            optional_view(status) == status_of(
                match r {
                    Ok(answer) => Ok(answer@),
                    Err(e) => Err(e@),
                },
            ),
    {
        match r {
            Ok(Answer::Status(status)) => Some(status),
            _ => None,
        }
    }

    fn on_status_again(&mut self, request: Request, store: Store, step: Step) -> (r: WireStep)
        requires
            store.wf(),
        ensures
            final(self).took(
                r,
                on_status_again(
                    old(self)@,
                    request@,
                    Turn { store: store@, step: step@ },
                ),
            ),
    {
        match step {
            Step::Act(action) => self.waiting(Await::StatusAgain { request }, store, action),
            Step::Done(result) => {
                let packet = Self::lookup_reply(&request, Self::lookup_of(result));
                self.answered(store, packet)
            },
        }
    }

    fn on_status(&mut self, request: Request, store: Store, step: Step) -> (r: WireStep)
        requires
            store.wf(),
        ensures
            final(self).took(
                r,
                on_status(old(self)@, request@, Turn { store: store@, step: step@ }),
            ),
    {
        match step {
            Step::Act(action) => self.waiting(Await::Status { request }, store, action),
            Step::Done(result) => {
                let found = Self::lookup_of(result);
                let unresolved = match &found {
                    Some(Some(Status::Unresolved { .. })) => true,
                    _ => false,
                };
                if unresolved && self.live.is_empty() {
                    self.store = None;
                    self.awaiting = Await::Reopen { request };
                    return WireStep::Reopen(store);
                }
                let packet = Self::lookup_reply(&request, found);
                self.answered(store, packet)
            },
        }
    }

    fn key_of(request: &Request) -> (r: String)
        ensures
            r@ == live_key(request@.binding.operation),
    {
        let operation = &request.binding.operation;
        cat3(operation.slug.as_str(), "\0", operation.operation_id.as_str())
    }

    fn begun(&mut self, request: Request, intent: Intent, status: Option<Status>, store: Store) -> (r:
        WireStep)
        requires
            store.wf(),
        ensures
            final(self).took(
                r,
                begun(
                    AdapterView { store: Some(store@), ..old(self)@ },
                    request@,
                    intent@,
                    optional_view(status),
                ),
            ),
    {
        let status = match status {
            None => {
                let packet = request.reply(
                    "rejected",
                    Some("screenshot begin refused; no receive was admitted for this binding"),
                    None,
                );
                return self.answered(store, packet);
            },
            Some(status) => status,
        };
        let key = Self::key_of(&request);
        match &status {
            Status::Receiving { ticket, .. } => {
                self.live.insert(
                    key,
                    Live {
                        binding: request.binding.clone(),
                        intent,
                        ticket: ticket.clone(),
                        sequence: request.sequence,
                    },
                );
            },
            _ => {
                self.live.remove(key.as_str());
            },
        }
        let packet = request.status_reply(status, "ready");
        self.answered(store, packet)
    }

    fn on_begin(&mut self, request: Request, intent: Intent, store: Store, step: Step) -> (r: WireStep)
        requires
            store.wf(),
        ensures
            final(self).took(
                r,
                on_begin(
                    old(self)@,
                    request@,
                    intent@,
                    Turn { store: store@, step: step@ },
                ),
            ),
    {
        match step {
            Step::Act(action) => self.waiting(Await::Begin { request, intent }, store, action),
            Step::Done(result) => {
                let status = Self::status_of(result);
                self.begun(request, intent, status, store)
            },
        }
    }

    fn on_replace(
        &mut self,
        request: Request,
        intent: Intent,
        ticket: Ticket,
        store: Store,
        step: Step,
        at: &str,
    ) -> (r: WireStep)
        requires
            store.wf(),
        ensures
            final(self).took(
                r,
                on_replace(
                    old(self)@,
                    request@,
                    intent@,
                    ticket@,
                    Turn { store: store@, step: step@ },
                    at@,
                ),
            ),
    {
        match step {
            Step::Act(action) => {
                self.waiting(Await::Replace { request, intent, ticket }, store, action)
            },
            Step::Done(Ok(Answer::Ticket(issued))) => {
                let status = Status::Receiving { ticket: issued, received: 0 };
                self.begun(request, intent, Some(status), store)
            },
            Step::Done(_) => {
                let mut store = store;
                let next = store.cancel_at(&request.binding.operation, &ticket, at);
                self.on_begin(request, intent, store, next)
            },
        }
    }

    fn on_find(&mut self, request: Request, store: Store, step: Step) -> (r: WireStep)
        requires
            store.wf(),
        ensures
            final(self).took(
                r,
                on_find(old(self)@, request@, Turn { store: store@, step: step@ }),
            ),
    {
        match step {
            Step::Act(action) => self.waiting(Await::Find { request }, store, action),
            Step::Done(result) => {
                let found = Self::lookup_of(result);
                let past = match &found {
                    Some(Some(Status::Receiving { .. })) => false,
                    Some(Some(_)) => true,
                    _ => false,
                };
                let packet = if past {
                    Self::lookup_reply(&request, found)
                } else {
                    request.unavailable("no live attempt; query status with the operation ID")
                };
                self.answered(store, packet)
            },
        }
    }

    fn on_outcome(&mut self, request: Request, store: Store, step: Step) -> (r: WireStep)
        requires
            store.wf(),
        ensures
            final(self).took(
                r,
                on_outcome(old(self)@, request@, Turn { store: store@, step: step@ }),
            ),
    {
        match step {
            Step::Act(action) => self.waiting(Await::Outcome { request }, store, action),
            Step::Done(result) => match Self::status_of(result) {
                Some(status) => {
                    let key = Self::key_of(&request);
                    self.live.remove(key.as_str());
                    let packet = request.status_reply(status, "receiving");
                    self.answered(store, packet)
                },
                None => {
                    let packet = request.unavailable(
                        "screenshot command could not establish an outcome; query status",
                    );
                    self.answered(store, packet)
                },
            },
        }
    }

    fn on_append(
        &mut self,
        request: Request,
        ticket: Ticket,
        store: Store,
        step: Step,
        at: &str,
    ) -> (r: WireStep)
        requires
            store.wf(),
        ensures
            final(self).took(
                r,
                on_append(
                    old(self)@,
                    request@,
                    ticket@,
                    Turn { store: store@, step: step@ },
                    at@,
                ),
            ),
    {
        match step {
            Step::Act(action) => self.waiting(Await::Append { request, ticket }, store, action),
            Step::Done(Ok(Answer::Written { end })) => {
                let packet = request.reply("ack", None, Some(end));
                self.answered(store, packet)
            },
            Step::Done(_) => {
                let mut store = store;
                let next = store.cancel_at(&request.binding.operation, &ticket, at);
                self.on_outcome(request, store, next)
            },
        }
    }

    fn begin_command(&mut self, request: Request, intent: Intent, store: Store, at: &str) -> (r:
        WireStep)
        requires
            store.wf(),
        ensures
            final(self).took(
                r,
                begin_command(
                    AdapterView { store: Some(store@), ..old(self)@ },
                    store@,
                    request@,
                    intent@,
                    at@,
                ),
            ),
    {
        let mut store = store;
        let key = Self::key_of(&request);
        let operation = request.binding.operation.clone();
        let attempt = request.binding.attempt.clone();
        if let Some(live) = self.live.get(key.as_str()) {
            if bindings_equal(&live.binding, &request.binding) {
                if request.sequence <= live.sequence {
                    let packet = request.reply("rejected", Some("stale command sequence"), None);
                    return self.answered(store, packet);
                }
            } else if intents_equal(&live.intent, &intent) && operations_equal(
                &live.binding.operation,
                &operation,
            ) && !same_text(
                live.binding.attempt.attempt_id.as_str(),
                attempt.attempt_id.as_str(),
            ) {
                let ticket = live.ticket.clone();
                let step = store.replace(&ticket, attempt);
                return self.on_replace(request, intent, ticket, store, step, at);
            } else {
                let packet = request.reply(
                    "rejected",
                    Some("operation intent or caller conflicts"),
                    None,
                );
                return self.answered(store, packet);
            }
        }
        let step = store.begin(operation, attempt, intent.clone());
        self.on_begin(request, intent, store, step)
    }

    fn live_command(&mut self, request: Request, ticket: Ticket, store: Store, at: &str) -> (r: WireStep)
        requires
            store.wf(),
        ensures
            final(self).took(
                r,
                live_command(
                    AdapterView { store: Some(store@), ..old(self)@ },
                    store@,
                    request@,
                    ticket@,
                    at@,
                ),
            ),
    {
        let mut store = store;
        if same_text(request.why.as_str(), "chunk") {
            let bytes: Option<Vec<u8>> = match &request.data {
                Some(data) => read_chunk(data.as_str()),
                None => None,
            };
            return match (bytes, request.offset) {
                (Some(bytes), Some(offset)) => {
                    let step = store.append(&ticket, offset, bytes);
                    self.on_append(request, ticket, store, step, at)
                },
                _ => {
                    let step = store.cancel_at(&request.binding.operation, &ticket, at);
                    self.on_outcome(request, store, step)
                },
            };
        }
        let step = if same_text(request.why.as_str(), "finish") {
            store.finish(&request.binding.operation, &ticket)
        } else {
            store.cancel_at(&request.binding.operation, &ticket, at)
        };
        self.on_outcome(request, store, step)
    }

    fn dispatch(&mut self, request: Request, store: Store, at: &str) -> (r: WireStep)
        requires
            store.wf(),
        ensures
            final(self).took(
                r,
                dispatched(
                    AdapterView { store: Some(store@), ..old(self)@ },
                    store@,
                    request@,
                    at@,
                ),
            ),
    {
        let mut store = store;
        if same_text(request.why.as_str(), "status") {
            let step = store.lookup(&request.binding.operation);
            return self.on_status(request, store, step);
        }
        if same_text(request.why.as_str(), "begin") {
            if let Some(intent) = &request.intent {
                let intent: Intent = intent.clone();
                return self.begin_command(request, intent, store, at);
            }
        }
        let key = Self::key_of(&request);
        let (ticket, live): (Ticket, Live) = match self.live.get(key.as_str()) {
            None => {
                if same_text(request.why.as_str(), "finish") || same_text(
                    request.why.as_str(),
                    "cancel",
                ) {
                    let step = store.lookup(&request.binding.operation);
                    return self.on_find(request, store, step);
                }
                let packet = request.unavailable(
                    "no live attempt; query status with the operation ID",
                );
                return self.answered(store, packet);
            },
            Some(live) => {
                if !bindings_equal(&live.binding, &request.binding) || request.sequence
                    <= live.sequence {
                    let packet = request.reply(
                        "rejected",
                        Some("stale or foreign attempt binding"),
                        None,
                    );
                    return self.answered(store, packet);
                }
                let next = Live {
                    binding: live.binding.clone(),
                    intent: live.intent.clone(),
                    ticket: live.ticket.clone(),
                    sequence: request.sequence,
                };
                (live.ticket.clone(), next)
            },
        };
        self.live.insert(key, live);
        self.live_command(request, ticket, store, at)
    }

    /// Carries out a command.
    pub fn handle(&mut self, request: Request) -> (step: WireStep)
        requires
            old(self).wf(),
        ensures
            exists|at: Seq<char>|
                final(self).took(step, #[trigger] handled(old(self)@, request@, at)),
    {
        let at = now();
        self.handle_at(request, at.as_str())
    }

    /// Carries out a command at a given time.
    pub fn handle_at(&mut self, request: Request, at: &str) -> (step: WireStep)
        requires
            old(self).wf(),
        ensures
            final(self).took(step, handled(old(self)@, request@, at@)),
    {
        match self.store.take() {
            None => {
                self.awaiting = Await::Open { request };
                WireStep::Open
            },
            Some(store) => self.dispatch(request, store, at),
        }
    }

    /// Goes on with the command, now that the store is open or cannot be
    /// opened.
    pub fn opened(&mut self, store: Option<Store>) -> (step: WireStep)
        requires
            old(self).wf(),
            store matches Some(s) ==> s.wf(),
        ensures
            exists|at: Seq<char>|
                final(self).took(
                    step,
                    #[trigger] opened(old(self)@, optional_view(store), at),
                ),
    {
        let at = now();
        self.opened_at(store, at.as_str())
    }

    /// Goes on with the command at a given time.
    pub fn opened_at(&mut self, store: Option<Store>, at: &str) -> (step: WireStep)
        requires
            old(self).wf(),
            store matches Some(s) ==> s.wf(),
        ensures
            final(self).took(step, opened(old(self)@, optional_view(store), at@)),
    {
        let mut awaiting = Await::Idle;
        core::mem::swap(&mut self.awaiting, &mut awaiting);
        match awaiting {
            Await::Open { request } => match store {
                None => WireStep::Done(
                    request.unavailable(
                        "screenshot store unavailable; operation requires reconciliation",
                    ),
                ),
                Some(store) => self.dispatch(request, store, at),
            },
            Await::Reopen { request } => match store {
                None => WireStep::Done(
                    request.unavailable("screenshot store could not reopen for reconciliation"),
                ),
                Some(store) => {
                    let mut store = store;
                    let step = store.lookup(&request.binding.operation);
                    self.on_status_again(request, store, step)
                },
            },
            other => {
                self.awaiting = other;
                WireStep::Idle
            },
        }
    }

    /// Goes on with the command, now that its action is performed.
    pub fn resume(&mut self, event: Event) -> (step: WireStep)
        requires
            old(self).wf(),
        ensures
            exists|at: Seq<char>|
                final(self).took(step, #[trigger] wire_resumed(old(self)@, event, at)),
    {
        let at = now();
        self.resume_at(event, at.as_str())
    }

    /// Goes on with the command at a given time.
    pub fn resume_at(&mut self, event: Event, at: &str) -> (step: WireStep)
        requires
            old(self).wf(),
        ensures
            final(self).took(step, wire_resumed(old(self)@, event, at@)),
    {
        let mut store = match self.store.take() {
            None => return WireStep::Idle,
            Some(store) => store,
        };
        let mut awaiting = Await::Idle;
        core::mem::swap(&mut self.awaiting, &mut awaiting);
        match awaiting {
            Await::Status { request } => {
                let step = store.resume_at(event, at);
                self.on_status(request, store, step)
            },
            Await::StatusAgain { request } => {
                let step = store.resume_at(event, at);
                self.on_status_again(request, store, step)
            },
            Await::Begin { request, intent } => {
                let step = store.resume_at(event, at);
                self.on_begin(request, intent, store, step)
            },
            Await::Replace { request, intent, ticket } => {
                let step = store.resume_at(event, at);
                self.on_replace(request, intent, ticket, store, step, at)
            },
            Await::Find { request } => {
                let step = store.resume_at(event, at);
                self.on_find(request, store, step)
            },
            Await::Append { request, ticket } => {
                let step = store.resume_at(event, at);
                self.on_append(request, ticket, store, step, at)
            },
            Await::Outcome { request } => {
                let step = store.resume_at(event, at);
                self.on_outcome(request, store, step)
            },
            other => {
                self.awaiting = other;
                self.store = Some(store);
                WireStep::Idle
            },
        }
    }

    /// Adds to an answer what was observed on the way to it.
    pub fn complete(&mut self, packet: Reply) -> (r: Completion)
        requires
            old(self).wf(),
        ensures
            final(self).wf(),
            r.packet@ == packet@,
            seen(r.observations@) == (match old(self)@.store {
                Some(store) => store.observations,
                None => Seq::empty(),
            }),
            final(self)@ == (AdapterView {
                store: match old(self)@.store {
                    Some(store) => Some(StoreView { observations: Seq::empty(), ..store }),
                    None => None,
                },
                ..old(self)@
            }),
    {
        match self.store.take() {
            None => {
                let observations: Vec<Observation> = Vec::new();
                assert(seen(observations@) =~= Seq::empty());
                Completion { packet, observations }
            },
            Some(store) => {
                let mut store = store;
                let observations = store.take_observations();
                self.store = Some(store);
                Completion { packet, observations }
            },
        }
    }

    /// Gives up the store, so that it can be closed.
    pub fn close(&mut self) -> (store: Option<Store>)
        requires
            old(self).wf(),
        ensures
            final(self).wf(),
            optional_view(store) == old(self)@.store,
            store matches Some(s) ==> s.wf(),
            final(self)@ == (AdapterView { store: None, awaiting: Await::Idle, ..old(self)@ }),
    {
        self.awaiting = Await::Idle;
        self.store.take()
    }

    /// Whether the store receives a transfer under a journal key.
    pub fn is_receiving(&self, key: &str) -> (r: bool)
        ensures
            r == (self@.store matches Some(store) && store.receiving.contains_key(key@)),
    {
        match &self.store {
            Some(store) => store.is_receiving(key),
            None => false,
        }
    }
}

} // verus!
