//! The store as a state machine: what every operation and every event makes of
//! the store's state, and what is to be done next.

use vstd::prelude::*;

use crate::action::{
    Action, ActionView, After, Answer, AnswerView, Event, Goal, Pending, PendingView, Step,
    StepView,
};
use crate::error::{invalid_error, Error, ErrorKind};
use crate::facts::{
    bounded, retained_check, stage_check, EvidenceFacts, FileFacts, Removal, StageFacts,
};
use crate::json::record_json;
use crate::model::{
    is_same_intent, Attempt, Identity, Intent, OperationId, Outcome, Receipt, Receiving,
    ReceivingView, Record, Status, StatusView, TicketView, VerifiedPng, MAX_CHUNK_BYTES,
    MAX_PNG_BYTES, MAX_RECEIVING_BYTES, MAX_TRANSFERS,
};
use crate::observation::{cleanup_seen, conclusion, receipt_seen, temporary, Observation};
use crate::path::{file_name_of, is_same_path};
use crate::png::{bytes_check, verified_png};
use crate::policy::{allowed, ParentFacts};
use crate::rules::{
    attempt_check, intent_check, intent_conflict, key_of_operation, operation_conflict,
    stage_name_of, RECORD_VERSION,
};
use crate::text::{byte_count, hex};

verus! {

/// The longest journal entry, in bytes.
pub const MAX_JOURNAL_BYTES: u64 = 65_536;

/// The number of remembered outcomes, and of observations that nobody took, at
/// which no more transfers are begun.
pub const SESSION_CAPACITY: usize = 1_024;

/// The state of a store.
#[verifier::ext_equal]
pub struct StoreView {
    /// The home directory that slugs and configurations are below.
    pub home: Seq<char>,
    /// What tells this store's tickets from those of other stores.
    pub owner: u64,
    /// The number of tickets that were issued.
    pub generation: u64,
    /// The transfers that are being received, by journal key.
    pub receiving: Map<Seq<char>, ReceivingView>,
    /// The accepted operations, by journal key.
    pub records: Map<Seq<char>, Record<Seq<char>>>,
    /// The receipts of transfers that ended before acceptance, by journal key.
    pub outcomes: Map<Seq<char>, Receipt<Seq<char>>>,
    /// What was observed and not yet taken.
    pub observations: Seq<Observation<Seq<char>>>,
    /// Why nothing can be written any more.
    pub poisoned: Option<Seq<char>>,
    /// Which accepted operations are known to be published, because this store
    /// linked them or because files prove it, and which were refused.
    pub publication: Map<Seq<char>, bool>,
    /// The accepted operations whose destination this store linked itself.
    pub linked: Set<Seq<char>>,
    /// What the operation under way waits for.
    pub pending: PendingView,
}

/// A state, and the step that led there.
pub struct Turn {
    pub store: StoreView,
    pub step: StepView,
}

/// The number of bytes that transfers announce together.
pub open spec fn total(m: Map<Seq<char>, ReceivingView>) -> int
    decreases m.len(),
    when m.dom().finite()
{
    if m.len() == 0 {
        0
    } else {
        let k = m.dom().choose();
        m[k].intent.bytes + total(m.remove(k))
    }
}

/// One transfer less takes away the bytes that it announces.
pub proof fn total_remove(m: Map<Seq<char>, ReceivingView>, k: Seq<char>)
    requires
        m.dom().finite(),
        m.contains_key(k),
    ensures
        total(m) == m[k].intent.bytes + total(m.remove(k)),
    decreases m.len(),
{
    let c = m.dom().choose();
    assert(m.dom().contains(k));
    assert(m.dom().contains(c));
    if c != k {
        let a = m.remove(c);
        assert(a.dom() =~= m.dom().remove(c));
        let b = m.remove(k);
        assert(b.dom() =~= m.dom().remove(k));
        total_remove(a, k);
        total_remove(b, c);
        assert(a.remove(k) =~= b.remove(c));
    }
}

/// One more transfer adds the bytes that it announces.
pub proof fn total_insert(m: Map<Seq<char>, ReceivingView>, k: Seq<char>, v: ReceivingView)
    requires
        m.dom().finite(),
        !m.contains_key(k),
    ensures
        total(m.insert(k, v)) == total(m) + v.intent.bytes,
{
    total_remove(m.insert(k, v), k);
    assert(m.insert(k, v).remove(k) =~= m);
}

/// No transfer announces fewer than no bytes.
pub proof fn total_nonnegative(m: Map<Seq<char>, ReceivingView>)
    requires
        m.dom().finite(),
    ensures
        0 <= total(m),
    decreases m.len(),
{
    if m.len() != 0 {
        let k = m.dom().choose();
        assert(m.dom().contains(k));
        assert(m.remove(k).dom() =~= m.dom().remove(k));
        total_nonnegative(m.remove(k));
    }
}

/// Whether what the store waits for still has room: a transfer that is about
/// to begin was admitted, and a ticket that is about to be issued can be.
pub open spec fn has_room(v: StoreView) -> bool {
    match v.pending {
        Pending::Survey(Goal::Begin { key, intent, .. }) => {
            admission_check(v, intent) is Ok && !v.receiving.contains_key(key)
        },
        Pending::BeginRandom { key, intent, .. } => {
            admission_check(v, intent) is Ok && !v.receiving.contains_key(key)
        },
        Pending::BeginCreate { key, intent, .. } => {
            admission_check(v, intent) is Ok && !v.receiving.contains_key(key)
        },
        Pending::ReplaceInspect { .. } => v.generation < u64::MAX,
        Pending::ReplaceTruncate { .. } => v.generation < u64::MAX,
        _ => true,
    }
}

/// Whether a store keeps to its limits: how many transfers are received, and
/// how many bytes they announce.
pub open spec fn within_limits(v: StoreView) -> bool {
    &&& v.receiving.dom().finite()
    &&& v.receiving.len() <= MAX_TRANSFERS
    &&& total(v.receiving) <= MAX_RECEIVING_BYTES
    &&& has_room(v)
}

/// The store waits for an action.
pub open spec fn act(v: StoreView, pending: PendingView, action: ActionView) -> Turn {
    Turn { store: StoreView { pending, ..v }, step: Step::Act(action) }
}

/// The operation under way succeeded.
pub open spec fn done(v: StoreView, answer: AnswerView) -> Turn {
    Turn {
        store: StoreView { pending: Pending::Idle, ..v },
        step: Step::Done(Ok(answer)),
    }
}

/// The operation under way is refused.
pub open spec fn refused(v: StoreView, error: Error<Seq<char>>) -> Turn {
    Turn {
        store: StoreView { pending: Pending::Idle, ..v },
        step: Step::Done(Err(error)),
    }
}

/// The operation under way is given up: it cannot go on from here.
pub open spec fn abandoned(v: StoreView) -> Turn {
    refused(v, invalid_error("the store does not wait for this event"@))
}

/// The refusal of a ticket that is not the transfer's.
pub open spec fn stale_error() -> Error<Seq<char>> {
    invalid_error("stale or foreign ticket"@)
}

/// The refusal of a destination that is no longer where it was.
pub open spec fn moved_error() -> Error<Seq<char>> {
    invalid_error("destination parent moved or was replaced"@)
}

/// The refusal of any write once the journal is uncertain.
pub open spec fn health(v: StoreView) -> Result<(), Error<Seq<char>>> {
    match v.poisoned {
        Some(reason) => Err(Error { kind: ErrorKind::Other, message: reason }),
        None => Ok(()),
    }
}

/// Whether a ticket is the present authority over a transfer.
pub open spec fn live_check(v: StoreView, ticket: TicketView) -> Result<(), Error<Seq<char>>> {
    if !v.receiving.contains_key(ticket.key) {
        Err(invalid_error("no live receive for ticket"@))
    } else if v.receiving[ticket.key].ticket != ticket {
        Err(stale_error())
    } else {
        Ok(())
    }
}

/// Where an accepted operation stands.
pub open spec fn record_standing(v: StoreView, key: Seq<char>) -> StatusView {
    let record = v.records[key];
    match record.terminal {
        Some(receipt) => Status::Terminal(Box::new(receipt)),
        None => Status::Unresolved {
            operation: record.operation,
            destination: record.destination,
            published: if v.linked.contains(key) {
                Some(true)
            } else if v.publication.contains_pair(key, false) {
                Some(false)
            } else {
                None
            },
            reason: match v.poisoned {
                Some(reason) => reason,
                None => "publication evidence is incomplete; no automatic continuation"@,
            },
        },
    }
}

/// Answers with a status.
pub open spec fn found(v: StoreView, status: StatusView, after: After) -> Turn {
    match after {
        After::Found => done(v, Answer::Found(Some(status))),
        After::Status => done(v, Answer::Status(status)),
        After::Recovered => done(v, Answer::Recovered),
    }
}

/// Answers with where an accepted operation stands.
pub open spec fn settled(v: StoreView, key: Seq<char>, after: After) -> Turn {
    if !v.records.contains_key(key) {
        abandoned(v)
    } else {
        found(v, record_standing(v, key), after)
    }
}

/// The action that surveys where an accepted operation is to be published.
pub open spec fn survey_record(record: Record<Seq<char>>) -> ActionView {
    Action::Survey { slug: record.operation.slug, destination: record.intent.destination }
}

/// Looks for evidence of a publication, unless the operation has ended or
/// nothing can be written.
pub open spec fn reconcile(v: StoreView, key: Seq<char>, after: After) -> Turn {
    if !v.records.contains_key(key) {
        abandoned(v)
    } else if v.poisoned is Some || v.records[key].terminal is Some {
        settled(v, key, after)
    } else {
        act(v, Pending::Survey(Goal::Reconcile { key, after }), survey_record(v.records[key]))
    }
}

/// Removes the staging file of an operation that has ended.
pub open spec fn cleanup(v: StoreView, key: Seq<char>, after: After) -> Turn {
    if !v.records.contains_key(key) {
        abandoned(v)
    } else {
        act(v, Pending::Survey(Goal::Cleanup { key, after }), survey_record(v.records[key]))
    }
}

/// Where an operation stands, once its caller is known to be the right one.
pub open spec fn standing(
    v: StoreView,
    key: Seq<char>,
    operation: OperationId<Seq<char>>,
    after: After,
) -> Turn {
    if v.records.contains_key(key) {
        if operation != v.records[key].operation {
            refused(v, operation_conflict())
        } else {
            reconcile(v, key, after)
        }
    } else if v.outcomes.contains_key(key) {
        if operation != v.outcomes[key].operation {
            refused(v, operation_conflict())
        } else {
            found(v, Status::Terminal(Box::new(v.outcomes[key])), after)
        }
    } else if v.receiving.contains_key(key) {
        if operation != v.receiving[key].operation {
            refused(v, operation_conflict())
        } else {
            act(
                v,
                Pending::Length { ticket: v.receiving[key].ticket, after },
                Action::Length { key },
            )
        }
    } else if after == After::Found {
        done(v, Answer::Found(None))
    } else {
        refused(v, invalid_error("unknown operation"@))
    }
}

/// A lookup: where an operation stands, if it is known.
pub open spec fn lookup(v: StoreView, operation: OperationId<Seq<char>>) -> Turn {
    match key_of_operation(operation) {
        Err(e) => refused(v, e),
        Ok(key) => standing(v, key, operation, After::Found),
    }
}

/// Whether one more transfer can be received.
pub open spec fn admission_check(v: StoreView, intent: Intent<Seq<char>>) -> Result<
    (),
    Error<Seq<char>>,
> {
    if v.receiving.len() >= MAX_TRANSFERS || total(v.receiving) + intent.bytes
        > MAX_RECEIVING_BYTES {
        Err(invalid_error("screenshot receive admission limit reached"@))
    } else if v.outcomes.len() >= SESSION_CAPACITY || v.observations.len() >= SESSION_CAPACITY
        || v.generation == u64::MAX {
        Err(invalid_error("screenshot session capacity reached"@))
    } else {
        Ok(())
    }
}

/// The beginning of an operation whose parts meet the rules.
pub open spec fn begin_checked(
    v: StoreView,
    key: Seq<char>,
    operation: OperationId<Seq<char>>,
    attempt: Attempt<Seq<char>>,
    intent: Intent<Seq<char>>,
) -> Turn {
    if v.records.contains_key(key) {
        if operation != v.records[key].operation {
            refused(v, operation_conflict())
        } else if !is_same_intent(intent, v.records[key].intent) {
            refused(v, intent_conflict())
        } else {
            reconcile(v, key, After::Status)
        }
    } else if v.outcomes.contains_key(key) {
        if operation != v.outcomes[key].operation {
            refused(v, operation_conflict())
        } else if !is_same_intent(intent, v.outcomes[key].requested) {
            refused(v, intent_conflict())
        } else {
            done(v, Answer::Status(Status::Terminal(Box::new(v.outcomes[key]))))
        }
    } else if health(v) is Err {
        refused(v, health(v)->Err_0)
    } else if v.receiving.contains_key(key) {
        if operation != v.receiving[key].operation {
            refused(v, operation_conflict())
        } else if !is_same_intent(intent, v.receiving[key].intent) {
            refused(v, intent_conflict())
        } else if attempt != v.receiving[key].attempt {
            refused(v, invalid_error("live attempt must be explicitly replaced"@))
        } else {
            act(
                v,
                Pending::Length { ticket: v.receiving[key].ticket, after: After::Status },
                Action::Length { key },
            )
        }
    } else if admission_check(v, intent) is Err {
        refused(v, admission_check(v, intent)->Err_0)
    } else {
        act(
            v,
            Pending::Survey(Goal::Begin { key, operation, attempt, intent }),
            Action::Survey { slug: operation.slug, destination: intent.destination },
        )
    }
}

/// The beginning of an operation.
pub open spec fn begin(
    v: StoreView,
    operation: OperationId<Seq<char>>,
    attempt: Attempt<Seq<char>>,
    intent: Intent<Seq<char>>,
) -> Turn {
    match key_of_operation(operation) {
        Err(e) => refused(v, e),
        Ok(key) => if attempt_check(attempt) is Err {
            refused(v, attempt_check(attempt)->Err_0)
        } else if intent_check(intent) is Err {
            refused(v, intent_check(intent)->Err_0)
        } else {
            begin_checked(v, key, operation, attempt, intent)
        },
    }
}

/// Random bytes are there: the staging file is created under a name of its own.
pub open spec fn on_random(
    v: StoreView,
    key: Seq<char>,
    operation: OperationId<Seq<char>>,
    attempt: Attempt<Seq<char>>,
    intent: Intent<Seq<char>>,
    destination: Seq<char>,
    bytes: Result<[u8; 16], Error>,
) -> Turn {
    match bytes {
        Err(e) => refused(v, e@),
        Ok(bytes) => {
            let stage_name = stage_name_of(key, hex(bytes@));
            act(
                v,
                Pending::BeginCreate { key, operation, attempt, intent, destination, stage_name },
                Action::CreateStage { key, name: stage_name },
            )
        },
    }
}

/// The next ticket for a transfer.
pub open spec fn next_ticket(v: StoreView, key: Seq<char>) -> TicketView {
    TicketView { key, owner: v.owner, generation: (v.generation + 1) as u64 }
}

/// The staging file is created: the transfer is live.
pub open spec fn on_create(
    v: StoreView,
    key: Seq<char>,
    operation: OperationId<Seq<char>>,
    attempt: Attempt<Seq<char>>,
    intent: Intent<Seq<char>>,
    destination: Seq<char>,
    stage_name: Seq<char>,
    effect: Result<(), Error>,
) -> Turn {
    match effect {
        Err(e) => refused(v, e@),
        Ok(()) => {
            let ticket = next_ticket(v, key);
            let live = Receiving { operation, attempt, intent, destination, stage_name, ticket };
            done(
                StoreView {
                    generation: ticket.generation,
                    receiving: v.receiving.insert(key, live),
                    ..v
                },
                Answer::Status(Status::Receiving { ticket, received: 0 }),
            )
        },
    }
}

/// The length of a staging file is known.
pub open spec fn on_length(
    v: StoreView,
    ticket: TicketView,
    after: After,
    length: Result<u64, Error>,
) -> Turn {
    match length {
        Err(e) => refused(v, e@),
        Ok(received) => found(v, Status::Receiving { ticket, received }, after),
    }
}

/// A chunk for a transfer.
pub open spec fn append(v: StoreView, ticket: TicketView, offset: u64, bytes: Seq<u8>) -> Turn {
    if health(v) is Err {
        refused(v, health(v)->Err_0)
    } else if live_check(v, ticket) is Err {
        refused(v, live_check(v, ticket)->Err_0)
    } else if bytes.len() == 0 || bytes.len() > MAX_CHUNK_BYTES {
        refused(v, invalid_error("invalid screenshot chunk size"@))
    } else {
        act(
            v,
            Pending::AppendInspect { key: ticket.key, offset, bytes },
            Action::Inspect { key: ticket.key, name: v.receiving[ticket.key].stage_name },
        )
    }
}

/// The staging file was inspected: the chunk is written where it belongs.
pub open spec fn on_append_inspect(
    v: StoreView,
    key: Seq<char>,
    offset: u64,
    bytes: Seq<u8>,
    facts: StageFacts,
) -> Turn {
    if !v.receiving.contains_key(key) {
        abandoned(v)
    } else {
        match stage_check(facts) {
            Err(e) => refused(v, e),
            Ok(()) => {
                let length = facts.held->Ok_0.length;
                if length != offset || length + bytes.len() > v.receiving[key].intent.bytes {
                    refused(v, invalid_error("chunk offset or byte count exceeds manifest"@))
                } else {
                    act(
                        v,
                        Pending::AppendWrite { end: (length + bytes.len()) as u64 },
                        Action::Append { key, bytes },
                    )
                }
            },
        }
    }
}

/// The chunk was written, or not.
pub open spec fn on_append_write(v: StoreView, end: u64, effect: Result<(), Error>) -> Turn {
    match effect {
        Err(e) => refused(v, e@),
        Ok(()) => done(v, Answer::Written { end }),
    }
}

/// The replacement of an attempt.
pub open spec fn replace(v: StoreView, ticket: TicketView, attempt: Attempt<Seq<char>>) -> Turn {
    if health(v) is Err {
        refused(v, health(v)->Err_0)
    } else if attempt_check(attempt) is Err {
        refused(v, attempt_check(attempt)->Err_0)
    } else if live_check(v, ticket) is Err {
        refused(v, live_check(v, ticket)->Err_0)
    } else if v.receiving[ticket.key].attempt.attempt_id == attempt.attempt_id {
        refused(v, invalid_error("replacement needs a new attempt identity"@))
    } else if v.generation == u64::MAX {
        refused(v, invalid_error("screenshot session capacity reached"@))
    } else {
        act(
            v,
            Pending::ReplaceInspect { key: ticket.key, attempt },
            Action::Inspect { key: ticket.key, name: v.receiving[ticket.key].stage_name },
        )
    }
}

/// The staging file was inspected: it is emptied.
pub open spec fn on_replace_inspect(
    v: StoreView,
    key: Seq<char>,
    attempt: Attempt<Seq<char>>,
    facts: StageFacts,
) -> Turn {
    match stage_check(facts) {
        Err(e) => refused(v, e),
        Ok(()) => act(v, Pending::ReplaceTruncate { key, attempt }, Action::Truncate { key }),
    }
}

/// The staging file is empty: the new attempt gets a ticket of its own.
pub open spec fn on_replace_truncate(
    v: StoreView,
    key: Seq<char>,
    attempt: Attempt<Seq<char>>,
    effect: Result<(), Error>,
) -> Turn {
    match effect {
        Err(e) => refused(v, e@),
        Ok(()) => if !v.receiving.contains_key(key) {
            abandoned(v)
        } else {
            let ticket = next_ticket(v, key);
            let live = Receiving { attempt, ticket, ..v.receiving[key] };
            done(
                StoreView {
                    generation: ticket.generation,
                    receiving: v.receiving.insert(key, live),
                    ..v
                },
                Answer::Ticket(ticket),
            )
        },
    }
}

/// Ends a transfer before it is accepted. Its receipt is remembered at once,
/// and its staging file is removed if it is still the transfer's own.
pub open spec fn discard(
    v: StoreView,
    key: Seq<char>,
    receipt: Option<Receipt<Seq<char>>>,
) -> Turn {
    let live = v.receiving[key];
    act(
        StoreView {
            receiving: v.receiving.remove(key),
            outcomes: match receipt {
                Some(r) => v.outcomes.insert(key, r),
                None => v.outcomes,
            },
            ..v
        },
        Pending::DiscardInspect { live, ending: receipt },
        Action::Inspect { key, name: live.stage_name },
    )
}

/// Ends a transfer that could not be accepted.
pub open spec fn failed(
    v: StoreView,
    key: Seq<char>,
    action: Seq<char>,
    reason: Seq<char>,
    at: Seq<char>,
) -> Turn {
    discard(
        v,
        key,
        Some(temporary(v.receiving[key], Outcome::Failed { action, reason }, at)),
    )
}

/// The staging file of an ended transfer is gone, or stays.
pub open spec fn discarded(v: StoreView, receipt: Option<Receipt<Seq<char>>>) -> Turn {
    match receipt {
        Some(r) => done(
            StoreView { observations: v.observations.push(receipt_seen(r)), ..v },
            Answer::Status(Status::Terminal(Box::new(r))),
        ),
        None => done(v, Answer::Recovered),
    }
}

/// The staging file of an ended transfer was inspected.
pub open spec fn on_discard_inspect(
    v: StoreView,
    live: ReceivingView,
    receipt: Option<Receipt<Seq<char>>>,
    facts: StageFacts,
) -> Turn {
    match stage_check(facts) {
        Err(_) => discarded(v, receipt),
        Ok(()) => act(
            v,
            Pending::DiscardUnlink { live, ending: receipt },
            Action::Discard { key: live.ticket.key, name: live.stage_name },
        ),
    }
}

/// What the store observes of the removal of a staging file.
pub open spec fn removal_seen(
    v: StoreView,
    destination: Seq<char>,
    name: Seq<char>,
    operation: OperationId<Seq<char>>,
    removal: Removal,
) -> StoreView {
    match removal {
        Removal::Removed => v,
        Removal::NotUnlinked(e) => StoreView {
            observations: v.observations.push(
                cleanup_seen(destination, name, operation, false, e.message@),
            ),
            ..v
        },
        Removal::NotSynced(e) => StoreView {
            observations: v.observations.push(
                cleanup_seen(destination, name, operation, true, e.message@),
            ),
            ..v
        },
    }
}

/// The staging file of an ended transfer was removed, or not.
pub open spec fn on_discard_unlink(
    v: StoreView,
    live: ReceivingView,
    receipt: Option<Receipt<Seq<char>>>,
    removal: Removal,
) -> Turn {
    discarded(
        removal_seen(v, live.destination, live.stage_name, live.operation, removal),
        receipt,
    )
}

/// A cancellation. An operation that is accepted or has ended is only looked
/// up.
pub open spec fn cancel(
    v: StoreView,
    operation: OperationId<Seq<char>>,
    ticket: TicketView,
    at: Seq<char>,
) -> Turn {
    match key_of_operation(operation) {
        Err(e) => refused(v, e),
        Ok(key) => if key != ticket.key || ticket.owner != v.owner {
            refused(v, stale_error())
        } else if v.records.contains_key(key) || v.outcomes.contains_key(key) {
            standing(v, key, operation, After::Status)
        } else if live_check(v, ticket) is Err {
            refused(v, live_check(v, ticket)->Err_0)
        } else if operation != v.receiving[key].operation {
            refused(v, operation_conflict())
        } else {
            discard(v, key, Some(temporary(v.receiving[key], Outcome::Aborted, at)))
        },
    }
}

/// The end of a transfer. An operation that is accepted or has ended is only
/// looked up.
pub open spec fn finish(
    v: StoreView,
    operation: OperationId<Seq<char>>,
    ticket: TicketView,
) -> Turn {
    match key_of_operation(operation) {
        Err(e) => refused(v, e),
        Ok(key) => if key != ticket.key || ticket.owner != v.owner {
            refused(v, stale_error())
        } else if v.records.contains_key(key) || v.outcomes.contains_key(key) {
            standing(v, key, operation, After::Status)
        } else if health(v) is Err {
            refused(v, health(v)->Err_0)
        } else if live_check(v, ticket) is Err {
            refused(v, live_check(v, ticket)->Err_0)
        } else if operation != v.receiving[key].operation {
            refused(v, operation_conflict())
        } else {
            act(
                v,
                Pending::FinishRead { key },
                Action::Read {
                    key,
                    name: v.receiving[key].stage_name,
                    limit: MAX_PNG_BYTES,
                },
            )
        },
    }
}

/// What a staging file's bytes are, where they are those of a transfer.
pub open spec fn contents_check(
    intent: Intent<Seq<char>>,
    facts: StageFacts,
    bytes: Result<Vec<u8>, Error>,
) -> Result<VerifiedPng<Seq<char>>, Error<Seq<char>>> {
    match stage_check(facts) {
        Err(e) => Err(e),
        Ok(()) => match bounded(facts.held, bytes, MAX_PNG_BYTES) {
            Err(e) => Err(e),
            Ok(bytes) => verified_png(intent, bytes),
        },
    }
}

/// The staging file was read: its bytes are verified.
pub open spec fn on_finish_read(
    v: StoreView,
    key: Seq<char>,
    facts: StageFacts,
    bytes: Result<Vec<u8>, Error>,
    at: Seq<char>,
) -> Turn {
    if !v.receiving.contains_key(key) {
        abandoned(v)
    } else {
        let live = v.receiving[key];
        match contents_check(live.intent, facts, bytes) {
            Err(e) => failed(v, key, "verify"@, e.message, at),
            Ok(verified) => act(
                v,
                Pending::Survey(Goal::Accept { key, verified }),
                Action::Survey {
                    slug: live.operation.slug,
                    destination: live.intent.destination,
                },
            ),
        }
    }
}

/// The destination of a verified transfer was surveyed.
pub open spec fn on_accept_survey(
    v: StoreView,
    key: Seq<char>,
    verified: VerifiedPng<Seq<char>>,
    facts: ParentFacts,
    at: Seq<char>,
) -> Turn {
    if !v.receiving.contains_key(key) {
        abandoned(v)
    } else {
        let live = v.receiving[key];
        match allowed(v.home, live.operation.slug, live.intent.destination, facts) {
            Err(e) => failed(v, key, "prepare"@, e.message, at),
            Ok((destination, parent)) => if !is_same_path(destination, live.destination) {
                failed(v, key, "prepare"@, moved_error().message, at)
            } else {
                act(
                    v,
                    Pending::FinishInspect { key, verified, destination, parent },
                    Action::Inspect { key, name: live.stage_name },
                )
            },
        }
    }
}

/// Whether a staging file is still in the surveyed directory, and which file it
/// is.
pub open spec fn place_check(parent: Identity, facts: StageFacts) -> Result<
    Identity,
    Error<Seq<char>>,
> {
    match facts.parent {
        Err(e) => Err(e@),
        Ok(held) => if held != parent {
            Err(moved_error())
        } else {
            match stage_check(facts) {
                Err(e) => Err(e),
                Ok(()) => Ok(facts.held->Ok_0.identity),
            }
        },
    }
}

/// The staging file was inspected: it and its directory are synchronized.
pub open spec fn on_finish_inspect(
    v: StoreView,
    key: Seq<char>,
    verified: VerifiedPng<Seq<char>>,
    destination: Seq<char>,
    parent: Identity,
    facts: StageFacts,
    at: Seq<char>,
) -> Turn {
    if !v.receiving.contains_key(key) {
        abandoned(v)
    } else {
        match place_check(parent, facts) {
            Err(e) => failed(v, key, "prepare"@, e.message, at),
            Ok(stage) => act(
                v,
                Pending::FinishSync { key, verified, destination, parent, stage },
                Action::Sync { key },
            ),
        }
    }
}

/// Nothing can be written any more: whether the latest journal entry landed is
/// not known.
pub open spec fn poison(v: StoreView, reason: Seq<char>) -> StoreView {
    StoreView {
        poisoned: Some(
            "journal synchronization uncertain: "@ + reason + "; reopen the capability"@,
        ),
        ..v
    }
}

/// Journals a record, if it is not too long.
pub open spec fn persist(
    v: StoreView,
    key: Seq<char>,
    record: Record<Seq<char>>,
    pending: PendingView,
    after: After,
) -> Turn {
    let text = record_json(record);
    if v.poisoned is Some {
        settled(v, key, after)
    } else if byte_count(text) > MAX_JOURNAL_BYTES {
        settled(poison(v, "journal entry exceeds limit"@), key, after)
    } else {
        act(v, pending, Action::WriteJournal { key, text })
    }
}

/// The record of an accepted transfer.
pub open spec fn accepted_record(
    live: ReceivingView,
    verified: VerifiedPng<Seq<char>>,
    destination: Seq<char>,
    parent: Identity,
    stage: Identity,
    at: Seq<char>,
) -> Record<Seq<char>> {
    Record {
        version: RECORD_VERSION,
        operation: live.operation,
        attempt: live.attempt,
        intent: live.intent,
        destination,
        parent_identity: parent,
        stage_name: live.stage_name,
        stage_identity: stage,
        verified,
        accepted_at: at,
        terminal: None,
    }
}

/// The staging file and its directory are synchronized: the transfer becomes a
/// record, which is journaled.
pub open spec fn on_finish_sync(
    v: StoreView,
    key: Seq<char>,
    verified: VerifiedPng<Seq<char>>,
    destination: Seq<char>,
    parent: Identity,
    stage: Identity,
    effect: Result<(), Error>,
    at: Seq<char>,
) -> Turn {
    if !v.receiving.contains_key(key) {
        abandoned(v)
    } else {
        match effect {
            Err(e) => failed(v, key, "sync"@, e.message@, at),
            Ok(()) => {
                let record = accepted_record(
                    v.receiving[key],
                    verified,
                    destination,
                    parent,
                    stage,
                    at,
                );
                persist(
                    StoreView {
                        receiving: v.receiving.remove(key),
                        records: v.records.insert(key, record),
                        ..v
                    },
                    key,
                    record,
                    Pending::AcceptJournal { key },
                    After::Status,
                )
            },
        }
    }
}

/// The acceptance is journaled, or whether it is cannot be known.
pub open spec fn on_accept_journal(
    v: StoreView,
    key: Seq<char>,
    effect: Result<(), Error>,
) -> Turn {
    match effect {
        Err(e) => settled(poison(v, e.message@), key, After::Status),
        Ok(()) => if !v.records.contains_key(key) {
            abandoned(v)
        } else {
            act(v, Pending::Survey(Goal::Publish { key }), survey_record(v.records[key]))
        },
    }
}

/// Whether the surveyed directory is the one that an operation was accepted
/// for.
pub open spec fn record_parent(
    v: StoreView,
    record: Record<Seq<char>>,
    facts: ParentFacts,
) -> Result<(), Error<Seq<char>>> {
    match allowed(v.home, record.operation.slug, record.intent.destination, facts) {
        Err(e) => Err(e),
        Ok((destination, parent)) => if !is_same_path(destination, record.destination) || parent
            != record.parent_identity {
            Err(moved_error())
        } else {
            Ok(())
        },
    }
}

/// Ends an accepted operation: its receipt is journaled.
pub open spec fn terminalize(
    v: StoreView,
    key: Seq<char>,
    outcome: Outcome<Seq<char>>,
    at: Seq<char>,
    after: After,
) -> Turn {
    if !v.records.contains_key(key) {
        abandoned(v)
    } else if v.records[key].terminal is Some {
        settled(v, key, after)
    } else {
        let receipt = conclusion(key, v.records[key], outcome, at);
        persist(
            v,
            key,
            Record { terminal: Some(receipt), ..v.records[key] },
            Pending::TerminalJournal { key, receipt, after },
            after,
        )
    }
}

/// A publication did not go through. Only a destination that exists is a
/// definite refusal; after any other error the operation stays unresolved.
pub open spec fn publish_refused(
    v: StoreView,
    key: Seq<char>,
    kind: ErrorKind,
    at: Seq<char>,
) -> Turn {
    if v.publication.contains_key(key) && v.publication[key] || v.poisoned is Some {
        settled(v, key, After::Status)
    } else if kind == ErrorKind::AlreadyExists {
        terminalize(
            StoreView { publication: v.publication.insert(key, false), ..v },
            key,
            Outcome::Failed {
                action: "publish"@,
                reason: "destination already exists; nothing replaced"@,
            },
            at,
            After::Status,
        )
    } else {
        settled(v, key, After::Status)
    }
}

/// The destination of an accepted operation was surveyed.
pub open spec fn on_publish_survey(
    v: StoreView,
    key: Seq<char>,
    facts: ParentFacts,
    at: Seq<char>,
) -> Turn {
    if !v.records.contains_key(key) {
        abandoned(v)
    } else {
        match record_parent(v, v.records[key], facts) {
            Err(e) => publish_refused(v, key, e.kind, at),
            Ok(()) => act(
                v,
                Pending::PublishStage { key },
                Action::OpenStage { name: v.records[key].stage_name },
            ),
        }
    }
}

/// The accepted staging file was inspected: it gets its destination's name.
pub open spec fn on_publish_stage(
    v: StoreView,
    key: Seq<char>,
    file: Result<FileFacts, Error>,
    at: Seq<char>,
) -> Turn {
    if !v.records.contains_key(key) {
        abandoned(v)
    } else {
        let record = v.records[key];
        match retained_check(file, record.stage_identity) {
            Err(e) => publish_refused(v, key, e.kind, at),
            Ok(()) => act(
                v,
                Pending::PublishLink { key },
                Action::Link { from: record.stage_name, to: file_name_of(record.destination) },
            ),
        }
    }
}

/// The destination's name exists: the publication is made durable.
pub open spec fn on_publish_link(
    v: StoreView,
    key: Seq<char>,
    effect: Result<(), Error>,
    at: Seq<char>,
) -> Turn {
    match effect {
        Err(e) => publish_refused(v, key, e.kind, at),
        Ok(()) => act(
            StoreView {
                publication: v.publication.insert(key, true),
                linked: v.linked.insert(key),
                ..v
            },
            Pending::PublishSync { key },
            Action::SyncParent,
        ),
    }
}

/// The outcome of a publication, by whether it was made durable.
pub open spec fn published(effect: Result<(), Error>) -> Outcome<Seq<char>> {
    match effect {
        Ok(()) => Outcome::Stored,
        Err(e) => Outcome::PublishedDurabilityUnconfirmed { reason: e.message@ },
    }
}

/// The receipt is journaled, or whether it is cannot be known.
pub open spec fn on_terminal_journal(
    v: StoreView,
    key: Seq<char>,
    receipt: Receipt<Seq<char>>,
    after: After,
    effect: Result<(), Error>,
) -> Turn {
    match effect {
        Err(e) => settled(poison(v, e.message@), key, after),
        Ok(()) => if !v.records.contains_key(key) {
            abandoned(v)
        } else {
            cleanup(
                StoreView {
                    records: v.records.insert(
                        key,
                        Record { terminal: Some(receipt), ..v.records[key] },
                    ),
                    observations: v.observations.push(receipt_seen(receipt)),
                    ..v
                },
                key,
                after,
            )
        },
    }
}

/// The directory of an operation without a receipt was surveyed.
pub open spec fn on_reconcile_survey(
    v: StoreView,
    key: Seq<char>,
    after: After,
    facts: ParentFacts,
) -> Turn {
    if !v.records.contains_key(key) {
        abandoned(v)
    } else {
        let record = v.records[key];
        match record_parent(v, record, facts) {
            Err(_) => settled(v, key, after),
            Ok(()) => act(
                v,
                Pending::ReconcileEvidence { key, after },
                Action::Evidence {
                    stage: record.stage_name,
                    destination: file_name_of(record.destination),
                    limit: MAX_PNG_BYTES,
                },
            ),
        }
    }
}

/// Whether two files prove that an operation was published: the staging file is
/// the accepted one, the destination is the same file, and its bytes are those
/// that were announced.
pub open spec fn evidence_check(record: Record<Seq<char>>, facts: EvidenceFacts) -> Result<
    (),
    Error<Seq<char>>,
> {
    match retained_check(facts.stage, record.stage_identity) {
        Err(e) => Err(e),
        Ok(()) => match facts.destination {
            Err(e) => Err(e@),
            Ok(destination) => if facts.stage->Ok_0.identity != destination.identity {
                Err(invalid_error("publication evidence differs"@))
            } else {
                match bounded(facts.stage, facts.bytes, MAX_PNG_BYTES) {
                    Err(e) => Err(e),
                    Ok(bytes) => bytes_check(record.intent, bytes),
                }
            },
        },
    }
}

/// Evidence of a publication was gathered.
pub open spec fn on_reconcile_evidence(
    v: StoreView,
    key: Seq<char>,
    after: After,
    facts: EvidenceFacts,
) -> Turn {
    if !v.records.contains_key(key) {
        abandoned(v)
    } else {
        match evidence_check(v.records[key], facts) {
            Err(_) => settled(v, key, after),
            Ok(()) => act(v, Pending::ReconcileStage { key, after }, Action::SyncEvidence),
        }
    }
}

/// The published file is synchronized: the publication is made durable.
pub open spec fn on_reconcile_stage(
    v: StoreView,
    key: Seq<char>,
    after: After,
    effect: Result<(), Error>,
) -> Turn {
    match effect {
        Err(_) => settled(v, key, after),
        Ok(()) => act(
            StoreView { publication: v.publication.insert(key, true), ..v },
            Pending::ReconcileParent { key, after },
            Action::SyncParent,
        ),
    }
}

/// The directory of an operation that has ended was surveyed.
pub open spec fn on_cleanup_survey(
    v: StoreView,
    key: Seq<char>,
    after: After,
    facts: ParentFacts,
) -> Turn {
    if !v.records.contains_key(key) {
        abandoned(v)
    } else {
        match record_parent(v, v.records[key], facts) {
            Err(_) => settled(v, key, after),
            Ok(()) => act(
                v,
                Pending::CleanupStage { key, after },
                Action::OpenStage { name: v.records[key].stage_name },
            ),
        }
    }
}

/// The staging file of an operation that has ended was inspected.
pub open spec fn on_cleanup_stage(
    v: StoreView,
    key: Seq<char>,
    after: After,
    file: Result<FileFacts, Error>,
) -> Turn {
    if !v.records.contains_key(key) {
        abandoned(v)
    } else {
        match retained_check(file, v.records[key].stage_identity) {
            Err(_) => settled(v, key, after),
            Ok(()) => act(
                v,
                Pending::CleanupUnlink { key, after },
                Action::Unlink { name: v.records[key].stage_name },
            ),
        }
    }
}

/// The staging file of an operation that has ended was removed, or not.
pub open spec fn on_cleanup_unlink(
    v: StoreView,
    key: Seq<char>,
    after: After,
    removal: Removal,
) -> Turn {
    if !v.records.contains_key(key) {
        abandoned(v)
    } else {
        let record = v.records[key];
        settled(
            removal_seen(v, record.destination, record.stage_name, record.operation, removal),
            key,
            after,
        )
    }
}

/// A survey was made.
pub open spec fn on_survey(
    v: StoreView,
    goal: Goal<Seq<char>>,
    facts: ParentFacts,
    at: Seq<char>,
) -> Turn {
    match goal {
        Goal::Begin { key, operation, attempt, intent } => match allowed(
            v.home,
            operation.slug,
            intent.destination,
            facts,
        ) {
            Err(e) => refused(v, e),
            Ok((destination, _)) => act(
                v,
                Pending::BeginRandom { key, operation, attempt, intent, destination },
                Action::Random,
            ),
        },
        Goal::Accept { key, verified } => on_accept_survey(v, key, verified, facts, at),
        Goal::Publish { key } => on_publish_survey(v, key, facts, at),
        Goal::Reconcile { key, after } => on_reconcile_survey(v, key, after, facts),
        Goal::Cleanup { key, after } => on_cleanup_survey(v, key, after, facts),
    }
}

/// An effect took place, or failed.
pub open spec fn on_effect(
    v: StoreView,
    pending: PendingView,
    effect: Result<(), Error>,
    at: Seq<char>,
) -> Turn {
    match pending {
        Pending::AppendWrite { end } => on_append_write(v, end, effect),
        Pending::ReplaceTruncate { key, attempt } => on_replace_truncate(v, key, attempt, effect),
        Pending::BeginCreate { key, operation, attempt, intent, destination, stage_name } => {
            on_create(v, key, operation, attempt, intent, destination, stage_name, effect)
        },
        Pending::FinishSync { key, verified, destination, parent, stage } => {
            on_finish_sync(v, key, verified, destination, parent, stage, effect, at)
        },
        Pending::AcceptJournal { key } => on_accept_journal(v, key, effect),
        Pending::PublishLink { key } => on_publish_link(v, key, effect, at),
        Pending::PublishSync { key } => {
            terminalize(v, key, published(effect), at, After::Status)
        },
        Pending::ReconcileStage { key, after } => on_reconcile_stage(v, key, after, effect),
        Pending::ReconcileParent { key, after } => {
            terminalize(v, key, published(effect), at, after)
        },
        Pending::TerminalJournal { key, receipt, after } => {
            on_terminal_journal(v, key, receipt, after, effect)
        },
        _ => abandoned(v),
    }
}

/// A staging file was inspected.
pub open spec fn on_stage(
    v: StoreView,
    pending: PendingView,
    facts: StageFacts,
    at: Seq<char>,
) -> Turn {
    match pending {
        Pending::AppendInspect { key, offset, bytes } => {
            on_append_inspect(v, key, offset, bytes, facts)
        },
        Pending::ReplaceInspect { key, attempt } => on_replace_inspect(v, key, attempt, facts),
        Pending::FinishInspect { key, verified, destination, parent } => {
            on_finish_inspect(v, key, verified, destination, parent, facts, at)
        },
        Pending::DiscardInspect { live, ending } => on_discard_inspect(v, live, ending, facts),
        _ => abandoned(v),
    }
}

/// A file was inspected.
pub open spec fn on_file(
    v: StoreView,
    pending: PendingView,
    file: Result<FileFacts, Error>,
    at: Seq<char>,
) -> Turn {
    match pending {
        Pending::PublishStage { key } => on_publish_stage(v, key, file, at),
        Pending::CleanupStage { key, after } => on_cleanup_stage(v, key, after, file),
        _ => abandoned(v),
    }
}

/// A name was removed, or not.
pub open spec fn on_removed(v: StoreView, pending: PendingView, removal: Removal) -> Turn {
    match pending {
        Pending::CleanupUnlink { key, after } => on_cleanup_unlink(v, key, after, removal),
        Pending::DiscardUnlink { live, ending } => on_discard_unlink(v, live, ending, removal),
        _ => abandoned(v),
    }
}

/// What an event makes of a store that waits for it, observed at a time.
pub open spec fn resumed(before: StoreView, event: Event, at: Seq<char>) -> Turn {
    let v = StoreView { pending: Pending::Idle, ..before };
    match event {
        Event::Survey(facts) => match before.pending {
            Pending::Survey(goal) => on_survey(v, goal, facts, at),
            _ => abandoned(v),
        },
        Event::Random(bytes) => match before.pending {
            Pending::BeginRandom { key, operation, attempt, intent, destination } => {
                on_random(v, key, operation, attempt, intent, destination, bytes)
            },
            _ => abandoned(v),
        },
        Event::Length(length) => match before.pending {
            Pending::Length { ticket, after } => on_length(v, ticket, after, length),
            _ => abandoned(v),
        },
        Event::Stage(facts) => on_stage(v, before.pending, facts, at),
        Event::Contents(facts, bytes) => match before.pending {
            Pending::FinishRead { key } => on_finish_read(v, key, facts, bytes, at),
            _ => abandoned(v),
        },
        Event::File(file) => on_file(v, before.pending, file, at),
        Event::Evidence(facts) => match before.pending {
            Pending::ReconcileEvidence { key, after } => {
                on_reconcile_evidence(v, key, after, facts)
            },
            _ => abandoned(v),
        },
        Event::Effect(effect) => on_effect(v, before.pending, effect, at),
        Event::Removed(removal) => on_removed(v, before.pending, removal),
    }
}

/// The recovery of a record that an earlier store left: an operation that has
/// ended is cleaned up after, any other is looked into.
pub open spec fn recover(v: StoreView, key: Seq<char>) -> Turn {
    if !v.records.contains_key(key) {
        done(v, Answer::Recovered)
    } else if v.records[key].terminal is Some {
        cleanup(v, key, After::Recovered)
    } else {
        reconcile(v, key, After::Recovered)
    }
}

/// The end of a transfer whose store is closed. Nothing remembers it.
pub open spec fn dismiss(v: StoreView, key: Seq<char>) -> Turn {
    if !v.receiving.contains_key(key) {
        done(v, Answer::Recovered)
    } else {
        discard(v, key, None)
    }
}

} // verus!
