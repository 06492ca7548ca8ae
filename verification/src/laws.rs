//! What holds of a store across calls.

use vstd::prelude::*;

use crate::action::{Action, ActionView, After, Answer, Event, Goal, Pending, PendingView, Step};
use crate::error::{Error, ErrorKind};
use crate::facts::{retained_check, Removal, StageFacts};
use crate::json::record_json;
use crate::model::{
    is_same_intent, Attempt, Identity, Intent, OperationId, Outcome, Receipt, ReceivingView, Record,
    Status, TicketView, VerifiedPng, MAX_RECEIVING_BYTES, MAX_TRANSFERS,
};
use crate::observation::{conclusion, temporary, Detail};
use crate::path::{file_name_of, is_same_path};
use crate::policy::{allowed, ParentFacts};
use crate::protocol;
use crate::protocol::{has_room, live_check, total, StoreView, Turn, MAX_JOURNAL_BYTES};
use crate::rules::{facts_match, intent_check, is_attempt, key_of_operation};
use crate::soundness::{is_due, is_kept, is_temporary, sound, stays_sound, turn, Call};
use crate::text::byte_count;

verus! {

/// Whether a record is an earlier one, or that one with its receipt. A receipt
/// never changes.
pub open spec fn continues(before: Record<Seq<char>>, after: Record<Seq<char>>) -> bool {
    &&& after == (Record { terminal: after.terminal, ..before })
    &&& before.terminal is Some ==> after.terminal == before.terminal
}

/// Whether a transfer is an earlier one, or that one with a newer ticket.
pub open spec fn transfers_on(
    before: ReceivingView,
    after: ReceivingView,
    generation: u64,
) -> bool {
    &&& after.operation == before.operation
    &&& after.intent == before.intent
    &&& after.destination == before.destination
    &&& after.stage_name == before.stage_name
    &&& after == before || after.ticket.generation > generation
}

/// Whether a state of a store keeps everything that an earlier one bound: each
/// accepted operation with its caller, its intent and its receipt; each outcome
/// before acceptance; the caller and the intent of each transfer; what was
/// observed and not taken; and that nothing can be written any more. Tickets
/// that come into being are newer than any that were.
#[verifier::opaque]
pub open spec fn keeps(v: StoreView, w: StoreView) -> bool {
    &&& w.home == v.home
    &&& w.owner == v.owner
    &&& w.generation >= v.generation
    &&& v.poisoned is Some ==> w.poisoned == v.poisoned
    &&& v.observations.len() <= w.observations.len()
    &&& w.observations.take(v.observations.len() as int) == v.observations
    &&& forall|k: Seq<char>| #[trigger]
        v.records.contains_key(k) ==> w.records.contains_key(k) && continues(
            v.records[k],
            w.records[k],
        )
    &&& forall|k: Seq<char>| #[trigger]
        v.outcomes.contains_key(k) ==> w.outcomes.contains_key(k) && w.outcomes[k]
            == v.outcomes[k]
    &&& forall|k: Seq<char>| #[trigger]
        w.receiving.contains_key(k) ==> if v.receiving.contains_key(k) {
            transfers_on(v.receiving[k], w.receiving[k], v.generation)
        } else {
            w.receiving[k].ticket.generation > v.generation
        }
}

proof fn keeps_itself(v: StoreView, pending: PendingView)
    ensures
        keeps(v, StoreView { pending, ..v }),
{
    reveal(keeps);
    assert(v.observations.take(v.observations.len() as int) =~= v.observations);
}

proof fn keeps_discard(v: StoreView, key: Seq<char>, receipt: Option<Receipt<Seq<char>>>)
    requires
        sound(v),
        v.receiving.contains_key(key),
    ensures
        keeps(v, protocol::discard(v, key, receipt).store),
{
    reveal(sound);
    reveal(keeps);
    assert(v.observations.take(v.observations.len() as int) =~= v.observations);
}

proof fn keeps_discarded(v: StoreView, live: ReceivingView, receipt: Option<Receipt<Seq<char>>>, removal: Removal)
    ensures
        keeps(v, protocol::on_discard_unlink(v, live, receipt, removal).store),
        keeps(v, protocol::discarded(v, receipt).store),
{
    reveal(keeps);
    let w = protocol::on_discard_unlink(v, live, receipt, removal).store;
    assert(w.observations.take(v.observations.len() as int) =~= v.observations);
    let u = protocol::discarded(v, receipt).store;
    assert(u.observations.take(v.observations.len() as int) =~= v.observations);
}

proof fn keeps_persist(
    v: StoreView,
    w: StoreView,
    key: Seq<char>,
    record: Record<Seq<char>>,
    pending: PendingView,
    after: After,
)
    requires
        keeps(v, w),
    ensures
        keeps(v, protocol::persist(w, key, record, pending, after).store),
{
    reveal(keeps);
}

proof fn keeps_terminalize(
    v: StoreView,
    w: StoreView,
    key: Seq<char>,
    outcome: Outcome<Seq<char>>,
    at: Seq<char>,
    after: After,
)
    requires
        keeps(v, w),
    ensures
        keeps(v, protocol::terminalize(w, key, outcome, at, after).store),
{
    let receipt = conclusion(key, w.records[key], outcome, at);
    keeps_persist(
        v,
        w,
        key,
        Record { terminal: Some(receipt), ..w.records[key] },
        Pending::TerminalJournal { key, receipt, after },
        after,
    );
    reveal(keeps);
}

proof fn keeps_publish_refused(v: StoreView, key: Seq<char>, kind: ErrorKind, at: Seq<char>)
    ensures
        keeps(v, protocol::publish_refused(v, key, kind, at).store),
{
    keeps_itself(v, v.pending);
    let w = StoreView { publication: v.publication.insert(key, false), ..v };
    assert(keeps(v, w)) by {
        reveal(keeps);
    }
    keeps_terminalize(
        v,
        w,
        key,
        Outcome::Failed {
            action: "publish"@,
            reason: "destination already exists; nothing replaced"@,
        },
        at,
        After::Status,
    );
    keeps_itself(v, Pending::Idle);
}

proof fn keeps_finish_sync(
    v: StoreView,
    key: Seq<char>,
    verified: VerifiedPng<Seq<char>>,
    destination: Seq<char>,
    parent: Identity,
    stage: Identity,
    effect: Result<(), Error>,
    at: Seq<char>,
)
    requires
        sound(v),
    ensures
        keeps(
            v,
            protocol::on_finish_sync(
                v,
                key,
                verified,
                destination,
                parent,
                stage,
                effect,
                at,
            ).store,
        ),
{
    keeps_itself(v, Pending::Idle);
    if v.receiving.contains_key(key) {
        match effect {
            Err(e) => {
                keeps_failed(v, key, "sync"@, e.message@, at);
            },
            Ok(()) => {
                let record = protocol::accepted_record(
                    v.receiving[key],
                    verified,
                    destination,
                    parent,
                    stage,
                    at,
                );
                let w = StoreView {
                    receiving: v.receiving.remove(key),
                    records: v.records.insert(key, record),
                    ..v
                };
                assert(keeps(v, w)) by {
                    reveal(keeps);
                    reveal(sound);
                }
                keeps_persist(
                    v,
                    w,
                    key,
                    record,
                    Pending::AcceptJournal { key },
                    After::Status,
                );
            },
        }
    }
}

proof fn keeps_failed(
    v: StoreView,
    key: Seq<char>,
    action: Seq<char>,
    reason: Seq<char>,
    at: Seq<char>,
)
    requires
        sound(v),
        v.receiving.contains_key(key),
    ensures
        keeps(v, protocol::failed(v, key, action, reason, at).store),
{
    keeps_discard(
        v,
        key,
        Some(
            temporary(
                v.receiving[key],
                Outcome::Failed { action, reason },
                at,
            ),
        ),
    );
}

proof fn keeps_survey(v: StoreView, goal: Goal<Seq<char>>, facts: ParentFacts, at: Seq<char>)
    requires
        sound(v),
    ensures
        keeps(v, protocol::on_survey(v, goal, facts, at).store),
{
    let next = protocol::on_survey(v, goal, facts, at).store.pending;
    keeps_itself(v, next);
    match goal {
        Goal::Accept { key, .. } => {
            if v.receiving.contains_key(key) {
                let live = v.receiving[key];
                match allowed(
                    v.home,
                    live.operation.slug,
                    live.intent.destination,
                    facts,
                ) {
                    Err(e) => {
                        keeps_failed(v, key, "prepare"@, e.message, at);
                    },
                    Ok(_) => {
                        keeps_failed(v, key, "prepare"@, protocol::moved_error().message, at);
                    },
                }
            }
        },
        Goal::Publish { key } => {
            match protocol::record_parent(v, v.records[key], facts) {
                Err(e) => {
                    keeps_publish_refused(v, key, e.kind, at);
                },
                Ok(()) => {},
            }
        },
        _ => {},
    }
}

proof fn keeps_stage(v: StoreView, pending: PendingView, facts: StageFacts, at: Seq<char>)
    requires
        sound(v),
    ensures
        keeps(v, protocol::on_stage(v, pending, facts, at).store),
{
    let next = protocol::on_stage(v, pending, facts, at).store.pending;
    keeps_itself(v, next);
    match pending {
        Pending::FinishInspect { key, parent, .. } => {
            if v.receiving.contains_key(key) {
                match protocol::place_check(parent, facts) {
                    Err(e) => {
                        keeps_failed(v, key, "prepare"@, e.message, at);
                    },
                    Ok(_) => {},
                }
            }
        },
        Pending::DiscardInspect { live, ending } => {
            keeps_discarded(v, live, ending, Removal::Removed);
        },
        _ => {},
    }
}

proof fn keeps_effect(
    v: StoreView,
    pending: PendingView,
    effect: Result<(), Error>,
    at: Seq<char>,
)
    requires
        sound(v),
        is_due(StoreView { pending, ..v }),
        has_room(StoreView { pending, ..v }),
    ensures
        keeps(v, protocol::on_effect(v, pending, effect, at).store),
{
    let w = protocol::on_effect(v, pending, effect, at).store;
    keeps_itself(v, w.pending);
    match pending {
        Pending::AppendWrite { .. } => {},
        Pending::ReplaceTruncate { .. } => {
            reveal(keeps);
        },
        Pending::BeginCreate { .. } => {
            reveal(keeps);
        },
        Pending::FinishSync { key, verified, destination, parent, stage } => {
            keeps_finish_sync(v, key, verified, destination, parent, stage, effect, at);
        },
        Pending::AcceptJournal { key } => {
            reveal(keeps);
        },
        Pending::PublishLink { key } => {
            match effect {
                Err(e) => {
                    keeps_publish_refused(v, key, e.kind, at);
                },
                Ok(()) => {
                    reveal(keeps);
                },
            }
        },
        Pending::PublishSync { key } => {
            keeps_itself(v, v.pending);
            keeps_terminalize(v, v, key, protocol::published(effect), at, After::Status);
        },
        Pending::ReconcileStage { .. } => {
            reveal(keeps);
        },
        Pending::ReconcileParent { key, after } => {
            keeps_itself(v, v.pending);
            keeps_terminalize(v, v, key, protocol::published(effect), at, after);
        },
        Pending::TerminalJournal { .. } => {
            reveal(keeps);
            assert(w.observations.take(v.observations.len() as int) =~= v.observations);
        },
        _ => {},
    }
}

proof fn keeps_resumed(before: StoreView, event: Event, at: Seq<char>)
    requires
        sound(before),
    ensures
        keeps(before, protocol::resumed(before, event, at).store),
{
    let v = StoreView { pending: Pending::Idle, ..before };
    let w = protocol::resumed(before, event, at).store;
    assert(StoreView { pending: before.pending, ..v } == before);
    assert(sound(v) && is_due(before) && has_room(before)) by {
        reveal(sound);
    }
    keeps_itself(v, w.pending);
    match event {
        Event::Survey(facts) => {
            if let Pending::Survey(goal) = before.pending {
                keeps_survey(v, goal, facts, at);
            }
        },
        Event::Stage(facts) => {
            keeps_stage(v, before.pending, facts, at);
        },
        Event::Contents(facts, bytes) => {
            if let Pending::FinishRead { key } = before.pending {
                if v.receiving.contains_key(key) {
                    match protocol::contents_check(v.receiving[key].intent, facts, bytes) {
                        Err(e) => {
                            keeps_failed(v, key, "verify"@, e.message, at);
                        },
                        Ok(_) => {},
                    }
                }
            }
        },
        Event::File(file) => {
            if let Pending::PublishStage { key } = before.pending {
                match retained_check(file, v.records[key].stage_identity) {
                    Err(e) => {
                        keeps_publish_refused(v, key, e.kind, at);
                    },
                    Ok(()) => {},
                }
            }
        },
        Event::Effect(effect) => {
            keeps_effect(v, before.pending, effect, at);
        },
        Event::Removed(removal) => {
            match before.pending {
                Pending::CleanupUnlink { .. } => {
                    reveal(keeps);
                    assert(w.observations.take(v.observations.len() as int) =~= v.observations);
                },
                Pending::DiscardUnlink { live, ending } => {
                    keeps_discarded(v, live, ending, removal);
                },
                _ => {},
            }
        },
        _ => {},
    }
    assert(keeps(v, w));
    reveal(keeps);
}

/// Whatever is called, a store keeps what it bound. An accepted operation stays
/// accepted, with its caller, its intent and what was verified, and once it has
/// a receipt that receipt never changes. An outcome before acceptance stays as
/// it is. A transfer keeps its caller and its intent, whatever attempts replace
/// each other. A store that cannot write any more never can again. And no
/// observation is lost.
pub proof fn nothing_is_lost(v: StoreView, call: Call, at: Seq<char>)
    requires
        sound(v),
    ensures
        keeps(v, turn(v, call, at).store),
{
    let w = turn(v, call, at).store;
    keeps_itself(v, w.pending);
    match call {
        Call::Cancel { operation, .. } => {
            if let Ok(key) = key_of_operation(operation) {
                if v.receiving.contains_key(key) {
                    keeps_discard(
                        v,
                        key,
                        Some(
                            temporary(
                                v.receiving[key],
                                Outcome::Aborted,
                                at,
                            ),
                        ),
                    );
                }
            }
        },
        Call::Resume { event } => {
            keeps_resumed(v, event, at);
        },
        Call::Dismiss { key } => {
            if v.receiving.contains_key(key) {
                keeps_discard(v, key, None);
            }
        },
        _ => {},
    }
}

/// A ticket that is not the authority over a transfer any more never becomes
/// it again, whatever is called.
pub proof fn old_tickets_stay_fenced(v: StoreView, call: Call, at: Seq<char>, ticket: TicketView)
    requires
        sound(v),
        ticket.generation <= v.generation,
        live_check(v, ticket) is Err,
    ensures
        live_check(turn(v, call, at).store, ticket) is Err,
        ticket.generation <= turn(v, call, at).store.generation,
{
    nothing_is_lost(v, call, at);
    reveal(keeps);
}

/// A ticket of another store is no authority here.
pub proof fn foreign_tickets_are_fenced(v: StoreView, ticket: TicketView)
    requires
        sound(v),
        ticket.owner != v.owner,
    ensures
        live_check(v, ticket) is Err,
{
    reveal(sound);
}

/// An upper bound for the number of actions that an operation still takes.
pub open spec fn actions_left(pending: PendingView) -> nat {
    match pending {
        Pending::Idle => 0,
        Pending::Length { .. } => 1,
        Pending::AppendWrite { .. } => 1,
        Pending::AppendInspect { .. } => 2,
        Pending::ReplaceTruncate { .. } => 1,
        Pending::ReplaceInspect { .. } => 2,
        Pending::BeginCreate { .. } => 1,
        Pending::BeginRandom { .. } => 2,
        Pending::Survey(Goal::Begin { .. }) => 3,
        Pending::DiscardUnlink { .. } => 1,
        Pending::DiscardInspect { .. } => 2,
        Pending::CleanupUnlink { .. } => 1,
        Pending::CleanupStage { .. } => 2,
        Pending::Survey(Goal::Cleanup { .. }) => 3,
        Pending::TerminalJournal { .. } => 4,
        Pending::ReconcileParent { .. } => 5,
        Pending::ReconcileStage { .. } => 6,
        Pending::ReconcileEvidence { .. } => 7,
        Pending::Survey(Goal::Reconcile { .. }) => 8,
        Pending::PublishSync { .. } => 5,
        Pending::PublishLink { .. } => 6,
        Pending::PublishStage { .. } => 7,
        Pending::Survey(Goal::Publish { .. }) => 8,
        Pending::AcceptJournal { .. } => 9,
        Pending::FinishSync { .. } => 10,
        Pending::FinishInspect { .. } => 11,
        Pending::Survey(Goal::Accept { .. }) => 12,
        Pending::FinishRead { .. } => 13,
    }
}

/// The operation that is being published, and how far that is: its acceptance
/// is journaled, its directory surveyed, its staging file inspected, its
/// destination linked, the publication made durable.
pub open spec fn publishing(pending: PendingView) -> Option<(Seq<char>, int)> {
    match pending {
        Pending::AcceptJournal { key } => Some((key, 0)),
        Pending::Survey(Goal::Publish { key }) => Some((key, 1)),
        Pending::PublishStage { key } => Some((key, 2)),
        Pending::PublishLink { key } => Some((key, 3)),
        Pending::PublishSync { key } => Some((key, 4)),
        _ => None,
    }
}

/// Whether an action changes a transfer, the journal or a destination.
pub open spec fn is_write(action: ActionView) -> bool {
    match action {
        Action::CreateStage { .. } => true,
        Action::Append { .. } => true,
        Action::Truncate { .. } => true,
        Action::WriteJournal { .. } => true,
        Action::Link { .. } => true,
        _ => false,
    }
}

/// Whether a turn brings the operation under way closer to its result, in
/// order: a publication goes on from where it was, or starts with a transfer
/// that is accepted just now; a destination is linked only by the operation
/// that was accepted for it; and nothing is written once the journal is
/// uncertain.
#[verifier::opaque]
pub open spec fn goes_on(v: StoreView, t: Turn) -> bool {
    &&& t.step is Done <==> t.store.pending is Idle
    &&& t.step is Act ==> actions_left(t.store.pending) < actions_left(v.pending)
    &&& publishing(t.store.pending) matches Some((key, n)) ==> {
        ||| publishing(v.pending) == Some((key, n - 1))
        ||| n == 0 && is_synced(v.pending, key) && !v.records.contains_key(key)
    }
    &&& t.step matches Step::Act(action) ==> {
        &&& is_write(action) ==> v.poisoned is None
        &&& action matches Action::Link { from, to } ==> links_accepted(v, from, to)
    }
}

/// Whether a transfer was verified, and only its acceptance is missing.
pub open spec fn is_synced(pending: PendingView, key: Seq<char>) -> bool {
    pending matches Pending::FinishSync { key: k, .. } && k == key
}

/// Whether two names are those of the operation that is being published: its
/// staging file and its destination. It has no receipt yet, and no publication
/// of it was observed.
pub open spec fn links_accepted(v: StoreView, from: Seq<char>, to: Seq<char>) -> bool {
    &&& v.pending matches Pending::PublishStage { key }
    &&& v.records.contains_key(key)
    &&& v.records[key].terminal is None
    &&& !v.publication.contains_key(key)
    &&& from == v.records[key].stage_name
    &&& to == file_name_of(v.records[key].destination)
}

proof fn goes_on_done(v: StoreView, t: Turn)
    requires
        t.step is Done,
        t.store.pending is Idle,
    ensures
        goes_on(v, t),
{
    reveal(goes_on);
}

proof fn goes_on_terminalize(
    v: StoreView,
    w: StoreView,
    key: Seq<char>,
    outcome: Outcome<Seq<char>>,
    at: Seq<char>,
    after: After,
)
    requires
        actions_left(v.pending) > 4,
        v.poisoned is None,
    ensures
        goes_on(v, protocol::terminalize(w, key, outcome, at, after)),
{
    reveal(goes_on);
}

proof fn goes_on_refused(
    v: StoreView,
    w: StoreView,
    key: Seq<char>,
    kind: ErrorKind,
    at: Seq<char>,
)
    requires
        actions_left(v.pending) > 4,
        v.poisoned is None,
    ensures
        goes_on(v, protocol::publish_refused(w, key, kind, at)),
{
    let u = StoreView { publication: w.publication.insert(key, false), ..w };
    goes_on_terminalize(
        v,
        u,
        key,
        Outcome::Failed {
            action: "publish"@,
            reason: "destination already exists; nothing replaced"@,
        },
        at,
        After::Status,
    );
    goes_on_done(v, protocol::settled(w, key, After::Status));
}

proof fn goes_on_survey(
    v: StoreView,
    w: StoreView,
    goal: Goal<Seq<char>>,
    facts: ParentFacts,
    at: Seq<char>,
)
    requires
        w == (StoreView { pending: Pending::Idle, ..v }),
        v.pending == PendingView::Survey(goal),
        is_due(v),
    ensures
        goes_on(v, protocol::on_survey(w, goal, facts, at)),
{
    reveal(goes_on);
    match goal {
        Goal::Publish { key } => {
            match protocol::record_parent(w, w.records[key], facts) {
                Err(e) => {
                    goes_on_refused(v, w, key, e.kind, at);
                },
                Ok(()) => {},
            }
        },
        _ => {},
    }
}

proof fn goes_on_stage(v: StoreView, w: StoreView, facts: StageFacts, at: Seq<char>)
    requires
        w == (StoreView { pending: Pending::Idle, ..v }),
        is_due(v),
    ensures
        goes_on(v, protocol::on_stage(w, v.pending, facts, at)),
{
    reveal(goes_on);
}

proof fn goes_on_finish_sync(v: StoreView, w: StoreView, effect: Result<(), Error>, at: Seq<char>)
    requires
        w == (StoreView { pending: Pending::Idle, ..v }),
        v.pending is FinishSync,
        sound(v),
    ensures
        goes_on(v, protocol::on_effect(w, v.pending, effect, at)),
{
    reveal(goes_on);
    reveal(sound);
}

proof fn goes_on_effect(v: StoreView, w: StoreView, effect: Result<(), Error>, at: Seq<char>)
    requires
        w == (StoreView { pending: Pending::Idle, ..v }),
        is_due(v),
        sound(v),
    ensures
        goes_on(v, protocol::on_effect(w, v.pending, effect, at)),
{
    let t = protocol::on_effect(w, v.pending, effect, at);
    match v.pending {
        Pending::FinishSync { .. } => {
            goes_on_finish_sync(v, w, effect, at);
        },
        Pending::AcceptJournal { .. } => {
            reveal(goes_on);
        },
        Pending::PublishLink { key } => {
            match effect {
                Err(e) => {
                    goes_on_refused(v, w, key, e.kind, at);
                },
                Ok(()) => {
                    reveal(goes_on);
                },
            }
        },
        Pending::PublishSync { key } => {
            goes_on_terminalize(v, w, key, protocol::published(effect), at, After::Status);
        },
        Pending::ReconcileStage { .. } => {
            reveal(goes_on);
        },
        Pending::ReconcileParent { key, after } => {
            goes_on_terminalize(v, w, key, protocol::published(effect), at, after);
        },
        Pending::TerminalJournal { .. } => {
            reveal(goes_on);
        },
        _ => {
            goes_on_done(v, t);
        },
    }
}

proof fn goes_on_resumed(v: StoreView, event: Event, at: Seq<char>)
    requires
        sound(v),
    ensures
        goes_on(v, protocol::resumed(v, event, at)),
{
    let w = StoreView { pending: Pending::Idle, ..v };
    let t = protocol::resumed(v, event, at);
    assert(is_due(v)) by {
        reveal(sound);
    }
    match event {
        Event::Survey(facts) => {
            if let Pending::Survey(goal) = v.pending {
                goes_on_survey(v, w, goal, facts, at);
            } else {
                goes_on_done(v, t);
            }
        },
        Event::Random(_) => {
            reveal(goes_on);
        },
        Event::Length(_) => {
            goes_on_done(v, t);
        },
        Event::Stage(facts) => {
            goes_on_stage(v, w, facts, at);
        },
        Event::Contents(_, _) => {
            reveal(goes_on);
        },
        Event::File(file) => {
            match v.pending {
                Pending::PublishStage { key } => {
                    match retained_check(file, v.records[key].stage_identity) {
                        Err(e) => {
                            goes_on_refused(v, w, key, e.kind, at);
                        },
                        Ok(()) => {
                            reveal(goes_on);
                        },
                    }
                },
                _ => {
                    reveal(goes_on);
                },
            }
        },
        Event::Evidence(_) => {
            reveal(goes_on);
        },
        Event::Effect(effect) => {
            goes_on_effect(v, w, effect, at);
        },
        Event::Removed(_) => {
            goes_on_done(v, t);
        },
    }
}

/// Every operation ends: each event brings it closer to its result, whatever
/// the file system answers.
pub proof fn every_operation_ends(v: StoreView, event: Event, at: Seq<char>)
    requires
        sound(v),
    ensures
        protocol::resumed(v, event, at).step is Act ==> actions_left(
            protocol::resumed(v, event, at).store.pending,
        ) < actions_left(v.pending),
        protocol::resumed(v, event, at).step is Done
            <==> protocol::resumed(v, event, at).store.pending is Idle,
{
    goes_on_resumed(v, event, at);
    reveal(goes_on);
}

/// No call but an event's starts or continues a publication, or writes.
proof fn calls_only_look(v: StoreView, call: Call, at: Seq<char>)
    requires
        !(call is Resume),
    ensures
        publishing(turn(v, call, at).store.pending) is None,
        turn(v, call, at).step matches Step::Act(action) ==> !is_write(action),
{
}

/// A destination is linked only by the operation that was accepted for it, on
/// the way from its acceptance to its receipt, and once. Looking an operation
/// up, beginning or cancelling it again, and recovering it after a restart
/// never publish it.
pub proof fn publication_follows_acceptance(v: StoreView, call: Call, at: Seq<char>)
    requires
        sound(v),
    ensures
        turn(v, call, at).step matches Step::Act(Action::Link { from, to }) ==> links_accepted(
            v,
            from,
            to,
        ),
        publishing(turn(v, call, at).store.pending) matches Some((key, n)) ==> {
            ||| publishing(v.pending) == Some((key, n - 1))
            ||| n == 0 && is_synced(v.pending, key) && !v.records.contains_key(key)
        },
{
    match call {
        Call::Resume { event } => {
            goes_on_resumed(v, event, at);
            reveal(goes_on);
        },
        _ => {
            calls_only_look(v, call, at);
        },
    }
}

/// Once the journal is uncertain, a store changes no transfer, no journal entry
/// and no destination.
pub proof fn a_frozen_store_writes_nothing(v: StoreView, call: Call, at: Seq<char>)
    requires
        sound(v),
        v.poisoned is Some,
    ensures
        turn(v, call, at).step matches Step::Act(action) ==> !is_write(action),
        turn(v, call, at).store.poisoned == v.poisoned,
{
    match call {
        Call::Resume { event } => {
            goes_on_resumed(v, event, at);
            reveal(goes_on);
        },
        _ => {
            calls_only_look(v, call, at);
        },
    }
    nothing_is_lost(v, call, at);
    reveal(keeps);
}

/// The receipt of an operation, where it has one.
pub open spec fn receipt_of(v: StoreView, key: Seq<char>) -> Option<Receipt<Seq<char>>> {
    if v.records.contains_key(key) {
        v.records[key].terminal
    } else if v.outcomes.contains_key(key) {
        Some(v.outcomes[key])
    } else {
        None
    }
}

/// The intent that is bound to an operation that was accepted or has ended.
pub open spec fn intent_of(v: StoreView, key: Seq<char>) -> Intent<Seq<char>> {
    if v.records.contains_key(key) {
        v.records[key].intent
    } else {
        v.outcomes[key].requested
    }
}

/// An operation that has ended is answered with its receipt, however it is
/// asked for, and the asking changes nothing and reports nothing.
pub proof fn receipts_are_read_back(
    v: StoreView,
    key: Seq<char>,
    receipt: Receipt<Seq<char>>,
    operation: OperationId<Seq<char>>,
    attempt: Attempt<Seq<char>>,
    intent: Intent<Seq<char>>,
    ticket: TicketView,
    at: Seq<char>,
)
    requires
        sound(v),
        key_of_operation(operation) == Ok::<Seq<char>, Error<Seq<char>>>(key),
        receipt_of(v, key) == Some(receipt),
        receipt.operation == operation,
        is_attempt(attempt),
        intent_check(intent) is Ok,
        is_same_intent(intent, intent_of(v, key)),
        ticket.key == key,
        ticket.owner == v.owner,
    ensures
        protocol::lookup(v, operation) == protocol::done(
            v,
            Answer::Found(Some(Status::Terminal(Box::new(receipt)))),
        ),
        protocol::begin(v, operation, attempt, intent) == protocol::done(
            v,
            Answer::Status(Status::Terminal(Box::new(receipt))),
        ),
        protocol::finish(v, operation, ticket) == protocol::done(
            v,
            Answer::Status(Status::Terminal(Box::new(receipt))),
        ),
        protocol::cancel(v, operation, ticket, at) == protocol::done(
            v,
            Answer::Status(Status::Terminal(Box::new(receipt))),
        ),
{
    reveal(sound);
    if v.records.contains_key(key) {
        assert(is_kept(key, v.records[key]));
    } else {
        assert(is_temporary(key, v.outcomes[key]));
    }
}

/// A receipt never changes once an operation has one, whatever is called.
pub proof fn receipts_are_immutable(
    v: StoreView,
    call: Call,
    at: Seq<char>,
    key: Seq<char>,
    receipt: Receipt<Seq<char>>,
)
    requires
        sound(v),
        receipt_of(v, key) == Some(receipt),
    ensures
        receipt_of(turn(v, call, at).store, key) == Some(receipt),
{
    nothing_is_lost(v, call, at);
    stays_sound(v, call, at);
    reveal(keeps);
    reveal(sound);
}

/// A transfer that was cancelled or could not be accepted is never accepted
/// afterwards, so that its bytes are never published.
pub proof fn an_ended_transfer_is_never_accepted(
    v: StoreView,
    call: Call,
    at: Seq<char>,
    key: Seq<char>,
)
    requires
        sound(v),
        v.outcomes.contains_key(key),
    ensures
        turn(v, call, at).store.outcomes.contains_key(key),
        !turn(v, call, at).store.records.contains_key(key),
{
    nothing_is_lost(v, call, at);
    stays_sound(v, call, at);
    reveal(keeps);
    reveal(sound);
}

/// How many transfers are received at one time, and how many bytes they
/// announce together, is bounded at all times.
pub proof fn transfers_are_bounded(v: StoreView)
    requires
        sound(v),
    ensures
        v.receiving.len() <= MAX_TRANSFERS,
        total(v.receiving) <= MAX_RECEIVING_BYTES,
{
    reveal(sound);
}

/// Whether a record is that of a transfer, with what was verified of it.
pub open spec fn accepts(live: ReceivingView, record: Record<Seq<char>>) -> bool {
    &&& record.operation == live.operation
    &&& record.attempt == live.attempt
    &&& record.intent == live.intent
    &&& is_same_path(record.destination, live.destination)
    &&& record.stage_name == live.stage_name
    &&& record.terminal is None
    &&& facts_match(record.verified, live.intent)
}

/// Whether a turn accepts the transfer that was just synchronized.
pub open spec fn accepts_now(v: StoreView, w: StoreView) -> bool {
    &&& v.pending matches Pending::FinishSync { key, .. }
    &&& v.receiving.contains_key(key)
    &&& w.records == v.records.insert(key, w.records[key])
    &&& accepts(v.receiving[key], w.records[key])
}

/// Whether a turn gives an accepted operation its receipt.
pub open spec fn ends_now(v: StoreView, w: StoreView, receipt: Receipt<Seq<char>>) -> bool {
    &&& v.pending matches Pending::TerminalJournal { key, receipt: r, .. }
    &&& r == receipt
    &&& v.records.contains_key(key)
    &&& v.records[key].terminal is None
    &&& w.records == v.records.insert(
        key,
        Record { terminal: Some(receipt), ..v.records[key] },
    )
}

/// Whether a turn ends the clean-up after a transfer that had this receipt.
pub open spec fn discards_now(v: StoreView, receipt: Receipt<Seq<char>>) -> bool {
    match v.pending {
        Pending::DiscardInspect { live, ending } => ending == Some(receipt),
        Pending::DiscardUnlink { live, ending } => ending == Some(receipt),
        _ => false,
    }
}

/// Whether a journal entry is that of a record of the store, or of such a
/// record with the receipt that is being journaled.
pub open spec fn journals(w: StoreView, key: Seq<char>, text: Seq<char>) -> bool {
    &&& w.records.contains_key(key)
    &&& byte_count(text) <= MAX_JOURNAL_BYTES
    &&& match w.pending {
        Pending::AcceptJournal { key: k } => k == key && text == record_json(w.records[key]),
        Pending::TerminalJournal { key: k, receipt, .. } => k == key && text == record_json(
            Record { terminal: Some(receipt), ..w.records[key] },
        ),
        _ => false,
    }
}

/// What a turn can change: which operations are accepted, which receipts are
/// given and reported, what is written to a transfer and to the journal, and
/// who gets a ticket.
#[verifier::opaque]
pub open spec fn changes(v: StoreView, t: Turn) -> bool {
    &&& {
        ||| t.store.records == v.records
        ||| accepts_now(v, t.store)
        ||| exists|receipt: Receipt<Seq<char>>| ends_now(v, t.store, receipt)
    }
    &&& forall|i: int|
        v.observations.len() <= i < t.store.observations.len() ==> (
        #[trigger] t.store.observations[i].detail matches Detail::Receipt { receipt, .. } ==> {
            ||| ends_now(v, t.store, receipt)
            ||| discards_now(v, receipt)
        })
    &&& t.step matches Step::Act(Action::Append { key, bytes }) ==> {
        &&& v.pending matches Pending::AppendInspect { key: k, offset, bytes: b }
        &&& k == key
        &&& b == bytes
        &&& v.receiving.contains_key(key)
        &&& offset + bytes.len() <= v.receiving[key].intent.bytes
    }
    &&& t.step matches Step::Act(Action::WriteJournal { key, text }) ==> journals(
        t.store,
        key,
        text,
    )
    &&& t.step matches Step::Done(Ok(Answer::Ticket(issued))) ==> {
        &&& t.store.receiving.contains_key(issued.key)
        &&& t.store.receiving[issued.key].ticket == issued
    }
}

proof fn changes_nothing(v: StoreView, t: Turn)
    requires
        t.store.records == v.records,
        t.store.observations == v.observations,
        t.step matches Step::Act(action) ==> !(action is Append) && !(action is WriteJournal),
        t.step matches Step::Done(Ok(answer)) ==> !(answer is Ticket),
    ensures
        changes(v, t),
{
    reveal(changes);
}

proof fn changes_terminalize(
    v: StoreView,
    w: StoreView,
    key: Seq<char>,
    outcome: Outcome<Seq<char>>,
    at: Seq<char>,
    after: After,
)
    requires
        w.records == v.records,
        w.observations == v.observations,
    ensures
        changes(v, protocol::terminalize(w, key, outcome, at, after)),
{
    reveal(changes);
}

proof fn changes_refused(
    v: StoreView,
    w: StoreView,
    key: Seq<char>,
    kind: ErrorKind,
    at: Seq<char>,
)
    requires
        w.records == v.records,
        w.observations == v.observations,
    ensures
        changes(v, protocol::publish_refused(w, key, kind, at)),
{
    let u = StoreView { publication: w.publication.insert(key, false), ..w };
    changes_terminalize(
        v,
        u,
        key,
        Outcome::Failed {
            action: "publish"@,
            reason: "destination already exists; nothing replaced"@,
        },
        at,
        After::Status,
    );
    changes_nothing(v, protocol::settled(w, key, After::Status));
}

proof fn changes_survey(
    v: StoreView,
    w: StoreView,
    goal: Goal<Seq<char>>,
    facts: ParentFacts,
    at: Seq<char>,
)
    requires
        w.records == v.records,
        w.observations == v.observations,
    ensures
        changes(v, protocol::on_survey(w, goal, facts, at)),
{
    let t = protocol::on_survey(w, goal, facts, at);
    match goal {
        Goal::Publish { key } => {
            match protocol::record_parent(w, w.records[key], facts) {
                Err(e) => {
                    changes_refused(v, w, key, e.kind, at);
                    if !w.records.contains_key(key) {
                        changes_nothing(v, t);
                    }
                },
                Ok(()) => {
                    changes_nothing(v, t);
                },
            }
        },
        _ => {
            changes_nothing(v, t);
        },
    }
}

proof fn changes_stage(v: StoreView, w: StoreView, facts: StageFacts, at: Seq<char>)
    requires
        w == (StoreView { pending: Pending::Idle, ..v }),
    ensures
        changes(v, protocol::on_stage(w, v.pending, facts, at)),
{
    let t = protocol::on_stage(w, v.pending, facts, at);
    match v.pending {
        Pending::AppendInspect { .. } => {
            reveal(changes);
        },
        Pending::DiscardInspect { .. } => {
            reveal(changes);
        },
        _ => {
            changes_nothing(v, t);
        },
    }
}

proof fn changes_effect(v: StoreView, w: StoreView, effect: Result<(), Error>, at: Seq<char>)
    requires
        w == (StoreView { pending: Pending::Idle, ..v }),
        is_due(v),
        sound(v),
    ensures
        changes(v, protocol::on_effect(w, v.pending, effect, at)),
{
    let t = protocol::on_effect(w, v.pending, effect, at);
    match v.pending {
        Pending::FinishSync { key, .. } => {
            assert(t.store.records == v.records || accepts_now(v, t.store));
            reveal(changes);
        },
        Pending::PublishLink { key } => {
            match effect {
                Err(e) => {
                    changes_refused(v, w, key, e.kind, at);
                },
                Ok(()) => {
                    changes_nothing(v, t);
                },
            }
        },
        Pending::PublishSync { key } => {
            changes_terminalize(v, w, key, protocol::published(effect), at, After::Status);
        },
        Pending::ReconcileParent { key, after } => {
            changes_terminalize(v, w, key, protocol::published(effect), at, after);
        },
        Pending::TerminalJournal { receipt, .. } => {
            assert(t.store.records == v.records || ends_now(v, t.store, receipt));
            reveal(changes);
        },
        Pending::ReplaceTruncate { .. } => {
            reveal(changes);
        },
        _ => {
            changes_nothing(v, t);
        },
    }
}

proof fn changes_resumed(v: StoreView, event: Event, at: Seq<char>)
    requires
        sound(v),
    ensures
        changes(v, protocol::resumed(v, event, at)),
{
    let w = StoreView { pending: Pending::Idle, ..v };
    let t = protocol::resumed(v, event, at);
    assert(is_due(v)) by {
        reveal(sound);
    }
    match event {
        Event::Survey(facts) => {
            if let Pending::Survey(goal) = v.pending {
                changes_survey(v, w, goal, facts, at);
            } else {
                changes_nothing(v, t);
            }
        },
        Event::Stage(facts) => {
            changes_stage(v, w, facts, at);
        },
        Event::File(file) => {
            match v.pending {
                Pending::PublishStage { key } => {
                    match retained_check(file, v.records[key].stage_identity) {
                        Err(e) => {
                            changes_refused(v, w, key, e.kind, at);
                        },
                        Ok(()) => {
                            changes_nothing(v, t);
                        },
                    }
                },
                _ => {
                    changes_nothing(v, t);
                },
            }
        },
        Event::Effect(effect) => {
            changes_effect(v, w, effect, at);
        },
        Event::Removed(_) => {
            reveal(changes);
        },
        _ => {
            changes_nothing(v, t);
        },
    }
}

/// No call but an event's changes records, reports, or hands out a ticket.
proof fn calls_change_nothing(v: StoreView, call: Call, at: Seq<char>)
    requires
        !(call is Resume),
    ensures
        changes(v, turn(v, call, at)),
{
    changes_nothing(v, turn(v, call, at));
}

/// No turn changes a store otherwise.
pub(crate) proof fn calls_change(v: StoreView, call: Call, at: Seq<char>)
    requires
        sound(v),
    ensures
        changes(v, turn(v, call, at)),
{
    match call {
        Call::Resume { event } => {
            changes_resumed(v, event, at);
        },
        _ => {
            calls_change_nothing(v, call, at);
        },
    }
}

/// Only a transfer whose PNG was verified and whose staging file and directory
/// were synchronized is accepted, and it is accepted as it was received.
pub proof fn acceptance_follows_verification(
    v: StoreView,
    call: Call,
    at: Seq<char>,
    key: Seq<char>,
)
    requires
        sound(v),
        !v.records.contains_key(key),
        turn(v, call, at).store.records.contains_key(key),
    ensures
        is_synced(v.pending, key),
        v.receiving.contains_key(key),
        accepts(v.receiving[key], turn(v, call, at).store.records[key]),
{
    calls_change(v, call, at);
    reveal(changes);
}

/// A receipt is reported in the turn that gives it to an accepted operation, or
/// at the end of the clean-up after a transfer, and at no other time: an
/// operation that stays unresolved reports none.
pub proof fn receipts_are_reported_when_given(
    v: StoreView,
    call: Call,
    at: Seq<char>,
    i: int,
    receipt: Receipt<Seq<char>>,
    unconfirmed: bool,
)
    requires
        sound(v),
        v.observations.len() <= i < turn(v, call, at).store.observations.len(),
        turn(v, call, at).store.observations[i].detail == (Detail::Receipt {
            receipt,
            unconfirmed,
        }),
    ensures
        ends_now(v, turn(v, call, at).store, receipt) || discards_now(v, receipt),
{
    calls_change(v, call, at);
    reveal(changes);
}

/// A chunk is written as it was handed over, where the transfer ended when it
/// was inspected and its sender said that it does, and within the bytes that
/// the transfer announced.
pub proof fn chunks_land_where_they_belong(
    v: StoreView,
    facts: StageFacts,
    at: Seq<char>,
    key: Seq<char>,
    bytes: Seq<u8>,
)
    requires
        protocol::resumed(v, Event::Stage(facts), at).step == Step::<
            Seq<char>,
            TicketView,
            Seq<u8>,
        >::Act(Action::Append { key, bytes }),
    ensures
        facts.held is Ok,
        v.pending == (PendingView::AppendInspect {
            key,
            offset: facts.held->Ok_0.length,
            bytes,
        }),
        facts.held->Ok_0.length + bytes.len() <= v.receiving[key].intent.bytes,
{
}

/// What is journaled is a record of the store, with its receipt where it has
/// one; it is short enough, and passes every rule that a journal is read by,
/// provided that the file system gave its directory a proper name.
pub proof fn journal_entries_can_be_read_back(
    v: StoreView,
    call: Call,
    at: Seq<char>,
    key: Seq<char>,
    text: Seq<char>,
)
    requires
        sound(v),
        turn(v, call, at).step == Step::<Seq<char>, TicketView, Seq<u8>>::Act(
            Action::WriteJournal { key, text },
        ),
    ensures
        byte_count(text) <= MAX_JOURNAL_BYTES,
        exists|record: Record<Seq<char>>|
            text == #[trigger] record_json(record) && is_kept(key, record),
{
    let w = turn(v, call, at).store;
    assert(journals(w, key, text)) by {
        calls_change(v, call, at);
        reveal(changes);
    }
    stays_sound(v, call, at);
    assert(is_kept(key, w.records[key]) && is_due(w)) by {
        reveal(sound);
    }
    if let Pending::TerminalJournal { receipt, .. } = w.pending {
        let record = Record { terminal: Some(receipt), ..w.records[key] };
        assert(is_kept(key, record));
    }
}

/// A transfer has one authority: once its attempt is replaced, every ticket but
/// the new one is fenced.
pub proof fn replacement_fences_every_other_ticket(
    v: StoreView,
    call: Call,
    at: Seq<char>,
    issued: TicketView,
    other: TicketView,
)
    requires
        sound(v),
        turn(v, call, at).step == Step::<Seq<char>, TicketView, Seq<u8>>::Done(
            Ok(Answer::Ticket(issued)),
        ),
        other.key == issued.key,
        other != issued,
    ensures
        live_check(turn(v, call, at).store, issued) is Ok,
        live_check(turn(v, call, at).store, other) is Err,
{
    calls_change(v, call, at);
    reveal(changes);
}

} // verus!
