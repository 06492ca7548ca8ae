//! What has to be known before an operation is said to be published.

use vstd::prelude::*;

use crate::action::{Action, After, Answer, AnswerView, Event, Goal, Pending, PendingView, Step};
use crate::error::{Error, ErrorKind};
use crate::facts::{retained_check, FileFacts};
use crate::laws::{calls_change, changes};
use crate::model::{OperationId, Outcome, Receipt, Record, Status, StatusView, TicketView};
use crate::observation::conclusion;
use crate::path::file_name_of;
use crate::policy::ParentFacts;
use crate::protocol;
use crate::protocol::{evidence_check, record_standing, StoreView, Turn};
use crate::rules::key_of_operation;
use crate::soundness::{after_calls, sound, stays_sound, turn, Call};

verus! {

/// Whether a call reports that the action before it succeeded.
pub open spec fn is_success(call: Call) -> bool {
    call matches Call::Resume { event } && event matches Event::Effect(effect) && effect is Ok
}

/// Whether an operation is known to be published: it was linked, or proved to be.
pub open spec fn is_published(v: StoreView, key: Seq<char>) -> bool {
    v.publication.contains_key(key) && v.publication[key]
}

/// Whether what a store waits for is the link to the destination of an
/// operation, or the synchronization of a file that proves its publication.
pub open spec fn is_proving(pending: PendingView, key: Seq<char>) -> bool {
    match pending {
        Pending::PublishLink { key: k } => k == key,
        Pending::ReconcileStage { key: k, .. } => k == key,
        _ => false,
    }
}

/// Whether what a store waits for follows neither from a proof of publication
/// nor from an acceptance that was journaled, and is no link.
spec fn is_quiet(pending: PendingView) -> bool {
    match pending {
        Pending::ReconcileStage { .. } => false,
        Pending::Survey(Goal::Publish { .. }) => false,
        Pending::PublishLink { .. } => false,
        _ => true,
    }
}

/// Whether a turn learns nothing about publications.
#[verifier::opaque]
spec fn learns_nothing(v: StoreView, t: Turn) -> bool {
    &&& forall|k: Seq<char>| #[trigger] is_published(t.store, k) ==> is_published(v, k)
    &&& t.store.linked == v.linked
    &&& is_quiet(t.store.pending)
}

proof fn quiet_learns_nothing(v: StoreView, t: Turn)
    requires
        t.store.publication == v.publication,
        t.store.linked == v.linked,
        is_quiet(t.store.pending),
    ensures
        learns_nothing(v, t),
{
    reveal(learns_nothing);
}

proof fn terminalize_learns_nothing(
    v: StoreView,
    w: StoreView,
    key: Seq<char>,
    outcome: Outcome<Seq<char>>,
    at: Seq<char>,
    after: After,
)
    requires
        forall|k: Seq<char>| #[trigger] is_published(w, k) ==> is_published(v, k),
        w.linked == v.linked,
    ensures
        learns_nothing(v, protocol::terminalize(w, key, outcome, at, after)),
{
    reveal(learns_nothing);
    let t = protocol::terminalize(w, key, outcome, at, after);
    assert(t.store.publication == w.publication);
    assert forall|k: Seq<char>| #[trigger] is_published(t.store, k) implies is_published(v, k) by {
        assert(is_published(w, k));
    }
}

proof fn refusal_learns_nothing(
    v: StoreView,
    w: StoreView,
    key: Seq<char>,
    kind: ErrorKind,
    at: Seq<char>,
)
    requires
        w == (StoreView { pending: Pending::Idle, ..v }),
    ensures
        learns_nothing(v, protocol::publish_refused(w, key, kind, at)),
{
    let u = StoreView { publication: w.publication.insert(key, false), ..w };
    assert forall|k: Seq<char>| #[trigger] is_published(u, k) implies is_published(v, k) by {}
    terminalize_learns_nothing(
        v,
        u,
        key,
        Outcome::Failed {
            action: "publish"@,
            reason: "destination already exists; nothing replaced"@,
        },
        at,
        After::Status,
    );
    quiet_learns_nothing(v, protocol::settled(w, key, After::Status));
}

proof fn surveys_learn_nothing(
    v: StoreView,
    w: StoreView,
    goal: Goal<Seq<char>>,
    facts: ParentFacts,
    at: Seq<char>,
)
    requires
        w == (StoreView { pending: Pending::Idle, ..v }),
    ensures
        learns_nothing(v, protocol::on_survey(w, goal, facts, at)),
{
    let t = protocol::on_survey(w, goal, facts, at);
    match goal {
        Goal::Publish { key } => {
            match protocol::record_parent(w, w.records[key], facts) {
                Err(e) => {
                    refusal_learns_nothing(v, w, key, e.kind, at);
                    if !w.records.contains_key(key) {
                        quiet_learns_nothing(v, t);
                    }
                },
                Ok(()) => {
                    quiet_learns_nothing(v, t);
                },
            }
        },
        _ => {
            quiet_learns_nothing(v, t);
        },
    }
}

proof fn effects_learn_nothing(v: StoreView, w: StoreView, effect: Result<(), Error>, at: Seq<char>)
    requires
        w == (StoreView { pending: Pending::Idle, ..v }),
        v.pending is PublishLink || v.pending is ReconcileStage || v.pending is AcceptJournal
            ==> effect is Err,
    ensures
        learns_nothing(v, protocol::on_effect(w, v.pending, effect, at)),
{
    let t = protocol::on_effect(w, v.pending, effect, at);
    match v.pending {
        Pending::PublishLink { key } => {
            if let Err(e) = effect {
                refusal_learns_nothing(v, w, key, e.kind, at);
            }
        },
        Pending::PublishSync { key } => {
            assert forall|k: Seq<char>| #[trigger] is_published(w, k) implies is_published(
                v,
                k,
            ) by {}
            terminalize_learns_nothing(v, w, key, protocol::published(effect), at, After::Status);
        },
        Pending::ReconcileParent { key, after } => {
            assert forall|k: Seq<char>| #[trigger] is_published(w, k) implies is_published(
                v,
                k,
            ) by {}
            terminalize_learns_nothing(v, w, key, protocol::published(effect), at, after);
        },
        _ => {
            quiet_learns_nothing(v, t);
        },
    }
}

/// Whether an event tells a store something about a publication: that its
/// acceptance is journaled, that its staging file is the accepted one, that its
/// destination is linked, that its evidence holds, or that the file which proves
/// it is synchronized.
spec fn is_telling(v: StoreView, event: Event) -> bool {
    match event {
        Event::Effect(effect) => effect is Ok && (v.pending is AcceptJournal
            || v.pending is PublishLink || v.pending is ReconcileStage),
        Event::Evidence(facts) => v.pending matches Pending::ReconcileEvidence { key, .. }
            && evidence_check(v.records[key], facts) is Ok,
        Event::File(file) => v.pending matches Pending::PublishStage { key } && retained_check(
            file,
            v.records[key].stage_identity,
        ) is Ok,
        _ => false,
    }
}

proof fn other_events_learn_nothing(v: StoreView, event: Event, at: Seq<char>)
    requires
        !is_telling(v, event),
    ensures
        learns_nothing(v, protocol::resumed(v, event, at)),
{
    let w = StoreView { pending: Pending::Idle, ..v };
    let t = protocol::resumed(v, event, at);
    match event {
        Event::Survey(facts) => {
            if let Pending::Survey(goal) = v.pending {
                surveys_learn_nothing(v, w, goal, facts, at);
            } else {
                quiet_learns_nothing(v, t);
            }
        },
        Event::File(file) => {
            match v.pending {
                Pending::PublishStage { key } => {
                    match retained_check(file, v.records[key].stage_identity) {
                        Err(e) => {
                            refusal_learns_nothing(v, w, key, e.kind, at);
                            if !w.records.contains_key(key) {
                                quiet_learns_nothing(v, t);
                            }
                        },
                        Ok(()) => {
                            quiet_learns_nothing(v, t);
                        },
                    }
                },
                _ => {
                    quiet_learns_nothing(v, t);
                },
            }
        },
        Event::Effect(effect) => {
            effects_learn_nothing(v, w, effect, at);
        },
        _ => {
            quiet_learns_nothing(v, t);
        },
    }
}

proof fn other_calls_learn_nothing(v: StoreView, call: Call, at: Seq<char>)
    requires
        call matches Call::Resume { event } ==> !is_telling(v, event),
    ensures
        learns_nothing(v, turn(v, call, at)),
{
    match call {
        Call::Resume { event } => {
            other_events_learn_nothing(v, event, at);
        },
        _ => {
            quiet_learns_nothing(v, turn(v, call, at));
        },
    }
}

/// An operation is known to be published only once its destination was linked,
/// or once a file that proves its publication was synchronized.
pub proof fn publication_is_seen(v: StoreView, call: Call, at: Seq<char>, key: Seq<char>)
    requires
        sound(v),
        !is_published(v, key),
        is_published(turn(v, call, at).store, key),
    ensures
        is_success(call),
        is_proving(v.pending, key),
{
    if !(call is Resume) || !is_telling(v, call->Resume_event) {
        other_calls_learn_nothing(v, call, at);
        reveal(learns_nothing);
    }
}

/// The destination of an operation counts as linked only once the store was told
/// that the link succeeded.
pub proof fn links_are_seen(v: StoreView, call: Call, at: Seq<char>, key: Seq<char>)
    requires
        sound(v),
        !v.linked.contains(key),
        turn(v, call, at).store.linked.contains(key),
    ensures
        is_success(call),
        v.pending == (PendingView::PublishLink { key }),
{
    if !(call is Resume) || !is_telling(v, call->Resume_event) {
        other_calls_learn_nothing(v, call, at);
        reveal(learns_nothing);
    }
}

/// A store waits for a link only in the turn that asks for it: of the accepted
/// staging file, to the name of the accepted destination.
pub proof fn links_are_asked_for(v: StoreView, call: Call, at: Seq<char>, key: Seq<char>)
    requires
        sound(v),
        turn(v, call, at).store.pending == (PendingView::PublishLink { key }),
    ensures
        ({
            let record = turn(v, call, at).store.records[key];
            turn(v, call, at).step == Step::<Seq<char>, TicketView, Seq<u8>>::Act(
                Action::Link { from: record.stage_name, to: file_name_of(record.destination) },
            )
        }),
{
    if !(call is Resume) || !is_telling(v, call->Resume_event) {
        other_calls_learn_nothing(v, call, at);
        reveal(learns_nothing);
    }
}

/// After a restart an operation counts as published only on positive evidence:
/// its staging file is the accepted one, the destination is that same file, and
/// the bytes are those that were announced.
pub proof fn recovery_needs_evidence(v: StoreView, call: Call, at: Seq<char>)
    requires
        sound(v),
        turn(v, call, at).store.pending is ReconcileStage,
    ensures
        ({
            &&& call matches Call::Resume { event }
            &&& event matches Event::Evidence(facts)
            &&& v.pending matches Pending::ReconcileEvidence { key, .. }
            &&& key == turn(v, call, at).store.pending->ReconcileStage_key
            &&& evidence_check(v.records[key], facts) is Ok
        }),
{
    if !(call is Resume) || !is_telling(v, call->Resume_event) {
        other_calls_learn_nothing(v, call, at);
        reveal(learns_nothing);
    }
}

/// The publication of an operation starts only once its acceptance is in the
/// journal.
pub proof fn publication_follows_the_journal(
    v: StoreView,
    call: Call,
    at: Seq<char>,
    key: Seq<char>,
)
    requires
        sound(v),
        turn(v, call, at).store.pending == PendingView::Survey(Goal::Publish { key }),
    ensures
        is_success(call),
        v.pending == (PendingView::AcceptJournal { key }),
{
    if !(call is Resume) || !is_telling(v, call->Resume_event) {
        other_calls_learn_nothing(v, call, at);
        reveal(learns_nothing);
    }
}

/// An accepted operation gets a receipt only once that receipt is in the
/// journal, and the receipt says that the operation was published exactly where
/// it is known to be.
pub proof fn receipts_tell_what_was_published(
    v: StoreView,
    call: Call,
    at: Seq<char>,
    key: Seq<char>,
    receipt: Receipt<Seq<char>>,
)
    requires
        sound(v),
        v.records.contains_key(key),
        v.records[key].terminal is None,
        turn(v, call, at).store.records[key].terminal == Some(receipt),
    ensures
        is_success(call),
        v.pending matches Pending::TerminalJournal { key: k, receipt: r, .. } && k == key && r
            == receipt,
        is_published(v, key) <==> (receipt.outcome is Stored
            || receipt.outcome is PublishedDurabilityUnconfirmed),
{
    calls_change(v, call, at);
    reveal(changes);
    reveal(sound);
}

/// The unresolved status in an answer.
pub open spec fn unresolved_in(answer: AnswerView) -> Option<StatusView> {
    match answer {
        Answer::Status(status) => if status is Unresolved {
            Some(status)
        } else {
            None
        },
        Answer::Found(Some(status)) => if status is Unresolved {
            Some(status)
        } else {
            None
        },
        _ => None,
    }
}

/// Whether a turn that answers with an unresolved status tells where an accepted
/// operation stands.
#[verifier::opaque]
spec fn tells_where_it_stands(t: Turn) -> bool {
    t.step matches Step::Done(Ok(answer)) ==> (unresolved_in(answer) matches Some(status)
        ==> exists|key: Seq<char>|
        t.store.records.contains_key(key) && #[trigger] record_standing(t.store, key) == status)
}

proof fn tells_nothing_unresolved(t: Turn)
    requires
        t.step matches Step::Done(Ok(answer)) ==> unresolved_in(answer) is None,
    ensures
        tells_where_it_stands(t),
{
    reveal(tells_where_it_stands);
}

proof fn settled_tells(v: StoreView, key: Seq<char>, after: After)
    ensures
        tells_where_it_stands(protocol::settled(v, key, after)),
{
    reveal(tells_where_it_stands);
    let t = protocol::settled(v, key, after);
    assert(record_standing(t.store, key) == record_standing(v, key));
}

proof fn persist_tells(
    v: StoreView,
    key: Seq<char>,
    record: Record<Seq<char>>,
    pending: PendingView,
    after: After,
)
    ensures
        tells_where_it_stands(protocol::persist(v, key, record, pending, after)),
{
    settled_tells(v, key, after);
    settled_tells(protocol::poison(v, "journal entry exceeds limit"@), key, after);
    reveal(tells_where_it_stands);
}

proof fn terminalize_tells(
    v: StoreView,
    key: Seq<char>,
    outcome: Outcome<Seq<char>>,
    at: Seq<char>,
    after: After,
)
    ensures
        tells_where_it_stands(protocol::terminalize(v, key, outcome, at, after)),
{
    let t = protocol::terminalize(v, key, outcome, at, after);
    if !v.records.contains_key(key) {
        tells_nothing_unresolved(t);
    } else if v.records[key].terminal is Some {
        settled_tells(v, key, after);
    } else {
        let receipt = conclusion(key, v.records[key], outcome, at);
        persist_tells(
            v,
            key,
            Record { terminal: Some(receipt), ..v.records[key] },
            Pending::TerminalJournal { key, receipt, after },
            after,
        );
    }
}

proof fn refusal_tells(v: StoreView, key: Seq<char>, kind: ErrorKind, at: Seq<char>)
    ensures
        tells_where_it_stands(protocol::publish_refused(v, key, kind, at)),
{
    settled_tells(v, key, After::Status);
    terminalize_tells(
        StoreView { publication: v.publication.insert(key, false), ..v },
        key,
        Outcome::Failed {
            action: "publish"@,
            reason: "destination already exists; nothing replaced"@,
        },
        at,
        After::Status,
    );
}

proof fn survey_tells(v: StoreView, goal: Goal<Seq<char>>, facts: ParentFacts, at: Seq<char>)
    ensures
        tells_where_it_stands(protocol::on_survey(v, goal, facts, at)),
{
    let t = protocol::on_survey(v, goal, facts, at);
    match goal {
        Goal::Publish { key } => {
            if v.records.contains_key(key) {
                if let Err(e) = protocol::record_parent(v, v.records[key], facts) {
                    refusal_tells(v, key, e.kind, at);
                } else {
                    tells_nothing_unresolved(t);
                }
            } else {
                tells_nothing_unresolved(t);
            }
        },
        Goal::Reconcile { key, after } => {
            settled_tells(v, key, after);
            if !v.records.contains_key(key) || protocol::record_parent(
                v,
                v.records[key],
                facts,
            ) is Ok {
                tells_nothing_unresolved(t);
            }
        },
        Goal::Cleanup { key, after } => {
            settled_tells(v, key, after);
            if !v.records.contains_key(key) || protocol::record_parent(
                v,
                v.records[key],
                facts,
            ) is Ok {
                tells_nothing_unresolved(t);
            }
        },
        _ => {
            tells_nothing_unresolved(t);
        },
    }
}

proof fn file_tells(
    v: StoreView,
    pending: PendingView,
    file: Result<FileFacts, Error>,
    at: Seq<char>,
)
    ensures
        tells_where_it_stands(protocol::on_file(v, pending, file, at)),
{
    let t = protocol::on_file(v, pending, file, at);
    match pending {
        Pending::PublishStage { key } => {
            if v.records.contains_key(key) {
                if let Err(e) = retained_check(file, v.records[key].stage_identity) {
                    refusal_tells(v, key, e.kind, at);
                } else {
                    tells_nothing_unresolved(t);
                }
            } else {
                tells_nothing_unresolved(t);
            }
        },
        Pending::CleanupStage { key, after } => {
            settled_tells(v, key, after);
            if !v.records.contains_key(key) || retained_check(
                file,
                v.records[key].stage_identity,
            ) is Ok {
                tells_nothing_unresolved(t);
            }
        },
        _ => {
            tells_nothing_unresolved(t);
        },
    }
}

proof fn finish_sync_tells(
    v: StoreView,
    pending: PendingView,
    effect: Result<(), Error>,
    at: Seq<char>,
)
    requires
        pending is FinishSync,
    ensures
        tells_where_it_stands(protocol::on_effect(v, pending, effect, at)),
{
    let t = protocol::on_effect(v, pending, effect, at);
    if let Pending::FinishSync { key, verified, destination, parent, stage } = pending {
        if v.receiving.contains_key(key) && effect is Ok {
            let record = protocol::accepted_record(
                v.receiving[key],
                verified,
                destination,
                parent,
                stage,
                at,
            );
            persist_tells(
                StoreView {
                    receiving: v.receiving.remove(key),
                    records: v.records.insert(key, record),
                    ..v
                },
                key,
                record,
                Pending::AcceptJournal { key },
                After::Status,
            );
        } else {
            tells_nothing_unresolved(t);
        }
    }
}

proof fn effect_tells(
    v: StoreView,
    pending: PendingView,
    effect: Result<(), Error>,
    at: Seq<char>,
)
    ensures
        tells_where_it_stands(protocol::on_effect(v, pending, effect, at)),
{
    let t = protocol::on_effect(v, pending, effect, at);
    match pending {
        Pending::FinishSync { .. } => {
            finish_sync_tells(v, pending, effect, at);
        },
        Pending::AcceptJournal { key } => {
            match effect {
                Err(e) => {
                    settled_tells(protocol::poison(v, e.message@), key, After::Status);
                },
                Ok(()) => {
                    tells_nothing_unresolved(t);
                },
            }
        },
        Pending::PublishLink { key } => {
            match effect {
                Err(e) => {
                    refusal_tells(v, key, e.kind, at);
                },
                Ok(()) => {
                    tells_nothing_unresolved(t);
                },
            }
        },
        Pending::PublishSync { key } => {
            terminalize_tells(v, key, protocol::published(effect), at, After::Status);
        },
        Pending::ReconcileStage { key, after } => {
            match effect {
                Err(_) => {
                    settled_tells(v, key, after);
                },
                Ok(()) => {
                    tells_nothing_unresolved(t);
                },
            }
        },
        Pending::ReconcileParent { key, after } => {
            terminalize_tells(v, key, protocol::published(effect), at, after);
        },
        Pending::TerminalJournal { key, after, .. } => {
            match effect {
                Err(e) => {
                    settled_tells(protocol::poison(v, e.message@), key, after);
                },
                Ok(()) => {
                    tells_nothing_unresolved(t);
                },
            }
        },
        _ => {
            tells_nothing_unresolved(t);
        },
    }
}

proof fn event_tells(before: StoreView, event: Event, at: Seq<char>)
    ensures
        tells_where_it_stands(protocol::resumed(before, event, at)),
{
    let v = StoreView { pending: Pending::Idle, ..before };
    let t = protocol::resumed(before, event, at);
    match event {
        Event::Survey(facts) => {
            if let Pending::Survey(goal) = before.pending {
                survey_tells(v, goal, facts, at);
            } else {
                tells_nothing_unresolved(t);
            }
        },
        Event::File(file) => {
            file_tells(v, before.pending, file, at);
        },
        Event::Evidence(facts) => {
            match before.pending {
                Pending::ReconcileEvidence { key, after } => {
                    settled_tells(v, key, after);
                    if !v.records.contains_key(key) || evidence_check(
                        v.records[key],
                        facts,
                    ) is Ok {
                        tells_nothing_unresolved(t);
                    }
                },
                _ => {
                    tells_nothing_unresolved(t);
                },
            }
        },
        Event::Effect(effect) => {
            effect_tells(v, before.pending, effect, at);
        },
        Event::Removed(removal) => {
            match before.pending {
                Pending::CleanupUnlink { key, after } => {
                    let record = v.records[key];
                    settled_tells(
                        protocol::removal_seen(
                            v,
                            record.destination,
                            record.stage_name,
                            record.operation,
                            removal,
                        ),
                        key,
                        after,
                    );
                    if !v.records.contains_key(key) {
                        tells_nothing_unresolved(t);
                    }
                },
                _ => {
                    tells_nothing_unresolved(t);
                },
            }
        },
        _ => {
            tells_nothing_unresolved(t);
        },
    }
}

proof fn standing_tells(
    v: StoreView,
    key: Seq<char>,
    operation: OperationId<Seq<char>>,
    after: After,
)
    ensures
        tells_where_it_stands(protocol::standing(v, key, operation, after)),
        tells_where_it_stands(protocol::reconcile(v, key, after)),
{
    settled_tells(v, key, after);
    if !(v.records.contains_key(key) && (v.poisoned is Some || v.records[key].terminal is Some)) {
        tells_nothing_unresolved(protocol::reconcile(v, key, after));
    }
    if !(v.records.contains_key(key) && operation == v.records[key].operation) {
        tells_nothing_unresolved(protocol::standing(v, key, operation, after));
    }
}

proof fn call_tells(v: StoreView, call: Call, at: Seq<char>)
    ensures
        tells_where_it_stands(turn(v, call, at)),
{
    let t = turn(v, call, at);
    match call {
        Call::Resume { event } => {
            event_tells(v, event, at);
        },
        Call::Lookup { operation } => {
            if let Ok(key) = key_of_operation(operation) {
                standing_tells(v, key, operation, After::Found);
            } else {
                tells_nothing_unresolved(t);
            }
        },
        Call::Begin { operation, .. } => {
            if let Ok(key) = key_of_operation(operation) {
                standing_tells(v, key, operation, After::Status);
                if t != protocol::reconcile(v, key, After::Status) {
                    tells_nothing_unresolved(t);
                }
            } else {
                tells_nothing_unresolved(t);
            }
        },
        Call::Cancel { operation, .. } => {
            if let Ok(key) = key_of_operation(operation) {
                standing_tells(v, key, operation, After::Status);
                if t != protocol::standing(v, key, operation, After::Status) {
                    tells_nothing_unresolved(t);
                }
            } else {
                tells_nothing_unresolved(t);
            }
        },
        Call::Finish { operation, .. } => {
            if let Ok(key) = key_of_operation(operation) {
                standing_tells(v, key, operation, After::Status);
                if t != protocol::standing(v, key, operation, After::Status) {
                    tells_nothing_unresolved(t);
                }
            } else {
                tells_nothing_unresolved(t);
            }
        },
        Call::Recover { key } => {
            if v.records.contains_key(key) && v.records[key].terminal is None {
                standing_tells(v, key, v.records[key].operation, After::Recovered);
            } else {
                tells_nothing_unresolved(t);
            }
        },
        _ => {
            tells_nothing_unresolved(t);
        },
    }
}

/// Whether the call at a place in a row of calls told the store that its own
/// link to the destination of an operation succeeded.
pub open spec fn links_at(
    v: StoreView,
    calls: Seq<(Call, Seq<char>)>,
    key: Seq<char>,
    i: int,
) -> bool {
    &&& 0 <= i < calls.len()
    &&& after_calls(v, calls.take(i)).pending == (PendingView::PublishLink { key })
    &&& is_success(calls[i].0)
}

/// A store has linked a destination only if it was told so in one of its calls.
proof fn links_are_the_stores_own(v: StoreView, calls: Seq<(Call, Seq<char>)>, key: Seq<char>)
    requires
        sound(v),
        !v.linked.contains(key),
    ensures
        sound(after_calls(v, calls)),
        after_calls(v, calls).linked.contains(key) ==> exists|i: int| links_at(v, calls, key, i),
    decreases calls.len(),
{
    if calls.len() > 0 {
        let rest = calls.drop_last();
        let w = after_calls(v, rest);
        let (call, at) = calls.last();
        links_are_the_stores_own(v, rest, key);
        stays_sound(w, call, at);
        assert(rest =~= calls.take(calls.len() - 1));
        if turn(w, call, at).store.linked.contains(key) {
            if w.linked.contains(key) {
                let i = choose|i: int| links_at(v, rest, key, i);
                assert(rest.take(i) =~= calls.take(i));
                assert(links_at(v, calls, key, i));
            } else {
                links_are_seen(w, call, at, key);
                assert(links_at(v, calls, key, calls.len() - 1));
            }
        }
    }
}

/// A store says of an unresolved operation that it is published only if it made
/// the link itself: in an earlier call since it was opened, it was told that its
/// own link to the operation's destination succeeded. A proof from files is not
/// enough for that.
pub proof fn only_own_links_are_claimed(
    v: StoreView,
    calls: Seq<(Call, Seq<char>)>,
    call: Call,
    at: Seq<char>,
    answer: AnswerView,
    operation: OperationId<Seq<char>>,
    destination: Seq<char>,
    reason: Seq<char>,
)
    requires
        sound(v),
        v.linked == Set::<Seq<char>>::empty(),
        turn(after_calls(v, calls), call, at).step == Step::<Seq<char>, TicketView, Seq<u8>>::Done(
            Ok(answer),
        ),
        unresolved_in(answer) == Some(
            StatusView::Unresolved { operation, destination, published: Some(true), reason },
        ),
    ensures
        exists|key: Seq<char>, i: int|
            {
                &&& #[trigger] links_at(v, calls, key, i)
                &&& turn(after_calls(v, calls), call, at).store.records.contains_key(key)
                &&& turn(after_calls(v, calls), call, at).store.records[key].operation == operation
            },
{
    let w = after_calls(v, calls);
    let all = calls.push((call, at));
    let t = turn(w, call, at);
    assert(all.drop_last() =~= calls);
    call_tells(w, call, at);
    reveal(tells_where_it_stands);
    let status = unresolved_in(answer)->Some_0;
    let key = choose|key: Seq<char>|
        t.store.records.contains_key(key) && #[trigger] record_standing(t.store, key) == status;
    links_are_the_stores_own(v, all, key);
    let i = choose|i: int| links_at(v, all, key, i);
    assert(links_at(v, all, key, i));
    assert(all.take(calls.len() as int) =~= calls);
    assert(i < calls.len());
    assert(all.take(i) =~= calls.take(i));
    assert(links_at(v, calls, key, i));
}

/// What is said of the publication of an unresolved operation: that it took
/// place, exactly if the store linked it; that it did not, exactly if it was
/// refused; and nothing otherwise.
pub proof fn publication_is_claimed_from_links(v: StoreView, key: Seq<char>)
    requires
        sound(v),
        v.records.contains_key(key),
        v.records[key].terminal is None,
    ensures
        record_standing(v, key) matches Status::Unresolved { published, .. } && {
            &&& published == Some(true) <==> v.linked.contains(key)
            &&& published == Some(false) <==> v.publication.contains_pair(key, false)
            &&& published is None <==> !v.linked.contains(key) && !v.publication.contains_pair(
                key,
                false,
            )
        },
{
    reveal(sound);
}

} // verus!
