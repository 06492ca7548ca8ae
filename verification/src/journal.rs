//! What the journal holds, next to what the store knows.
//!
//! A journal is seen as the record under each key. Its entries are written by
//! one action and reported on by the event that follows; where that event tells
//! of a failure, the entry may have landed or not.

use vstd::prelude::*;

use crate::action::{Action, ActionView, Event, Goal, Pending, PendingView, Step};
use crate::error::{Error, ErrorKind};
use crate::evidence::{is_success, receipts_tell_what_was_published};
use crate::facts::retained_check;
use crate::json::record_json;
use crate::laws::{calls_change, changes, continues, publication_follows_acceptance};
use crate::model::{Record, TicketView};
use crate::policy::ParentFacts;
use crate::protocol;
use crate::protocol::{StoreView, Turn};
use crate::rules::stage_prefix;
use crate::soundness::{is_due, is_kept, is_stage_name, sound, stays_sound, turn, Call};

verus! {

/// The records of a journal, by key.
pub type Journal = Map<Seq<char>, Record<Seq<char>>>;

/// The entry that a store has asked to be written.
pub open spec fn entry_under_way(v: StoreView) -> Option<(Seq<char>, Record<Seq<char>>)> {
    match v.pending {
        Pending::AcceptJournal { key } => Some((key, v.records[key])),
        Pending::TerminalJournal { key, receipt, .. } => Some(
            (key, Record { terminal: Some(receipt), ..v.records[key] }),
        ),
        _ => None,
    }
}

/// What the journal can have become when a call is made: the entry under way is
/// there if the call reports that; otherwise it is there or not; and no other
/// entry has changed.
pub open spec fn journal_turn(v: StoreView, call: Call, before: Journal, after: Journal) -> bool {
    match entry_under_way(v) {
        None => after == before,
        Some((key, record)) => {
            ||| after == before.insert(key, record)
            ||| after == before && !is_success(call)
        },
    }
}

/// Whether a journal goes with a store: it holds accepted operations only, as
/// the store knows them, except that it can be a receipt ahead; every receipt
/// of an accepted operation is in it; and an operation whose acceptance is
/// being written is not in it yet.
pub open spec fn goes_with(j: Journal, v: StoreView) -> bool {
    &&& forall|k: Seq<char>| #[trigger]
        j.contains_key(k) ==> v.records.contains_key(k) && continues(v.records[k], j[k])
    &&& forall|k: Seq<char>| #[trigger]
        v.records.contains_key(k) && v.records[k].terminal is Some ==> j.contains_key(k)
    &&& v.pending matches Pending::AcceptJournal { key } ==> !j.contains_key(key)
}

/// The text of a journal entry is that of the record under way.
pub proof fn entries_are_written_as_they_are(
    v: StoreView,
    call: Call,
    at: Seq<char>,
    key: Seq<char>,
    text: Seq<char>,
)
    requires
        sound(v),
        turn(v, call, at).step == Step::<Seq<char>, TicketView, Seq<u8>>::Act(
            Action::WriteJournal { key, text },
        ),
    ensures
        ({
            &&& entry_under_way(turn(v, call, at).store) matches Some((k, record))
            &&& k == key
            &&& text == record_json(record)
        }),
{
    calls_change(v, call, at);
    reveal(changes);
}

/// A journal that goes with a store goes with it after every call.
pub proof fn the_journal_goes_along(
    v: StoreView,
    call: Call,
    at: Seq<char>,
    before: Journal,
    after: Journal,
)
    requires
        sound(v),
        goes_with(before, v),
        journal_turn(v, call, before, after),
    ensures
        goes_with(after, turn(v, call, at).store),
{
    let w = turn(v, call, at).store;
    assert(is_due(v) && forall|k: Seq<char>| #[trigger]
        v.receiving.contains_key(k) ==> !v.records.contains_key(k)) by {
        reveal(sound);
    }
    calls_change(v, call, at);
    assert(w.records == v.records || accepted(v, w) || ended(v, call, w)) by {
        reveal(changes);
        if w.records != v.records && !accepted(v, w) {
            if let Pending::TerminalJournal { key, receipt, .. } = v.pending {
                receipts_tell_what_was_published(v, call, at, key, receipt);
            }
        }
    }
    acceptance_starts_once(v, call, at);
}

/// Whether a turn accepts an operation that was not.
spec fn accepted(v: StoreView, w: StoreView) -> bool {
    &&& v.pending matches Pending::FinishSync { key, .. }
    &&& !v.records.contains_key(key)
    &&& w.records == v.records.insert(key, w.records[key])
    &&& w.records[key].terminal is None
}

/// Whether a turn gives the receipt that was just written.
spec fn ended(v: StoreView, call: Call, w: StoreView) -> bool {
    &&& v.pending matches Pending::TerminalJournal { key, receipt, .. }
    &&& is_success(call)
    &&& v.records.contains_key(key)
    &&& v.records[key].terminal is None
    &&& w.records == v.records.insert(
        key,
        Record { terminal: Some(receipt), ..v.records[key] },
    )
}

/// An acceptance is written in the turn that makes the record, and in no other.
proof fn acceptance_starts_once(v: StoreView, call: Call, at: Seq<char>)
    requires
        sound(v),
    ensures
        turn(v, call, at).store.pending matches Pending::AcceptJournal { key } ==> {
            &&& v.pending matches Pending::FinishSync { key: k, .. }
            &&& k == key
            &&& !v.records.contains_key(key)
        },
{
    publication_follows_acceptance(v, call, at);
}

/// Staging files of different operations have different names.
pub(crate) proof fn stage_names_differ(a: Seq<char>, b: Seq<char>, name: Seq<char>)
    requires
        is_stage_name(a, name),
        is_stage_name(b, name),
    ensures
        a == b,
{
    let rest = name.skip(stage_prefix(a).len() as int);
    let other = name.skip(stage_prefix(b).len() as int);
    assert(rest.len() == other.len());
    assert(a.len() == b.len());
    let start = ".wicket-screenshot-"@.len() as int;
    assert(a =~= stage_prefix(a).subrange(start, start + a.len()));
    assert(b =~= stage_prefix(b).subrange(start, start + b.len()));
    assert(stage_prefix(a) == name.take(stage_prefix(a).len() as int));
    assert(stage_prefix(b) == name.take(stage_prefix(b).len() as int));
}

/// The name that an action removes.
pub open spec fn removed_name(action: ActionView) -> Option<Seq<char>> {
    match action {
        Action::Discard { name, .. } => Some(name),
        Action::Unlink { name } => Some(name),
        _ => None,
    }
}

/// Only staging files are removed: that of a transfer which ended before it was
/// accepted, when it is cancelled, refused or its store is closed, and that of
/// an operation which has its receipt. The staging file of an accepted
/// operation without a receipt is kept: it may be needed as a proof.
pub proof fn unresolved_staging_files_are_kept(
    v: StoreView,
    call: Call,
    at: Seq<char>,
    name: Seq<char>,
    key: Seq<char>,
)
    requires
        sound(v),
        turn(v, call, at).step matches Step::Act(action) && removed_name(action) == Some(name),
        turn(v, call, at).store.records.contains_key(key),
        turn(v, call, at).store.records[key].terminal is None,
    ensures
        name != turn(v, call, at).store.records[key].stage_name,
        exists|k: Seq<char>| #[trigger] is_stage_name(k, name),
{
    let w = turn(v, call, at).store;
    stays_sound(v, call, at);
    assert(is_due(w) && is_stage_name(key, w.records[key].stage_name)) by {
        reveal(sound);
        assert(is_kept(key, w.records[key]));
    }
    calls_remove_their_own(v, call, at);
    reveal(removes_its_own);
    match w.pending {
        Pending::DiscardUnlink { live, .. } => {
            assert(is_stage_name(live.ticket.key, name));
            if name == w.records[key].stage_name {
                stage_names_differ(live.ticket.key, key, name);
            }
        },
        Pending::CleanupUnlink { key: k, .. } => {
            assert(is_stage_name(k, name)) by {
                reveal(sound);
                assert(is_kept(k, w.records[k]));
            }
            if name == w.records[key].stage_name {
                stage_names_differ(k, key, name);
            }
        },
        _ => {},
    }
}

/// Whether a turn removes nothing but the staging file that it is about.
#[verifier::opaque]
spec fn removes_its_own(t: Turn) -> bool {
    t.step matches Step::Act(action) ==> (removed_name(action) matches Some(name)
        ==> match t.store.pending {
        Pending::DiscardUnlink { live, .. } => name == live.stage_name,
        Pending::CleanupUnlink { key, .. } => name == t.store.records[key].stage_name,
        _ => false,
    })
}

proof fn removes_nothing(t: Turn)
    requires
        t.step matches Step::Act(action) ==> removed_name(action) is None,
    ensures
        removes_its_own(t),
{
    reveal(removes_its_own);
}

proof fn refusals_remove_nothing(v: StoreView, key: Seq<char>, kind: ErrorKind, at: Seq<char>)
    ensures
        removes_its_own(protocol::publish_refused(v, key, kind, at)),
{
    removes_nothing(protocol::publish_refused(v, key, kind, at));
}

proof fn surveys_remove_nothing(
    v: StoreView,
    goal: Goal<Seq<char>>,
    facts: ParentFacts,
    at: Seq<char>,
)
    ensures
        removes_its_own(protocol::on_survey(v, goal, facts, at)),
{
    let t = protocol::on_survey(v, goal, facts, at);
    match goal {
        Goal::Publish { key } => {
            match protocol::record_parent(v, v.records[key], facts) {
                Err(e) => {
                    refusals_remove_nothing(v, key, e.kind, at);
                    if !v.records.contains_key(key) {
                        removes_nothing(t);
                    }
                },
                Ok(()) => {
                    removes_nothing(t);
                },
            }
        },
        _ => {
            removes_nothing(t);
        },
    }
}

proof fn effects_remove_nothing(
    v: StoreView,
    pending: PendingView,
    effect: Result<(), Error>,
    at: Seq<char>,
)
    ensures
        removes_its_own(protocol::on_effect(v, pending, effect, at)),
{
    let t = protocol::on_effect(v, pending, effect, at);
    match (pending, effect) {
        (Pending::PublishLink { key }, Err(e)) => {
            refusals_remove_nothing(v, key, e.kind, at);
        },
        (Pending::PublishSync { .. }, _) => {
            removes_nothing(t);
        },
        (Pending::ReconcileParent { .. }, _) => {
            removes_nothing(t);
        },
        (Pending::TerminalJournal { .. }, _) => {
            removes_nothing(t);
        },
        (Pending::FinishSync { .. }, _) => {
            removes_nothing(t);
        },
        _ => {
            removes_nothing(t);
        },
    }
}

proof fn events_remove_their_own(v: StoreView, event: Event, at: Seq<char>)
    ensures
        removes_its_own(protocol::resumed(v, event, at)),
{
    let w = StoreView { pending: Pending::Idle, ..v };
    let t = protocol::resumed(v, event, at);
    match event {
        Event::Survey(facts) => {
            if let Pending::Survey(goal) = v.pending {
                surveys_remove_nothing(w, goal, facts, at);
            } else {
                removes_nothing(t);
            }
        },
        Event::Stage(_) => {
            reveal(removes_its_own);
        },
        Event::File(file) => {
            match v.pending {
                Pending::PublishStage { key } => {
                    match retained_check(file, w.records[key].stage_identity) {
                        Err(e) => {
                            refusals_remove_nothing(w, key, e.kind, at);
                            if !w.records.contains_key(key) {
                                removes_nothing(t);
                            }
                        },
                        Ok(()) => {
                            removes_nothing(t);
                        },
                    }
                },
                _ => {
                    reveal(removes_its_own);
                },
            }
        },
        Event::Effect(effect) => {
            effects_remove_nothing(w, v.pending, effect, at);
        },
        _ => {
            removes_nothing(t);
        },
    }
}

proof fn calls_remove_their_own(v: StoreView, call: Call, at: Seq<char>)
    ensures
        removes_its_own(turn(v, call, at)),
{
    match call {
        Call::Resume { event } => {
            events_remove_their_own(v, event, at);
        },
        _ => {
            removes_nothing(turn(v, call, at));
        },
    }
}

} // verus!
