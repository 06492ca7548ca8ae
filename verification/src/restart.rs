//! What survives a restart.

use vstd::prelude::*;

use crate::action::{Action, After, Answer, Event, Goal, Pending, PendingView, Step};
use crate::error::Error;
use crate::evidence::{is_published, publication_is_seen, receipts_tell_what_was_published};
use crate::facts::{bounded, stage_check, EvidenceFacts, FileFacts, StageFacts};
use crate::journal::{goes_with, journal_turn, stage_names_differ, Journal};
use crate::laws::{
    calls_change, changes, continues, keeps, nothing_is_lost, receipt_of, receipts_are_immutable,
    receipts_are_reported_when_given,
};
use crate::model::{Attempt, OperationId, Receipt, ReceivingView, Record, Status, TicketView};
use crate::observation::{Detail, Observation};
use crate::opening::{
    advanced, fresh, on_event, on_journal, recovering, started, OpeningView, ProgressView, Report,
    Stage, Task,
};
use crate::policy::ParentFacts;
use crate::protocol;
use crate::protocol::{
    evidence_check, record_parent, record_standing, stale_error, StoreView, Turn,
    MAX_JOURNAL_BYTES,
};
use crate::rules::{key_of_operation, record_check};
use crate::soundness::{is_due, is_kept, is_live, sound, stays_sound, turn, Call};

verus! {

/// The store that an opening has come to, unless it failed.
pub open spec fn store_of(p: ProgressView) -> Option<StoreView> {
    match p {
        ProgressView::Ask(opening, _) => Some(opening.store),
        ProgressView::Opened(store) => Some(store),
        ProgressView::Failed(_) => None,
    }
}

proof fn recovering_keeps_receipts(
    store: StoreView,
    keys: Seq<Seq<char>>,
    key: Seq<char>,
    receipt: Receipt<Seq<char>>,
)
    requires
        sound(store),
        receipt_of(store, key) == Some(receipt),
    ensures
        store_of(recovering(store, keys)) matches Some(s) && receipt_of(s, key) == Some(receipt),
    decreases keys.len(),
{
    if keys.len() > 0 {
        let call = Call::Recover { key: keys.last() };
        stays_sound(store, call, Seq::empty());
        receipts_are_immutable(store, call, Seq::empty(), key, receipt);
        recovering_keeps_receipts(
            protocol::recover(store, keys.last()).store,
            keys.drop_last(),
            key,
            receipt,
        );
    }
}

/// A receipt that was read from the journal stays with the store that is being
/// opened, to the end: whatever else is read and recovered, the store that
/// opens has that receipt for the operation.
pub proof fn receipts_survive_a_restart(
    v: OpeningView,
    reply: Report,
    at: Seq<char>,
    key: Seq<char>,
    receipt: Receipt<Seq<char>>,
)
    requires
        sound(v.store),
        receipt_of(v.store, key) == Some(receipt),
        v.stage matches Stage::Reading { key: k } ==> k != key,
    ensures
        store_of(advanced(v, reply, at)) matches Some(s) ==> receipt_of(s, key) == Some(receipt),
{
    match (v.stage, reply) {
        (Stage::Syncing, Report::Effect(_)) => {
            recovering_keeps_receipts(v.store, v.keys, key, receipt);
        },
        (Stage::Recovering, Report::Store(event)) => {
            reveal(on_event);
            let call = Call::Resume { event };
            stays_sound(v.store, call, at);
            receipts_are_immutable(v.store, call, at, key, receipt);
            recovering_keeps_receipts(
                protocol::resumed(v.store, event, at).store,
                v.keys,
                key,
                receipt,
            );
        },
        _ => {},
    }
}

/// A journal entry that is short enough and holds a record which keeps every
/// rule is taken up as it is; one that breaks a rule keeps the store from
/// opening.
pub proof fn journal_entries_are_taken_up(
    v: OpeningView,
    key: Seq<char>,
    file: Result<FileFacts, Error>,
    bytes: Result<Vec<u8>, Error>,
    record: Record,
    at: Seq<char>,
)
    requires
        v.stage == (Stage::Reading { key }),
    ensures
        match advanced(v, Report::Journal(file, bytes, Ok(record)), at) {
            ProgressView::Ask(w, _) => {
                &&& bounded(file, bytes, MAX_JOURNAL_BYTES) is Ok
                &&& record_check(key, record@) is Ok
                &&& w.store == (StoreView {
                    records: v.store.records.insert(key, record@),
                    ..v.store
                })
            },
            ProgressView::Opened(_) => false,
            ProgressView::Failed(_) => bounded(file, bytes, MAX_JOURNAL_BYTES) is Err
                || record_check(key, record@) is Err,
        },
{
}

/// What an opening comes to after a number of replies, each at its time.
pub open spec fn after(p: ProgressView, replies: Seq<(Report, Seq<char>)>) -> ProgressView
    decreases replies.len(),
{
    if replies.len() == 0 {
        p
    } else {
        match after(p, replies.drop_last()) {
            ProgressView::Ask(v, _) => advanced(v, replies.last().0, replies.last().1),
            end => end,
        }
    }
}

/// Whether a reply tells of a journal what is in it: a record that is read is
/// the one under its key, and the listing ends when every entry was read.
pub open spec fn tells(v: OpeningView, reply: Report, j: Journal) -> bool {
    match (v.stage, reply) {
        (Stage::Reading { key }, Report::Journal(_, _, Ok(record))) => {
            j.contains_key(key) && record@ == j[key]
        },
        (Stage::Listing, Report::Entry(Ok(None))) => forall|k: Seq<char>| #[trigger]
            j.contains_key(k) ==> v.store.records.contains_key(k),
        _ => true,
    }
}

/// Whether the replies to an opening tell of a journal what is in it.
pub open spec fn reads(
    p: ProgressView,
    replies: Seq<(Report, Seq<char>)>,
    j: Journal,
) -> bool
    decreases replies.len(),
{
    replies.len() > 0 ==> {
        &&& reads(p, replies.drop_last(), j)
        &&& after(p, replies.drop_last()) matches ProgressView::Ask(v, _) ==> tells(
            v,
            replies.last().0,
            j,
        )
    }
}

/// Whether a reply proves that the operation under a key was published.
pub open spec fn is_proof(v: OpeningView, reply: Report, key: Seq<char>) -> bool {
    &&& reply matches Report::Store(Event::Evidence(facts))
    &&& v.store.pending matches Pending::ReconcileEvidence { key: k, .. }
    &&& k == key
    &&& evidence_check(v.store.records[key], facts) is Ok
}

/// Whether one of the replies to an opening proves that the operation under a
/// key was published.
pub open spec fn proves(
    p: ProgressView,
    replies: Seq<(Report, Seq<char>)>,
    key: Seq<char>,
) -> bool
    decreases replies.len(),
{
    &&& replies.len() > 0
    &&& {
        ||| proves(p, replies.drop_last(), key)
        ||| after(p, replies.drop_last()) matches ProgressView::Ask(v, _) && is_proof(
            v,
            replies.last().0,
            key,
        )
    }
}

/// Whether no reply to an opening tells that a staging file could not be
/// removed.
pub open spec fn all_removed(replies: Seq<(Report, Seq<char>)>) -> bool {
    forall|i: int| 0 <= i < replies.len() ==> !is_leftover(#[trigger] replies[i].0)
}

/// Whether a reply tells that a staging file could not be removed.
pub open spec fn is_leftover(reply: Report) -> bool {
    reply matches Report::Store(Event::Removed(removal)) && !(removal is Removed)
}

/// Whether what a store waits for is part of a recovery.
spec fn is_recovering(pending: PendingView) -> bool {
    match pending {
        Pending::Idle => true,
        Pending::Survey(Goal::Reconcile { .. }) => true,
        Pending::Survey(Goal::Cleanup { .. }) => true,
        Pending::ReconcileEvidence { .. } => true,
        Pending::ReconcileStage { .. } => true,
        Pending::ReconcileParent { .. } => true,
        Pending::TerminalJournal { .. } => true,
        Pending::CleanupStage { .. } => true,
        Pending::CleanupUnlink { .. } => true,
        _ => false,
    }
}

/// The operation whose publication is proved, while that is worked on.
spec fn proved(pending: PendingView) -> Option<Seq<char>> {
    match pending {
        Pending::ReconcileStage { key, .. } => Some(key),
        Pending::ReconcileParent { key, .. } => Some(key),
        Pending::TerminalJournal { key, .. } => Some(key),
        _ => None,
    }
}

/// Whether a call brings a proof that an operation was published.
spec fn brings_proof(v: StoreView, call: Call, key: Seq<char>) -> bool {
    &&& call matches Call::Resume { event: Event::Evidence(facts) }
    &&& v.pending matches Pending::ReconcileEvidence { key: k, .. }
    &&& k == key
    &&& evidence_check(v.records[key], facts) is Ok
}

/// Whether a call tells that a staging file could not be removed.
spec fn brings_leftover(call: Call) -> bool {
    call matches Call::Resume { event } && is_leftover(Report::Store(event))
}

/// Whether a turn goes on with a recovery.
#[verifier::opaque]
spec fn recovers(v: StoreView, call: Call, t: Turn) -> bool {
    &&& is_recovering(t.store.pending)
    &&& t.store.receiving == v.receiving
    &&& t.store.outcomes == v.outcomes
    &&& t.store.linked == v.linked
    &&& forall|k: Seq<char>| #[trigger]
        t.store.publication.contains_pair(k, false) ==> v.publication.contains_pair(k, false)
    &&& proved(t.store.pending) matches Some(key) ==> proved(v.pending) == Some(key)
        || brings_proof(v, call, key)
    &&& forall|i: int|
        v.observations.len() <= i < t.store.observations.len() ==> (
        #[trigger] t.store.observations[i].detail is Cleanup ==> brings_leftover(call))
    &&& t.step matches Step::Act(action) ==> {
        &&& !(action is Link)
        &&& action matches Action::WriteJournal { key, .. } ==> proved(t.store.pending) == Some(
            key,
        ) && t.store.pending is TerminalJournal
    }
}

proof fn effects_recover(v: StoreView, w: StoreView, effect: Result<(), Error>, at: Seq<char>)
    requires
        w == (StoreView { pending: Pending::Idle, ..v }),
        is_recovering(v.pending),
    ensures
        recovers(
            v,
            Call::Resume { event: Event::Effect(effect) },
            protocol::on_effect(w, v.pending, effect, at),
        ),
{
    reveal(recovers);
}

proof fn events_recover(v: StoreView, event: Event, at: Seq<char>)
    requires
        is_recovering(v.pending),
    ensures
        recovers(v, Call::Resume { event }, protocol::resumed(v, event, at)),
{
    let w = StoreView { pending: Pending::Idle, ..v };
    match event {
        Event::Effect(effect) => {
            effects_recover(v, w, effect, at);
        },
        _ => {
            reveal(recovers);
        },
    }
}

proof fn recoveries_recover(v: StoreView, key: Seq<char>)
    requires
        is_recovering(v.pending),
    ensures
        recovers(v, Call::Recover { key }, protocol::recover(v, key)),
{
    reveal(recovers);
}

/// Whether an observation is of an operation that was without a receipt in a
/// journal, or of a staging file that could not be removed.
pub open spec fn is_news(o: Observation<Seq<char>>, j: Journal, tidy: bool) -> bool {
    match o.detail {
        Detail::Receipt { receipt, .. } => exists|k: Seq<char>| #[trigger]
            j.contains_key(k) && j[k].terminal is None && j[k].operation == receipt.operation,
        Detail::Cleanup { .. } => !tidy,
    }
}

/// Whether a store that recovers has what a journal held, and what it learned.
#[verifier::opaque]
spec fn restores(s: StoreView, owner: u64, j: Journal, tidy: bool) -> bool {
    &&& sound(s)
    &&& s.owner == owner
    &&& s.receiving == Map::<Seq<char>, ReceivingView>::empty()
    &&& s.outcomes == Map::<Seq<char>, Receipt<Seq<char>>>::empty()
    &&& s.linked == Set::<Seq<char>>::empty()
    &&& forall|k: Seq<char>| !#[trigger] s.publication.contains_pair(k, false)
    &&& is_recovering(s.pending)
    &&& forall|k: Seq<char>| #[trigger] s.records.contains_key(k) <==> j.contains_key(k)
    &&& forall|k: Seq<char>| #[trigger] j.contains_key(k) ==> continues(j[k], s.records[k])
    &&& forall|i: int| 0 <= i < s.observations.len() ==> is_news(
            #[trigger] s.observations[i],
            j,
            tidy,
        )
}

/// Whether nothing proves that an operation was published.
spec fn is_unproved(s: StoreView, key: Seq<char>) -> bool {
    &&& s.records.contains_key(key)
    &&& s.records[key].terminal is None
    &&& proved(s.pending) != Some(key)
    &&& !is_published(s, key)
}

/// A recovery reports what is news.
proof fn news_only(v: StoreView, call: Call, at: Seq<char>, owner: u64, j: Journal, tidy: bool)
    requires
        restores(v, owner, j, tidy),
        recovers(v, call, turn(v, call, at)),
        tidy ==> !brings_leftover(call),
    ensures
        forall|i: int|
            0 <= i < turn(v, call, at).store.observations.len() ==> is_news(
                #[trigger] turn(v, call, at).store.observations[i],
                j,
                tidy,
            ),
{
    let w = turn(v, call, at).store;
    reveal(restores);
    assert(w.observations.take(v.observations.len() as int) == v.observations
        && v.observations.len() <= w.observations.len()) by {
        nothing_is_lost(v, call, at);
        reveal(keeps);
    }
    assert forall|i: int| 0 <= i < w.observations.len() implies is_news(
        #[trigger] w.observations[i],
        j,
        tidy,
    ) by {
        if i < v.observations.len() {
            assert(w.observations[i] == w.observations.take(v.observations.len() as int)[i]);
            assert(is_news(v.observations[i], j, tidy));
        } else if let Detail::Receipt { receipt, unconfirmed } = w.observations[i].detail {
            receipts_are_reported_when_given(v, call, at, i, receipt, unconfirmed);
            assert(is_due(v)) by {
                reveal(sound);
            }
            if let Pending::TerminalJournal { key, .. } = v.pending {
                assert(receipt.operation == v.records[key].operation);
                assert(v.records.contains_key(key));
                assert(j.contains_key(key));
                assert(continues(j[key], v.records[key]));
            }
        } else {
            reveal(recovers);
        }
    }
}

/// A recovery goes on with what the journal held.
proof fn restores_on(v: StoreView, call: Call, at: Seq<char>, owner: u64, j: Journal, tidy: bool)
    requires
        restores(v, owner, j, tidy),
        call is Resume || call is Recover,
        tidy ==> !brings_leftover(call),
    ensures
        restores(turn(v, call, at).store, owner, j, tidy),
        turn(v, call, at).step matches Step::Act(action) ==> spares(Task::Act(action), j),
        forall|k: Seq<char>| #[trigger]
            is_unproved(v, k) && !brings_proof(v, call, k) ==> is_unproved(
                turn(v, call, at).store,
                k,
            ),
{
    let w = turn(v, call, at).store;
    assert(is_recovering(v.pending)) by {
        reveal(restores);
    }
    assert(recovers(v, call, turn(v, call, at))) by {
        match call {
            Call::Resume { event } => {
                events_recover(v, event, at);
            },
            Call::Recover { key } => {
                recoveries_recover(v, key);
            },
            _ => {},
        }
    }
    news_only(v, call, at, owner, j, tidy);
    reveal(restores);
    stays_sound(v, call, at);
    assert(w.owner == v.owner && forall|k: Seq<char>| #[trigger]
        v.records.contains_key(k) ==> w.records.contains_key(k) && continues(
            v.records[k],
            w.records[k],
        )) by {
        nothing_is_lost(v, call, at);
        reveal(keeps);
    }
    assert(forall|k: Seq<char>| #[trigger]
        w.records.contains_key(k) ==> v.records.contains_key(k)) by {
        calls_change(v, call, at);
        reveal(changes);
    }
    reveal(recovers);
    assert(is_due(w)) by {
        reveal(sound);
    }
    assert forall|k: Seq<char>| #[trigger]
        is_unproved(v, k) && !brings_proof(v, call, k) implies is_unproved(w, k) by {
        if let Some(receipt) = w.records[k].terminal {
            receipts_tell_what_was_published(v, call, at, k, receipt);
        }
        if is_published(w, k) {
            publication_is_seen(v, call, at, k);
        }
    }
}

/// Whether a store that is being opened has what was read of a journal.
#[verifier::opaque]
spec fn is_restoring(v: OpeningView, owner: u64, j: Journal, tidy: bool) -> bool {
    if v.stage is Recovering {
        restores(v.store, owner, j, tidy)
    } else {
        &&& sound(v.store)
        &&& v.store == (StoreView {
            records: v.store.records,
            ..fresh(v.store.home, owner)
        })
        &&& forall|k: Seq<char>| #[trigger]
            v.store.records.contains_key(k) ==> j.contains_pair(k, v.store.records[k])
        &&& v.stage is Syncing ==> forall|k: Seq<char>| #[trigger]
            j.contains_key(k) ==> v.store.records.contains_key(k)
    }
}

/// Whether a task leaves alone what has ended: it publishes nothing, and it
/// journals no operation that has its receipt in a journal.
pub open spec fn spares(task: Task<Seq<char>, Seq<u8>>, j: Journal) -> bool {
    task matches Task::Act(action) ==> {
        &&& !(action is Link)
        &&& action matches Action::WriteJournal { key, .. } ==> j.contains_key(key)
            && j[key].terminal is None
    }
}

/// Whether what an opening has come to has what was read of a journal.
spec fn is_restored(p: ProgressView, owner: u64, j: Journal, tidy: bool) -> bool {
    match p {
        ProgressView::Ask(v, task) => is_restoring(v, owner, j, tidy) && spares(task, j),
        ProgressView::Opened(s) => restores(s, owner, j, tidy),
        ProgressView::Failed(_) => true,
    }
}

/// Whether nothing in an opening proves that an operation was published.
spec fn stays_unproved(p: ProgressView, key: Seq<char>) -> bool {
    match p {
        ProgressView::Ask(v, _) => v.stage is Recovering ==> is_unproved(v.store, key),
        ProgressView::Opened(s) => is_unproved(s, key),
        ProgressView::Failed(_) => true,
    }
}

proof fn recovering_restores(
    store: StoreView,
    keys: Seq<Seq<char>>,
    owner: u64,
    j: Journal,
    tidy: bool,
)
    requires
        restores(store, owner, j, tidy),
    ensures
        is_restored(recovering(store, keys), owner, j, tidy),
        forall|k: Seq<char>| #[trigger]
            is_unproved(store, k) ==> stays_unproved(recovering(store, keys), k),
    decreases keys.len(),
{
    reveal(is_restoring);
    if keys.len() > 0 {
        let call = Call::Recover { key: keys.last() };
        restores_on(store, call, Seq::empty(), owner, j, tidy);
        let next = protocol::recover(store, keys.last()).store;
        recovering_restores(next, keys.drop_last(), owner, j, tidy);
        assert forall|k: Seq<char>| #[trigger] is_unproved(store, k) implies stays_unproved(
            recovering(store, keys),
            k,
        ) by {
            assert(!brings_proof(store, call, k));
            assert(is_unproved(next, k));
        }
    }
}

/// An event goes on with a recovery.
proof fn an_event_restores(
    v: OpeningView,
    event: Event,
    at: Seq<char>,
    owner: u64,
    j: Journal,
    tidy: bool,
)
    requires
        restores(v.store, owner, j, tidy),
        v.stage is Recovering,
        tidy ==> !is_leftover(Report::Store(event)),
    ensures
        is_restored(on_event(v, event, at), owner, j, tidy),
        forall|k: Seq<char>| #[trigger]
            is_unproved(v.store, k) && !brings_proof(v.store, Call::Resume { event }, k)
                ==> stays_unproved(on_event(v, event, at), k),
{
    let call = Call::Resume { event };
    let next = protocol::resumed(v.store, event, at).store;
    restores_on(v.store, call, at, owner, j, tidy);
    recovering_restores(next, v.keys, owner, j, tidy);
    reveal(on_event);
    reveal(is_restoring);
    assert forall|k: Seq<char>| #[trigger]
        is_unproved(v.store, k) && !brings_proof(v.store, call, k) implies stays_unproved(
        on_event(v, event, at),
        k,
    ) by {
        assert(is_unproved(next, k));
    }
}

/// A record that was read is taken up.
proof fn a_record_restores(
    v: OpeningView,
    key: Seq<char>,
    file: Result<FileFacts, Error>,
    bytes: Result<Vec<u8>, Error>,
    record: Result<Record, Error>,
    owner: u64,
    j: Journal,
    tidy: bool,
)
    requires
        is_restoring(v, owner, j, tidy),
        v.stage == (Stage::Reading { key }),
        tells(v, Report::Journal(file, bytes, record), j),
    ensures
        is_restored(on_journal(v, key, file, bytes, record), owner, j, tidy),
{
    reveal(is_restoring);
    reveal(sound);
}

/// The recovery starts with what was read of the journal.
proof fn a_recovery_starts(v: OpeningView, owner: u64, j: Journal, tidy: bool)
    requires
        is_restoring(v, owner, j, tidy),
        v.stage is Syncing,
    ensures
        is_restored(recovering(v.store, v.keys), owner, j, tidy),
        forall|k: Seq<char>|
            j.contains_key(k) && j[k].terminal is None ==> #[trigger] stays_unproved(
                recovering(v.store, v.keys),
                k,
            ),
{
    reveal(is_restoring);
    assert(restores(v.store, owner, j, tidy)) by {
        reveal(restores);
    }
    recovering_restores(v.store, v.keys, owner, j, tidy);
    assert forall|k: Seq<char>|
        j.contains_key(k) && j[k].terminal is None implies #[trigger] stays_unproved(
        recovering(v.store, v.keys),
        k,
    ) by {
        assert(is_unproved(v.store, k));
    }
}

/// One reply goes on with what was read of the journal.
proof fn advancing_restores(
    v: OpeningView,
    reply: Report,
    at: Seq<char>,
    owner: u64,
    j: Journal,
    tidy: bool,
)
    requires
        is_restoring(v, owner, j, tidy),
        tells(v, reply, j),
        tidy ==> !is_leftover(reply),
    ensures
        is_restored(advanced(v, reply, at), owner, j, tidy),
{
    match (v.stage, reply) {
        (Stage::Listing, Report::Entry(_)) => {
            reveal(is_restoring);
        },
        (Stage::Removing, Report::Effect(_)) => {
            reveal(is_restoring);
        },
        (Stage::Reading { key }, Report::Journal(file, bytes, record)) => {
            a_record_restores(v, key, file, bytes, record, owner, j, tidy);
        },
        (Stage::Syncing, Report::Effect(Ok(()))) => {
            a_recovery_starts(v, owner, j, tidy);
        },
        (Stage::Recovering, Report::Store(event)) => {
            assert(restores(v.store, owner, j, tidy)) by {
                reveal(is_restoring);
            }
            an_event_restores(v, event, at, owner, j, tidy);
        },
        _ => {},
    }
}

/// One reply that is no proof leaves an operation unproved.
proof fn advancing_proves_nothing(
    v: OpeningView,
    reply: Report,
    at: Seq<char>,
    owner: u64,
    j: Journal,
    tidy: bool,
    key: Seq<char>,
)
    requires
        is_restoring(v, owner, j, tidy),
        j.contains_key(key),
        j[key].terminal is None,
        v.stage is Recovering ==> is_unproved(v.store, key),
        !is_proof(v, reply, key),
        tidy ==> !is_leftover(reply),
    ensures
        stays_unproved(advanced(v, reply, at), key),
{
    match (v.stage, reply) {
        (Stage::Syncing, Report::Effect(Ok(()))) => {
            a_recovery_starts(v, owner, j, tidy);
        },
        (Stage::Recovering, Report::Store(event)) => {
            assert(restores(v.store, owner, j, tidy)) by {
                reveal(is_restoring);
            }
            an_event_restores(v, event, at, owner, j, tidy);
            assert(!brings_proof(v.store, Call::Resume { event }, key));
        },
        _ => {},
    }
}

/// A run of replies goes on with what was read of the journal.
proof fn running_restores(
    home: Seq<char>,
    owner: u64,
    lock: FileFacts,
    replies: Seq<(Report, Seq<char>)>,
    j: Journal,
    tidy: bool,
)
    requires
        reads(started(home, owner, lock), replies, j),
        tidy ==> all_removed(replies),
    ensures
        is_restored(after(started(home, owner, lock), replies), owner, j, tidy),
        forall|k: Seq<char>|
            j.contains_key(k) && j[k].terminal is None && !proves(
                started(home, owner, lock),
                replies,
                k,
            ) ==> #[trigger] stays_unproved(after(started(home, owner, lock), replies), k),
    decreases replies.len(),
{
    let p = started(home, owner, lock);
    if replies.len() == 0 {
        reveal(is_restoring);
        reveal(sound);
    } else {
        running_restores(home, owner, lock, replies.drop_last(), j, tidy);
        if let ProgressView::Ask(v, task) = after(p, replies.drop_last()) {
            let (reply, at) = replies.last();
            advancing_restores(v, reply, at, owner, j, tidy);
            assert forall|k: Seq<char>|
                j.contains_key(k) && j[k].terminal is None && !proves(
                    p,
                    replies,
                    k,
                ) implies #[trigger] stays_unproved(after(p, replies), k) by {
                assert(stays_unproved(after(p, replies.drop_last()), k));
                advancing_proves_nothing(v, reply, at, owner, j, tidy, k);
            }
        } else {
            assert forall|k: Seq<char>|
                j.contains_key(k) && j[k].terminal is None && !proves(
                    p,
                    replies,
                    k,
                ) implies #[trigger] stays_unproved(after(p, replies), k) by {
                assert(stays_unproved(after(p, replies.drop_last()), k));
            }
        }
    }
}

/// A store that opens has the operations of the journal that it read, and no
/// other; each as it was journaled, unless it got its receipt meanwhile. It has
/// no transfers, and has linked nothing.
pub proof fn the_journal_is_restored(
    home: Seq<char>,
    owner: u64,
    lock: FileFacts,
    replies: Seq<(Report, Seq<char>)>,
    j: Journal,
    s: StoreView,
)
    requires
        reads(started(home, owner, lock), replies, j),
        after(started(home, owner, lock), replies) == ProgressView::Opened(s),
    ensures
        sound(s),
        s.owner == owner,
        s.receiving == Map::<Seq<char>, ReceivingView>::empty(),
        s.outcomes == Map::<Seq<char>, Receipt<Seq<char>>>::empty(),
        s.linked == Set::<Seq<char>>::empty(),
        forall|k: Seq<char>| #[trigger] s.records.contains_key(k) <==> j.contains_key(k),
        forall|k: Seq<char>| #[trigger] j.contains_key(k) ==> continues(j[k], s.records[k]),
{
    running_restores(home, owner, lock, replies, j, all_removed(replies));
    reveal(restores);
}

/// A store that opens says of no operation that it is published, nor that it is
/// not, whatever was proved while it recovered.
pub proof fn a_restart_claims_no_publication(
    home: Seq<char>,
    owner: u64,
    lock: FileFacts,
    replies: Seq<(Report, Seq<char>)>,
    j: Journal,
    s: StoreView,
    key: Seq<char>,
)
    requires
        reads(started(home, owner, lock), replies, j),
        after(started(home, owner, lock), replies) == ProgressView::Opened(s),
        s.records.contains_key(key),
        s.records[key].terminal is None,
    ensures
        record_standing(s, key) matches Status::Unresolved { published, .. } && published is None,
{
    running_restores(home, owner, lock, replies, j, all_removed(replies));
    reveal(restores);
    assert(!s.publication.contains_pair(key, false));
}

/// A journal goes with the store that has read it, so that it does while that
/// store recovers and ever after.
pub proof fn the_journal_goes_with_its_reader(
    home: Seq<char>,
    owner: u64,
    lock: FileFacts,
    replies: Seq<(Report, Seq<char>)>,
    j: Journal,
    v: OpeningView,
    task: Task<Seq<char>, Seq<u8>>,
)
    requires
        reads(started(home, owner, lock), replies, j),
        after(started(home, owner, lock), replies) == ProgressView::Ask(v, task),
        v.stage is Syncing,
    ensures
        sound(v.store),
        goes_with(j, v.store),
{
    running_restores(home, owner, lock, replies, j, all_removed(replies));
    reveal(is_restoring);
}

/// A receipt that was given before a restart is found again after it, the same
/// in every field, and it is not reported a second time. All that a restart
/// reports is the receipts of operations that were without one, and staging
/// files that could not be removed.
pub proof fn receipts_are_found_again(
    v: StoreView,
    j: Journal,
    key: Seq<char>,
    receipt: Receipt<Seq<char>>,
    home: Seq<char>,
    owner: u64,
    lock: FileFacts,
    replies: Seq<(Report, Seq<char>)>,
    s: StoreView,
)
    requires
        sound(v),
        goes_with(j, v),
        v.records.contains_key(key),
        v.records[key].terminal == Some(receipt),
        reads(started(home, owner, lock), replies, j),
        after(started(home, owner, lock), replies) == ProgressView::Opened(s),
    ensures
        s.records.contains_key(key),
        s.records[key] == v.records[key],
        protocol::lookup(s, receipt.operation) == protocol::done(
            s,
            Answer::Found(Some(Status::Terminal(Box::new(receipt)))),
        ),
        forall|i: int|
            0 <= i < s.observations.len() ==> {
                &&& is_news(#[trigger] s.observations[i], j, all_removed(replies))
                &&& s.observations[i].detail matches Detail::Receipt { receipt: r, .. }
                    ==> r.operation != receipt.operation
            },
{
    running_restores(home, owner, lock, replies, j, all_removed(replies));
    reveal(restores);
    assert(is_kept(key, v.records[key])) by {
        reveal(sound);
    }
    assert(v.records.contains_key(key) && j.contains_key(key));
    assert(continues(v.records[key], j[key]));
    assert(continues(j[key], s.records[key]));
    assert forall|i: int| 0 <= i < s.observations.len() implies ({
        &&& is_news(#[trigger] s.observations[i], j, all_removed(replies))
        &&& s.observations[i].detail matches Detail::Receipt { receipt: r, .. } ==> r.operation
            != receipt.operation
    }) by {
        if let Detail::Receipt { receipt: r, .. } = s.observations[i].detail {
            let k = choose|k: Seq<char>| #[trigger]
                j.contains_key(k) && j[k].terminal is None && j[k].operation == r.operation;
            assert(is_kept(k, v.records[k])) by {
                reveal(sound);
                assert(v.records.contains_key(k));
            }
            assert(continues(v.records[k], j[k]));
        }
    }
}

/// Where every operation of the journal has its receipt and every staging file
/// that is left can be removed, a restart reports nothing.
pub proof fn a_restart_of_ended_operations_reports_nothing(
    home: Seq<char>,
    owner: u64,
    lock: FileFacts,
    replies: Seq<(Report, Seq<char>)>,
    j: Journal,
    s: StoreView,
)
    requires
        reads(started(home, owner, lock), replies, j),
        after(started(home, owner, lock), replies) == ProgressView::Opened(s),
        forall|k: Seq<char>| #[trigger] j.contains_key(k) ==> j[k].terminal is Some,
        all_removed(replies),
    ensures
        s.observations.len() == 0,
{
    running_restores(home, owner, lock, replies, j, true);
    reveal(restores);
    if s.observations.len() > 0 {
        assert(is_news(s.observations[0], j, true));
    }
}

/// A restart publishes nothing, and it journals no operation that has its
/// receipt in the journal: what was published, and how it ended, stays as it is.
pub proof fn a_restart_leaves_ended_operations_alone(
    home: Seq<char>,
    owner: u64,
    lock: FileFacts,
    replies: Seq<(Report, Seq<char>)>,
    j: Journal,
    v: OpeningView,
    task: Task<Seq<char>, Seq<u8>>,
)
    requires
        reads(started(home, owner, lock), replies, j),
        after(started(home, owner, lock), replies) == ProgressView::Ask(v, task),
    ensures
        spares(task, j),
{
    running_restores(home, owner, lock, replies, j, all_removed(replies));
}

/// A transfer that was only received, or that ended before it was accepted, is
/// not in the journal. After a restart nothing is known of it, and its tickets
/// are refused.
pub proof fn transfers_end_with_their_store(
    v: StoreView,
    j: Journal,
    operation: OperationId<Seq<char>>,
    ticket: TicketView,
    attempt: Attempt<Seq<char>>,
    offset: u64,
    bytes: Seq<u8>,
    at: Seq<char>,
    home: Seq<char>,
    owner: u64,
    lock: FileFacts,
    replies: Seq<(Report, Seq<char>)>,
    s: StoreView,
)
    requires
        sound(v),
        goes_with(j, v),
        key_of_operation(operation) == Ok::<Seq<char>, Error<Seq<char>>>(ticket.key),
        v.receiving.contains_key(ticket.key) || v.outcomes.contains_key(ticket.key),
        ticket.owner == v.owner,
        owner != v.owner,
        reads(started(home, owner, lock), replies, j),
        after(started(home, owner, lock), replies) == ProgressView::Opened(s),
    ensures
        !j.contains_key(ticket.key),
        protocol::lookup(s, operation) == protocol::done(s, Answer::Found(None)),
        protocol::append(s, ticket, offset, bytes) == protocol::refused(
            s,
            protocol::append(s, ticket, offset, bytes).step->Done_0->Err_0,
        ),
        protocol::replace(s, ticket, attempt) == protocol::refused(
            s,
            protocol::replace(s, ticket, attempt).step->Done_0->Err_0,
        ),
        protocol::finish(s, operation, ticket) == protocol::refused(s, stale_error()),
        protocol::cancel(s, operation, ticket, at) == protocol::refused(s, stale_error()),
{
    the_journal_is_restored(home, owner, lock, replies, j, s);
    assert(!v.records.contains_key(ticket.key)) by {
        reveal(sound);
    }
}

/// When a store is closed, the staging file of a transfer that it still
/// receives is looked at and, if it is still the transfer's own, removed: that
/// file and no staging file of an accepted operation. Nothing is journaled,
/// remembered or reported of it.
pub proof fn closing_removes_the_transfers_own_file(
    v: StoreView,
    key: Seq<char>,
    facts: StageFacts,
    at: Seq<char>,
)
    requires
        sound(v),
        v.receiving.contains_key(key),
    ensures
        ({
            let name = v.receiving[key].stage_name;
            let first = protocol::dismiss(v, key);
            let second = protocol::resumed(first.store, Event::Stage(facts), at);
            let gone = StoreView { receiving: v.receiving.remove(key), ..v };
            &&& first.step == Step::<Seq<char>, TicketView, Seq<u8>>::Act(
                Action::Inspect { key, name },
            )
            &&& first.store == (StoreView { pending: first.store.pending, ..gone })
            &&& second.store == (StoreView { pending: second.store.pending, ..gone })
            &&& second.step == (if stage_check(facts) is Ok {
                Step::<Seq<char>, TicketView, Seq<u8>>::Act(Action::Discard { key, name })
            } else {
                Step::<Seq<char>, TicketView, Seq<u8>>::Done(Ok(Answer::Recovered))
            })
            &&& forall|k: Seq<char>| #[trigger]
                v.records.contains_key(k) ==> v.records[k].stage_name != name
        }),
{
    reveal(sound);
    assert(is_live(v, key, v.receiving[key]));
    assert forall|k: Seq<char>| #[trigger] v.records.contains_key(k) implies v.records[k].stage_name
        != v.receiving[key].stage_name by {
        assert(is_kept(k, v.records[k]));
        if v.records[k].stage_name == v.receiving[key].stage_name {
            stage_names_differ(k, key, v.receiving[key].stage_name);
        }
    }
}

/// When the journal entry of an acceptance may have landed or not, a restart
/// tells: if it did not, nothing is known of the operation; if it did, the
/// operation is there as it was accepted. It then counts as published, and gets
/// a receipt, only on a proof.
pub proof fn a_restart_tells_whether_an_acceptance_landed(
    v: StoreView,
    key: Seq<char>,
    e: Error,
    before: Journal,
    j: Journal,
    home: Seq<char>,
    owner: u64,
    lock: FileFacts,
    replies: Seq<(Report, Seq<char>)>,
    s: StoreView,
)
    requires
        sound(v),
        v.pending == (PendingView::AcceptJournal { key }),
        goes_with(before, v),
        journal_turn(v, Call::Resume { event: Event::Effect(Err(e)) }, before, j),
        reads(started(home, owner, lock), replies, j),
        after(started(home, owner, lock), replies) == ProgressView::Opened(s),
    ensures
        j == before ==> protocol::lookup(s, v.records[key].operation) == protocol::done(
            s,
            Answer::Found(None),
        ),
        j != before ==> {
            &&& s.records.contains_key(key)
            &&& continues(v.records[key], s.records[key])
            &&& !proves(started(home, owner, lock), replies, key)
                ==> s.records[key].terminal is None && !is_published(s, key)
        },
{
    the_journal_is_restored(home, owner, lock, replies, j, s);
    running_restores(home, owner, lock, replies, j, all_removed(replies));
    assert(is_kept(key, v.records[key]) && v.records[key].terminal is None) by {
        reveal(sound);
    }
    if j != before {
        assert(j.contains_key(key));
        assert(continues(j[key], s.records[key]));
        if !proves(started(home, owner, lock), replies, key) {
            assert(stays_unproved(after(started(home, owner, lock), replies), key));
        }
    }
}

/// An accepted operation without a receipt is answered as unresolved as long as
/// nothing proves its publication: its directory is not the accepted one, or
/// the files in it are no evidence.
pub proof fn operations_without_proof_are_unresolved(
    v: StoreView,
    key: Seq<char>,
    survey: ParentFacts,
    evidence: EvidenceFacts,
    at: Seq<char>,
)
    requires
        sound(v),
        v.pending is Idle,
        v.records.contains_key(key),
        v.records[key].terminal is None,
        v.poisoned is None,
    ensures
        ({
            let first = protocol::lookup(v, v.records[key].operation);
            let second = protocol::resumed(first.store, Event::Survey(survey), at);
            let third = protocol::resumed(second.store, Event::Evidence(evidence), at);
            let unresolved = protocol::found(v, record_standing(v, key), After::Found);
            &&& record_standing(v, key) is Unresolved
            &&& first.step is Act
            &&& if record_parent(v, v.records[key], survey) is Err {
                second == unresolved
            } else {
                second.step is Act && (evidence_check(v.records[key], evidence) is Err
                    ==> third == unresolved)
            }
        }),
{
    assert(is_kept(key, v.records[key])) by {
        reveal(sound);
    }
}

} // verus!
