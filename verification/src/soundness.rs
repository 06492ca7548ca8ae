//! What is true of a store at all times.

use vstd::prelude::*;

use crate::action::{After, Event, Goal, Pending, PendingView};
use crate::error::{Error, ErrorKind};
use crate::facts::StageFacts;
use crate::model::{
    Attempt, Identity, Intent, OperationId, Outcome, Receipt, Receiving, ReceivingView, Record,
    TicketView, VerifiedPng,
};
use crate::observation::temporary;
use crate::path::{is_file_path, is_same_path};
use crate::policy::{fits_journal, ParentFacts};
use crate::protocol;
use crate::protocol::{
    admission_check, has_room, total_insert, total_nonnegative, total_remove, within_limits,
    StoreView, Turn,
};
use crate::rules::{
    facts_match, intent_check, is_attempt, is_suffix, key_of_operation, receipt_matches,
    record_check, stage_name_of, stage_prefix, stage_suffix,
};
use crate::text::hex;

verus! {

/// Whether a name is that of a staging file of an operation.
pub open spec fn is_stage_name(key: Seq<char>, name: Seq<char>) -> bool {
    stage_suffix(key, name) matches Some(suffix) && is_suffix(suffix)
}

/// Whether a transfer is one that a store can be receiving under a key.
pub open spec fn is_live(v: StoreView, key: Seq<char>, live: ReceivingView) -> bool {
    &&& key_of_operation(live.operation) == Ok::<Seq<char>, Error<Seq<char>>>(key)
    &&& is_attempt(live.attempt)
    &&& intent_check(live.intent) is Ok
    &&& fits_journal(live.destination)
    &&& is_stage_name(key, live.stage_name)
    &&& live.ticket.key == key
    &&& live.ticket.owner == v.owner
    &&& 0 < live.ticket.generation <= v.generation
}

/// Whether a record is one that the store can hold under a key: its staging file
/// and its receipt are its own, and it passes every rule of the journal, provided
/// that the file system gave its directory a proper name.
pub open spec fn is_kept(key: Seq<char>, record: Record<Seq<char>>) -> bool {
    &&& key_of_operation(record.operation) == Ok::<Seq<char>, Error<Seq<char>>>(key)
    &&& intent_check(record.intent) is Ok
    &&& is_stage_name(key, record.stage_name)
    &&& record.terminal matches Some(receipt) ==> receipt_matches(key, record, receipt)
    &&& is_file_path(record.destination) ==> record_check(key, record) is Ok
}

/// Whether a receipt is one of a transfer that ended before it was accepted.
pub open spec fn is_temporary(key: Seq<char>, receipt: Receipt<Seq<char>>) -> bool {
    &&& key_of_operation(receipt.operation) == Ok::<Seq<char>, Error<Seq<char>>>(key)
    &&& intent_check(receipt.requested) is Ok
    &&& receipt.accepted_at is None
    &&& receipt.verified is None
    &&& receipt.outcome is Aborted || receipt.outcome is Failed
}

/// Whether a record waits for its receipt in a store that can still write.
pub open spec fn is_open(v: StoreView, key: Seq<char>) -> bool {
    &&& v.records.contains_key(key)
    &&& v.records[key].terminal is None
    &&& v.poisoned is None
}

/// Whether an operation is about to begin.
pub open spec fn is_beginning(
    v: StoreView,
    key: Seq<char>,
    operation: OperationId<Seq<char>>,
    attempt: Attempt<Seq<char>>,
    intent: Intent<Seq<char>>,
) -> bool {
    &&& key_of_operation(operation) == Ok::<Seq<char>, Error<Seq<char>>>(key)
    &&& is_attempt(attempt)
    &&& intent_check(intent) is Ok
    &&& !v.records.contains_key(key)
    &&& !v.outcomes.contains_key(key)
    &&& !v.receiving.contains_key(key)
    &&& v.poisoned is None
}

/// Whether a transfer is about to be accepted, with what was verified of it.
pub open spec fn is_accepting(
    v: StoreView,
    key: Seq<char>,
    verified: VerifiedPng<Seq<char>>,
) -> bool {
    &&& v.receiving.contains_key(key)
    &&& facts_match(verified, v.receiving[key].intent)
    &&& v.poisoned is None
}

/// Whether an ended transfer is about to be cleaned up after.
pub open spec fn is_discarding(
    v: StoreView,
    live: ReceivingView,
    receipt: Option<Receipt<Seq<char>>>,
) -> bool {
    &&& !v.receiving.contains_key(live.ticket.key)
    &&& !v.records.contains_key(live.ticket.key)
    &&& is_stage_name(live.ticket.key, live.stage_name)
    &&& receipt matches Some(r) ==> v.outcomes.contains_key(live.ticket.key)
        && v.outcomes[live.ticket.key] == r
}

/// Whether a store can wait for what it waits for.
pub open spec fn is_due(v: StoreView) -> bool {
    match v.pending {
        Pending::Idle => true,
        Pending::Length { ticket, .. } => {
            v.receiving.contains_key(ticket.key) && v.receiving[ticket.key].ticket == ticket
        },
        Pending::AppendInspect { key, .. } => {
            v.receiving.contains_key(key) && v.poisoned is None
        },
        Pending::AppendWrite { .. } => v.poisoned is None,
        Pending::ReplaceInspect { key, attempt } => {
            v.receiving.contains_key(key) && is_attempt(attempt) && v.poisoned is None
        },
        Pending::ReplaceTruncate { key, attempt } => {
            v.receiving.contains_key(key) && is_attempt(attempt) && v.poisoned is None
        },
        Pending::Survey(Goal::Begin { key, operation, attempt, intent }) => {
            is_beginning(v, key, operation, attempt, intent)
        },
        Pending::BeginRandom { key, operation, attempt, intent, destination } => {
            is_beginning(v, key, operation, attempt, intent) && fits_journal(destination)
        },
        Pending::BeginCreate { key, operation, attempt, intent, destination, stage_name } => {
            &&& is_beginning(v, key, operation, attempt, intent)
            &&& fits_journal(destination)
            &&& is_stage_name(key, stage_name)
        },
        Pending::FinishRead { key } => v.receiving.contains_key(key) && v.poisoned is None,
        Pending::Survey(Goal::Accept { key, verified }) => is_accepting(v, key, verified),
        Pending::FinishInspect { key, verified, destination, .. } => {
            &&& is_accepting(v, key, verified)
            &&& is_same_path(destination, v.receiving[key].destination)
            &&& fits_journal(destination)
        },
        Pending::FinishSync { key, verified, destination, .. } => {
            &&& is_accepting(v, key, verified)
            &&& is_same_path(destination, v.receiving[key].destination)
            &&& fits_journal(destination)
        },
        Pending::AcceptJournal { key } => is_open(v, key) && !v.publication.contains_key(key),
        Pending::Survey(Goal::Publish { key }) => {
            is_open(v, key) && !v.publication.contains_key(key)
        },
        Pending::PublishStage { key } => is_open(v, key) && !v.publication.contains_key(key),
        Pending::PublishLink { key } => is_open(v, key) && !v.publication.contains_key(key),
        Pending::PublishSync { key } => is_open(v, key) && v.publication.contains_pair(key, true),
        Pending::Survey(Goal::Reconcile { key, .. }) => is_open(v, key),
        Pending::ReconcileEvidence { key, .. } => is_open(v, key),
        Pending::ReconcileStage { key, .. } => is_open(v, key),
        Pending::ReconcileParent { key, .. } => {
            is_open(v, key) && v.publication.contains_pair(key, true)
        },
        Pending::TerminalJournal { key, receipt, .. } => {
            &&& is_open(v, key)
            &&& receipt_matches(key, v.records[key], receipt)
            &&& v.publication.contains_key(key)
            &&& v.publication[key] <==> (receipt.outcome is Stored
                || receipt.outcome is PublishedDurabilityUnconfirmed)
        },
        Pending::Survey(Goal::Cleanup { key, .. }) => {
            v.records.contains_key(key) && v.records[key].terminal is Some
        },
        Pending::CleanupStage { key, .. } => {
            v.records.contains_key(key) && v.records[key].terminal is Some
        },
        Pending::CleanupUnlink { key, .. } => {
            v.records.contains_key(key) && v.records[key].terminal is Some
        },
        Pending::DiscardInspect { live, ending } => is_discarding(v, live, ending),
        Pending::DiscardUnlink { live, ending } => is_discarding(v, live, ending),
    }
}

/// What is true of a store at all times.
///
/// It keeps to its limits. An operation is received, accepted, or ended before
/// acceptance, and no two of these; each under its own journal key. Tickets are
/// the store's own. Only accepted operations can have been published, and what the
/// store linked is published. And the operation under way can go on.
#[verifier::opaque]
pub open spec fn sound(v: StoreView) -> bool {
    &&& within_limits(v)
    &&& forall|k: Seq<char>| #[trigger]
        v.receiving.contains_key(k) ==> is_live(v, k, v.receiving[k])
            && !v.records.contains_key(k) && !v.outcomes.contains_key(k)
    &&& forall|k: Seq<char>| #[trigger]
        v.records.contains_key(k) ==> is_kept(k, v.records[k]) && !v.outcomes.contains_key(k)
    &&& forall|k: Seq<char>| #[trigger]
        v.outcomes.contains_key(k) ==> is_temporary(k, v.outcomes[k])
    &&& forall|k: Seq<char>| #[trigger]
        v.publication.contains_key(k) ==> v.records.contains_key(k)
    &&& forall|k: Seq<char>| #[trigger]
        v.linked.contains(k) ==> v.publication.contains_pair(k, true)
    &&& is_due(v)
}

/// Sixteen random bytes make the suffix of a staging file's name.
proof fn lemma_suffix(key: Seq<char>, bytes: Seq<u8>)
    requires
        bytes.len() == 16,
    ensures
        is_stage_name(key, stage_name_of(key, hex(bytes))),
{
    let suffix = hex(bytes);
    let name = stage_name_of(key, suffix);
    let prefix = stage_prefix(key);
    let rest = name.skip(prefix.len() as int);
    assert(rest =~= suffix + ".stage"@);
    assert(name.take(prefix.len() as int) =~= prefix);
    assert(rest.skip(rest.len() - ".stage"@.len()) =~= ".stage"@);
    assert(rest.take(rest.len() - ".stage"@.len()) =~= suffix);
    assert forall|i: int| 0 <= i < suffix.len() implies ('0' <= #[trigger] suffix[i] <= '9' || 'a'
        <= suffix[i] <= 'f' || 'A' <= suffix[i] <= 'F') by {
        assert(0 <= bytes[i / 2] as int / 16 < 16);
    }
}

/// Every way to call a store, as contracts see it.
pub enum Call {
    Lookup { operation: OperationId<Seq<char>> },
    Begin {
        operation: OperationId<Seq<char>>,
        attempt: Attempt<Seq<char>>,
        intent: Intent<Seq<char>>,
    },
    Append { ticket: TicketView, offset: u64, bytes: Seq<u8> },
    Replace { ticket: TicketView, attempt: Attempt<Seq<char>> },
    Cancel { operation: OperationId<Seq<char>>, ticket: TicketView },
    Finish { operation: OperationId<Seq<char>>, ticket: TicketView },
    Resume { event: Event },
    Recover { key: Seq<char> },
    Dismiss { key: Seq<char> },
}

/// What a call at a time makes of a store.
pub open spec fn turn(v: StoreView, call: Call, at: Seq<char>) -> Turn {
    match call {
        Call::Lookup { operation } => protocol::lookup(v, operation),
        Call::Begin { operation, attempt, intent } => {
            protocol::begin(v, operation, attempt, intent)
        },
        Call::Append { ticket, offset, bytes } => protocol::append(v, ticket, offset, bytes),
        Call::Replace { ticket, attempt } => protocol::replace(v, ticket, attempt),
        Call::Cancel { operation, ticket } => protocol::cancel(v, operation, ticket, at),
        Call::Finish { operation, ticket } => protocol::finish(v, operation, ticket),
        Call::Resume { event } => protocol::resumed(v, event, at),
        Call::Recover { key } => protocol::recover(v, key),
        Call::Dismiss { key } => protocol::dismiss(v, key),
    }
}

/// A store after a number of calls, each at its time.
pub open spec fn after_calls(v: StoreView, calls: Seq<(Call, Seq<char>)>) -> StoreView
    decreases calls.len(),
{
    if calls.len() == 0 {
        v
    } else {
        turn(after_calls(v, calls.drop_last()), calls.last().0, calls.last().1).store
    }
}

proof fn sound_discard(v: StoreView, key: Seq<char>, receipt: Option<Receipt<Seq<char>>>)
    requires
        sound(v),
        v.receiving.contains_key(key),
        receipt matches Some(r) ==> is_temporary(key, r),
    ensures
        sound(protocol::discard(v, key, receipt).store),
{
    reveal(sound);
    total_remove(v.receiving, key);
    total_nonnegative(v.receiving.remove(key));
    assert(v.receiving.remove(key).dom() =~= v.receiving.dom().remove(key));
}

proof fn sound_failed(
    v: StoreView,
    key: Seq<char>,
    action: Seq<char>,
    reason: Seq<char>,
    at: Seq<char>,
)
    requires
        sound(v),
        v.receiving.contains_key(key),
    ensures
        sound(protocol::failed(v, key, action, reason, at).store),
{
    reveal(sound);
    sound_discard(
        v,
        key,
        Some(
            temporary(
                v.receiving[key],
                Outcome::Failed { action, reason },
                at,
            ),
        ),
    );
}

proof fn sound_create(
    v: StoreView,
    key: Seq<char>,
    operation: OperationId<Seq<char>>,
    attempt: Attempt<Seq<char>>,
    intent: Intent<Seq<char>>,
    destination: Seq<char>,
    stage_name: Seq<char>,
    effect: Result<(), Error>,
)
    requires
        sound(v),
        v.pending is Idle,
        is_beginning(v, key, operation, attempt, intent),
        fits_journal(destination),
        is_stage_name(key, stage_name),
        admission_check(v, intent) is Ok,
    ensures
        sound(
            protocol::on_create(
                v,
                key,
                operation,
                attempt,
                intent,
                destination,
                stage_name,
                effect,
            ).store,
        ),
{
    reveal(sound);
    let ticket = protocol::next_ticket(v, key);
    let live = Receiving { operation, attempt, intent, destination, stage_name, ticket };
    total_insert(v.receiving, key, live);
    assert(v.receiving.insert(key, live).dom() =~= v.receiving.dom().insert(key));
}

proof fn sound_replace_truncate(
    v: StoreView,
    key: Seq<char>,
    attempt: Attempt<Seq<char>>,
    effect: Result<(), Error>,
)
    requires
        sound(v),
        v.pending is Idle,
        v.receiving.contains_key(key),
        is_attempt(attempt),
        v.generation < u64::MAX,
    ensures
        sound(protocol::on_replace_truncate(v, key, attempt, effect).store),
{
    reveal(sound);
    let ticket = protocol::next_ticket(v, key);
    let live = Receiving { attempt, ticket, ..v.receiving[key] };
    let m = v.receiving;
    total_remove(m, key);
    assert(m.remove(key).dom() =~= m.dom().remove(key));
    total_insert(m.remove(key), key, live);
    assert(m.remove(key).insert(key, live) =~= m.insert(key, live));
    assert(m.insert(key, live).dom() =~= m.dom());
}

proof fn sound_terminalize(
    v: StoreView,
    key: Seq<char>,
    outcome: Outcome<Seq<char>>,
    at: Seq<char>,
    after: After,
)
    requires
        sound(v),
        v.pending is Idle,
        is_open(v, key),
        v.publication.contains_key(key),
        v.publication[key] <==> (outcome is Stored || outcome is PublishedDurabilityUnconfirmed),
        !(outcome is Aborted),
    ensures
        sound(protocol::terminalize(v, key, outcome, at, after).store),
{
    reveal(sound);
}

proof fn sound_terminal_journal(
    v: StoreView,
    key: Seq<char>,
    receipt: Receipt<Seq<char>>,
    after: After,
    effect: Result<(), Error>,
)
    requires
        sound(v),
        v.pending is Idle,
        is_open(v, key),
        receipt_matches(key, v.records[key], receipt),
    ensures
        sound(protocol::on_terminal_journal(v, key, receipt, after, effect).store),
{
    reveal(sound);
    let ended = Record { terminal: Some(receipt), ..v.records[key] };
    assert(is_kept(key, v.records[key]));
    assert(is_kept(key, ended));
}

proof fn sound_finish_sync(
    v: StoreView,
    key: Seq<char>,
    verified: VerifiedPng<Seq<char>>,
    destination: Seq<char>,
    parent: Identity,
    stage: Identity,
    effect: Result<(), Error>,
    at: Seq<char>,
)
    requires
        sound(v),
        v.pending is Idle,
        is_accepting(v, key, verified),
    ensures
        sound(
            protocol::on_finish_sync(
                v,
                key,
                verified,
                destination,
                parent,
                stage,
                effect,
                at,
            ).store,
        ),
{
    reveal(sound);
    match effect {
        Err(e) => {
            sound_failed(v, key, "sync"@, e.message@, at);
        },
        Ok(()) => {
            total_remove(v.receiving, key);
            total_nonnegative(v.receiving.remove(key));
            assert(v.receiving.remove(key).dom() =~= v.receiving.dom().remove(key));
            let record = protocol::accepted_record(
                v.receiving[key],
                verified,
                destination,
                parent,
                stage,
                at,
            );
            assert(is_live(v, key, v.receiving[key]));
            assert(is_kept(key, record));
        },
    }
}

proof fn sound_publish_refused(v: StoreView, key: Seq<char>, kind: ErrorKind, at: Seq<char>)
    requires
        sound(v),
        v.pending is Idle,
        is_open(v, key),
    ensures
        sound(protocol::publish_refused(v, key, kind, at).store),
{
    if v.publication.contains_pair(key, true) || kind != ErrorKind::AlreadyExists {
        reveal(sound);
    } else {
        let refused = StoreView { publication: v.publication.insert(key, false), ..v };
        assert(sound(refused)) by {
            reveal(sound);
        }
        sound_terminalize(
            refused,
            key,
            Outcome::Failed {
                action: "publish"@,
                reason: "destination already exists; nothing replaced"@,
            },
            at,
            After::Status,
        );
    }
}

proof fn sound_survey(v: StoreView, goal: Goal<Seq<char>>, facts: ParentFacts, at: Seq<char>)
    requires
        sound(v),
        v.pending is Idle,
        is_due(StoreView { pending: Pending::Survey(goal), ..v }),
        has_room(StoreView { pending: Pending::Survey(goal), ..v }),
    ensures
        sound(protocol::on_survey(v, goal, facts, at).store),
{
    reveal(sound);
    match goal {
        Goal::Begin { .. } => {},
        Goal::Accept { key, verified } => {
            let live = v.receiving[key];
            match crate::policy::allowed(
                v.home,
                live.operation.slug,
                live.intent.destination,
                facts,
            ) {
                Err(e) => {
                    sound_failed(v, key, "prepare"@, e.message, at);
                },
                Ok((destination, _)) => {
                    sound_failed(v, key, "prepare"@, protocol::moved_error().message, at);
                },
            }
        },
        Goal::Publish { key } => {
            match protocol::record_parent(v, v.records[key], facts) {
                Err(e) => {
                    sound_publish_refused(v, key, e.kind, at);
                },
                Ok(()) => {},
            }
        },
        Goal::Reconcile { .. } => {},
        Goal::Cleanup { .. } => {},
    }
}

proof fn sound_stage(v: StoreView, pending: PendingView, facts: StageFacts, at: Seq<char>)
    requires
        sound(v),
        v.pending is Idle,
        is_due(StoreView { pending, ..v }),
        has_room(StoreView { pending, ..v }),
    ensures
        sound(protocol::on_stage(v, pending, facts, at).store),
{
    reveal(sound);
    match pending {
        Pending::FinishInspect { key, parent, .. } => {
            match protocol::place_check(parent, facts) {
                Err(e) => {
                    sound_failed(v, key, "prepare"@, e.message, at);
                },
                Ok(_) => {},
            }
        },
        _ => {},
    }
}

proof fn sound_effect(
    v: StoreView,
    pending: PendingView,
    effect: Result<(), Error>,
    at: Seq<char>,
)
    requires
        sound(v),
        v.pending is Idle,
        is_due(StoreView { pending, ..v }),
        has_room(StoreView { pending, ..v }),
    ensures
        sound(protocol::on_effect(v, pending, effect, at).store),
{
    reveal(sound);
    match pending {
        Pending::ReplaceTruncate { key, attempt } => {
            sound_replace_truncate(v, key, attempt, effect);
        },
        Pending::BeginCreate { key, operation, attempt, intent, destination, stage_name } => {
            sound_create(
                v,
                key,
                operation,
                attempt,
                intent,
                destination,
                stage_name,
                effect,
            );
        },
        Pending::FinishSync { key, verified, destination, parent, stage } => {
            sound_finish_sync(v, key, verified, destination, parent, stage, effect, at);
        },
        Pending::PublishLink { key } => {
            match effect {
                Err(e) => {
                    sound_publish_refused(v, key, e.kind, at);
                },
                Ok(()) => {},
            }
        },
        Pending::PublishSync { key } => {
            sound_terminalize(v, key, protocol::published(effect), at, After::Status);
        },
        Pending::ReconcileParent { key, after } => {
            sound_terminalize(v, key, protocol::published(effect), at, after);
        },
        Pending::TerminalJournal { key, receipt, after } => {
            sound_terminal_journal(v, key, receipt, after, effect);
        },
        _ => {},
    }
}

proof fn sound_resumed(before: StoreView, event: Event, at: Seq<char>)
    requires
        sound(before),
    ensures
        sound(protocol::resumed(before, event, at).store),
{
    reveal(sound);
    let v = StoreView { pending: Pending::Idle, ..before };
    assert(StoreView { pending: before.pending, ..v } == before);
    assert(sound(v));
    match event {
        Event::Survey(facts) => {
            if let Pending::Survey(goal) = before.pending {
                sound_survey(v, goal, facts, at);
            }
        },
        Event::Random(bytes) => {
            if let (Pending::BeginRandom { key, .. }, Ok(bytes)) = (before.pending, bytes) {
                lemma_suffix(key, bytes@);
            }
        },
        Event::Length(_) => {},
        Event::Stage(facts) => {
            sound_stage(v, before.pending, facts, at);
        },
        Event::Contents(facts, bytes) => {
            if let Pending::FinishRead { key } = before.pending {
                match protocol::contents_check(v.receiving[key].intent, facts, bytes) {
                    Err(e) => {
                        sound_failed(v, key, "verify"@, e.message, at);
                    },
                    Ok(_) => {},
                }
            }
        },
        Event::File(file) => {
            if let Pending::PublishStage { key } = before.pending {
                match crate::facts::retained_check(file, v.records[key].stage_identity) {
                    Err(e) => {
                        sound_publish_refused(v, key, e.kind, at);
                    },
                    Ok(()) => {},
                }
            }
        },
        Event::Evidence(_) => {},
        Event::Effect(effect) => {
            sound_effect(v, before.pending, effect, at);
        },
        Event::Removed(_) => {},
    }
}

proof fn sound_standing(
    v: StoreView,
    key: Seq<char>,
    operation: OperationId<Seq<char>>,
    after: After,
)
    requires
        sound(v),
    ensures
        sound(protocol::standing(v, key, operation, after).store),
{
    reveal(sound);
}

proof fn sound_begin(
    v: StoreView,
    operation: OperationId<Seq<char>>,
    attempt: Attempt<Seq<char>>,
    intent: Intent<Seq<char>>,
)
    requires
        sound(v),
    ensures
        sound(protocol::begin(v, operation, attempt, intent).store),
{
    reveal(sound);
}

proof fn sound_append(v: StoreView, ticket: TicketView, offset: u64, bytes: Seq<u8>)
    requires
        sound(v),
    ensures
        sound(protocol::append(v, ticket, offset, bytes).store),
{
    reveal(sound);
}

proof fn sound_replace(v: StoreView, ticket: TicketView, attempt: Attempt<Seq<char>>)
    requires
        sound(v),
    ensures
        sound(protocol::replace(v, ticket, attempt).store),
{
    reveal(sound);
}

proof fn sound_cancel(
    v: StoreView,
    operation: OperationId<Seq<char>>,
    ticket: TicketView,
    at: Seq<char>,
)
    requires
        sound(v),
    ensures
        sound(protocol::cancel(v, operation, ticket, at).store),
{
    if let Ok(key) = key_of_operation(operation) {
        sound_standing(v, key, operation, After::Status);
        if v.receiving.contains_key(key) {
            reveal(sound);
            let receipt = temporary(v.receiving[key], Outcome::Aborted, at);
            sound_discard(v, key, Some(receipt));
        }
    }
    sound_refused(v);
}

proof fn sound_finish(v: StoreView, operation: OperationId<Seq<char>>, ticket: TicketView)
    requires
        sound(v),
    ensures
        sound(protocol::finish(v, operation, ticket).store),
{
    if let Ok(key) = key_of_operation(operation) {
        sound_standing(v, key, operation, After::Status);
    }
    reveal(sound);
}

proof fn sound_refused(v: StoreView)
    requires
        sound(v),
    ensures
        sound(StoreView { pending: Pending::Idle, ..v }),
{
    reveal(sound);
}

proof fn sound_recover(v: StoreView, key: Seq<char>)
    requires
        sound(v),
    ensures
        sound(protocol::recover(v, key).store),
{
    reveal(sound);
}

/// Every call keeps a store sound.
pub proof fn stays_sound(v: StoreView, call: Call, at: Seq<char>)
    requires
        sound(v),
    ensures
        sound(turn(v, call, at).store),
{
    match call {
        Call::Lookup { operation } => {
            if let Ok(key) = key_of_operation(operation) {
                sound_standing(v, key, operation, After::Found);
            }
            sound_refused(v);
        },
        Call::Begin { operation, attempt, intent } => {
            sound_begin(v, operation, attempt, intent);
        },
        Call::Append { ticket, offset, bytes } => {
            sound_append(v, ticket, offset, bytes);
        },
        Call::Replace { ticket, attempt } => {
            sound_replace(v, ticket, attempt);
        },
        Call::Cancel { operation, ticket } => {
            sound_cancel(v, operation, ticket, at);
        },
        Call::Finish { operation, ticket } => {
            sound_finish(v, operation, ticket);
        },
        Call::Resume { event } => {
            sound_resumed(v, event, at);
        },
        Call::Recover { key } => {
            sound_recover(v, key);
        },
        Call::Dismiss { key } => {
            if v.receiving.contains_key(key) {
                sound_discard(v, key, None);
            }
            sound_refused(v);
        },
    }
}

} // verus!
