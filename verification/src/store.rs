//! The screenshot store.
//!
//! Receiving is process-local. An operation is accepted only after its PNG is
//! verified, its staging file is synchronized and its record is journaled. A
//! retained staging file proves a publication whose receipt was lost; missing
//! or conflicting evidence stays unresolved, and nothing is published twice.
//!
//! `begin` and `append` fill a temporary transfer; `replace` fences its ticket
//! and restarts its bytes. `finish` verifies, synchronizes, journals the
//! acceptance, publishes without overwriting and journals the receipt. `lookup`
//! needs no ticket and finds that receipt after a reconnection.

use vstd::prelude::*;

use crate::action::{Action, After, Answer, Event, Goal, Pending, Step};
use crate::clock::now;
use crate::error::{checked, invalid, Error, ErrorKind};
use crate::facts::{
    read_bounded, record_stage, verify_live_stage, EvidenceFacts, FileFacts, Removal, StageFacts,
};
use crate::json::write_record;
use crate::model::{
    attempts_equal, optional_text, Attempt, Identity, Intent, OperationId, Outcome, Receipt,
    Receiving, ReceivingView, Record, Status, Ticket, VerifiedPng, MAX_CHUNK_BYTES, MAX_PNG_BYTES,
    MAX_RECEIVING_BYTES, MAX_TRANSFERS,
};
use crate::observation::{
    cleanup_record, receipt_record, seen, temporary_receipt, terminal_receipt, Observation,
};
use crate::path::{file_name, same_path};
use crate::png::{verify_bytes, verify_png};
use crate::policy::{allowed_parent, ParentFacts};
use crate::protocol;
use crate::protocol::{
    admission_check, contents_check, evidence_check, health, live_check, place_check, published,
    record_parent, record_standing, removal_seen, total, total_insert, total_nonnegative,
    total_remove, within_limits, StoreView, Turn, MAX_JOURNAL_BYTES, SESSION_CAPACITY,
};
use crate::rules::{
    checked_key, record_check, same_intent, same_operation, stage_name, validate_attempt,
    validate_intent, validate_record, RECORD_VERSION,
};
use crate::soundness::{sound, stays_sound, Call};
use crate::table::Table;
use crate::text::{byte_len, cat3, hex_text, same_text};

verus! {

/// A store. Whoever performs its actions must perform those of one store at a
/// time, and hand each event back before starting another operation.
pub struct Store {
    home: String,
    owner: u64,
    generation: u64,
    receiving: Table<Receiving>,
    /// What the transfers announce together.
    announced: u64,
    records: Table<Record>,
    outcomes: Table<Receipt>,
    observations: Vec<Observation>,
    poisoned: Option<String>,
    publication: Table<bool>,
    linked: Table<()>,
    pending: Pending,
}

impl View for Store {
    type V = StoreView;

    closed spec fn view(&self) -> StoreView {
        StoreView {
            home: self.home@,
            owner: self.owner,
            generation: self.generation,
            receiving: self.receiving@,
            records: self.records@,
            outcomes: self.outcomes@,
            observations: seen(self.observations@),
            poisoned: optional_text(self.poisoned),
            publication: self.publication@,
            linked: self.linked@.dom(),
            pending: self.pending@,
        }
    }
}

impl Store {
    /// Whether the store keeps to its limits and its count of announced bytes
    /// is right.
    spec fn fit(&self) -> bool {
        &&& within_limits(self@)
        &&& self.announced == total(self@.receiving)
    }

    /// Whether the store is sound and its count of announced bytes is right.
    pub closed spec fn wf(&self) -> bool {
        &&& sound(self@)
        &&& self.fit()
    }

    /// Whether a step and the state after it are those of a turn.
    spec fn moved(&self, step: Step, turn: Turn) -> bool {
        &&& self.fit()
        &&& self@ == turn.store
        &&& step@ == turn.step
    }

    /// Whether a step and the state after it are those of a turn that left the
    /// store well-formed.
    pub open spec fn took(&self, step: Step, turn: Turn) -> bool {
        &&& self.wf()
        &&& self@ == turn.store
        &&& step@ == turn.step
    }

    /// A well-formed store is sound.
    pub proof fn is_sound(&self)
        requires
            self.wf(),
        ensures
            sound(self@),
    {
    }

    /// A store without records. `owner` tells its tickets from those of any
    /// other store of the process.
    pub fn open(home: String, owner: u64) -> (r: Store)
        ensures
            r.wf(),
            r@ == (StoreView {
                home: home@,
                owner,
                generation: 0,
                receiving: Map::empty(),
                records: Map::empty(),
                outcomes: Map::empty(),
                observations: Seq::empty(),
                poisoned: None,
                publication: Map::empty(),
                linked: Set::empty(),
                pending: Pending::Idle,
            }),
    {
        let r = Store {
            home,
            owner,
            generation: 0,
            receiving: Table::new(),
            announced: 0,
            records: Table::new(),
            outcomes: Table::new(),
            observations: Vec::new(),
            poisoned: None,
            publication: Table::new(),
            linked: Table::new(),
            pending: Pending::Idle,
        };
        proof {
            reveal(sound);
            assert(seen(r.observations@) =~= Seq::empty());
            assert(r.linked@.dom() =~= Set::empty());
        }
        r
    }

    fn act(&mut self, pending: Pending, action: Action) -> (step: Step)
        requires
            old(self).fit(),
            within_limits(protocol::act(old(self)@, pending@, action@).store),
        ensures
            final(self).moved(step, protocol::act(old(self)@, pending@, action@)),
    {
        self.pending = pending;
        Step::Act(action)
    }

    fn done(&mut self, answer: Answer) -> (step: Step)
        requires
            old(self).fit(),
        ensures
            final(self).moved(step, protocol::done(old(self)@, answer@)),
    {
        self.pending = Pending::Idle;
        Step::Done(Ok(answer))
    }

    fn refused(&mut self, error: Error) -> (step: Step)
        requires
            old(self).fit(),
        ensures
            final(self).moved(step, protocol::refused(old(self)@, error@)),
    {
        self.pending = Pending::Idle;
        Step::Done(Err(error))
    }

    fn abandoned(&mut self) -> (step: Step)
        requires
            old(self).fit(),
        ensures
            final(self).moved(step, protocol::abandoned(old(self)@)),
    {
        self.refused(invalid("the store does not wait for this event"))
    }

    fn healthy(&self) -> (r: Result<(), Error>)
        ensures
            checked(r) == health(self@),
    {
        match &self.poisoned {
            Some(reason) => Err(Error { kind: ErrorKind::Other, message: reason.clone() }),
            None => Ok(()),
        }
    }

    fn live(&self, ticket: &Ticket) -> (r: Result<&Receiving, Error>)
        ensures
            r is Ok <==> live_check(self@, ticket@) is Ok,
            r matches Ok(live) ==> live@ == self@.receiving[ticket@.key],
            r matches Err(e) ==> live_check(self@, ticket@) == Err::<(), Error<Seq<char>>>(e@),
    {
        match self.receiving.get(ticket.key()) {
            None => Err(invalid("no live receive for ticket")),
            Some(live) => {
                if live.ticket.same(ticket) {
                    Ok(live)
                } else {
                    Err(invalid("stale or foreign ticket"))
                }
            },
        }
    }

    /// Where an accepted operation stands, if there is one under a key.
    pub fn record_status(&self, key: &str) -> (r: Option<Status>)
        ensures
            r is Some <==> self@.records.contains_key(key@),
            r matches Some(status) ==> status@ == record_standing(self@, key@),
    {
        match self.records.get(key) {
            None => None,
            Some(record) => match &record.terminal {
                Some(receipt) => Some(Status::Terminal(Box::new(receipt.clone()))),
                None => {
                    let reason = match &self.poisoned {
                        Some(reason) => reason.clone(),
                        None => {
                            "publication evidence is incomplete; no automatic continuation".to_owned()
                        },
                    };
                    let published: Option<bool> = if self.linked.contains(key) {
                        Some(true)
                    } else {
                        match self.publication.get(key) {
                            Some(false) => Some(false),
                            _ => None,
                        }
                    };
                    Some(
                        Status::Unresolved {
                            operation: record.operation.clone(),
                            destination: record.destination.clone(),
                            published,
                            reason,
                        },
                    )
                },
            },
        }
    }

    fn found(&mut self, status: Status, after: After) -> (step: Step)
        requires
            old(self).fit(),
        ensures
            final(self).moved(step, protocol::found(old(self)@, status@, after)),
    {
        match after {
            After::Found => self.done(Answer::Found(Some(status))),
            After::Status => self.done(Answer::Status(status)),
            After::Recovered => self.done(Answer::Recovered),
        }
    }

    fn settled(&mut self, key: &str, after: After) -> (step: Step)
        requires
            old(self).fit(),
        ensures
            final(self).moved(step, protocol::settled(old(self)@, key@, after)),
    {
        match self.record_status(key) {
            Some(status) => self.found(status, after),
            None => self.abandoned(),
        }
    }

    fn survey(&mut self, record: &Record, goal: Goal) -> (step: Step)
        requires
            old(self).fit(),
            !(goal@ is Begin),
        ensures
            final(self).moved(
                step,
                protocol::act(
                    old(self)@,
                    Pending::Survey(goal@),
                    protocol::survey_record(record@),
                ),
            ),
    {
        self.act(
            Pending::Survey(goal),
            Action::Survey {
                slug: record.operation.slug.clone(),
                destination: record.intent.destination.clone(),
            },
        )
    }

    fn reconcile(&mut self, key: &str, after: After) -> (step: Step)
        requires
            old(self).fit(),
        ensures
            final(self).moved(step, protocol::reconcile(old(self)@, key@, after)),
    {
        let record: Record = match self.records.get(key) {
            None => return self.abandoned(),
            Some(record) => record.clone(),
        };
        if self.poisoned.is_some() || record.terminal.is_some() {
            self.settled(key, after)
        } else {
            self.survey(&record, Goal::Reconcile { key: key.to_owned(), after })
        }
    }

    fn cleanup(&mut self, key: &str, after: After) -> (step: Step)
        requires
            old(self).fit(),
        ensures
            final(self).moved(step, protocol::cleanup(old(self)@, key@, after)),
    {
        let record: Record = match self.records.get(key) {
            None => return self.abandoned(),
            Some(record) => record.clone(),
        };
        self.survey(&record, Goal::Cleanup { key: key.to_owned(), after })
    }

    fn standing(&mut self, key: String, operation: &OperationId, after: After) -> (step: Step)
        requires
            old(self).fit(),
        ensures
            final(self).moved(step, protocol::standing(old(self)@, key@, operation@, after)),
    {
        if let Some(record) = self.records.get(key.as_str()) {
            return match same_operation(operation, &record.operation) {
                Err(e) => self.refused(e),
                Ok(()) => self.reconcile(key.as_str(), after),
            };
        }
        if let Some(receipt) = self.outcomes.get(key.as_str()) {
            return match same_operation(operation, &receipt.operation) {
                Err(e) => self.refused(e),
                Ok(()) => {
                    let copy: Receipt = receipt.clone();
                    self.found(Status::Terminal(Box::new(copy)), after)
                },
            };
        }
        if let Some(live) = self.receiving.get(key.as_str()) {
            return match same_operation(operation, &live.operation) {
                Err(e) => self.refused(e),
                Ok(()) => {
                    let ticket = live.ticket.clone();
                    self.act(Pending::Length { ticket, after }, Action::Length { key })
                },
            };
        }
        match after {
            After::Found => self.done(Answer::Found(None)),
            _ => self.refused(invalid("unknown operation")),
        }
    }

    /// Finds where an operation stands. A lookup needs no ticket; it ends an
    /// accepted operation whose publication can be proved.
    pub fn lookup(&mut self, operation: &OperationId) -> (step: Step)
        requires
            old(self).wf(),
        ensures
            final(self).took(step, protocol::lookup(old(self)@, operation@)),
    {
        proof {
            stays_sound(self@, Call::Lookup { operation: operation@ }, Seq::empty());
        }
        match checked_key(operation) {
            Err(e) => self.refused(e),
            Ok(key) => self.standing(key, operation, After::Found),
        }
    }

    fn check_admission(&self, intent: &Intent) -> (r: Result<(), Error>)
        requires
            self.fit(),
            intent.bytes <= MAX_PNG_BYTES,
        ensures
            checked(r) == admission_check(self@, intent@),
    {
        if self.receiving.len() >= MAX_TRANSFERS || self.announced + intent.bytes
            > MAX_RECEIVING_BYTES {
            return Err(invalid("screenshot receive admission limit reached"));
        }
        if self.outcomes.len() >= SESSION_CAPACITY || self.observations.len() >= SESSION_CAPACITY
            || self.generation == u64::MAX {
            return Err(invalid("screenshot session capacity reached"));
        }
        Ok(())
    }

    fn begin_checked(
        &mut self,
        key: String,
        operation: OperationId,
        attempt: Attempt,
        intent: Intent,
    ) -> (step: Step)
        requires
            old(self).fit(),
            intent.bytes <= MAX_PNG_BYTES,
        ensures
            final(self).moved(
                step,
                protocol::begin_checked(old(self)@, key@, operation@, attempt@, intent@),
            ),
    {
        if let Some(record) = self.records.get(key.as_str()) {
            if let Err(e) = same_operation(&operation, &record.operation) {
                return self.refused(e);
            }
            if let Err(e) = same_intent(&intent, &record.intent) {
                return self.refused(e);
            }
            return self.reconcile(key.as_str(), After::Status);
        }
        if let Some(receipt) = self.outcomes.get(key.as_str()) {
            if let Err(e) = same_operation(&operation, &receipt.operation) {
                return self.refused(e);
            }
            if let Err(e) = same_intent(&intent, &receipt.requested) {
                return self.refused(e);
            }
            let copy: Receipt = receipt.clone();
            return self.done(Answer::Status(Status::Terminal(Box::new(copy))));
        }
        if let Err(e) = self.healthy() {
            return self.refused(e);
        }
        if let Some(live) = self.receiving.get(key.as_str()) {
            if let Err(e) = same_operation(&operation, &live.operation) {
                return self.refused(e);
            }
            if let Err(e) = same_intent(&intent, &live.intent) {
                return self.refused(e);
            }
            if !attempts_equal(&attempt, &live.attempt) {
                return self.refused(invalid("live attempt must be explicitly replaced"));
            }
            let ticket = live.ticket.clone();
            return self.act(
                Pending::Length { ticket, after: After::Status },
                Action::Length { key },
            );
        }
        if let Err(e) = self.check_admission(&intent) {
            return self.refused(e);
        }
        let slug = operation.slug.clone();
        let destination = intent.destination.clone();
        self.act(
            Pending::Survey(Goal::Begin { key, operation, attempt, intent }),
            Action::Survey { slug, destination },
        )
    }

    /// Begins to receive an operation, or finds where one stands that is
    /// already bound to the same intent.
    pub fn begin(&mut self, operation: OperationId, attempt: Attempt, intent: Intent) -> (step: Step)
        requires
            old(self).wf(),
        ensures
            final(self).took(
                step,
                protocol::begin(old(self)@, operation@, attempt@, intent@),
            ),
    {
        proof {
            stays_sound(self@, Call::Begin { operation: operation@, attempt: attempt@, intent: intent@ }, Seq::empty());
        }
        let key = match checked_key(&operation) {
            Err(e) => return self.refused(e),
            Ok(key) => key,
        };
        if let Err(e) = validate_attempt(&attempt) {
            return self.refused(e);
        }
        if let Err(e) = validate_intent(&intent) {
            return self.refused(e);
        }
        self.begin_checked(key, operation, attempt, intent)
    }

    /// Appends a chunk to a transfer, exactly where it now ends.
    pub fn append(&mut self, ticket: &Ticket, offset: u64, bytes: Vec<u8>) -> (step: Step)
        requires
            old(self).wf(),
        ensures
            final(self).took(step, protocol::append(old(self)@, ticket@, offset, bytes@)),
    {
        proof {
            stays_sound(self@, Call::Append { ticket: ticket@, offset, bytes: bytes@ }, Seq::empty());
        }
        if let Err(e) = self.healthy() {
            return self.refused(e);
        }
        let name: String = match self.live(ticket) {
            Err(e) => return self.refused(e),
            Ok(live) => live.stage_name.clone(),
        };
        if bytes.len() == 0 || bytes.len() > MAX_CHUNK_BYTES {
            return self.refused(invalid("invalid screenshot chunk size"));
        }
        let key: String = ticket.key().to_owned();
        self.act(
            Pending::AppendInspect { key: key.clone(), offset, bytes },
            Action::Inspect { key, name },
        )
    }

    /// Replaces the attempt at a transfer: the old ticket is fenced, the bytes
    /// start anew, caller and intent stay.
    pub fn replace(&mut self, ticket: &Ticket, attempt: Attempt) -> (step: Step)
        requires
            old(self).wf(),
        ensures
            final(self).took(step, protocol::replace(old(self)@, ticket@, attempt@)),
    {
        proof {
            stays_sound(self@, Call::Replace { ticket: ticket@, attempt: attempt@ }, Seq::empty());
        }
        if let Err(e) = self.healthy() {
            return self.refused(e);
        }
        if let Err(e) = validate_attempt(&attempt) {
            return self.refused(e);
        }
        let (name, same): (String, bool) = match self.live(ticket) {
            Err(e) => return self.refused(e),
            Ok(live) => (
                live.stage_name.clone(),
                same_text(live.attempt.attempt_id.as_str(), attempt.attempt_id.as_str()),
            ),
        };
        if same {
            return self.refused(invalid("replacement needs a new attempt identity"));
        }
        if self.generation == u64::MAX {
            return self.refused(invalid("screenshot session capacity reached"));
        }
        let key: String = ticket.key().to_owned();
        self.act(
            Pending::ReplaceInspect { key: key.clone(), attempt },
            Action::Inspect { key, name },
        )
    }

    fn discard(&mut self, key: &str, receipt: Option<Receipt>) -> (step: Step)
        requires
            old(self).fit(),
            old(self)@.receiving.contains_key(key@),
        ensures
            final(self).moved(
                step,
                protocol::discard(
                    old(self)@,
                    key@,
                    match receipt {
                        Some(r) => Some(r@),
                        None => None,
                    },
                ),
            ),
    {
        let live: Receiving = match self.receiving.get(key) {
            None => return self.abandoned(),
            Some(live) => live.clone(),
        };
        proof {
            total_remove(self@.receiving, key@);
            total_nonnegative(self@.receiving.remove(key@));
            assert(self@.receiving.remove(key@).dom() =~= self@.receiving.dom().remove(key@));
        }
        self.receiving.remove(key);
        self.announced = self.announced - live.intent.bytes;
        if let Some(r) = &receipt {
            self.outcomes.insert(key.to_owned(), r.clone());
        }
        self.pending = Pending::Idle;
        let name = live.stage_name.clone();
        self.act(
            Pending::DiscardInspect { live, ending: receipt },
            Action::Inspect { key: key.to_owned(), name },
        )
    }

    fn failed(&mut self, key: &str, action: &str, reason: String, at: &str) -> (step: Step)
        requires
            old(self).fit(),
            old(self)@.receiving.contains_key(key@),
        ensures
            final(self).moved(
                step,
                protocol::failed(old(self)@, key@, action@, reason@, at@),
            ),
    {
        let receipt = match self.receiving.get(key) {
            None => return self.abandoned(),
            Some(live) => temporary_receipt(
                live,
                Outcome::Failed { action: action.to_owned(), reason },
                at,
            ),
        };
        self.discard(key, Some(receipt))
    }

    fn discarded(&mut self, receipt: Option<Receipt>) -> (step: Step)
        requires
            old(self).fit(),
            old(self)@.pending is Idle,
        ensures
            final(self).moved(
                step,
                protocol::discarded(
                    old(self)@,
                    match receipt {
                        Some(r) => Some(r@),
                        None => None,
                    },
                ),
            ),
    {
        match receipt {
            Some(r) => {
                self.observe(receipt_record(&r));
                self.done(Answer::Status(Status::Terminal(Box::new(r))))
            },
            None => self.done(Answer::Recovered),
        }
    }

    fn observe(&mut self, observation: Observation)
        requires
            old(self).fit(),
            old(self)@.pending is Idle,
        ensures
            final(self).fit(),
            final(self)@ == (StoreView {
                observations: old(self)@.observations.push(observation@),
                ..old(self)@
            }),
    {
        let ghost before = self.observations@;
        self.observations.push(observation);
        assert(seen(self.observations@) =~= seen(before).push(observation@));
    }

    fn observe_removal(
        &mut self,
        destination: &str,
        name: &str,
        operation: &OperationId,
        removal: &Removal,
    )
        requires
            old(self).fit(),
            old(self)@.pending is Idle,
        ensures
            final(self).fit(),
            final(self)@ == removal_seen(
                old(self)@,
                destination@,
                name@,
                operation@,
                *removal,
            ),
    {
        match removal {
            Removal::Removed => {},
            Removal::NotUnlinked(e) => {
                self.observe(
                    cleanup_record(destination, name, operation, false, e.message.as_str()),
                );
            },
            Removal::NotSynced(e) => {
                self.observe(
                    cleanup_record(destination, name, operation, true, e.message.as_str()),
                );
            },
        }
    }

    /// Cancels a transfer. An operation that is accepted or has ended is only
    /// looked up: no outcome is invented for an uncertain publication.
    pub fn cancel(&mut self, operation: &OperationId, ticket: &Ticket) -> (step: Step)
        requires
            old(self).wf(),
        ensures
            exists|at: Seq<char>|
                final(self).took(
                    step,
                    #[trigger] protocol::cancel(old(self)@, operation@, ticket@, at),
                ),
    {
        let at = now();
        self.cancel_at(operation, ticket, at.as_str())
    }

    /// Cancels a transfer at a given time.
    pub fn cancel_at(&mut self, operation: &OperationId, ticket: &Ticket, at: &str) -> (step: Step)
        requires
            old(self).wf(),
        ensures
            final(self).took(
                step,
                protocol::cancel(old(self)@, operation@, ticket@, at@),
            ),
    {
        proof {
            stays_sound(self@, Call::Cancel { operation: operation@, ticket: ticket@ }, at@);
        }
        let key = match checked_key(operation) {
            Err(e) => return self.refused(e),
            Ok(key) => key,
        };
        if !same_text(key.as_str(), ticket.key()) || ticket.owner() != self.owner {
            return self.refused(invalid("stale or foreign ticket"));
        }
        if self.records.contains(key.as_str()) || self.outcomes.contains(key.as_str()) {
            return self.standing(key, operation, After::Status);
        }
        let receipt = match self.live(ticket) {
            Err(e) => return self.refused(e),
            Ok(live) => match same_operation(operation, &live.operation) {
                Err(e) => return self.refused(e),
                Ok(()) => temporary_receipt(live, Outcome::Aborted, at),
            },
        };
        self.discard(key.as_str(), Some(receipt))
    }

    /// Finishes a transfer: verifies, accepts and publishes it. An operation
    /// that is accepted or has ended is only looked up.
    pub fn finish(&mut self, operation: &OperationId, ticket: &Ticket) -> (step: Step)
        requires
            old(self).wf(),
        ensures
            final(self).took(step, protocol::finish(old(self)@, operation@, ticket@)),
    {
        proof {
            stays_sound(self@, Call::Finish { operation: operation@, ticket: ticket@ }, Seq::empty());
        }
        let key = match checked_key(operation) {
            Err(e) => return self.refused(e),
            Ok(key) => key,
        };
        if !same_text(key.as_str(), ticket.key()) || ticket.owner() != self.owner {
            return self.refused(invalid("stale or foreign ticket"));
        }
        if self.records.contains(key.as_str()) || self.outcomes.contains(key.as_str()) {
            return self.standing(key, operation, After::Status);
        }
        if let Err(e) = self.healthy() {
            return self.refused(e);
        }
        let name: String = match self.live(ticket) {
            Err(e) => return self.refused(e),
            Ok(live) => match same_operation(operation, &live.operation) {
                Err(e) => return self.refused(e),
                Ok(()) => live.stage_name.clone(),
            },
        };
        self.act(
            Pending::FinishRead { key: key.clone() },
            Action::Read { key, name, limit: MAX_PNG_BYTES },
        )
    }

    fn on_random(
        &mut self,
        key: String,
        operation: OperationId,
        attempt: Attempt,
        intent: Intent,
        destination: String,
        bytes: Result<[u8; 16], Error>,
    ) -> (step: Step)
        requires
            old(self).fit(),
            admission_check(old(self)@, intent@) is Ok,
            !old(self)@.receiving.contains_key(key@),
        ensures
            final(self).moved(
                step,
                protocol::on_random(
                    old(self)@,
                    key@,
                    operation@,
                    attempt@,
                    intent@,
                    destination@,
                    bytes,
                ),
            ),
    {
        match bytes {
            Err(e) => self.refused(e),
            Ok(bytes) => {
                let suffix = hex_text(bytes.as_slice());
                let name = stage_name(key.as_str(), suffix.as_str());
                self.act(
                    Pending::BeginCreate {
                        key: key.clone(),
                        operation,
                        attempt,
                        intent,
                        destination,
                        stage_name: name.clone(),
                    },
                    Action::CreateStage { key, name },
                )
            },
        }
    }

    fn on_create(
        &mut self,
        key: String,
        operation: OperationId,
        attempt: Attempt,
        intent: Intent,
        destination: String,
        stage_name: String,
        effect: Result<(), Error>,
    ) -> (step: Step)
        requires
            old(self).fit(),
            old(self)@.pending is Idle,
            admission_check(old(self)@, intent@) is Ok,
            !old(self)@.receiving.contains_key(key@),
        ensures
            final(self).moved(
                step,
                protocol::on_create(
                    old(self)@,
                    key@,
                    operation@,
                    attempt@,
                    intent@,
                    destination@,
                    stage_name@,
                    effect,
                ),
            ),
    {
        if let Err(e) = effect {
            return self.refused(e);
        }
        let ticket = Ticket::issue(key.as_str(), self.owner, self.generation + 1);
        let live = Receiving {
            operation,
            attempt,
            intent,
            destination,
            stage_name,
            ticket: ticket.clone(),
        };
        proof {
            total_insert(self@.receiving, key@, live@);
            assert(self@.receiving.insert(key@, live@).dom() =~= self@.receiving.dom().insert(
                key@,
            ));
        }
        self.generation = self.generation + 1;
        self.announced = self.announced + live.intent.bytes;
        self.receiving.insert(key, live);
        self.done(Answer::Status(Status::Receiving { ticket, received: 0 }))
    }

    fn on_append_inspect(&mut self, key: String, offset: u64, bytes: Vec<u8>, facts: &StageFacts) -> (step:
        Step)
        requires
            old(self).fit(),
        ensures
            final(self).moved(
                step,
                protocol::on_append_inspect(old(self)@, key@, offset, bytes@, *facts),
            ),
    {
        let limit: u64 = match self.receiving.get(key.as_str()) {
            None => return self.abandoned(),
            Some(live) => live.intent.bytes,
        };
        if let Err(e) = verify_live_stage(facts) {
            return self.refused(e);
        }
        let length: u64 = match &facts.held {
            Ok(held) => held.length,
            Err(e) => return self.refused(e.clone()),
        };
        if length != offset || length > limit || bytes.len() as u64 > limit - length {
            return self.refused(invalid("chunk offset or byte count exceeds manifest"));
        }
        let end: u64 = length + bytes.len() as u64;
        self.act(Pending::AppendWrite { end }, Action::Append { key, bytes })
    }

    fn on_replace_truncate(&mut self, key: String, attempt: Attempt, effect: Result<(), Error>) -> (step:
        Step)
        requires
            old(self).fit(),
            old(self)@.pending is Idle,
            old(self)@.generation < u64::MAX,
        ensures
            final(self).moved(
                step,
                protocol::on_replace_truncate(old(self)@, key@, attempt@, effect),
            ),
    {
        if let Err(e) = effect {
            return self.refused(e);
        }
        let mut live: Receiving = match self.receiving.get(key.as_str()) {
            None => return self.abandoned(),
            Some(live) => live.clone(),
        };
        let ticket = Ticket::issue(key.as_str(), self.owner, self.generation + 1);
        live.attempt = attempt;
        live.ticket = ticket.clone();
        proof {
            let m = self@.receiving;
            total_remove(m, key@);
            assert(m.remove(key@).dom() =~= m.dom().remove(key@));
            total_insert(m.remove(key@), key@, live@);
            assert(m.remove(key@).insert(key@, live@) =~= m.insert(key@, live@));
            assert(m.insert(key@, live@).dom() =~= m.dom());
        }
        self.generation = self.generation + 1;
        self.receiving.insert(key, live);
        self.done(Answer::Ticket(ticket))
    }

    fn check_contents(intent: &Intent, facts: &StageFacts, bytes: &Result<Vec<u8>, Error>) -> (r: Result<
        VerifiedPng,
        Error,
    >)
        ensures
            (match r {
                Ok(v) => Ok(v@),
                Err(e) => Err(e@),
            }) == contents_check(intent@, *facts, *bytes),
    {
        verify_live_stage(facts)?;
        let bytes = read_bounded(&facts.held, bytes, MAX_PNG_BYTES)?;
        verify_png(intent, bytes.as_slice())
    }

    fn on_finish_read(&mut self, key: String, facts: &StageFacts, bytes: &Result<Vec<u8>, Error>, at: &str) -> (step:
        Step)
        requires
            old(self).fit(),
        ensures
            final(self).moved(
                step,
                protocol::on_finish_read(old(self)@, key@, *facts, *bytes, at@),
            ),
    {
        let live: Receiving = match self.receiving.get(key.as_str()) {
            None => return self.abandoned(),
            Some(live) => live.clone(),
        };
        match Self::check_contents(&live.intent, facts, bytes) {
            Err(e) => self.failed(key.as_str(), "verify", e.message, at),
            Ok(verified) => self.act(
                Pending::Survey(Goal::Accept { key, verified }),
                Action::Survey {
                    slug: live.operation.slug,
                    destination: live.intent.destination,
                },
            ),
        }
    }

    fn on_accept_survey(
        &mut self,
        key: String,
        verified: VerifiedPng,
        facts: &ParentFacts,
        at: &str,
    ) -> (step: Step)
        requires
            old(self).fit(),
        ensures
            final(self).moved(
                step,
                protocol::on_accept_survey(old(self)@, key@, verified@, *facts, at@),
            ),
    {
        let live: Receiving = match self.receiving.get(key.as_str()) {
            None => return self.abandoned(),
            Some(live) => live.clone(),
        };
        match allowed_parent(
            self.home.as_str(),
            live.operation.slug.as_str(),
            live.intent.destination.as_str(),
            facts,
        ) {
            Err(e) => self.failed(key.as_str(), "prepare", e.message, at),
            Ok((destination, parent)) => {
                if !same_path(destination.as_str(), live.destination.as_str()) {
                    return self.failed(
                        key.as_str(),
                        "prepare",
                        "destination parent moved or was replaced".to_owned(),
                        at,
                    );
                }
                self.act(
                    Pending::FinishInspect { key: key.clone(), verified, destination, parent },
                    Action::Inspect { key, name: live.stage_name },
                )
            },
        }
    }

    fn check_place(parent: Identity, facts: &StageFacts) -> (r: Result<Identity, Error>)
        ensures
            (match r {
                Ok(v) => Ok(v),
                Err(e) => Err(e@),
            }) == place_check(parent, *facts),
    {
        match &facts.parent {
            Err(e) => Err(e.clone()),
            Ok(held) => {
                if *held != parent {
                    return Err(invalid("destination parent moved or was replaced"));
                }
                verify_live_stage(facts)?;
                match &facts.held {
                    Ok(held) => Ok(held.identity),
                    Err(e) => Err(e.clone()),
                }
            },
        }
    }

    fn on_finish_inspect(
        &mut self,
        key: String,
        verified: VerifiedPng,
        destination: String,
        parent: Identity,
        facts: &StageFacts,
        at: &str,
    ) -> (step: Step)
        requires
            old(self).fit(),
        ensures
            final(self).moved(
                step,
                protocol::on_finish_inspect(
                    old(self)@,
                    key@,
                    verified@,
                    destination@,
                    parent,
                    *facts,
                    at@,
                ),
            ),
    {
        if !self.receiving.contains(key.as_str()) {
            return self.abandoned();
        }
        match Self::check_place(parent, facts) {
            Err(e) => self.failed(key.as_str(), "prepare", e.message, at),
            Ok(stage) => self.act(
                Pending::FinishSync { key: key.clone(), verified, destination, parent, stage },
                Action::Sync { key },
            ),
        }
    }

    fn poison(&mut self, reason: &str)
        requires
            old(self).fit(),
        ensures
            final(self).fit(),
            final(self)@ == protocol::poison(old(self)@, reason@),
    {
        self.poisoned = Some(
            cat3("journal synchronization uncertain: ", reason, "; reopen the capability"),
        );
    }

    fn persist(&mut self, key: &str, record: &Record, pending: Pending, after: After) -> (step: Step)
        requires
            old(self).fit(),
            pending@ is AcceptJournal || pending@ is TerminalJournal,
        ensures
            final(self).moved(
                step,
                protocol::persist(old(self)@, key@, record@, pending@, after),
            ),
    {
        if self.poisoned.is_some() {
            return self.settled(key, after);
        }
        let text = write_record(record);
        if byte_len(text.as_str()) as u64 > MAX_JOURNAL_BYTES {
            self.poison("journal entry exceeds limit");
            return self.settled(key, after);
        }
        self.act(pending, Action::WriteJournal { key: key.to_owned(), text })
    }

    fn on_finish_sync(
        &mut self,
        key: String,
        verified: VerifiedPng,
        destination: String,
        parent: Identity,
        stage: Identity,
        effect: Result<(), Error>,
        at: &str,
    ) -> (step: Step)
        requires
            old(self).fit(),
            old(self)@.pending is Idle,
        ensures
            final(self).moved(
                step,
                protocol::on_finish_sync(
                    old(self)@,
                    key@,
                    verified@,
                    destination@,
                    parent,
                    stage,
                    effect,
                    at@,
                ),
            ),
    {
        let live: Receiving = match self.receiving.get(key.as_str()) {
            None => return self.abandoned(),
            Some(live) => live.clone(),
        };
        if let Err(e) = effect {
            return self.failed(key.as_str(), "sync", e.message, at);
        }
        let bytes: u64 = live.intent.bytes;
        let record = Record {
            version: RECORD_VERSION,
            operation: live.operation,
            attempt: live.attempt,
            intent: live.intent,
            destination,
            parent_identity: parent,
            stage_name: live.stage_name,
            stage_identity: stage,
            verified,
            accepted_at: at.to_owned(),
            terminal: None,
        };
        proof {
            total_remove(self@.receiving, key@);
            total_nonnegative(self@.receiving.remove(key@));
            assert(self@.receiving.remove(key@).dom() =~= self@.receiving.dom().remove(key@));
        }
        self.receiving.remove(key.as_str());
        self.announced = self.announced - bytes;
        self.records.insert(key.clone(), record.clone());
        self.persist(
            key.as_str(),
            &record,
            Pending::AcceptJournal { key: key.clone() },
            After::Status,
        )
    }

    fn on_accept_journal(&mut self, key: String, effect: Result<(), Error>) -> (step: Step)
        requires
            old(self).fit(),
        ensures
            final(self).moved(step, protocol::on_accept_journal(old(self)@, key@, effect)),
    {
        if let Err(e) = effect {
            self.poison(e.message.as_str());
            return self.settled(key.as_str(), After::Status);
        }
        let record: Record = match self.records.get(key.as_str()) {
            None => return self.abandoned(),
            Some(record) => record.clone(),
        };
        self.survey(&record, Goal::Publish { key })
    }

    fn check_parent(&self, record: &Record, facts: &ParentFacts) -> (r: Result<(), Error>)
        ensures
            checked(r) == record_parent(self@, record@, *facts),
    {
        let (destination, parent) = allowed_parent(
            self.home.as_str(),
            record.operation.slug.as_str(),
            record.intent.destination.as_str(),
            facts,
        )?;
        if !same_path(destination.as_str(), record.destination.as_str()) || parent
            != record.parent_identity {
            return Err(invalid("destination parent moved or was replaced"));
        }
        Ok(())
    }

    fn terminalize(&mut self, key: &str, outcome: Outcome, at: &str, after: After) -> (step: Step)
        requires
            old(self).fit(),
        ensures
            final(self).moved(
                step,
                protocol::terminalize(old(self)@, key@, outcome@, at@, after),
            ),
    {
        let mut record: Record = match self.records.get(key) {
            None => return self.abandoned(),
            Some(record) => record.clone(),
        };
        if record.terminal.is_some() {
            return self.settled(key, after);
        }
        let receipt = terminal_receipt(key, &record, outcome, at);
        record.terminal = Some(receipt.clone());
        self.persist(
            key,
            &record,
            Pending::TerminalJournal { key: key.to_owned(), receipt, after },
            after,
        )
    }

    fn publish_refused(&mut self, key: &str, kind: ErrorKind, at: &str) -> (step: Step)
        requires
            old(self).fit(),
        ensures
            final(self).moved(
                step,
                protocol::publish_refused(old(self)@, key@, kind, at@),
            ),
    {
        let known: bool = match self.publication.get(key) {
            Some(b) => *b,
            None => false,
        };
        if known || self.poisoned.is_some() || kind != ErrorKind::AlreadyExists {
            return self.settled(key, After::Status);
        }
        self.publication.insert(key.to_owned(), false);
        self.terminalize(
            key,
            Outcome::Failed {
                action: "publish".to_owned(),
                reason: "destination already exists; nothing replaced".to_owned(),
            },
            at,
            After::Status,
        )
    }

    fn on_publish_survey(&mut self, key: String, facts: &ParentFacts, at: &str) -> (step: Step)
        requires
            old(self).fit(),
        ensures
            final(self).moved(
                step,
                protocol::on_publish_survey(old(self)@, key@, *facts, at@),
            ),
    {
        let record: Record = match self.records.get(key.as_str()) {
            None => return self.abandoned(),
            Some(record) => record.clone(),
        };
        match self.check_parent(&record, facts) {
            Err(e) => self.publish_refused(key.as_str(), e.kind, at),
            Ok(()) => self.act(
                Pending::PublishStage { key },
                Action::OpenStage { name: record.stage_name },
            ),
        }
    }

    fn on_publish_stage(&mut self, key: String, file: &Result<FileFacts, Error>, at: &str) -> (step: Step)
        requires
            old(self).fit(),
        ensures
            final(self).moved(
                step,
                protocol::on_publish_stage(old(self)@, key@, *file, at@),
            ),
    {
        let record: Record = match self.records.get(key.as_str()) {
            None => return self.abandoned(),
            Some(record) => record.clone(),
        };
        match record_stage(file, record.stage_identity) {
            Err(e) => self.publish_refused(key.as_str(), e.kind, at),
            Ok(()) => {
                let to = file_name(record.destination.as_str());
                self.act(
                    Pending::PublishLink { key },
                    Action::Link { from: record.stage_name, to },
                )
            },
        }
    }

    fn on_publish_link(&mut self, key: String, effect: Result<(), Error>, at: &str) -> (step: Step)
        requires
            old(self).fit(),
        ensures
            final(self).moved(
                step,
                protocol::on_publish_link(old(self)@, key@, effect, at@),
            ),
    {
        if let Err(e) = effect {
            return self.publish_refused(key.as_str(), e.kind, at);
        }
        self.publication.insert(key.clone(), true);
        self.linked.insert(key.clone(), ());
        assert(self.linked@.dom() =~= old(self)@.linked.insert(key@));
        self.act(Pending::PublishSync { key }, Action::SyncParent)
    }

    fn outcome_of(effect: Result<(), Error>) -> (r: Outcome)
        ensures
            r@ == published(effect),
    {
        match effect {
            Ok(()) => Outcome::Stored,
            Err(e) => Outcome::PublishedDurabilityUnconfirmed { reason: e.message },
        }
    }

    fn on_terminal_journal(
        &mut self,
        key: String,
        receipt: Receipt,
        after: After,
        effect: Result<(), Error>,
    ) -> (step: Step)
        requires
            old(self).fit(),
            old(self)@.pending is Idle,
        ensures
            final(self).moved(
                step,
                protocol::on_terminal_journal(old(self)@, key@, receipt@, after, effect),
            ),
    {
        if let Err(e) = effect {
            self.poison(e.message.as_str());
            return self.settled(key.as_str(), after);
        }
        let mut record: Record = match self.records.get(key.as_str()) {
            None => return self.abandoned(),
            Some(record) => record.clone(),
        };
        let observation = receipt_record(&receipt);
        record.terminal = Some(receipt);
        self.records.insert(key.clone(), record);
        self.observe(observation);
        self.cleanup(key.as_str(), after)
    }

    fn on_reconcile_survey(&mut self, key: String, after: After, facts: &ParentFacts) -> (step: Step)
        requires
            old(self).fit(),
        ensures
            final(self).moved(
                step,
                protocol::on_reconcile_survey(old(self)@, key@, after, *facts),
            ),
    {
        let record: Record = match self.records.get(key.as_str()) {
            None => return self.abandoned(),
            Some(record) => record.clone(),
        };
        match self.check_parent(&record, facts) {
            Err(_) => self.settled(key.as_str(), after),
            Ok(()) => {
                let destination = file_name(record.destination.as_str());
                self.act(
                    Pending::ReconcileEvidence { key, after },
                    Action::Evidence {
                        stage: record.stage_name,
                        destination,
                        limit: MAX_PNG_BYTES,
                    },
                )
            },
        }
    }

    fn check_evidence(record: &Record, facts: &EvidenceFacts) -> (r: Result<(), Error>)
        ensures
            checked(r) == evidence_check(record@, *facts),
    {
        record_stage(&facts.stage, record.stage_identity)?;
        match (&facts.stage, &facts.destination) {
            (Ok(stage), Ok(destination)) => {
                if stage.identity != destination.identity {
                    return Err(invalid("publication evidence differs"));
                }
                let bytes = read_bounded(&facts.stage, &facts.bytes, MAX_PNG_BYTES)?;
                verify_bytes(&record.intent, bytes.as_slice())
            },
            (_, Err(e)) => Err(e.clone()),
            (Err(e), _) => Err(e.clone()),
        }
    }

    fn on_reconcile_evidence(&mut self, key: String, after: After, facts: &EvidenceFacts) -> (step: Step)
        requires
            old(self).fit(),
        ensures
            final(self).moved(
                step,
                protocol::on_reconcile_evidence(old(self)@, key@, after, *facts),
            ),
    {
        let proved = match self.records.get(key.as_str()) {
            None => return self.abandoned(),
            Some(record) => Self::check_evidence(record, facts),
        };
        match proved {
            Err(_) => self.settled(key.as_str(), after),
            Ok(()) => self.act(Pending::ReconcileStage { key, after }, Action::SyncEvidence),
        }
    }

    fn on_reconcile_stage(&mut self, key: String, after: After, effect: Result<(), Error>) -> (step: Step)
        requires
            old(self).fit(),
        ensures
            final(self).moved(
                step,
                protocol::on_reconcile_stage(old(self)@, key@, after, effect),
            ),
    {
        if effect.is_err() {
            return self.settled(key.as_str(), after);
        }
        self.publication.insert(key.clone(), true);
        self.act(Pending::ReconcileParent { key, after }, Action::SyncParent)
    }

    fn on_cleanup_survey(&mut self, key: String, after: After, facts: &ParentFacts) -> (step: Step)
        requires
            old(self).fit(),
        ensures
            final(self).moved(
                step,
                protocol::on_cleanup_survey(old(self)@, key@, after, *facts),
            ),
    {
        let record: Record = match self.records.get(key.as_str()) {
            None => return self.abandoned(),
            Some(record) => record.clone(),
        };
        match self.check_parent(&record, facts) {
            Err(_) => self.settled(key.as_str(), after),
            Ok(()) => self.act(
                Pending::CleanupStage { key, after },
                Action::OpenStage { name: record.stage_name },
            ),
        }
    }

    fn on_cleanup_stage(&mut self, key: String, after: After, file: &Result<FileFacts, Error>) -> (step:
        Step)
        requires
            old(self).fit(),
        ensures
            final(self).moved(
                step,
                protocol::on_cleanup_stage(old(self)@, key@, after, *file),
            ),
    {
        let record: Record = match self.records.get(key.as_str()) {
            None => return self.abandoned(),
            Some(record) => record.clone(),
        };
        match record_stage(file, record.stage_identity) {
            Err(_) => self.settled(key.as_str(), after),
            Ok(()) => self.act(
                Pending::CleanupUnlink { key, after },
                Action::Unlink { name: record.stage_name },
            ),
        }
    }

    fn on_cleanup_unlink(&mut self, key: String, after: After, removal: &Removal) -> (step: Step)
        requires
            old(self).fit(),
            old(self)@.pending is Idle,
        ensures
            final(self).moved(
                step,
                protocol::on_cleanup_unlink(old(self)@, key@, after, *removal),
            ),
    {
        let record: Record = match self.records.get(key.as_str()) {
            None => return self.abandoned(),
            Some(record) => record.clone(),
        };
        self.observe_removal(
            record.destination.as_str(),
            record.stage_name.as_str(),
            &record.operation,
            removal,
        );
        self.settled(key.as_str(), after)
    }

    fn on_survey(&mut self, goal: Goal, facts: &ParentFacts, at: &str) -> (step: Step)
        requires
            old(self).fit(),
            goal@ matches Goal::Begin { key, intent, .. } ==> admission_check(
                old(self)@,
                intent,
            ) is Ok && !old(self)@.receiving.contains_key(key),
        ensures
            final(self).moved(step, protocol::on_survey(old(self)@, goal@, *facts, at@)),
    {
        match goal {
            Goal::Begin { key, operation, attempt, intent } => {
                let destination = match allowed_parent(
                    self.home.as_str(),
                    operation.slug.as_str(),
                    intent.destination.as_str(),
                    facts,
                ) {
                    Err(e) => return self.refused(e),
                    Ok((destination, _)) => destination,
                };
                self.act(
                    Pending::BeginRandom { key, operation, attempt, intent, destination },
                    Action::Random,
                )
            },
            Goal::Accept { key, verified } => self.on_accept_survey(key, verified, facts, at),
            Goal::Publish { key } => self.on_publish_survey(key, facts, at),
            Goal::Reconcile { key, after } => self.on_reconcile_survey(key, after, facts),
            Goal::Cleanup { key, after } => self.on_cleanup_survey(key, after, facts),
        }
    }

    fn on_stage(&mut self, pending: Pending, facts: &StageFacts, at: &str) -> (step: Step)
        requires
            old(self).fit(),
            old(self)@.pending is Idle,
            within_limits(StoreView { pending: pending@, ..old(self)@ }),
        ensures
            final(self).moved(
                step,
                protocol::on_stage(old(self)@, pending@, *facts, at@),
            ),
    {
        match pending {
            Pending::AppendInspect { key, offset, bytes } => {
                self.on_append_inspect(key, offset, bytes, facts)
            },
            Pending::ReplaceInspect { key, attempt } => match verify_live_stage(facts) {
                Err(e) => self.refused(e),
                Ok(()) => self.act(
                    Pending::ReplaceTruncate { key: key.clone(), attempt },
                    Action::Truncate { key },
                ),
            },
            Pending::FinishInspect { key, verified, destination, parent } => {
                self.on_finish_inspect(key, verified, destination, parent, facts, at)
            },
            Pending::DiscardInspect { live, ending } => match verify_live_stage(facts) {
                Err(_) => self.discarded(ending),
                Ok(()) => {
                    let key: String = live.ticket.key().to_owned();
                    let name: String = live.stage_name.clone();
                    self.act(
                        Pending::DiscardUnlink { live, ending },
                        Action::Discard { key, name },
                    )
                },
            },
            _ => self.abandoned(),
        }
    }

    #[verifier::spinoff_prover]
    #[verifier::rlimit(40)]
    fn on_effect(&mut self, pending: Pending, effect: Result<(), Error>, at: &str) -> (step: Step)
        requires
            old(self).fit(),
            old(self)@.pending is Idle,
            within_limits(StoreView { pending: pending@, ..old(self)@ }),
        ensures
            final(self).moved(
                step,
                protocol::on_effect(old(self)@, pending@, effect, at@),
            ),
    {
        match pending {
            Pending::AppendWrite { end } => match effect {
                Err(e) => self.refused(e),
                Ok(()) => self.done(Answer::Written { end }),
            },
            Pending::ReplaceTruncate { key, attempt } => {
                self.on_replace_truncate(key, attempt, effect)
            },
            Pending::BeginCreate { key, operation, attempt, intent, destination, stage_name } => {
                self.on_create(key, operation, attempt, intent, destination, stage_name, effect)
            },
            Pending::FinishSync { key, verified, destination, parent, stage } => {
                self.on_finish_sync(key, verified, destination, parent, stage, effect, at)
            },
            Pending::AcceptJournal { key } => self.on_accept_journal(key, effect),
            Pending::PublishLink { key } => self.on_publish_link(key, effect, at),
            Pending::PublishSync { key } => {
                let outcome = Self::outcome_of(effect);
                self.terminalize(key.as_str(), outcome, at, After::Status)
            },
            Pending::ReconcileStage { key, after } => self.on_reconcile_stage(key, after, effect),
            Pending::ReconcileParent { key, after } => {
                let outcome = Self::outcome_of(effect);
                self.terminalize(key.as_str(), outcome, at, after)
            },
            Pending::TerminalJournal { key, receipt, after } => {
                self.on_terminal_journal(key, receipt, after, effect)
            },
            _ => self.abandoned(),
        }
    }

    /// Goes on with the operation under way, now that its action is performed.
    pub fn resume(&mut self, event: Event) -> (step: Step)
        requires
            old(self).wf(),
        ensures
            exists|at: Seq<char>|
                final(self).took(step, #[trigger] protocol::resumed(old(self)@, event, at)),
    {
        let at = now();
        self.resume_at(event, at.as_str())
    }

    /// Goes on with the operation under way at a given time.
    pub fn resume_at(&mut self, event: Event, at: &str) -> (step: Step)
        requires
            old(self).wf(),
        ensures
            final(self).took(step, protocol::resumed(old(self)@, event, at@)),
    {
        proof {
            stays_sound(self@, Call::Resume { event }, at@);
        }
        let mut pending = Pending::Idle;
        core::mem::swap(&mut self.pending, &mut pending);
        match event {
            Event::Survey(facts) => match pending {
                Pending::Survey(goal) => self.on_survey(goal, &facts, at),
                _ => self.abandoned(),
            },
            Event::Random(bytes) => match pending {
                Pending::BeginRandom { key, operation, attempt, intent, destination } => {
                    self.on_random(key, operation, attempt, intent, destination, bytes)
                },
                _ => self.abandoned(),
            },
            Event::Length(length) => match pending {
                Pending::Length { ticket, after } => match length {
                    Err(e) => self.refused(e),
                    Ok(received) => self.found(Status::Receiving { ticket, received }, after),
                },
                _ => self.abandoned(),
            },
            Event::Stage(facts) => self.on_stage(pending, &facts, at),
            Event::Contents(facts, bytes) => match pending {
                Pending::FinishRead { key } => self.on_finish_read(key, &facts, &bytes, at),
                _ => self.abandoned(),
            },
            Event::File(file) => match pending {
                Pending::PublishStage { key } => self.on_publish_stage(key, &file, at),
                Pending::CleanupStage { key, after } => self.on_cleanup_stage(key, after, &file),
                _ => self.abandoned(),
            },
            Event::Evidence(facts) => match pending {
                Pending::ReconcileEvidence { key, after } => {
                    self.on_reconcile_evidence(key, after, &facts)
                },
                _ => self.abandoned(),
            },
            Event::Effect(effect) => self.on_effect(pending, effect, at),
            Event::Removed(removal) => match pending {
                Pending::CleanupUnlink { key, after } => {
                    self.on_cleanup_unlink(key, after, &removal)
                },
                Pending::DiscardUnlink { live, ending } => {
                    self.observe_removal(
                        live.destination.as_str(),
                        live.stage_name.as_str(),
                        &live.operation,
                        &removal,
                    );
                    self.discarded(ending)
                },
                _ => self.abandoned(),
            },
        }
    }

    /// Recovers a record that an earlier store left: an operation that has
    /// ended is cleaned up after, any other is looked into.
    pub fn recover(&mut self, key: &str) -> (step: Step)
        requires
            old(self).wf(),
        ensures
            final(self).took(step, protocol::recover(old(self)@, key@)),
    {
        proof {
            stays_sound(self@, Call::Recover { key: key@ }, Seq::empty());
        }
        let ended: bool = match self.records.get(key) {
            None => return self.done(Answer::Recovered),
            Some(record) => record.terminal.is_some(),
        };
        if ended {
            self.cleanup(key, After::Recovered)
        } else {
            self.reconcile(key, After::Recovered)
        }
    }

    /// Discards a transfer because its store is closed.
    pub fn dismiss(&mut self, key: &str) -> (step: Step)
        requires
            old(self).wf(),
        ensures
            final(self).took(step, protocol::dismiss(old(self)@, key@)),
    {
        proof {
            stays_sound(self@, Call::Dismiss { key: key@ }, Seq::empty());
        }
        if self.receiving.contains(key) {
            self.discard(key, None)
        } else {
            self.done(Answer::Recovered)
        }
    }

    /// Takes over a record that an earlier store journaled under a key, before
    /// anything is received.
    pub(crate) fn load(&mut self, key: String, record: Record) -> (r: Result<(), Error>)
        requires
            old(self).wf(),
            old(self)@.pending is Idle,
            old(self)@.receiving == Map::<Seq<char>, ReceivingView>::empty(),
            old(self)@.outcomes == Map::<Seq<char>, Receipt<Seq<char>>>::empty(),
        ensures
            final(self).wf(),
            checked(r) == record_check(key@, record@),
            final(self)@ == (if r is Ok {
                StoreView { records: old(self)@.records.insert(key@, record@), ..old(self)@ }
            } else {
                old(self)@
            }),
    {
        proof {
            reveal(sound);
        }
        validate_record(key.as_str(), &record)?;
        self.records.insert(key, record);
        Ok(())
    }

    /// Takes the observations that nobody took yet.
    pub fn take_observations(&mut self) -> (r: Vec<Observation>)
        requires
            old(self).wf(),
        ensures
            final(self).wf(),
            seen(r@) == old(self)@.observations,
            final(self)@ == (StoreView { observations: Seq::empty(), ..old(self)@ }),
    {
        let mut taken: Vec<Observation> = Vec::new();
        core::mem::swap(&mut self.observations, &mut taken);
        proof {
            reveal(sound);
            assert(seen(self.observations@) =~= Seq::empty());
        }
        taken
    }

    /// Whether a transfer is being received under a key.
    pub fn is_receiving(&self, key: &str) -> (r: bool)
        ensures
            r == self@.receiving.contains_key(key@),
    {
        self.receiving.contains(key)
    }
}

} // verus!
