//! How a store is opened: its lock is examined, its journal is read entry by
//! entry, the journal is synchronized, and what an earlier store left is
//! recovered.
//!
//! An earlier store may have renamed a journal entry and lost the
//! synchronization of the journal, so that is made up for before any receipt is
//! answered with and before any staging file, which could still prove a
//! publication, is removed.

use vstd::prelude::*;

use crate::action::{Action, Event, Pending, Step};
use crate::clock::now;
use crate::error::{invalid, invalid_error, Error};
use crate::facts::{bounded, read_bounded, FileFacts};
use crate::identity::{key_check, validate_key};
use crate::model::{Receipt, ReceivingView, Record};
use crate::protocol;
use crate::protocol::{StoreView, MAX_JOURNAL_BYTES};
use crate::rules::record_check;
use crate::store::Store;
use crate::text::{ends_with, same_text, strip_suffix, texts};

verus! {

/// What an entry of the journal is, by its name.
#[derive(Debug, PartialEq, Eq)]
pub enum Entry<S = String> {
    /// The lock.
    Lock,
    /// An entry that was not finished, to be removed.
    Unfinished,
    /// The record that is kept under a key.
    Record { key: S },
}

impl View for Entry<String> {
    type V = Entry<Seq<char>>;

    open spec fn view(&self) -> Entry<Seq<char>> {
        match *self {
            Entry::Lock => Entry::Lock,
            Entry::Unfinished => Entry::Unfinished,
            Entry::Record { key } => Entry::Record { key: key@ },
        }
    }
}

/// A text without an ending that it has.
pub open spec fn without(name: Seq<char>, ending: Seq<char>) -> Seq<char> {
    name.take(name.len() - ending.len())
}

/// The result of [`classify`].
pub open spec fn classified(name: Option<Seq<char>>) -> Result<
    Entry<Seq<char>>,
    Error<Seq<char>>,
> {
    match name {
        None => Err(invalid_error("non-UTF8 journal name"@)),
        Some(name) => if name == ".lock"@ {
            Ok(Entry::Lock)
        } else if ends_with(name, ".new"@) {
            match key_check(without(name, ".new"@)) {
                Err(e) => Err(e),
                Ok(()) => Ok(Entry::Unfinished),
            }
        } else if ends_with(name, ".json"@) {
            match key_check(without(name, ".json"@)) {
                Err(e) => Err(e),
                Ok(()) => Ok(Entry::Record { key: without(name, ".json"@) }),
            }
        } else {
            Err(invalid_error("unknown journal file"@))
        },
    }
}

/// Tells what an entry of the journal is by its name, where it has a name in
/// UTF-8.
pub fn classify(name: Option<&str>) -> (r: Result<Entry, Error>)
    ensures
        (match r {
            Ok(entry) => Ok(entry@),
            Err(e) => Err(e@),
        }) == classified(
            match name {
                Some(name) => Some(name@),
                None => None,
            },
        ),
{
    let name = match name {
        None => return Err(invalid("non-UTF8 journal name")),
        Some(name) => name,
    };
    if same_text(name, ".lock") {
        return Ok(Entry::Lock);
    }
    if let Some(key) = strip_suffix(name, ".new") {
        validate_key(key)?;
        return Ok(Entry::Unfinished);
    }
    match strip_suffix(name, ".json") {
        None => Err(invalid("unknown journal file")),
        Some(key) => {
            validate_key(key)?;
            Ok(Entry::Record { key: key.to_owned() })
        },
    }
}

/// Something to do for a store that is being opened.
#[derive(Debug)]
pub enum Task<S = String, B = Vec<u8>> {
    /// Name the next entry of the journal. Answered by [`Report::Entry`].
    NextEntry,
    /// Remove an entry of the journal. Answered by [`Report::Effect`].
    Remove { name: S },
    /// Read an entry of the journal, one byte more than the limit at most, and
    /// the record that it holds. Answered by [`Report::Journal`].
    Read { name: S, limit: u64 },
    /// Synchronize the journal. Answered by [`Report::Effect`].
    Sync,
    /// Perform an action of the store. Answered by [`Report::Store`].
    Act(Action<S, B>),
}

impl View for Task<String, Vec<u8>> {
    type V = Task<Seq<char>, Seq<u8>>;

    open spec fn view(&self) -> Task<Seq<char>, Seq<u8>> {
        match *self {
            Task::NextEntry => Task::NextEntry,
            Task::Remove { name } => Task::Remove { name: name@ },
            Task::Read { name, limit } => Task::Read { name: name@, limit },
            Task::Sync => Task::Sync,
            Task::Act(action) => Task::Act(action@),
        }
    }
}

/// How a request went.
#[derive(Debug)]
pub enum Report {
    /// The name of an entry, where it is UTF-8; nothing behind the last entry.
    Entry(Result<Option<Option<String>>, Error>),
    Effect(Result<(), Error>),
    /// A journal entry: what is known of the file, its bytes, and the record
    /// that they hold.
    Journal(Result<FileFacts, Error>, Result<Vec<u8>, Error>, Result<Record, Error>),
    Store(Event),
}

/// How far the opening is.
pub enum Stage<S = String> {
    /// The next entry is being named.
    Listing,
    /// An unfinished entry is being removed.
    Removing,
    /// The record under a key is being read.
    Reading { key: S },
    /// The journal is being synchronized.
    Syncing,
    /// What an earlier store left is being recovered.
    Recovering,
}

impl View for Stage<String> {
    type V = Stage<Seq<char>>;

    open spec fn view(&self) -> Stage<Seq<char>> {
        match *self {
            Stage::Listing => Stage::Listing,
            Stage::Removing => Stage::Removing,
            Stage::Reading { key } => Stage::Reading { key: key@ },
            Stage::Syncing => Stage::Syncing,
            Stage::Recovering => Stage::Recovering,
        }
    }
}

/// A store that is being opened.
pub struct Opening {
    store: Store,
    keys: Vec<String>,
    stage: Stage,
}

/// A store that is being opened, as contracts see it.
pub struct OpeningView {
    pub store: StoreView,
    /// The records that are still to be recovered.
    pub keys: Seq<Seq<char>>,
    pub stage: Stage<Seq<char>>,
}

impl View for Opening {
    type V = OpeningView;

    closed spec fn view(&self) -> OpeningView {
        OpeningView { store: self.store@, keys: texts(self.keys@), stage: self.stage@ }
    }
}

/// What the opening of a store comes to.
pub enum Progress {
    /// It goes on once a request is answered.
    Ask(Opening, Task),
    /// The store is open.
    Opened(Store),
    /// The store cannot be opened.
    Failed(Error),
}

/// What the opening of a store comes to, as contracts see it.
pub enum ProgressView {
    Ask(OpeningView, Task<Seq<char>, Seq<u8>>),
    Opened(StoreView),
    Failed(Error<Seq<char>>),
}

impl View for Progress {
    type V = ProgressView;

    open spec fn view(&self) -> ProgressView {
        match *self {
            Progress::Ask(opening, request) => ProgressView::Ask(opening@, request@),
            Progress::Opened(store) => ProgressView::Opened(store@),
            Progress::Failed(e) => ProgressView::Failed(e@),
        }
    }
}

/// The state of a store that has not begun.
pub open spec fn fresh(home: Seq<char>, owner: u64) -> StoreView {
    StoreView {
        home,
        owner,
        generation: 0,
        receiving: Map::empty(),
        records: Map::empty(),
        outcomes: Map::empty(),
        observations: Seq::empty(),
        poisoned: None,
        publication: Map::empty(),
        linked: Set::empty(),
        pending: Pending::Idle,
    }
}

/// The beginning of an opening: the lock must be a regular file with one name.
pub open spec fn started(home: Seq<char>, owner: u64, lock: FileFacts) -> ProgressView {
    if !lock.is_file || lock.links != 1 {
        ProgressView::Failed(invalid_error("invalid screenshot store lock"@))
    } else {
        ProgressView::Ask(
            OpeningView { store: fresh(home, owner), keys: Seq::empty(), stage: Stage::Listing },
            Task::NextEntry,
        )
    }
}

/// An entry was named.
pub open spec fn on_entry(
    v: OpeningView,
    entry: Result<Option<Option<String>>, Error>,
) -> ProgressView {
    match entry {
        Err(e) => ProgressView::Failed(e@),
        Ok(None) => ProgressView::Ask(
            OpeningView { stage: Stage::Syncing, ..v },
            Task::Sync,
        ),
        Ok(Some(name)) => match classified(
            match name {
                Some(name) => Some(name@),
                None => None,
            },
        ) {
            Err(e) => ProgressView::Failed(e),
            Ok(Entry::Lock) => ProgressView::Ask(
                OpeningView { stage: Stage::Listing, ..v },
                Task::NextEntry,
            ),
            Ok(Entry::Unfinished) => ProgressView::Ask(
                OpeningView { stage: Stage::Removing, ..v },
                Task::Remove { name: name->Some_0@ },
            ),
            Ok(Entry::Record { key }) => ProgressView::Ask(
                OpeningView { stage: Stage::Reading { key }, ..v },
                Task::Read { name: name->Some_0@, limit: MAX_JOURNAL_BYTES },
            ),
        },
    }
}

/// A journal entry was read.
pub open spec fn on_journal(
    v: OpeningView,
    key: Seq<char>,
    file: Result<FileFacts, Error>,
    bytes: Result<Vec<u8>, Error>,
    record: Result<Record, Error>,
) -> ProgressView {
    match bounded(file, bytes, MAX_JOURNAL_BYTES) {
        Err(e) => ProgressView::Failed(e),
        Ok(_) => match record {
            Err(e) => ProgressView::Failed(e@),
            Ok(record) => match record_check(key, record@) {
                Err(e) => ProgressView::Failed(e),
                Ok(()) => ProgressView::Ask(
                    OpeningView {
                        store: StoreView {
                            records: v.store.records.insert(key, record@),
                            ..v.store
                        },
                        keys: v.keys.push(key),
                        stage: Stage::Listing,
                    },
                    Task::NextEntry,
                ),
            },
        },
    }
}

/// Recovers record after record, until one takes an action or none is left.
pub open spec fn recovering(store: StoreView, keys: Seq<Seq<char>>) -> ProgressView
    decreases keys.len(),
{
    if keys.len() == 0 {
        ProgressView::Opened(store)
    } else {
        let turn = protocol::recover(store, keys.last());
        match turn.step {
            Step::Act(action) => ProgressView::Ask(
                OpeningView {
                    store: turn.store,
                    keys: keys.drop_last(),
                    stage: Stage::Recovering,
                },
                Task::Act(action),
            ),
            Step::Done(_) => recovering(turn.store, keys.drop_last()),
        }
    }
}

/// An event came for the record that is being recovered.
#[verifier::opaque]
pub open spec fn on_event(v: OpeningView, event: Event, at: Seq<char>) -> ProgressView {
    let turn = protocol::resumed(v.store, event, at);
    match turn.step {
        Step::Act(action) => ProgressView::Ask(
            OpeningView { store: turn.store, ..v },
            Task::Act(action),
        ),
        Step::Done(_) => recovering(turn.store, v.keys),
    }
}

/// The refusal of a reply to a request that was not made.
pub open spec fn unasked() -> ProgressView {
    ProgressView::Failed(invalid_error("the store does not wait for this event"@))
}

/// What a reply makes of an opening, observed at a time.
pub open spec fn advanced(v: OpeningView, reply: Report, at: Seq<char>) -> ProgressView {
    match (v.stage, reply) {
        (Stage::Listing, Report::Entry(entry)) => on_entry(v, entry),
        (Stage::Removing, Report::Effect(effect)) => match effect {
            Err(e) => ProgressView::Failed(e@),
            Ok(()) => ProgressView::Ask(
                OpeningView { stage: Stage::Listing, ..v },
                Task::NextEntry,
            ),
        },
        (Stage::Reading { key }, Report::Journal(file, bytes, record)) => {
            on_journal(v, key, file, bytes, record)
        },
        (Stage::Syncing, Report::Effect(effect)) => match effect {
            Err(e) => ProgressView::Failed(e@),
            Ok(()) => recovering(v.store, v.keys),
        },
        (Stage::Recovering, Report::Store(event)) => on_event(v, event, at),
        _ => unasked(),
    }
}

/// Whether what an opening comes to is well-formed.
pub open spec fn is_well(p: Progress) -> bool {
    match p {
        Progress::Ask(opening, _) => opening.wf(),
        Progress::Opened(store) => store.wf(),
        Progress::Failed(_) => true,
    }
}

impl Opening {
    /// Whether the store is well-formed, and nothing is received before the
    /// records are recovered.
    pub closed spec fn wf(&self) -> bool {
        &&& self.store.wf()
        &&& !(self.stage is Recovering) ==> {
            &&& self.store@.pending is Idle
            &&& self.store@.receiving == Map::<Seq<char>, ReceivingView>::empty()
            &&& self.store@.outcomes == Map::<Seq<char>, Receipt<Seq<char>>>::empty()
        }
    }

    /// Starts to open the store of a home directory, whose lock is held.
    pub fn start(home: String, owner: u64, lock: FileFacts) -> (r: Progress)
        ensures
            is_well(r),
            r@ == started(home@, owner, lock),
    {
        if !lock.is_file || lock.links != 1 {
            return Progress::Failed(invalid("invalid screenshot store lock"));
        }
        let keys: Vec<String> = Vec::new();
        assert(texts(keys@) =~= Seq::empty());
        Progress::Ask(
            Opening { store: Store::open(home, owner), keys, stage: Stage::Listing },
            Task::NextEntry,
        )
    }

    fn on_entry(self, entry: Result<Option<Option<String>>, Error>) -> (r: Progress)
        requires
            self.wf(),
            self@.stage is Listing,
        ensures
            is_well(r),
            r@ == on_entry(self@, entry),
    {
        let name: Option<String> = match entry {
            Err(e) => return Progress::Failed(e),
            Ok(None) => {
                return Progress::Ask(
                    Opening { store: self.store, keys: self.keys, stage: Stage::Syncing },
                    Task::Sync,
                );
            },
            Ok(Some(name)) => name,
        };
        let name: String = match name {
            None => return Progress::Failed(invalid("non-UTF8 journal name")),
            Some(name) => name,
        };
        match classify(Some(name.as_str())) {
            Err(e) => Progress::Failed(e),
            Ok(Entry::Lock) => Progress::Ask(
                Opening { store: self.store, keys: self.keys, stage: Stage::Listing },
                Task::NextEntry,
            ),
            Ok(Entry::Unfinished) => Progress::Ask(
                Opening { store: self.store, keys: self.keys, stage: Stage::Removing },
                Task::Remove { name },
            ),
            Ok(Entry::Record { key }) => Progress::Ask(
                Opening { store: self.store, keys: self.keys, stage: Stage::Reading { key } },
                Task::Read { name, limit: MAX_JOURNAL_BYTES },
            ),
        }
    }

    fn on_journal(
        self,
        key: String,
        file: Result<FileFacts, Error>,
        bytes: Result<Vec<u8>, Error>,
        record: Result<Record, Error>,
    ) -> (r: Progress)
        requires
            self.wf(),
            !(self@.stage is Recovering),
        ensures
            is_well(r),
            r@ == on_journal(self@, key@, file, bytes, record),
    {
        if let Err(e) = read_bounded(&file, &bytes, MAX_JOURNAL_BYTES) {
            return Progress::Failed(e);
        }
        let record = match record {
            Err(e) => return Progress::Failed(e),
            Ok(record) => record,
        };
        let mut store = self.store;
        let mut keys = self.keys;
        if let Err(e) = store.load(key.clone(), record) {
            return Progress::Failed(e);
        }
        let ghost before = keys@;
        keys.push(key);
        assert(texts(keys@) =~= texts(before).push(key@));
        Progress::Ask(Opening { store, keys, stage: Stage::Listing }, Task::NextEntry)
    }

    fn recovering(opened: Store, names: Vec<String>) -> (r: Progress)
        requires
            opened.wf(),
        ensures
            is_well(r),
            r@ == recovering(opened@, texts(names@)),
    {
        let mut store = opened;
        let mut keys = names;
        loop
            invariant
                store.wf(),
                recovering(store@, texts(keys@)) == recovering(opened@, texts(names@)),
            decreases keys@.len(),
        {
            let ghost before = keys@;
            match keys.pop() {
                None => return Progress::Opened(store),
                Some(key) => {
                    assert(texts(before).last() == key@);
                    assert(texts(before).drop_last() =~= texts(keys@));
                    if let Step::Act(action) = store.recover(key.as_str()) {
                        return Progress::Ask(
                            Opening { store, keys, stage: Stage::Recovering },
                            Task::Act(action),
                        );
                    }
                },
            }
        }
    }

    /// Goes on with the opening, now that its request is answered.
    pub fn advance(self, reply: Report) -> (r: Progress)
        requires
            self.wf(),
        ensures
            is_well(r),
            exists|at: Seq<char>| r@ == #[trigger] advanced(self@, reply, at),
    {
        let at = now();
        self.advance_at(reply, at.as_str())
    }

    /// Goes on with the opening at a given time.
    pub fn advance_at(self, reply: Report, at: &str) -> (r: Progress)
        requires
            self.wf(),
        ensures
            is_well(r),
            r@ == advanced(self@, reply, at@),
    {
        match (self.stage, reply) {
            (Stage::Listing, Report::Entry(entry)) => Opening {
                store: self.store,
                keys: self.keys,
                stage: Stage::Listing,
            }.on_entry(entry),
            (Stage::Removing, Report::Effect(effect)) => match effect {
                Err(e) => Progress::Failed(e),
                Ok(()) => Progress::Ask(
                    Opening { store: self.store, keys: self.keys, stage: Stage::Listing },
                    Task::NextEntry,
                ),
            },
            (Stage::Reading { key }, Report::Journal(file, bytes, record)) => Opening {
                store: self.store,
                keys: self.keys,
                stage: Stage::Listing,
            }.on_journal(key, file, bytes, record),
            (Stage::Syncing, Report::Effect(effect)) => match effect {
                Err(e) => Progress::Failed(e),
                Ok(()) => Self::recovering(self.store, self.keys),
            },
            (Stage::Recovering, Report::Store(event)) => {
                proof {
                    reveal(on_event);
                }
                let mut store = self.store;
                match store.resume_at(event, at) {
                    Step::Act(action) => Progress::Ask(
                        Opening { store, keys: self.keys, stage: Stage::Recovering },
                        Task::Act(action),
                    ),
                    Step::Done(_) => Self::recovering(store, self.keys),
                }
            },
            _ => Progress::Failed(invalid("the store does not wait for this event")),
        }
    }
}

/// Nothing of an earlier store is recovered, no staging file is removed and no
/// store is open before the journal is synchronized.
pub proof fn recovery_follows_synchronization(v: OpeningView, reply: Report, at: Seq<char>)
    requires
        !(v.stage is Recovering),
        v.stage is Syncing ==> !(reply matches Report::Effect(effect) && effect is Ok),
    ensures
        match advanced(v, reply, at) {
            ProgressView::Ask(_, request) => !(request is Act),
            ProgressView::Opened(_) => false,
            ProgressView::Failed(_) => true,
        },
{
}

/// Once the journal is read and synchronized, the store opens: a record that
/// cannot be recovered keeps no store from opening.
pub proof fn recovering_never_fails(store: StoreView, keys: Seq<Seq<char>>)
    ensures
        !(recovering(store, keys) is Failed),
    decreases keys.len(),
{
    if keys.len() > 0 {
        let turn = protocol::recover(store, keys.last());
        recovering_never_fails(turn.store, keys.drop_last());
    }
}

} // verus!
