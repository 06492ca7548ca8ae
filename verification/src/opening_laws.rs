//! What the opening of a store is for: how a journal is told from other files,
//! read, and recovered.

use vstd::prelude::*;

use crate::action::{Event, Step};
use crate::error::{Error, ErrorKind};
use crate::facts::FileFacts;
use crate::identity::is_key;
use crate::model::Record;
use crate::opening::{
    advanced, classified, recovering, started, Entry, OpeningView, ProgressView, Report, Stage,
    Task,
};
use crate::protocol::{recover, resumed, StoreView};
use crate::rules::record_check;

verus! {

/// Whether a name is told with an error.
pub open spec fn is_refused(
    r: Result<Entry<Seq<char>>, Error<Seq<char>>>,
    message: Seq<char>,
) -> bool {
    r == Err::<Entry<Seq<char>>, Error<Seq<char>>>(
        Error { kind: ErrorKind::InvalidData, message },
    )
}

/// The files of a journal are told by their names: the lock, entries that were not
/// finished, and records, which are both named by a key.
pub proof fn journal_files_are_told_by_their_names(key: Seq<char>)
    ensures
        classified(Some(".lock"@)) == Ok::<Entry<Seq<char>>, Error<Seq<char>>>(Entry::Lock),
        is_key(key) ==> classified(Some(key + ".json"@)) == Ok::<
            Entry<Seq<char>>,
            Error<Seq<char>>,
        >(Entry::Record { key }),
        is_key(key) ==> classified(Some(key + ".new"@)) == Ok::<
            Entry<Seq<char>>,
            Error<Seq<char>>,
        >(Entry::Unfinished),
        !is_key(key) ==> is_refused(
            classified(Some(key + ".json"@)),
            "invalid journal key or SHA-256"@,
        ),
        !is_key(key) ==> is_refused(
            classified(Some(key + ".new"@)),
            "invalid journal key or SHA-256"@,
        ),
        is_refused(classified(None), "non-UTF8 journal name"@),
{
    reveal_strlit(".lock");
    reveal_strlit(".new");
    reveal_strlit(".json");
    let record = key + ".json"@;
    let unfinished = key + ".new"@;
    assert(record.last() == 'n' && unfinished.last() == 'w' && ".lock"@.last() == 'k');
    assert(record.skip(record.len() - 5) =~= ".json"@);
    assert(record.take(record.len() - 5) =~= key);
    assert(unfinished.skip(unfinished.len() - 4) =~= ".new"@);
    assert(unfinished.take(unfinished.len() - 4) =~= key);
    if record.len() >= 4 {
        let end = record.skip(record.len() - 4);
        assert(end[3] == 'n');
        assert(".new"@[3] == 'w');
    }
}

/// A file that is none of these is refused.
pub proof fn other_files_are_refused(name: Seq<char>)
    requires
        name != ".lock"@,
        forall|rest: Seq<char>| name != #[trigger] (rest + ".new"@),
        forall|rest: Seq<char>| name != #[trigger] (rest + ".json"@),
    ensures
        is_refused(classified(Some(name)), "unknown journal file"@),
{
    crate::text_laws::beginnings_and_ends(name, ".new"@);
    crate::text_laws::beginnings_and_ends(name, ".json"@);
}

/// A store is opened with its lock, which must be a file with one name; it knows
/// nothing at first, and asks for the journal's entries.
pub proof fn openings_start_with_nothing(home: Seq<char>, owner: u64, lock: FileFacts)
    ensures
        !lock.is_file || lock.links != 1 ==> started(home, owner, lock) == ProgressView::Failed(
            Error { kind: ErrorKind::InvalidData, message: "invalid screenshot store lock"@ },
        ),
        lock.is_file && lock.links == 1 ==> {
            &&& started(home, owner, lock) matches ProgressView::Ask(v, task)
            &&& task == Task::<Seq<char>, Seq<u8>>::NextEntry
            &&& v.stage == Stage::<Seq<char>>::Listing
            &&& v.keys.len() == 0
            &&& v.store.home == home
            &&& v.store.owner == owner
            &&& v.store.generation == 0
            &&& v.store.poisoned is None
            &&& v.store.observations.len() == 0
            &&& forall|key: Seq<char>|
                !(#[trigger] v.store.records.contains_key(key))
            &&& forall|key: Seq<char>|
                !(#[trigger] v.store.receiving.contains_key(key))
            &&& forall|key: Seq<char>|
                !(#[trigger] v.store.outcomes.contains_key(key))
            &&& forall|key: Seq<char>|
                !(#[trigger] v.store.publication.contains_key(key))
            &&& forall|key: Seq<char>| !(#[trigger] v.store.linked.contains(key))
        },
{
}

/// The entries of a journal are gone through one after another: the lock is left
/// alone, an unfinished entry is removed, and a record is read, up to 65,536 bytes
/// of it. Behind the last entry the journal is synchronized.
pub proof fn journals_are_gone_through(
    v: OpeningView,
    name: String,
    key: Seq<char>,
    e: Error,
    at: Seq<char>,
)
    requires
        v.stage == Stage::<Seq<char>>::Listing,
        is_key(key),
    ensures
        ({
            let lists = |p: ProgressView, task: Task<Seq<char>, Seq<u8>>, stage: Stage<Seq<char>>|
                p == ProgressView::Ask(OpeningView { stage, ..v }, task);
            let entry = advanced(v, Report::Entry(Ok(Some(Some(name)))), at);
            &&& name@ == ".lock"@ ==> lists(entry, Task::NextEntry, Stage::Listing)
            &&& name@ == key + ".new"@ ==> lists(
                entry,
                Task::Remove { name: name@ },
                Stage::Removing,
            )
            &&& name@ == key + ".json"@ ==> lists(
                entry,
                Task::Read { name: name@, limit: 65_536 },
                Stage::Reading { key },
            )
            &&& lists(advanced(v, Report::Entry(Ok(None)), at), Task::Sync, Stage::Syncing)
            &&& advanced(v, Report::Entry(Err(e)), at) == ProgressView::Failed(e@)
        }),
{
    journal_files_are_told_by_their_names(key);
}

/// An unfinished entry that was removed is passed over.
pub proof fn unfinished_entries_are_passed_over(v: OpeningView, e: Error, at: Seq<char>)
    requires
        v.stage == Stage::<Seq<char>>::Removing,
    ensures
        advanced(v, Report::Effect(Ok(())), at) == ProgressView::Ask(
            OpeningView { stage: Stage::Listing, ..v },
            Task::NextEntry,
        ),
        advanced(v, Report::Effect(Err(e)), at) == ProgressView::Failed(e@),
{
}

/// A record that is in order is taken up under its key, and the next entry is asked
/// for. One that cannot be read, is too long or is not in order ends the opening.
pub proof fn records_are_taken_up(
    v: OpeningView,
    key: Seq<char>,
    file: FileFacts,
    bytes: Vec<u8>,
    record: Record,
    e: Error,
    at: Seq<char>,
)
    requires
        v.stage == (Stage::Reading { key }),
    ensures
        ({
            let fits = file.is_file && file.length <= 65_536 && bytes@.len() <= 65_536;
            let p = advanced(v, Report::Journal(Ok(file), Ok(bytes), Ok(record)), at);
            &&& fits && record_check(key, record@) is Ok ==> {
                &&& p matches ProgressView::Ask(w, task)
                &&& task == Task::<Seq<char>, Seq<u8>>::NextEntry
                &&& w.stage == Stage::<Seq<char>>::Listing
                &&& w.keys == v.keys.push(key)
                &&& w.store == (StoreView {
                    records: v.store.records.insert(key, record@),
                    ..v.store
                })
            }
            &&& fits ==> (record_check(key, record@) matches Err(why) ==> p == ProgressView::Failed(
                why,
            ))
            &&& fits ==> advanced(v, Report::Journal(Ok(file), Ok(bytes), Err(e)), at)
                == ProgressView::Failed(e@)
            &&& !file.is_file || file.length > 65_536 ==> p == ProgressView::Failed(
                Error {
                    kind: ErrorKind::InvalidData,
                    message: "file is not regular or exceeds limit"@,
                },
            )
            &&& file.is_file && file.length <= 65_536 && bytes@.len() > 65_536 ==> p
                == ProgressView::Failed(
                Error { kind: ErrorKind::InvalidData, message: "file exceeds limit"@ },
            )
            &&& advanced(v, Report::Journal(Err(e), Ok(bytes), Ok(record)), at)
                == ProgressView::Failed(e@)
        }),
{
}

/// Once the journal is synchronized, its records are recovered one after another,
/// the last one first; then the store is open.
pub proof fn records_are_recovered_one_after_another(
    v: OpeningView,
    e: Error,
    event: Event,
    at: Seq<char>,
)
    ensures
        v.stage == Stage::<Seq<char>>::Syncing ==> advanced(v, Report::Effect(Ok(())), at)
            == recovering(v.store, v.keys) && advanced(v, Report::Effect(Err(e)), at)
            == ProgressView::Failed(e@),
        v.keys.len() == 0 ==> recovering(v.store, v.keys) == ProgressView::Opened(v.store),
        v.keys.len() > 0 ==> {
            let turn = recover(v.store, v.keys.last());
            &&& turn.step matches Step::Act(action) ==> recovering(v.store, v.keys)
                == ProgressView::Ask(
                OpeningView {
                    store: turn.store,
                    keys: v.keys.drop_last(),
                    stage: Stage::Recovering,
                },
                Task::Act(action),
            )
            &&& turn.step is Done ==> recovering(v.store, v.keys) == recovering(
                turn.store,
                v.keys.drop_last(),
            )
        },
        v.stage == Stage::<Seq<char>>::Recovering ==> {
            let turn = resumed(v.store, event, at);
            &&& turn.step matches Step::Act(action) ==> advanced(v, Report::Store(event), at)
                == ProgressView::Ask(OpeningView { store: turn.store, ..v }, Task::Act(action))
            &&& turn.step is Done ==> advanced(v, Report::Store(event), at) == recovering(
                turn.store,
                v.keys,
            )
        },
{
    reveal(crate::opening::on_event);
}

/// A report that an opening did not ask for ends it.
pub proof fn unexpected_reports_end_the_opening(v: OpeningView, event: Event, at: Seq<char>)
    requires
        !(v.stage is Recovering),
    ensures
        advanced(v, Report::Store(event), at) == ProgressView::Failed(
            Error {
                kind: ErrorKind::InvalidData,
                message: "the store does not wait for this event"@,
            },
        ),
{
}

} // verus!
