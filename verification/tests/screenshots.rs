//! The store and its wire owner, driven over a file system that lives in
//! memory.

use std::cell::RefCell;
use std::collections::{BTreeMap, HashMap};
use std::rc::Rc;

use serde_json::Value;

use wicket::action::{Action, Answer, Event, Step};
use wicket::adapter::{Adapter, WireStep};
use wicket::encoding::{checked_chunk, read_chunk};
use wicket::error::{Error, ErrorKind};
use wicket::facts::{EvidenceFacts, FileFacts, Removal, StageFacts};
use wicket::identity::{operation_key, sha256_hex};
use wicket::model::{
    Attempt, CaptureMode, Identity, Intent, OperationId, Outcome, Receipt, Record, Status, Ticket,
    VerifiedPng, MAX_CHUNK_BYTES, MAX_DIMENSION, MAX_PNG_BYTES, MAX_TRANSFERS,
};
use wicket::observation::{Detail, Observation};
use wicket::opening::{Opening, Progress, Report, Task};
use wicket::path::parent;
use wicket::png::validate_png;
use wicket::policy::{writable_roots, ParentFacts};
use wicket::store::Store;
use wicket::wire::{Binding, Completion, Request, MAX_PACKET_BYTES};

// A file system in memory.

enum Body {
    File(Vec<u8>),
    Directory(BTreeMap<String, usize>),
    Link(String),
}

struct Node {
    body: Body,
    links: u64,
    mode: u32,
}

struct Fs {
    nodes: Vec<Node>,
    locked: bool,
    drawn: u8,
    owner: u64,
}

fn missing() -> Error {
    Error { kind: ErrorKind::NotFound, message: "No such file or directory (os error 2)".to_owned() }
}

fn occupied() -> Error {
    Error { kind: ErrorKind::AlreadyExists, message: "File exists (os error 17)".to_owned() }
}

fn other(message: &str) -> Error {
    Error { kind: ErrorKind::Other, message: message.to_owned() }
}

impl Fs {
    fn add(&mut self, body: Body, mode: u32) -> usize {
        self.nodes.push(Node { body, links: 1, mode });
        self.nodes.len() - 1
    }

    fn entry(&self, directory: usize, name: &str) -> Result<usize, Error> {
        match &self.nodes[directory].body {
            Body::Directory(names) => names.get(name).copied().ok_or_else(missing),
            _ => Err(other("Not a directory (os error 20)")),
        }
    }

    fn plain(&self, directory: usize, name: &str) -> Result<usize, Error> {
        let node = self.entry(directory, name)?;
        match self.nodes[node].body {
            Body::Link(_) => Err(other("Too many levels of symbolic links (os error 40)")),
            _ => Ok(node),
        }
    }

    fn bind(&mut self, directory: usize, name: &str, node: usize) -> Result<(), Error> {
        match &mut self.nodes[directory].body {
            Body::Directory(names) => {
                if names.contains_key(name) {
                    return Err(occupied());
                }
                names.insert(name.to_owned(), node);
                Ok(())
            }
            _ => Err(other("Not a directory (os error 20)")),
        }
    }

    fn unbind(&mut self, directory: usize, name: &str) -> Result<usize, Error> {
        let node = self.entry(directory, name)?;
        if let Body::Directory(names) = &mut self.nodes[directory].body {
            names.remove(name);
        }
        self.nodes[node].links -= 1;
        Ok(node)
    }

    fn resolve(&self, path: &str) -> Result<(String, usize), Error> {
        let mut parts: Vec<String> = path.split('/').rev().map(str::to_owned).collect();
        let mut at: Vec<(String, usize)> = Vec::new();
        let mut hops = 0;
        while let Some(part) = parts.pop() {
            let here = at.last().map_or(0, |(_, node)| *node);
            if part.is_empty() || part == "." {
                continue;
            }
            if part == ".." {
                at.pop();
                continue;
            }
            let node = self.entry(here, &part)?;
            if let Body::Link(target) = &self.nodes[node].body {
                hops += 1;
                if hops > 40 {
                    return Err(other("Too many levels of symbolic links (os error 40)"));
                }
                if target.starts_with('/') {
                    at.clear();
                }
                parts.extend(target.split('/').rev().map(str::to_owned));
                continue;
            }
            at.push((part, node));
        }
        let mut name = String::new();
        for (part, _) in &at {
            name.push('/');
            name.push_str(part);
        }
        if name.is_empty() {
            name.push('/');
        }
        Ok((name, at.last().map_or(0, |(_, node)| *node)))
    }

    fn split(&self, path: &str) -> Result<(usize, String), Error> {
        let cut = path.rfind('/').unwrap();
        let (_, directory) = self.resolve(&path[..cut])?;
        Ok((directory, path[cut + 1..].to_owned()))
    }

    fn make_directory(&mut self, path: &str) {
        let mut here = 0;
        for part in path.split('/').filter(|p| !p.is_empty()) {
            here = match self.entry(here, part) {
                Ok(node) => node,
                Err(_) => {
                    let node = self.add(Body::Directory(BTreeMap::new()), 0o755);
                    self.bind(here, part, node).unwrap();
                    node
                }
            };
        }
    }

    fn write(&mut self, path: &str, bytes: &[u8]) {
        if let Ok((_, node)) = self.resolve(path) {
            self.nodes[node].body = Body::File(bytes.to_vec());
            return;
        }
        let (directory, name) = self.split(path).unwrap();
        let node = self.add(Body::File(bytes.to_vec()), 0o644);
        self.bind(directory, &name, node).unwrap();
    }

    fn read(&self, path: &str) -> Option<Vec<u8>> {
        match &self.nodes[self.resolve(path).ok()?.1].body {
            Body::File(bytes) => Some(bytes.clone()),
            _ => None,
        }
    }

    fn remove(&mut self, path: &str) {
        let (directory, name) = self.split(path).unwrap();
        self.unbind(directory, &name).unwrap();
    }

    fn rename(&mut self, from: &str, to: &str) {
        let (directory, name) = self.split(from).unwrap();
        let node = self.unbind(directory, &name).unwrap();
        let (directory, name) = self.split(to).unwrap();
        self.bind(directory, &name, node).unwrap();
        self.nodes[node].links += 1;
    }

    fn symlink(&mut self, target: &str, path: &str) {
        let (directory, name) = self.split(path).unwrap();
        let node = self.add(Body::Link(target.to_owned()), 0o777);
        self.bind(directory, &name, node).unwrap();
    }

    fn hard_link(&mut self, from: &str, to: &str) {
        let (_, node) = self.resolve(from).unwrap();
        let (directory, name) = self.split(to).unwrap();
        self.bind(directory, &name, node).unwrap();
        self.nodes[node].links += 1;
    }

    fn named(&self, path: &str) -> Option<usize> {
        let (directory, name) = self.split(path).ok()?;
        self.entry(directory, &name).ok()
    }

    fn list(&self, path: &str) -> Vec<String> {
        match &self.nodes[self.resolve(path).unwrap().1].body {
            Body::Directory(names) => names.keys().cloned().collect(),
            _ => Vec::new(),
        }
    }

    fn facts(&self, node: usize) -> FileFacts {
        FileFacts {
            is_file: matches!(self.nodes[node].body, Body::File(_)),
            identity: Identity { device: 1, inode: node as u64 },
            links: self.nodes[node].links,
            length: match &self.nodes[node].body {
                Body::File(bytes) => bytes.len() as u64,
                _ => 0,
            },
        }
    }

    fn contents(&self, node: usize, limit: u64) -> Result<Vec<u8>, Error> {
        match &self.nodes[node].body {
            Body::File(bytes) => Ok(bytes.iter().copied().take(limit as usize + 1).collect()),
            _ => Err(other("Is a directory (os error 21)")),
        }
    }
}

type Disk = Rc<RefCell<Fs>>;

// The hands that perform the store's actions.

#[derive(Clone, Copy, Debug, PartialEq, Eq)]
enum Fault {
    BeforeJournalRename,
    AfterJournalRename,
    ParentSync,
    Cleanup,
    CleanupSync,
}

struct Hands {
    disk: Disk,
    home: String,
    journal: usize,
    live: HashMap<String, (usize, usize)>,
    surveyed: usize,
    evidence: usize,
    fault: Option<Fault>,
    journals_before_fault: usize,
}

impl Hands {
    fn fails(&mut self, point: Fault) -> Result<(), Error> {
        if self.fault == Some(point) {
            self.fault = None;
            return Err(other(&format!("injected {point:?}")));
        }
        Ok(())
    }

    fn survey(&mut self, slug: &str, destination: &str) -> ParentFacts {
        let fs = self.disk.borrow();
        let file = format!("{}/.local/state/wicket/{slug}/sandbox.conf", self.home);
        let config = match fs.read(&file) {
            Some(bytes) => Ok(String::from_utf8(bytes).unwrap()),
            None => Err(missing()),
        };
        let roots = writable_roots(&self.home, slug, config.as_ref().ok().map(String::as_str));
        let parent = fs.resolve(&parent(destination));
        let directory = match &parent {
            Ok((_, node)) => {
                self.surveyed = *node;
                Ok(fs.facts(*node).identity)
            }
            Err(e) => Err(e.clone()),
        };
        ParentFacts {
            config,
            parent: parent.map(|(name, _)| name),
            roots: roots
                .iter()
                .map(|root| fs.resolve(root).map(|(name, _)| name))
                .collect(),
            directory,
        }
    }

    fn stage(&self, key: &str, name: &str) -> StageFacts {
        let fs = self.disk.borrow();
        match self.live.get(key) {
            Some((directory, node)) => StageFacts {
                named: fs.plain(*directory, name).map(|n| fs.facts(n)),
                held: Ok(fs.facts(*node)),
                parent: Ok(fs.facts(*directory).identity),
            },
            None => StageFacts {
                named: Err(missing()),
                held: Err(missing()),
                parent: Err(missing()),
            },
        }
    }

    fn write_journal(&mut self, key: &str, text: &str) -> Result<(), Error> {
        let due = self.journals_before_fault == 0;
        if !due {
            self.journals_before_fault -= 1;
        }
        let (pending, settled) = (format!("{key}.new"), format!("{key}.json"));
        {
            let mut fs = self.disk.borrow_mut();
            let node = fs.add(Body::File(text.as_bytes().to_vec()), 0o600);
            fs.bind(self.journal, &pending, node)?;
        }
        if due {
            self.fails(Fault::BeforeJournalRename)?;
        }
        {
            let mut fs = self.disk.borrow_mut();
            let node = fs.unbind(self.journal, &pending)?;
            let _ = fs.unbind(self.journal, &settled);
            fs.bind(self.journal, &settled, node)?;
            fs.nodes[node].links += 1;
        }
        if due {
            self.fails(Fault::AfterJournalRename)?;
        }
        Ok(())
    }

    fn remove(&mut self, directory: usize, name: &str) -> Removal {
        if let Err(e) = self.fails(Fault::Cleanup) {
            return Removal::NotUnlinked(e);
        }
        let unlinked = self.disk.borrow_mut().unbind(directory, name);
        if let Err(e) = unlinked {
            return Removal::NotUnlinked(e);
        }
        match self.fails(Fault::CleanupSync) {
            Err(e) => Removal::NotSynced(e),
            Ok(()) => Removal::Removed,
        }
    }

    fn perform(&mut self, action: Action) -> Event {
        match action {
            Action::Survey { slug, destination } => Event::Survey(self.survey(&slug, &destination)),
            Action::Random => {
                let mut fs = self.disk.borrow_mut();
                fs.drawn += 1;
                Event::Random(Ok([fs.drawn; 16]))
            }
            Action::CreateStage { key, name } => {
                let mut fs = self.disk.borrow_mut();
                let node = fs.add(Body::File(Vec::new()), 0o600);
                let made = fs.bind(self.surveyed, &name, node);
                if made.is_ok() {
                    self.live.insert(key, (self.surveyed, node));
                }
                Event::Effect(made)
            }
            Action::Length { key } => Event::Length(match self.live.get(&key) {
                Some((_, node)) => Ok(self.disk.borrow().facts(*node).length),
                None => Err(missing()),
            }),
            Action::Inspect { key, name } => Event::Stage(self.stage(&key, &name)),
            Action::Append { key, bytes } => {
                let node = self.live[&key].1;
                if let Body::File(held) = &mut self.disk.borrow_mut().nodes[node].body {
                    held.extend_from_slice(&bytes);
                }
                Event::Effect(Ok(()))
            }
            Action::Truncate { key } => {
                let node = self.live[&key].1;
                self.disk.borrow_mut().nodes[node].body = Body::File(Vec::new());
                Event::Effect(Ok(()))
            }
            Action::Read { key, name, limit } => {
                let facts = self.stage(&key, &name);
                let bytes = self.disk.borrow().contents(self.live[&key].1, limit);
                Event::Contents(facts, bytes)
            }
            Action::Sync { .. } => Event::Effect(Ok(())),
            Action::WriteJournal { key, text } => Event::Effect(self.write_journal(&key, &text)),
            Action::OpenStage { name } => {
                let fs = self.disk.borrow();
                Event::File(fs.plain(self.surveyed, &name).map(|n| fs.facts(n)))
            }
            Action::Link { from, to } => {
                let mut fs = self.disk.borrow_mut();
                let linked = match fs.plain(self.surveyed, &from) {
                    Ok(node) => fs.bind(self.surveyed, &to, node).map(|()| node),
                    Err(e) => Err(e),
                };
                if let Ok(node) = &linked {
                    fs.nodes[*node].links += 1;
                }
                Event::Effect(linked.map(|_| ()))
            }
            Action::SyncParent => Event::Effect(self.fails(Fault::ParentSync)),
            Action::Evidence { stage, destination, limit } => {
                let fs = self.disk.borrow();
                let node = fs.plain(self.surveyed, &stage);
                if let Ok(node) = &node {
                    self.evidence = *node;
                }
                Event::Evidence(EvidenceFacts {
                    bytes: match &node {
                        Ok(node) => fs.contents(*node, limit),
                        Err(e) => Err(e.clone()),
                    },
                    stage: node.map(|n| fs.facts(n)),
                    destination: fs.plain(self.surveyed, &destination).map(|n| fs.facts(n)),
                })
            }
            Action::SyncEvidence => {
                assert!(self.disk.borrow().facts(self.evidence).is_file);
                Event::Effect(Ok(()))
            }
            Action::Unlink { name } => Event::Removed(self.remove(self.surveyed, &name)),
            Action::Discard { key, name } => {
                let directory = self.live[&key].0;
                Event::Removed(self.remove(directory, &name))
            }
        }
    }
}

// Journal entries are read by hand.

fn text(value: &Value, name: &str) -> Option<String> {
    Some(value.get(name)?.as_str()?.to_owned())
}

fn number(value: &Value, name: &str) -> Option<u64> {
    value.get(name)?.as_u64()
}

fn read_operation(value: &Value) -> Option<OperationId> {
    Some(OperationId {
        slug: text(value, "slug")?,
        caller: text(value, "caller")?,
        operation_id: text(value, "operation_id")?,
    })
}

fn read_attempt(value: &Value) -> Option<Attempt> {
    Some(Attempt { call_id: text(value, "call_id")?, attempt_id: text(value, "attempt_id")? })
}

fn read_intent(value: &Value) -> Option<Intent> {
    Some(Intent {
        destination: text(value, "destination")?,
        bytes: number(value, "bytes")?,
        sha256: text(value, "sha256")?,
        mode: match value.get("mode")?.as_str()? {
            "viewport" => CaptureMode::Viewport,
            "full_page" => CaptureMode::FullPage,
            _ => return None,
        },
        source_url: text(value, "source_url")?,
        captured_at: text(value, "captured_at")?,
    })
}

fn read_identity(value: &Value) -> Option<Identity> {
    Some(Identity { device: number(value, "device")?, inode: number(value, "inode")? })
}

fn read_png(value: &Value) -> Option<VerifiedPng> {
    Some(VerifiedPng {
        mime_type: text(value, "mime_type")?,
        bytes: number(value, "bytes")?,
        sha256: text(value, "sha256")?,
        pixel_width: number(value, "pixel_width")? as u32,
        pixel_height: number(value, "pixel_height")? as u32,
    })
}

fn read_outcome(value: &Value) -> Option<Outcome> {
    if value.as_str() == Some("stored") {
        return Some(Outcome::Stored);
    }
    if value.as_str() == Some("aborted") {
        return Some(Outcome::Aborted);
    }
    if let Some(inner) = value.get("published_durability_unconfirmed") {
        return Some(Outcome::PublishedDurabilityUnconfirmed { reason: text(inner, "reason")? });
    }
    let inner = value.get("failed")?;
    Some(Outcome::Failed { action: text(inner, "action")?, reason: text(inner, "reason")? })
}

fn read_receipt(value: &Value) -> Option<Receipt> {
    Some(Receipt {
        operation: read_operation(value.get("operation")?)?,
        attempt: read_attempt(value.get("attempt")?)?,
        event_id: text(value, "event_id")?,
        requested: read_intent(value.get("requested")?)?,
        destination: text(value, "destination")?,
        verified: match value.get("verified")? {
            Value::Null => None,
            v => Some(read_png(v)?),
        },
        accepted_at: value.get("accepted_at")?.as_str().map(str::to_owned),
        observed_at: text(value, "observed_at")?,
        outcome: read_outcome(value.get("outcome")?)?,
    })
}

fn read_record(bytes: &[u8]) -> Result<Record, Error> {
    let value: Value = serde_json::from_slice(bytes)
        .map_err(|e| Error { kind: ErrorKind::InvalidData, message: e.to_string() })?;
    let record = || {
        Some(Record {
            version: number(&value, "version")? as u32,
            operation: read_operation(value.get("operation")?)?,
            attempt: read_attempt(value.get("attempt")?)?,
            intent: read_intent(value.get("intent")?)?,
            destination: text(&value, "destination")?,
            parent_identity: read_identity(value.get("parent_identity")?)?,
            stage_name: text(&value, "stage_name")?,
            stage_identity: read_identity(value.get("stage_identity")?)?,
            verified: read_png(value.get("verified")?)?,
            accepted_at: text(&value, "accepted_at")?,
            terminal: match value.get("terminal")? {
                Value::Null => None,
                v => Some(read_receipt(v)?),
            },
        })
    };
    record().ok_or_else(|| Error {
        kind: ErrorKind::InvalidData,
        message: "not a record".to_owned(),
    })
}

// A store with its hands.

fn open_store(disk: &Disk, home: &str) -> Result<(Store, Hands), Error> {
    let journal = format!("{home}/.local/state/wicket/screenshots");
    let (node, owner, lock, names) = {
        let mut fs = disk.borrow_mut();
        fs.make_directory(&journal);
        let lock = format!("{journal}/.lock");
        if fs.named(&lock).is_none() {
            fs.write(&lock, b"");
        }
        if fs.locked {
            return Err(other("Resource temporarily unavailable (os error 11)"));
        }
        fs.locked = true;
        fs.owner += 1;
        let held = fs.named(&lock).unwrap();
        (fs.resolve(&journal).unwrap().1, fs.owner, fs.facts(held), fs.list(&journal))
    };
    let mut hands = Hands {
        disk: disk.clone(),
        home: home.to_owned(),
        journal: node,
        live: HashMap::new(),
        surveyed: 0,
        evidence: 0,
        fault: None,
        journals_before_fault: 0,
    };
    let mut names = names.into_iter();
    let mut progress = Opening::start(home.to_owned(), owner, lock);
    loop {
        let (opening, task) = match progress {
            Progress::Opened(store) => return Ok((store, hands)),
            Progress::Failed(e) => {
                disk.borrow_mut().locked = false;
                return Err(e);
            }
            Progress::Ask(opening, task) => (opening, task),
        };
        let report = match task {
            Task::NextEntry => Report::Entry(Ok(names.next().map(Some))),
            Task::Remove { name } => {
                Report::Effect(disk.borrow_mut().unbind(node, &name).map(|_| ()))
            }
            Task::Read { name, limit } => {
                let fs = disk.borrow();
                let file = fs.plain(node, &name).unwrap();
                let bytes = fs.contents(file, limit);
                let record = read_record(bytes.as_ref().unwrap());
                Report::Journal(Ok(fs.facts(file)), bytes, record)
            }
            Task::Sync => Report::Effect(Ok(())),
            Task::Act(action) => Report::Store(hands.perform(action)),
        };
        progress = opening.advance(report);
    }
}

fn close_store(store: &mut Store, hands: &mut Hands) {
    let keys: Vec<String> = hands.live.keys().cloned().collect();
    for key in keys {
        let mut step = store.dismiss(&key);
        while let Step::Act(action) = step {
            step = store.resume(hands.perform(action));
        }
    }
    hands.disk.borrow_mut().locked = false;
}

struct Session {
    store: Store,
    hands: Hands,
}

impl Session {
    fn run(&mut self, mut step: Step) -> Result<Answer, Error> {
        loop {
            match step {
                Step::Done(result) => {
                    let store = &self.store;
                    self.hands.live.retain(|key, _| store.is_receiving(key));
                    return result;
                }
                Step::Act(action) => step = self.store.resume(self.hands.perform(action)),
            }
        }
    }

    /// Goes on until an action was performed, and leaves the operation there.
    fn run_through(&mut self, mut step: Step, last: fn(&Action) -> bool) {
        while let Step::Act(action) = step {
            let stop = last(&action);
            step = self.store.resume(self.hands.perform(action));
            if stop {
                return;
            }
        }
    }

    fn begin(
        &mut self,
        operation: OperationId,
        attempt: Attempt,
        intent: Intent,
    ) -> Result<Status, Error> {
        let step = self.store.begin(operation, attempt, intent);
        self.run(step).map(status)
    }

    fn append(&mut self, ticket: &Ticket, offset: u64, bytes: &[u8]) -> Result<u64, Error> {
        let step = self.store.append(ticket, offset, bytes.to_vec());
        self.run(step).map(|answer| match answer {
            Answer::Written { end } => end,
            other => panic!("expected written: {other:?}"),
        })
    }

    fn replace(&mut self, ticket: &Ticket, attempt: Attempt) -> Result<Ticket, Error> {
        let step = self.store.replace(ticket, attempt);
        self.run(step).map(|answer| match answer {
            Answer::Ticket(ticket) => ticket,
            other => panic!("expected ticket: {other:?}"),
        })
    }

    fn lookup(&mut self, operation: &OperationId) -> Result<Option<Status>, Error> {
        let step = self.store.lookup(operation);
        self.run(step).map(|answer| match answer {
            Answer::Found(found) => found,
            other => panic!("expected found: {other:?}"),
        })
    }

    fn finish(&mut self, operation: &OperationId, ticket: &Ticket) -> Result<Status, Error> {
        let step = self.store.finish(operation, ticket);
        self.run(step).map(status)
    }

    fn cancel(&mut self, operation: &OperationId, ticket: &Ticket) -> Result<Status, Error> {
        let step = self.store.cancel(operation, ticket);
        self.run(step).map(status)
    }

    /// Finishes as far as the acceptance, and leaves the operation there.
    fn accept(&mut self, operation: &OperationId, ticket: &Ticket) {
        let step = self.store.finish(operation, ticket);
        self.run_through(step, |action| matches!(action, Action::WriteJournal { .. }));
    }

    /// Finishes as far as the publication, and leaves the operation there.
    fn publish(&mut self, operation: &OperationId, ticket: &Ticket) -> Status {
        let step = self.store.finish(operation, ticket);
        self.run_through(step, |action| matches!(action, Action::Link { .. }));
        self.record_status(operation)
    }

    fn record_status(&self, operation: &OperationId) -> Status {
        let key = operation_key(&operation.slug, &operation.operation_id).unwrap();
        self.store.record_status(&key).unwrap()
    }

    fn close(mut self) {
        close_store(&mut self.store, &mut self.hands);
    }

    /// The process is lost: nothing is cleaned up.
    fn lose(self) {
        self.hands.disk.borrow_mut().locked = false;
    }
}

fn status(answer: Answer) -> Status {
    match answer {
        Answer::Status(status) => status,
        other => panic!("expected status: {other:?}"),
    }
}

struct Fixture {
    disk: Disk,
    home: String,
}

impl Fixture {
    fn new() -> Self {
        Self::owned(0)
    }

    fn owned(owner: u64) -> Self {
        let mut fs = Fs {
            nodes: vec![Node { body: Body::Directory(BTreeMap::new()), links: 1, mode: 0o755 }],
            locked: false,
            drawn: 0,
            owner,
        };
        fs.make_directory("/home/me/pane/test");
        fs.make_directory("/tmp");
        Self { disk: Rc::new(RefCell::new(fs)), home: "/home/me".to_owned() }
    }

    fn try_open(&self) -> Result<Session, Error> {
        open_store(&self.disk, &self.home).map(|(store, hands)| Session { store, hands })
    }

    fn store(&self) -> Session {
        self.try_open().unwrap()
    }

    fn at(&self, path: &str) -> String {
        format!("{}/{path}", self.home)
    }

    fn destination(&self) -> String {
        self.at("pane/test/capture.png")
    }

    fn journal(&self) -> String {
        self.at(".local/state/wicket/screenshots")
    }

    fn ending(&self, directory: &str, ending: &str) -> Vec<String> {
        let names = self.disk.borrow().list(directory);
        let mut found = Vec::new();
        for name in names {
            if name.ends_with(ending) {
                found.push(format!("{directory}/{name}"));
            }
        }
        found
    }

    fn records(&self) -> Vec<String> {
        self.ending(&self.journal(), ".json")
    }

    fn stages(&self) -> Vec<String> {
        self.ending(&self.at("pane/test"), ".stage")
    }

    fn configure(&self, root: &str) {
        let mut fs = self.disk.borrow_mut();
        fs.make_directory(&self.at(".local/state/wicket/test"));
        let file = self.at(".local/state/wicket/test/sandbox.conf");
        fs.write(&file, format!("writable {root}\n").as_bytes());
    }

    fn read(&self, path: &str) -> Option<Vec<u8>> {
        self.disk.borrow().read(path)
    }

    fn present(&self, path: &str) -> bool {
        self.disk.borrow().resolve(path).is_ok()
    }
}

fn operation() -> OperationId {
    OperationId {
        slug: "test".into(),
        caller: "shotgun".into(),
        operation_id: "save-1".into(),
    }
}

fn attempt(id: &str) -> Attempt {
    Attempt { call_id: format!("call-{id}"), attempt_id: id.into() }
}

fn png_bytes() -> Vec<u8> {
    let mut bytes = Vec::new();
    {
        let mut encoder = png::Encoder::new(&mut bytes, 2, 1);
        encoder.set_color(png::ColorType::Rgba);
        encoder.set_depth(png::BitDepth::Eight);
        let mut writer = encoder.write_header().unwrap();
        writer.write_image_data(&[255, 0, 0, 255, 0, 128, 255, 255]).unwrap();
        writer.finish().unwrap();
    }
    bytes
}

fn intent(path: String, bytes: &[u8]) -> Intent {
    Intent {
        destination: path,
        bytes: bytes.len() as u64,
        sha256: sha256_hex(bytes),
        mode: CaptureMode::Viewport,
        source_url: "https://example.test/capture".into(),
        captured_at: "2026-09-20T20:00:00Z".into(),
    }
}

fn ticket(status: Status) -> Ticket {
    match status {
        Status::Receiving { ticket, .. } => ticket,
        other => panic!("expected receiving: {other:?}"),
    }
}

fn receipt(status: Status) -> Receipt {
    match status {
        Status::Terminal(receipt) => *receipt,
        other => panic!("expected terminal: {other:?}"),
    }
}

fn upload(store: &mut Session, intent: Intent, bytes: &[u8]) -> Ticket {
    let ticket = ticket(store.begin(operation(), attempt("a"), intent).unwrap());
    for (index, chunk) in bytes.chunks(MAX_CHUNK_BYTES).enumerate() {
        store.append(&ticket, (index * MAX_CHUNK_BYTES) as u64, chunk).unwrap();
    }
    ticket
}

fn assert_unresolved(status: Status) {
    assert!(matches!(status, Status::Unresolved { .. }), "{status:?}");
}

fn carried(observation: &Observation) -> &Receipt {
    match &observation.detail {
        Detail::Receipt { receipt, .. } => receipt,
        other => panic!("expected a receipt: {other:?}"),
    }
}

#[test]
fn exact_publication_has_verified_facts_and_one_correlated_observation() {
    let fixture = Fixture::new();
    let mut store = fixture.store();
    let bytes = png_bytes();
    let intent = intent(fixture.destination(), &bytes);
    let ticket = upload(&mut store, intent.clone(), &bytes);
    assert!(fixture.records().is_empty());
    assert!(store.store.take_observations().is_empty());
    let saved = receipt(store.finish(&operation(), &ticket).unwrap());
    assert_eq!(saved.outcome, Outcome::Stored);
    assert_eq!(saved.requested, intent);
    assert_eq!(saved.operation, operation());
    assert_eq!(saved.attempt, attempt("a"));
    assert!(saved.accepted_at.is_some());
    assert_eq!(
        saved.verified,
        Some(VerifiedPng {
            mime_type: "image/png".into(),
            bytes: bytes.len() as u64,
            sha256: intent.sha256,
            pixel_width: 2,
            pixel_height: 1
        })
    );
    assert_eq!(fixture.read(&fixture.destination()).unwrap(), bytes);
    let node = fixture.disk.borrow().named(&fixture.destination()).unwrap();
    assert_eq!(fixture.disk.borrow().nodes[node].mode & 0o777, 0o600);
    assert!(fixture.stages().is_empty());
    let observations = store.store.take_observations();
    assert_eq!(observations.len(), 1);
    let observation = &observations[0];
    assert_eq!(observation.what, "store");
    assert_eq!(observation.who, "screenshot");
    assert_eq!(carried(observation).event_id, saved.event_id);
    assert!(observation.how.contains("linkat"));
    assert_eq!(receipt(store.lookup(&operation()).unwrap().unwrap()), saved);
    assert_eq!(receipt(store.finish(&operation(), &ticket).unwrap()), saved);
    assert_eq!(receipt(store.cancel(&operation(), &ticket).unwrap()), saved);
    assert!(store.store.take_observations().is_empty());
}

#[test]
fn completed_retry_and_lookup_are_historical_and_immutable_across_reopen() {
    let fixture = Fixture::new();
    let bytes = png_bytes();
    let intent = intent(fixture.destination(), &bytes);
    let mut store = fixture.store();
    let ticket = upload(&mut store, intent.clone(), &bytes);
    let saved = receipt(store.finish(&operation(), &ticket).unwrap());
    let journal = fixture.read(&fixture.records()[0]).unwrap();
    store.close();
    fixture.disk.borrow_mut().remove(&fixture.destination());
    fixture.disk.borrow_mut().write(&fixture.destination(), b"later occupant");
    let mut store = fixture.store();
    assert_eq!(receipt(store.lookup(&operation()).unwrap().unwrap()), saved);
    assert_eq!(receipt(store.begin(operation(), attempt("retry"), intent).unwrap()), saved);
    assert_eq!(fixture.read(&fixture.records()[0]).unwrap(), journal);
    assert_eq!(fixture.read(&fixture.destination()).unwrap(), b"later occupant");
    assert!(store.store.take_observations().is_empty());
    assert!(store.finish(&operation(), &ticket).is_err());
}

#[test]
fn receiving_is_ephemeral_and_graceful_drop_removes_only_its_stage() {
    let fixture = Fixture::new();
    let bytes = png_bytes();
    let mut store = fixture.store();
    let ticket = upload(&mut store, intent(fixture.destination(), &bytes), &bytes[..20]);
    assert_eq!(fixture.stages().len(), 1);
    assert!(fixture.records().is_empty());
    store.close();
    assert!(fixture.stages().is_empty());
    let mut store = fixture.store();
    assert_eq!(store.lookup(&operation()).unwrap(), None);
    assert!(store.append(&ticket, 20, &bytes[20..]).is_err());
}

#[test]
fn no_clobber_includes_files_directories_and_symlinks() {
    for occupant in ["file", "directory", "symlink"] {
        let fixture = Fixture::new();
        let bytes = png_bytes();
        let original = fixture.at("original");
        {
            let mut fs = fixture.disk.borrow_mut();
            fs.write(&original, b"original");
            match occupant {
                "file" => fs.write(&fixture.destination(), b"original"),
                "directory" => fs.make_directory(&fixture.destination()),
                _ => fs.symlink(&original, &fixture.destination()),
            }
        }
        let before = fixture.disk.borrow().named(&fixture.destination());
        let mut store = fixture.store();
        let ticket = upload(&mut store, intent(fixture.destination(), &bytes), &bytes);
        let failed = receipt(store.finish(&operation(), &ticket).unwrap());
        assert!(
            matches!(failed.outcome, Outcome::Failed { ref action, .. } if action == "publish")
        );
        assert!(failed.accepted_at.is_some());
        assert_eq!(fixture.disk.borrow().named(&fixture.destination()), before);
        assert_eq!(fixture.read(&original).unwrap(), b"original");
        assert!(fixture.stages().is_empty());
        store.close();
        assert_eq!(receipt(fixture.store().lookup(&operation()).unwrap().unwrap()), failed);
    }
}

#[test]
fn absolute_existing_parent_and_component_containment_are_required() {
    let fixture = Fixture::new();
    let mut store = fixture.store();
    let bytes = png_bytes();
    fixture.disk.borrow_mut().make_directory(&fixture.at("pane/test-sibling"));
    let paths = [
        "relative.png".to_owned(),
        fixture.at("pane/test/../escape.png"),
        fixture.at("pane/test/./dot.png"),
        fixture.at("pane/test/missing/image.png"),
        fixture.at("pane/test-sibling/image.png"),
        fixture.at("outside.png"),
        format!("{}/", fixture.destination()),
    ];
    for path in paths {
        assert!(
            store.begin(operation(), attempt("a"), intent(path.clone(), &bytes)).is_err(),
            "{path:?}"
        );
    }
    assert!(fixture.records().is_empty());
    assert!(fixture.stages().is_empty());
    assert!(store.store.take_observations().is_empty());
}

#[test]
fn canonical_aliases_work_but_symlink_escape_is_refused() {
    let fixture = Fixture::new();
    let mut store = fixture.store();
    let bytes = png_bytes();
    let outside = fixture.at("outside");
    fixture.disk.borrow_mut().make_directory(&outside);
    fixture.disk.borrow_mut().symlink(&outside, &fixture.at("pane/test/escape"));
    assert!(store
        .begin(
            operation(),
            attempt("a"),
            intent(fixture.at("pane/test/escape/no.png"), &bytes)
        )
        .is_err());
    fixture.disk.borrow_mut().symlink(&fixture.at("pane/test"), &fixture.at("alias"));
    let requested = fixture.at("alias/capture.png");
    let ticket = upload(&mut store, intent(requested.clone(), &bytes), &bytes);
    let saved = receipt(store.finish(&operation(), &ticket).unwrap());
    assert_eq!(saved.destination, fixture.destination());
    assert_eq!(saved.requested.destination, requested);
}

#[test]
fn configured_writable_roots_expand_home_and_remain_slug_scoped() {
    let fixture = Fixture::new();
    let bytes = png_bytes();
    let configured = fixture.at("exports");
    fixture.disk.borrow_mut().make_directory(&configured);
    fixture.configure("~/exports");
    let mut store = fixture.store();
    let ticket = upload(
        &mut store,
        intent(format!("{configured}/capture.png"), &bytes),
        &bytes,
    );
    assert_eq!(
        receipt(store.finish(&operation(), &ticket).unwrap()).outcome,
        Outcome::Stored
    );
    let mut foreign = operation();
    foreign.slug = "other".into();
    assert!(store
        .begin(
            foreign,
            attempt("a"),
            intent(format!("{configured}/foreign.png"), &bytes)
        )
        .is_err());
}

#[test]
fn macos_tmp_alias_is_canonicalized() {
    let fixture = Fixture::new();
    {
        let mut fs = fixture.disk.borrow_mut();
        fs.make_directory("/private/tmp/wicket-alias");
        fs.remove("/tmp");
        fs.symlink("/private/tmp", "/tmp");
    }
    let alias = "/tmp/wicket-alias";
    fixture.configure(alias);
    let mut store = fixture.store();
    let bytes = png_bytes();
    let ticket = upload(&mut store, intent(format!("{alias}/capture.png"), &bytes), &bytes);
    let saved = receipt(store.finish(&operation(), &ticket).unwrap());
    assert_eq!(saved.destination, "/private/tmp/wicket-alias/capture.png");
}

#[test]
fn parent_replacement_and_policy_revocation_before_acceptance_prevent_publication() {
    for change in ["parent", "policy"] {
        let fixture = Fixture::new();
        let bytes = png_bytes();
        let root = fixture.at("exports");
        fixture.disk.borrow_mut().make_directory(&root);
        fixture.configure(&root);
        let mut store = fixture.store();
        let ticket = upload(&mut store, intent(format!("{root}/capture.png"), &bytes), &bytes);
        if change == "parent" {
            let mut fs = fixture.disk.borrow_mut();
            fs.rename(&root, &fixture.at("moved"));
            fs.symlink(&fixture.at("pane/test"), &root);
        } else {
            fixture.configure("/nonexistent-wicket-test-root");
        }
        let failed = receipt(store.finish(&operation(), &ticket).unwrap());
        assert!(matches!(failed.outcome, Outcome::Failed { .. }));
        assert!(failed.accepted_at.is_none());
        assert!(fixture.records().is_empty());
        assert!(!fixture.present(&format!("{root}/capture.png")));
        assert!(!fixture.present(&fixture.at("moved/capture.png")));
    }
}

#[test]
fn substituted_stage_symlink_and_hardlink_cannot_receive_or_publish() {
    for substitution in ["symlink", "hardlink"] {
        let fixture = Fixture::new();
        let mut store = fixture.store();
        let bytes = png_bytes();
        let ticket = ticket(
            store
                .begin(operation(), attempt("a"), intent(fixture.destination(), &bytes))
                .unwrap(),
        );
        let stage = fixture.stages().pop().unwrap();
        let elsewhere = fixture.at("other");
        {
            let mut fs = fixture.disk.borrow_mut();
            if substitution == "symlink" {
                fs.write(&elsewhere, b"unrelated");
                fs.remove(&stage);
                fs.symlink(&elsewhere, &stage);
            } else {
                fs.hard_link(&stage, &elsewhere);
            }
        }
        let before = fixture.read(&elsewhere).unwrap();
        assert!(store.append(&ticket, 0, &bytes).is_err());
        assert!(matches!(
            receipt(store.finish(&operation(), &ticket).unwrap()).outcome,
            Outcome::Failed { .. }
        ));
        assert_eq!(fixture.read(&elsewhere).unwrap(), before);
        assert!(!fixture.present(&fixture.destination()));
        assert!(fixture.records().is_empty());
        assert!(fixture.disk.borrow().named(&stage).is_some());
    }
}

// Independent CRC construction lets the dimension tests reach the header
// policy instead of merely failing a stale checksum.
fn chunk(kind: &[u8; 4], data: &[u8]) -> Vec<u8> {
    let mut out = (data.len() as u32).to_be_bytes().to_vec();
    out.extend_from_slice(kind);
    out.extend_from_slice(data);
    let mut crc = !0u32;
    for byte in &out[4..] {
        crc ^= u32::from(*byte);
        for _ in 0..8 {
            crc = (crc >> 1) ^ (0xedb8_8320 & (0u32.wrapping_sub(crc & 1)));
        }
    }
    out.extend_from_slice(&(!crc).to_be_bytes());
    out
}

#[test]
fn malformed_pngs_are_rejected_before_durable_acceptance() {
    let png = png_bytes();
    let mut trailing = png.clone();
    trailing.push(0);
    let mut crc = png.clone();
    *crc.last_mut().unwrap() ^= 1;
    let mut idat_crc = png.clone();
    let index = idat_crc.windows(4).position(|w| w == b"IDAT").unwrap();
    idat_crc[index + 4] ^= 1;
    let mut animated = png.clone();
    animated.splice(33..33, chunk(b"acTL", &[0, 0, 0, 1, 0, 0, 0, 0]));
    let mut bad_text = png.clone();
    let mut text = chunk(b"tEXt", b"key\0value");
    *text.last_mut().unwrap() ^= 1;
    bad_text.splice(33..33, text);
    let mut bad_pixels = png[..33].to_vec();
    bad_pixels.extend(chunk(b"IDAT", b"invalid compressed pixels"));
    bad_pixels.extend(chunk(b"IEND", &[]));
    let mut no_pixels = png[..33].to_vec();
    no_pixels.extend(chunk(b"IEND", &[]));
    for (case, bytes) in [
        ("signature", b"not PNG".to_vec()),
        ("truncated", png[..png.len() - 12].to_vec()),
        ("trailing", trailing),
        ("IEND CRC", crc),
        ("IDAT CRC", idat_crc),
        ("APNG", animated),
        ("text CRC", bad_text),
        ("pixels with correct chunk CRC", bad_pixels),
        ("missing pixel data", no_pixels),
    ] {
        let fixture = Fixture::new();
        let mut store = fixture.store();
        let ticket = upload(&mut store, intent(fixture.destination(), &bytes), &bytes);
        let failed = receipt(store.finish(&operation(), &ticket).unwrap());
        assert!(matches!(failed.outcome, Outcome::Failed { .. }), "{case}: {failed:?}");
        assert!(failed.accepted_at.is_none());
        let observations = store.store.take_observations();
        assert_eq!(observations.len(), 1);
        assert_eq!(observations[0].what, "fail_verify");
        assert!(fixture.records().is_empty());
        assert!(fixture.stages().is_empty());
        assert!(!fixture.present(&fixture.destination()));
    }
}

#[test]
fn decoded_dimension_and_pixel_limits_precede_allocation() {
    for (width, height) in [(MAX_DIMENSION + 1, 1u32), (8192, 8192), (0, 1)] {
        let mut png = png_bytes();
        let mut header = png[16..29].to_vec();
        header[0..4].copy_from_slice(&width.to_be_bytes());
        header[4..8].copy_from_slice(&height.to_be_bytes());
        png.splice(8..33, chunk(b"IHDR", &header));
        let error = validate_png(&png).unwrap_err();
        if width != 0 {
            assert!(error.message.contains("dimensions exceed"), "{}", error.message);
        }
    }
}

#[test]
fn manifest_count_hash_chunk_offset_and_admission_limits_are_enforced() {
    let fixture = Fixture::new();
    let mut store = fixture.store();
    let bytes = png_bytes();
    let original = intent(fixture.destination(), &bytes);
    for count in [0, MAX_PNG_BYTES + 1] {
        let mut oversized = original.clone();
        oversized.bytes = count;
        assert!(store.begin(operation(), attempt("a"), oversized).is_err());
    }
    let held = ticket(store.begin(operation(), attempt("a"), original).unwrap());
    assert!(store.append(&held, 0, &[]).is_err());
    assert!(store.append(&held, 0, &vec![0; MAX_CHUNK_BYTES + 1]).is_err());
    assert!(store.append(&held, 1, &bytes).is_err());
    assert!(store.append(&held, 0, &vec![0; bytes.len() + 1]).is_err());
    assert_eq!(store.append(&held, 0, &bytes[..20]).unwrap(), 20);
    assert!(store.append(&held, 0, &bytes[..20]).is_err());
    let failed = receipt(store.finish(&operation(), &held).unwrap());
    assert!(matches!(failed.outcome, Outcome::Failed { .. }));
    assert!(fixture.records().is_empty());
    store.close();
    let mut store = fixture.store();
    let mut mismatch = intent(fixture.destination(), &bytes);
    mismatch.sha256 = "0".repeat(64);
    let held = upload(&mut store, mismatch, &bytes);
    let failed = receipt(store.finish(&operation(), &held).unwrap());
    assert!(
        matches!(failed.outcome, Outcome::Failed { ref reason, .. } if reason.contains("SHA-256"))
    );
    assert!(!fixture.present(&fixture.destination()));
    store.close();
    let mut store = fixture.store();
    for number in 0..2 {
        let mut op = operation();
        op.operation_id = format!("large-{number}");
        let mut large = intent(fixture.destination(), &bytes);
        large.bytes = MAX_PNG_BYTES;
        store.begin(op, attempt("a"), large).unwrap();
    }
    assert!(store
        .begin(operation(), attempt("a"), intent(fixture.destination(), &bytes))
        .is_err());
}

#[test]
fn transfer_count_is_bounded_independently_of_bytes() {
    let fixture = Fixture::new();
    let mut store = fixture.store();
    let bytes = png_bytes();
    for index in 0..MAX_TRANSFERS {
        let mut op = operation();
        op.operation_id = format!("op-{index}");
        store
            .begin(op, attempt("a"), intent(fixture.destination(), &bytes))
            .unwrap();
    }
    assert!(store
        .begin(operation(), attempt("a"), intent(fixture.destination(), &bytes))
        .is_err());
}

#[test]
fn escaped_metadata_is_bounded_before_creating_a_stage() {
    let fixture = Fixture::new();
    let mut store = fixture.store();
    let bytes = png_bytes();
    let mut oversized = intent(fixture.destination(), &bytes);
    oversized.source_url = "\0".repeat(8192);
    assert!(store.begin(operation(), attempt("a"), oversized).is_err());
    assert!(fixture.stages().is_empty());
    assert!(fixture.records().is_empty());
    let mut large = intent(fixture.destination(), &bytes);
    large.source_url = "x".repeat(8192);
    let ticket = upload(&mut store, large, &bytes);
    assert_eq!(
        receipt(store.finish(&operation(), &ticket).unwrap()).outcome,
        Outcome::Stored
    );
    store.close();
    assert_eq!(
        receipt(fixture.store().lookup(&operation()).unwrap().unwrap()).outcome,
        Outcome::Stored
    );
}

#[test]
fn identity_conflicts_never_change_bound_intent_or_caller() {
    let fixture = Fixture::new();
    let mut store = fixture.store();
    let bytes = png_bytes();
    let original = intent(fixture.destination(), &bytes);
    let ticket = upload(&mut store, original.clone(), &bytes);
    let mut conflicts = Vec::new();
    let mut c = original.clone();
    c.destination = fixture.at("pane/test/other.png");
    conflicts.push(c);
    let mut c = original.clone();
    c.bytes += 1;
    conflicts.push(c);
    let mut c = original.clone();
    c.sha256 = "0".repeat(64);
    conflicts.push(c);
    let mut c = original.clone();
    c.source_url.push_str("/different");
    conflicts.push(c);
    let mut c = original.clone();
    c.mode = CaptureMode::FullPage;
    conflicts.push(c);
    let mut c = original.clone();
    c.captured_at.push('x');
    conflicts.push(c);
    for c in &conflicts {
        assert!(store.begin(operation(), attempt("a"), c.clone()).is_err());
    }
    let mut caller = operation();
    caller.caller = "other-caller".into();
    assert!(store.lookup(&caller).is_err());
    assert!(store.begin(caller.clone(), attempt("a"), original.clone()).is_err());
    assert!(store.finish(&caller, &ticket).is_err());
    assert!(store.cancel(&caller, &ticket).is_err());
    let saved = receipt(store.finish(&operation(), &ticket).unwrap());
    for c in conflicts {
        assert!(store.begin(operation(), attempt("a"), c).is_err());
    }
    assert_eq!(saved.requested, original);
}

#[test]
fn explicit_attempt_replacement_fences_stale_chunks_finish_and_cancel() {
    let fixture = Fixture::new();
    let mut store = fixture.store();
    let bytes = png_bytes();
    let original = intent(fixture.destination(), &bytes);
    let old = upload(&mut store, original.clone(), &bytes[..20]);
    assert_eq!(
        store.begin(operation(), attempt("a"), original.clone()).unwrap(),
        Status::Receiving { ticket: old.clone(), received: 20 }
    );
    assert!(store.begin(operation(), attempt("b"), original).is_err());
    let mut same_attempt = attempt("a");
    same_attempt.call_id = "another-call".into();
    assert!(store.replace(&old, same_attempt).is_err());
    let current = store.replace(&old, attempt("b")).unwrap();
    assert!(store.append(&old, 0, &bytes).is_err());
    assert!(store.finish(&operation(), &old).is_err());
    assert!(store.cancel(&operation(), &old).is_err());
    store.append(&current, 0, &bytes).unwrap();
    let saved = receipt(store.finish(&operation(), &current).unwrap());
    assert_eq!(saved.attempt, attempt("b"));
}

#[test]
fn cancellation_before_acceptance_fences_publication_and_is_process_local() {
    let fixture = Fixture::new();
    let mut store = fixture.store();
    let bytes = png_bytes();
    let original = intent(fixture.destination(), &bytes);
    let ticket = upload(&mut store, original.clone(), &bytes);
    let aborted = receipt(store.cancel(&operation(), &ticket).unwrap());
    assert_eq!(aborted.outcome, Outcome::Aborted);
    assert!(aborted.accepted_at.is_none());
    assert!(fixture.records().is_empty());
    assert!(fixture.stages().is_empty());
    assert!(!fixture.present(&fixture.destination()));
    assert_eq!(receipt(store.finish(&operation(), &ticket).unwrap()), aborted);
    assert_eq!(
        receipt(store.begin(operation(), attempt("b"), original).unwrap()),
        aborted
    );
    assert!(store.append(&ticket, 0, &bytes).is_err());
    let observations = store.store.take_observations();
    assert_eq!(observations.len(), 1);
    assert_eq!(observations[0].what, "abort");
    store.close();
    assert_eq!(fixture.store().lookup(&operation()).unwrap(), None);
}

#[test]
fn accepted_without_publication_stays_unresolved_and_is_never_republished() {
    let fixture = Fixture::new();
    let mut store = fixture.store();
    let bytes = png_bytes();
    let original = intent(fixture.destination(), &bytes);
    let ticket = upload(&mut store, original.clone(), &bytes);
    store.accept(&operation(), &ticket);
    assert_eq!(fixture.records().len(), 1);
    assert_unresolved(store.cancel(&operation(), &ticket).unwrap());
    assert!(store.store.take_observations().is_empty());
    store.close();
    let mut store = fixture.store();
    assert_unresolved(store.lookup(&operation()).unwrap().unwrap());
    assert_unresolved(store.begin(operation(), attempt("retry"), original).unwrap());
    assert!(!fixture.present(&fixture.destination()));
    assert_eq!(fixture.stages().len(), 1);
    assert!(store.store.take_observations().is_empty());
}

#[test]
fn recovery_requires_retained_inode_and_manifest_proof_not_equal_content() {
    for loss in ["stage", "destination", "replacement", "modified", "parent"] {
        let fixture = Fixture::new();
        let mut store = fixture.store();
        let bytes = png_bytes();
        let ticket = upload(&mut store, intent(fixture.destination(), &bytes), &bytes);
        assert!(matches!(
            store.publish(&operation(), &ticket),
            Status::Unresolved { published: Some(true), .. }
        ));
        store.close();
        {
            let stage = fixture.stages()[0].clone();
            let mut fs = fixture.disk.borrow_mut();
            match loss {
                "stage" => fs.remove(&stage),
                "destination" => fs.remove(&fixture.destination()),
                "replacement" => {
                    fs.remove(&fixture.destination());
                    fs.write(&fixture.destination(), &bytes);
                }
                "modified" => fs.write(&fixture.destination(), b"changed inode contents"),
                _ => {
                    fs.rename(&fixture.at("pane/test"), &fixture.at("moved"));
                    fs.make_directory(&fixture.at("pane/test"));
                }
            }
        }
        let mut store = fixture.store();
        assert!(matches!(
            store.lookup(&operation()).unwrap().unwrap(),
            Status::Unresolved { published: None, .. }
        ));
        assert!(store.store.take_observations().is_empty());
    }
}

#[test]
fn cancellation_after_link_returns_recovered_store_receipt() {
    let fixture = Fixture::new();
    let mut store = fixture.store();
    let bytes = png_bytes();
    let ticket = upload(&mut store, intent(fixture.destination(), &bytes), &bytes);
    assert_unresolved(store.publish(&operation(), &ticket));
    assert_eq!(
        receipt(store.cancel(&operation(), &ticket).unwrap()).outcome,
        Outcome::Stored
    );
    assert_eq!(store.store.take_observations().len(), 1);
}

#[test]
fn acceptance_journal_uncertainty_never_reports_failure_or_publishes() {
    for fault in [Fault::BeforeJournalRename, Fault::AfterJournalRename] {
        let fixture = Fixture::new();
        let mut store = fixture.store();
        let bytes = png_bytes();
        let ticket = upload(&mut store, intent(fixture.destination(), &bytes), &bytes);
        store.hands.fault = Some(fault);
        assert_unresolved(store.finish(&operation(), &ticket).unwrap());
        assert_unresolved(store.cancel(&operation(), &ticket).unwrap());
        // Nothing can be begun any more.
        let mut op = operation();
        op.operation_id = "another".into();
        let frozen = store
            .begin(op, attempt("a"), intent(fixture.destination(), &bytes))
            .unwrap_err();
        assert_eq!(
            frozen.message,
            format!(
                "journal synchronization uncertain: injected {fault:?}; reopen the capability"
            )
        );
        assert!(!fixture.present(&fixture.destination()));
        assert!(store.store.take_observations().is_empty());
        store.close();
        let mut store = fixture.store();
        if fault == Fault::BeforeJournalRename {
            assert_eq!(store.lookup(&operation()).unwrap(), None);
        } else {
            assert_unresolved(store.lookup(&operation()).unwrap().unwrap());
        }
        assert!(!fixture.present(&fixture.destination()));
        assert_eq!(fixture.stages().len(), 1);
    }
}

#[test]
fn terminal_journal_uncertainty_recovers_published_artifact_without_false_failure() {
    for fault in [Fault::BeforeJournalRename, Fault::AfterJournalRename] {
        let fixture = Fixture::new();
        let mut store = fixture.store();
        let bytes = png_bytes();
        let ticket = upload(&mut store, intent(fixture.destination(), &bytes), &bytes);
        store.hands.journals_before_fault = 1;
        store.hands.fault = Some(fault);
        assert!(matches!(
            store.finish(&operation(), &ticket).unwrap(),
            Status::Unresolved { published: Some(true), .. }
        ));
        assert!(matches!(
            store.record_status(&operation()),
            Status::Unresolved { published: Some(true), .. }
        ));
        assert_eq!(fixture.read(&fixture.destination()).unwrap(), bytes);
        assert_eq!(fixture.stages().len(), 1);
        assert!(store.store.take_observations().is_empty());
        let renamed = if fault == Fault::AfterJournalRename {
            let entry = fixture.read(&fixture.records()[0]).unwrap();
            Some(read_record(&entry).unwrap().terminal.unwrap())
        } else {
            None
        };
        store.close();
        let mut store = fixture.store();
        let saved = receipt(store.lookup(&operation()).unwrap().unwrap());
        assert_eq!(saved.outcome, Outcome::Stored);
        if let Some(renamed) = renamed {
            assert_eq!(saved, renamed);
        }
        assert!(fixture.stages().is_empty());
        assert_eq!(
            store.store.take_observations().len(),
            usize::from(fault == Fault::BeforeJournalRename)
        );
    }
}

#[test]
fn directory_sync_failure_preserves_published_disposition_and_cause() {
    let fixture = Fixture::new();
    let mut store = fixture.store();
    let bytes = png_bytes();
    let ticket = upload(&mut store, intent(fixture.destination(), &bytes), &bytes);
    store.hands.fault = Some(Fault::ParentSync);
    let saved = receipt(store.finish(&operation(), &ticket).unwrap());
    assert!(matches!(saved.outcome, Outcome::PublishedDurabilityUnconfirmed { .. }));
    assert_eq!(fixture.read(&fixture.destination()).unwrap(), bytes);
    let observations = store.store.take_observations();
    assert_eq!(observations.len(), 1);
    assert_eq!(observations[0].what, "fail_sync");
    assert!(matches!(observations[0].detail, Detail::Receipt { unconfirmed: true, .. }));
    assert!(observations[0].why.as_ref().unwrap().contains("ParentSync"));
    store.close();
    assert_eq!(receipt(fixture.store().lookup(&operation()).unwrap().unwrap()), saved);
}

#[test]
fn cleanup_failure_does_not_change_terminal_receipt_and_reopen_retries_cleanup() {
    let fixture = Fixture::new();
    let mut store = fixture.store();
    let bytes = png_bytes();
    let ticket = upload(&mut store, intent(fixture.destination(), &bytes), &bytes);
    store.hands.fault = Some(Fault::Cleanup);
    let saved = receipt(store.finish(&operation(), &ticket).unwrap());
    assert_eq!(saved.outcome, Outcome::Stored);
    assert_eq!(fixture.stages().len(), 1);
    let observations = store.store.take_observations();
    assert_eq!(observations.len(), 2);
    assert_eq!(observations[1].what, "fail_unlink");
    assert_eq!(observations[1].place, fixture.stages()[0]);
    store.close();
    let mut store = fixture.store();
    assert_eq!(receipt(store.lookup(&operation()).unwrap().unwrap()), saved);
    assert!(fixture.stages().is_empty());
    assert!(store.store.take_observations().is_empty());
}

#[test]
fn capability_lock_is_exclusive_and_corruption_fails_only_store_open() {
    let fixture = Fixture::new();
    let store = fixture.store();
    assert!(fixture.try_open().is_err());
    store.close();
    let store = fixture.store();
    store.close();
    let corrupt = format!("{}/{}.json", fixture.journal(), "0".repeat(64));
    fixture.disk.borrow_mut().write(&corrupt, b"not json");
    assert!(fixture.try_open().is_err());
    fixture.disk.borrow_mut().write(&fixture.at("unrelated-tool-output"), b"available");
}

#[test]
fn cleanup_sync_failure_does_not_claim_that_unlink_failed() {
    let fixture = Fixture::new();
    let mut store = fixture.store();
    let bytes = png_bytes();
    let ticket = upload(&mut store, intent(fixture.destination(), &bytes), &bytes);
    store.hands.fault = Some(Fault::CleanupSync);
    let saved = receipt(store.finish(&operation(), &ticket).unwrap());
    assert_eq!(saved.outcome, Outcome::Stored);
    assert!(fixture.stages().is_empty());
    let observations = store.store.take_observations();
    assert_eq!(observations.len(), 2);
    assert_eq!(observations[1].what, "fail_sync");
    assert!(matches!(observations[1].detail, Detail::Cleanup { unlinked: true, .. }));
    assert_eq!(receipt(store.lookup(&operation()).unwrap().unwrap()), saved);
}

#[test]
fn frozen_writer_still_serves_existing_receipts_and_foreign_tickets_are_fenced() {
    let fixture = Fixture::new();
    let mut store = fixture.store();
    let bytes = png_bytes();
    let original = intent(fixture.destination(), &bytes);
    let held = upload(&mut store, original.clone(), &bytes);
    let foreign = Fixture::owned(100);
    let mut other = foreign.store();
    let other_ticket = upload(&mut other, intent(foreign.destination(), &bytes), &bytes);
    assert!(store.append(&other_ticket, bytes.len() as u64, &[0]).is_err());
    assert!(store.cancel(&operation(), &other_ticket).is_err());
    assert!(store.finish(&operation(), &other_ticket).is_err());
    let saved = receipt(store.finish(&operation(), &held).unwrap());
    let mut op = operation();
    op.operation_id = "second-save".into();
    let next = ticket(
        store
            .begin(
                op.clone(),
                attempt("a"),
                intent(fixture.at("pane/test/second.png"), &bytes),
            )
            .unwrap(),
    );
    store.append(&next, 0, &bytes).unwrap();
    store.hands.fault = Some(Fault::BeforeJournalRename);
    assert_unresolved(store.finish(&op, &next).unwrap());
    assert_eq!(
        receipt(store.begin(operation(), attempt("retry"), original).unwrap()),
        saved
    );
    assert_eq!(receipt(store.lookup(&operation()).unwrap().unwrap()), saved);
}

#[test]
fn process_exit_at_receiving_acceptance_link_and_terminal_boundaries() {
    for boundary in ["receiving", "accepted", "linked", "terminal"] {
        let fixture = Fixture::new();
        let mut store = fixture.store();
        let bytes = png_bytes();
        let ticket = upload(&mut store, intent(fixture.destination(), &bytes), &bytes);
        match boundary {
            "receiving" => {}
            "accepted" => store.accept(&operation(), &ticket),
            "linked" => {
                assert!(matches!(
                    store.publish(&operation(), &ticket),
                    Status::Unresolved { published: Some(true), .. }
                ));
            }
            _ => {
                store.hands.fault = Some(Fault::Cleanup);
                assert_eq!(
                    receipt(store.finish(&operation(), &ticket).unwrap()).outcome,
                    Outcome::Stored
                );
            }
        }
        store.lose();
        let mut store = fixture.store();
        let status = store.lookup(&operation()).unwrap();
        match boundary {
            "receiving" => {
                assert_eq!(status, None);
                assert_eq!(fixture.stages().len(), 1);
            }
            "accepted" => {
                assert_unresolved(status.unwrap());
                assert!(!fixture.present(&fixture.destination()));
            }
            _ => {
                assert_eq!(receipt(status.unwrap()).outcome, Outcome::Stored);
                assert_eq!(fixture.read(&fixture.destination()).unwrap(), png_bytes());
                assert!(fixture.stages().is_empty());
            }
        }
    }
}

// The wire.

fn wire_png() -> Vec<u8> {
    let mut bytes = Vec::new();
    {
        let mut encoder = png::Encoder::new(&mut bytes, 1, 1);
        encoder.set_color(png::ColorType::Rgba);
        let mut writer = encoder.write_header().unwrap();
        writer.write_image_data(&[1, 2, 3, 255]).unwrap();
        writer.finish().unwrap();
    }
    bytes
}

fn wire_intent(fixture: &Fixture, bytes: &[u8]) -> Intent {
    Intent {
        destination: fixture.destination(),
        bytes: bytes.len() as u64,
        sha256: sha256_hex(bytes),
        mode: CaptureMode::Viewport,
        source_url: "https://example.test/".into(),
        captured_at: "2026-09-20T00:00:00Z".into(),
    }
}

fn binding() -> Binding {
    Binding {
        operation: OperationId {
            slug: "test".into(),
            caller: "shotgun".into(),
            operation_id: "op-1".into(),
        },
        attempt: Attempt { call_id: "call-1".into(), attempt_id: "attempt-1".into() },
        source_socket: 1,
        writer_socket: 2,
    }
}

fn request(why: &str, sequence: u64) -> Request {
    Request {
        what: "screenshot_save".into(),
        why: why.into(),
        binding: binding(),
        sequence,
        intent: None,
        offset: None,
        data: None,
    }
}

fn begin_request(sequence: u64, intent: Intent) -> Request {
    let mut r = request("begin", sequence);
    r.intent = Some(intent);
    r
}

fn chunk_request(sequence: u64, data: &str) -> Request {
    let mut r = request("chunk", sequence);
    r.offset = Some(0);
    r.data = Some(data.to_owned());
    r
}

fn encoded(bytes: &[u8]) -> String {
    base64::Engine::encode(&base64::engine::general_purpose::STANDARD, bytes)
}

/// The owner of a store, and what performs its steps.
struct Worker<'a> {
    fixture: &'a Fixture,
    adapter: Adapter,
    hands: Option<Hands>,
}

impl<'a> Worker<'a> {
    fn start(fixture: &'a Fixture) -> Self {
        Worker { fixture, adapter: Adapter::new(), hands: None }
    }

    fn open(&mut self) -> Option<Store> {
        let (store, hands) = open_store(&self.fixture.disk, &self.fixture.home).ok()?;
        self.hands = Some(hands);
        Some(store)
    }

    fn exchange(&mut self, request: Request) -> Completion {
        request.check().unwrap();
        let mut step = self.adapter.handle(request);
        loop {
            step = match step {
                WireStep::Idle => panic!("a command is under way"),
                WireStep::Open => {
                    let store = self.open();
                    self.adapter.opened(store)
                }
                WireStep::Reopen(mut store) => {
                    close_store(&mut store, self.hands.as_mut().unwrap());
                    let store = self.open();
                    self.adapter.opened(store)
                }
                WireStep::Act(action) => {
                    let event = self.hands.as_mut().unwrap().perform(action);
                    self.adapter.resume(event)
                }
                WireStep::Done(reply) => {
                    if let Some(hands) = &mut self.hands {
                        let adapter = &self.adapter;
                        hands.live.retain(|key, _| adapter.is_receiving(key));
                    }
                    return self.adapter.complete(reply);
                }
            };
        }
    }

    fn shutdown(mut self) {
        if let (Some(mut store), Some(mut hands)) = (self.adapter.close(), self.hands.take()) {
            close_store(&mut store, &mut hands);
        }
    }
}

#[test]
fn worker_is_lazy_and_round_trip_is_recoverable_without_raw_observations() {
    let fixture = Fixture::new();
    let bytes = wire_png();
    let mut worker = Worker::start(&fixture);
    assert!(!fixture.present(&fixture.at(".local")));
    let ready = worker.exchange(begin_request(1, wire_intent(&fixture, &bytes)));
    assert_eq!(ready.packet.why, "ready");
    assert!(ready.observations.is_empty());
    assert_eq!(fixture.disk.borrow().list(&fixture.journal()).len(), 1); // lock only
    let encoded = encoded(&bytes);
    let ack = worker.exchange(chunk_request(2, &encoded));
    assert_eq!(ack.packet.why, "ack");
    assert_eq!(ack.packet.next_offset, Some(bytes.len() as u64));
    assert!(ack.observations.is_empty());
    let saved = worker.exchange(request("finish", 3));
    assert_eq!(saved.packet.why, "stored");
    assert_eq!(saved.observations.len(), 1);
    assert!(!format!("{:?}", saved.observations).contains(&encoded));
    assert_eq!(fixture.read(&fixture.destination()).unwrap(), bytes);
    worker.shutdown();
    let mut worker = Worker::start(&fixture);
    let status = worker.exchange(request("status", 1));
    assert_eq!(status.packet.receipt, saved.packet.receipt);
    assert!(status.packet.receipt.is_some());
    assert!(status.observations.is_empty());
    worker.shutdown();
}

#[test]
fn replacement_fences_old_socket_and_attempt_even_at_offset_zero() {
    let fixture = Fixture::new();
    let bytes = wire_png();
    let mut worker = Worker::start(&fixture);
    worker.exchange(begin_request(1, wire_intent(&fixture, &bytes)));
    let replaced = || {
        let mut bound = binding();
        bound.attempt = Attempt { call_id: "call-2".into(), attempt_id: "attempt-2".into() };
        bound.source_socket = 3;
        bound
    };
    let mut replacement = begin_request(2, wire_intent(&fixture, &bytes));
    replacement.binding = replaced();
    assert_eq!(worker.exchange(replacement).packet.why, "ready");
    let stale = worker.exchange(request("cancel", 3));
    assert_eq!(stale.packet.why, "rejected");
    assert_eq!(stale.packet.reason.as_deref(), Some("stale or foreign attempt binding"));
    assert!(stale.observations.is_empty());
    let mut cancel = request("cancel", 3);
    cancel.binding = replaced();
    let aborted = worker.exchange(cancel);
    assert_eq!(aborted.packet.why, "aborted");
    worker.shutdown();
}

#[test]
fn invalid_chunk_is_fenced_and_never_quoted() {
    let fixture = Fixture::new();
    let bytes = wire_png();
    let mut worker = Worker::start(&fixture);
    worker.exchange(begin_request(1, wire_intent(&fixture, &bytes)));
    let secret = "RAW_SCREENSHOT_SENTINEL%%%%";
    let result = worker.exchange(chunk_request(2, secret));
    assert_eq!(result.packet.why, "aborted");
    assert!(!format!("{:?}", result.packet).contains(secret));
    assert!(!format!("{:?}", result.observations).contains(secret));
    assert!(!fixture.present(&fixture.destination()));
    worker.shutdown();
}

#[test]
fn store_open_failure_is_a_capability_result_and_can_be_retried() {
    let fixture = Fixture::new();
    let lock = fixture.store();
    let mut worker = Worker::start(&fixture);
    let result = worker.exchange(request("status", 1));
    assert_eq!(result.packet.why, "unresolved");
    lock.close();
    let result = worker.exchange(request("status", 2));
    assert_eq!(result.packet.why, "unknown");
    worker.shutdown();
}

/// Reads a command the way a decoder does that knows every field.
fn decode(text: &str) -> Option<Request> {
    let value: Value = serde_json::from_str(text).ok()?;
    let known = ["what", "why", "binding", "sequence", "intent", "offset", "data"];
    if !value.as_object()?.keys().all(|k| known.contains(&k.as_str())) {
        return None;
    }
    let bound = value.get("binding")?;
    Some(Request {
        what: text_of(&value, "what")?,
        why: text_of(&value, "why")?,
        binding: Binding {
            operation: read_operation(bound.get("operation")?)?,
            attempt: read_attempt(bound.get("attempt")?)?,
            source_socket: number(bound, "source_socket")?,
            writer_socket: number(bound, "writer_socket")?,
        },
        sequence: number(&value, "sequence")?,
        intent: match value.get("intent") {
            None => None,
            Some(v) => Some(read_intent(v)?),
        },
        offset: match value.get("offset") {
            None => None,
            Some(v) => Some(v.as_u64()?),
        },
        data: match value.get("data") {
            None => None,
            Some(v) => Some(v.as_str()?.to_owned()),
        },
    })
}

fn text_of(value: &Value, name: &str) -> Option<String> {
    text(value, name)
}

fn packet(data: &str, more: &str) -> String {
    format!(
        "{{\"what\":\"screenshot_save\",\"why\":\"chunk\",\"sequence\":1,\"binding\":{{\"operation\":{{\"slug\":\"test\",\"caller\":\"shotgun\",\"operation_id\":\"op-1\"}},\"attempt\":{{\"call_id\":\"call-1\",\"attempt_id\":\"attempt-1\"}},\"source_socket\":1,\"writer_socket\":2}},\"offset\":0,\"data\":\"{data}\"{more}}}"
    )
}

#[test]
fn request_limits_and_schema_errors_do_not_quote_payloads() {
    let oversized = packet(&"A".repeat(MAX_PACKET_BYTES), "");
    assert_eq!(
        Request::parse(&oversized, decode).err(),
        Some("screenshot packet exceeds limit")
    );
    let surprising = packet("RAW_SCREENSHOT_SENTINEL", ",\"surprise\":true");
    assert_eq!(
        Request::parse(&surprising, decode).err(),
        Some("invalid screenshot command")
    );
    let plain = packet("QUJD", "");
    let request = Request::parse(&plain, decode).unwrap();
    assert_eq!(request, chunk_request(1, "QUJD"));
}

#[test]
fn status_reopens_a_frozen_idle_capability_without_inventing_failure() {
    let fixture = Fixture::new();
    let bytes = wire_png();
    let mut worker = Worker::start(&fixture);
    worker.exchange(begin_request(1, wire_intent(&fixture, &bytes)));
    worker.exchange(chunk_request(2, &encoded(&bytes)));
    let pending = format!("{}/{}.new", fixture.journal(), sha256_hex(b"test\0op-1"));
    fixture.disk.borrow_mut().write(&pending, b"interrupted journal preparation");
    assert_eq!(worker.exchange(request("finish", 3)).packet.why, "unresolved");
    // Acceptance's rename never happened, so reopening establishes absence of
    // a durable operation. It must not report a failed published artifact.
    assert_eq!(worker.exchange(request("status", 4)).packet.why, "unknown");
    assert!(!fixture.present(&fixture.destination()));
    worker.shutdown();
}

// What the store and its owner promise beyond single scenarios, on values.

#[test]
fn journal_entries_are_the_record_in_declaration_order() {
    let fixture = Fixture::new();
    let mut store = fixture.store();
    let bytes = png_bytes();
    let ticket = upload(&mut store, intent(fixture.destination(), &bytes), &bytes);
    store.accept(&operation(), &ticket);
    let entry = String::from_utf8(fixture.read(&fixture.records()[0]).unwrap()).unwrap();
    let record = read_record(entry.as_bytes()).unwrap();
    let key = operation_key("test", "save-1").unwrap();
    assert_eq!(fixture.records()[0], format!("{}/{key}.json", fixture.journal()));
    let expected = format!(
        "{{\"version\":2,\"operation\":{{\"slug\":\"test\",\"caller\":\"shotgun\",\"operation_id\":\"save-1\"}},\"attempt\":{{\"call_id\":\"call-a\",\"attempt_id\":\"a\"}},\"intent\":{{\"destination\":\"{0}\",\"bytes\":{1},\"sha256\":\"{2}\",\"mode\":\"viewport\",\"source_url\":\"https://example.test/capture\",\"captured_at\":\"2026-09-20T20:00:00Z\"}},\"destination\":\"{0}\",\"parent_identity\":{{\"device\":1,\"inode\":{3}}},\"stage_name\":\".wicket-screenshot-{key}-01010101010101010101010101010101.stage\",\"stage_identity\":{{\"device\":1,\"inode\":{4}}},\"verified\":{{\"mime_type\":\"image/png\",\"bytes\":{1},\"sha256\":\"{2}\",\"pixel_width\":2,\"pixel_height\":1}},\"accepted_at\":\"{5}\",\"terminal\":null}}",
        fixture.destination(),
        bytes.len(),
        sha256_hex(&bytes),
        record.parent_identity.inode,
        record.stage_identity.inode,
        record.accepted_at,
    );
    assert_eq!(entry, expected);
}

#[test]
fn a_frozen_store_cancels_but_writes_nothing() {
    let fixture = Fixture::new();
    let mut store = fixture.store();
    let bytes = png_bytes();
    let first = upload(&mut store, intent(fixture.destination(), &bytes), &bytes);
    let mut second = operation();
    second.operation_id = "second".into();
    let held = ticket(
        store
            .begin(second.clone(), attempt("a"), intent(fixture.at("pane/test/b.png"), &bytes))
            .unwrap(),
    );
    store.hands.fault = Some(Fault::AfterJournalRename);
    assert_unresolved(store.finish(&operation(), &first).unwrap());
    assert!(store.append(&held, 0, &bytes).is_err());
    assert!(store.replace(&held, attempt("b")).is_err());
    assert!(store.finish(&second, &held).is_err());
    let aborted = receipt(store.cancel(&second, &held).unwrap());
    assert_eq!(aborted.outcome, Outcome::Aborted);
    assert!(!fixture.present(&fixture.destination()));
}

#[test]
fn an_event_nobody_waits_for_ends_the_operation() {
    let fixture = Fixture::new();
    let mut store = fixture.store();
    let bytes = png_bytes();
    let step = store.store.begin(
        operation(),
        attempt("a"),
        intent(fixture.destination(), &bytes),
    );
    assert!(matches!(step, Step::Act(Action::Survey { .. })));
    let step = store.store.resume(Event::Length(Ok(1)));
    match step {
        Step::Done(Err(e)) => assert_eq!(e.message, "the store does not wait for this event"),
        other => panic!("expected a refusal: {other:?}"),
    }
    assert_eq!(store.lookup(&operation()).unwrap(), None);
}

#[test]
fn receipts_of_unaccepted_transfers_name_their_stage_and_generation() {
    let fixture = Fixture::new();
    let mut store = fixture.store();
    let bytes = png_bytes();
    let old = upload(&mut store, intent(fixture.destination(), &bytes), &bytes);
    let current = store.replace(&old, attempt("b")).unwrap();
    let stage = fixture.stages()[0].rsplit('/').next().unwrap().to_owned();
    let step = store.store.cancel_at(&operation(), &current, "noon");
    let aborted = receipt(store.run(step).map(status).unwrap());
    assert_eq!(aborted.event_id, format!("{stage}-2-temporary"));
    assert_eq!(aborted.observed_at, "noon");
    assert_eq!(aborted.verified, None);
}

#[test]
fn stale_sequences_and_conflicting_beginnings_are_rejected() {
    let fixture = Fixture::new();
    let bytes = wire_png();
    let mut worker = Worker::start(&fixture);
    worker.exchange(begin_request(5, wire_intent(&fixture, &bytes)));
    let stale = worker.exchange(begin_request(5, wire_intent(&fixture, &bytes)));
    assert_eq!(stale.packet.why, "rejected");
    assert_eq!(stale.packet.reason.as_deref(), Some("stale command sequence"));
    assert_eq!(stale.packet.sequence, 5);
    assert_eq!(stale.packet.binding, binding());
    let again = worker.exchange(begin_request(6, wire_intent(&fixture, &bytes)));
    assert_eq!(again.packet.why, "ready");
    assert_eq!(again.packet.next_offset, Some(0));
    let mut conflict = begin_request(7, wire_intent(&fixture, &bytes));
    conflict.binding.source_socket = 9;
    let conflict = worker.exchange(conflict);
    assert_eq!(
        conflict.packet.reason.as_deref(),
        Some("operation intent or caller conflicts")
    );
    let stale = worker.exchange(chunk_request(6, &encoded(&bytes)));
    assert_eq!(stale.packet.why, "rejected");
    let ack = worker.exchange(chunk_request(7, &encoded(&bytes)));
    assert_eq!(ack.packet.why, "ack");
    worker.shutdown();
}

#[test]
fn commands_without_a_transfer_are_answered() {
    let fixture = Fixture::new();
    let mut worker = Worker::start(&fixture);
    for (why, sequence) in [("finish", 1), ("cancel", 2)] {
        let answer = worker.exchange(request(why, sequence)).packet;
        assert_eq!(answer.why, "unresolved");
        assert_eq!(
            answer.reason.as_deref(),
            Some("no live attempt; query status with the operation ID")
        );
    }
    let answer = worker.exchange(chunk_request(3, "QUJD")).packet;
    assert_eq!(answer.why, "unresolved");
    let mut outside = wire_intent(&fixture, &wire_png());
    outside.destination = "/elsewhere.png".into();
    let refused = worker.exchange(begin_request(4, outside)).packet;
    assert_eq!(refused.why, "rejected");
    assert_eq!(
        refused.reason.as_deref(),
        Some("screenshot begin refused; no receive was admitted for this binding")
    );
    worker.shutdown();
}

#[test]
fn commands_that_break_a_rule_are_named() {
    let mut wrong = request("status", 1);
    wrong.what = "tool".into();
    assert_eq!(wrong.check(), Err("invalid screenshot binding"));
    let mut wrong = request("status", 1);
    wrong.binding.operation.caller = "somebody".into();
    assert_eq!(wrong.check(), Err("invalid screenshot binding"));
    let mut wrong = request("status", 1);
    wrong.binding.attempt.call_id = "".into();
    assert_eq!(wrong.check(), Err("invalid screenshot binding"));
    let mut wrong = request("status", 1);
    wrong.offset = Some(0);
    assert_eq!(wrong.check(), Err("invalid screenshot command fields"));
    assert_eq!(request("begin", 1).check(), Err("invalid screenshot command fields"));
    assert_eq!(request("publish", 1).check(), Err("invalid screenshot command fields"));
    assert_eq!(chunk_request(1, &"A".repeat(87_384)).check(), Ok(()));
    assert_eq!(
        chunk_request(1, &"A".repeat(87_385)).check(),
        Err("invalid screenshot command fields")
    );
}

#[test]
fn chunks_are_decoded_and_bounded() {
    assert_eq!(read_chunk("QUJD"), Some(b"ABC".to_vec()));
    assert_eq!(read_chunk("QUJ"), None);
    assert_eq!(read_chunk(""), None);
    assert_eq!(checked_chunk(Some(vec![7; MAX_CHUNK_BYTES])), Some(vec![7; MAX_CHUNK_BYTES]));
    assert_eq!(checked_chunk(Some(vec![7; MAX_CHUNK_BYTES + 1])), None);
    assert_eq!(checked_chunk(None), None);
}

#[test]
fn a_retry_may_spell_its_destination_otherwise() {
    let fixture = Fixture::new();
    let mut store = fixture.store();
    let bytes = png_bytes();
    let intent = intent(fixture.destination(), &bytes);
    let mut respelled = intent.clone();
    respelled.destination = intent.destination.replace('/', "//");
    let live = ticket(store.begin(operation(), attempt("a"), intent.clone()).unwrap());
    let again = ticket(store.begin(operation(), attempt("a"), respelled.clone()).unwrap());
    assert_eq!(again, live);
    store.append(&live, 0, &bytes).unwrap();
    let saved = receipt(store.finish(&operation(), &live).unwrap());
    assert_eq!(saved.outcome, Outcome::Stored);
    assert_eq!(saved.requested.destination, intent.destination);
    assert_eq!(receipt(store.begin(operation(), attempt("b"), respelled).unwrap()), saved);
    store.close();
    let mut store = fixture.store();
    let mut other = intent.clone();
    other.destination = format!("{}.png", intent.destination);
    assert_eq!(
        store.begin(operation(), attempt("b"), other).unwrap_err().message,
        "operation ID already binds different intent"
    );
    assert_eq!(receipt(store.begin(operation(), attempt("b"), intent).unwrap()), saved);
}

#[test]
fn a_replacement_may_spell_its_destination_otherwise() {
    let fixture = Fixture::new();
    let bytes = wire_png();
    let mut worker = Worker::start(&fixture);
    worker.exchange(begin_request(1, wire_intent(&fixture, &bytes)));
    let mut respelled = wire_intent(&fixture, &bytes);
    respelled.destination = respelled.destination.replace('/', "//");
    let mut replacing = begin_request(1, respelled);
    replacing.binding.attempt.attempt_id = "attempt-2".into();
    assert_eq!(worker.exchange(replacing).packet.why, "ready");
    worker.shutdown();
}

#[test]
fn transfers_of_an_earlier_store_are_unknown() {
    let fixture = Fixture::new();
    let mut store = fixture.store();
    let bytes = png_bytes();
    let mut ended = operation();
    ended.operation_id = "save-2".into();
    let over = ticket(
        store.begin(ended.clone(), attempt("a"), intent(fixture.destination(), &bytes)).unwrap(),
    );
    assert_eq!(receipt(store.cancel(&ended, &over).unwrap()).outcome, Outcome::Aborted);
    let live = upload(&mut store, intent(fixture.destination(), &bytes), &bytes);
    store.close();
    assert!(fixture.stages().is_empty());
    assert!(fixture.records().is_empty());
    let mut store = fixture.store();
    for (operation, ticket) in [(operation(), live), (ended, over)] {
        assert_eq!(store.lookup(&operation).unwrap(), None);
        assert!(store.append(&ticket, 0, &bytes).is_err());
        assert!(store.replace(&ticket, attempt("b")).is_err());
        assert_eq!(
            store.finish(&operation, &ticket).unwrap_err().message,
            "stale or foreign ticket"
        );
        assert_eq!(
            store.cancel(&operation, &ticket).unwrap_err().message,
            "stale or foreign ticket"
        );
    }
    assert!(store.store.take_observations().is_empty());
}

#[test]
fn a_stored_operation_is_answered_with_the_same_receipt_ever_after() {
    let fixture = Fixture::new();
    let bytes = wire_png();
    let mut worker = Worker::start(&fixture);
    worker.exchange(begin_request(1, wire_intent(&fixture, &bytes)));
    worker.exchange(chunk_request(2, &encoded(&bytes)));
    let saved = worker.exchange(request("finish", 3));
    assert_eq!(saved.packet.why, "stored");
    assert_eq!(saved.observations.len(), 1);
    for _ in 0..2 {
        for why in ["cancel", "finish", "status", "cancel"] {
            let asked = worker.exchange(request(why, 1));
            assert_eq!(asked.packet.why, "stored");
            assert_eq!(asked.packet.receipt, saved.packet.receipt);
            assert!(asked.observations.is_empty());
        }
        let begun = worker.exchange(begin_request(9, wire_intent(&fixture, &bytes)));
        assert_eq!(begun.packet.why, "stored");
        assert_eq!(begun.packet.receipt, saved.packet.receipt);
        assert!(begun.observations.is_empty());
        // A new owner for the same home.
        worker.shutdown();
        worker = Worker::start(&fixture);
    }
    worker.shutdown();
}

fn said_published(status: Status) -> Option<bool> {
    match status {
        Status::Unresolved { published, .. } => published,
        other => panic!("expected unresolved: {other:?}"),
    }
}

#[test]
fn only_the_store_that_linked_says_that_an_operation_is_published() {
    let fixture = Fixture::new();
    let bytes = png_bytes();
    let mut store = fixture.store();
    let ticket = upload(&mut store, intent(fixture.destination(), &bytes), &bytes);
    store.accept(&operation(), &ticket);
    store.lose();
    let mut store = fixture.store();
    assert_eq!(said_published(store.lookup(&operation()).unwrap().unwrap()), None);
    // The files prove the publication now, but this store linked nothing.
    let stage = fixture.stages().remove(0);
    fixture.disk.borrow_mut().hard_link(&stage, &fixture.destination());
    store.hands.fault = Some(Fault::BeforeJournalRename);
    assert_eq!(said_published(store.lookup(&operation()).unwrap().unwrap()), None);
    assert_eq!(said_published(store.record_status(&operation())), None);
    assert!(store.store.take_observations().is_empty());
    store.close();
    let mut store = fixture.store();
    let saved = receipt(store.lookup(&operation()).unwrap().unwrap());
    assert_eq!(saved.outcome, Outcome::Stored);
}

#[test]
fn a_store_that_linked_says_so_even_after_a_proof() {
    let fixture = Fixture::new();
    let bytes = png_bytes();
    let mut store = fixture.store();
    let ticket = upload(&mut store, intent(fixture.destination(), &bytes), &bytes);
    assert_eq!(said_published(store.publish(&operation(), &ticket)), Some(true));
    store.hands.fault = Some(Fault::BeforeJournalRename);
    assert_eq!(said_published(store.lookup(&operation()).unwrap().unwrap()), Some(true));
}

#[test]
fn a_refused_publication_whose_receipt_is_uncertain_is_known_as_refused() {
    let fixture = Fixture::new();
    let bytes = png_bytes();
    let mut store = fixture.store();
    let ticket = upload(&mut store, intent(fixture.destination(), &bytes), &bytes);
    fixture.disk.borrow_mut().write(&fixture.destination(), b"occupant");
    store.hands.journals_before_fault = 1;
    store.hands.fault = Some(Fault::BeforeJournalRename);
    let status = store.finish(&operation(), &ticket).unwrap();
    assert_eq!(said_published(status), Some(false));
    store.close();
    let mut store = fixture.store();
    assert_eq!(said_published(store.lookup(&operation()).unwrap().unwrap()), None);
}

#[test]
fn answers_have_the_fields_that_go_with_their_word() {
    let fixture = Fixture::new();
    let bytes = wire_png();
    let mut worker = Worker::start(&fixture);
    let fields = |completion: Completion| {
        let packet = completion.packet;
        (
            packet.why,
            packet.receipt.is_some(),
            packet.next_offset,
            packet.reason.is_some(),
        )
    };
    assert_eq!(
        fields(worker.exchange(request("status", 1))),
        ("unknown".into(), false, None, false)
    );
    assert_eq!(
        fields(worker.exchange(request("finish", 1))),
        ("unresolved".into(), false, None, true)
    );
    assert_eq!(
        fields(worker.exchange(begin_request(1, wire_intent(&fixture, &bytes)))),
        ("ready".into(), false, Some(0), false)
    );
    let length = bytes.len() as u64;
    assert_eq!(
        fields(worker.exchange(chunk_request(2, &encoded(&bytes)))),
        ("ack".into(), false, Some(length), false)
    );
    assert_eq!(
        fields(worker.exchange(request("status", 3))),
        ("receiving".into(), false, Some(length), false)
    );
    assert_eq!(
        fields(worker.exchange(request("cancel", 2))),
        ("rejected".into(), false, None, true)
    );
    assert_eq!(
        fields(worker.exchange(request("cancel", 3))),
        ("aborted".into(), true, None, false)
    );
    worker.shutdown();
}
