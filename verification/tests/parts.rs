//! The parts that the executor and its screenshot store are built of.

use wicket::error::{invalid, Error, ErrorKind};
use wicket::facts::{read_bounded, record_stage, verify_live_stage, FileFacts, StageFacts};
use wicket::identity::{valid_id, operation_key, sha256_hex, validate_id, validate_key};
use wicket::json::{write_intent, write_path, write_record};
use wicket::model::{
    Attempt, CaptureMode, Identity, Intent, OperationId, Outcome, Record, VerifiedPng,
    MAX_PNG_BYTES,
};
use wicket::observation::{cleanup_record, receipt_record, terminal_receipt, Detail};
use wicket::opening::{Opening, Progress, Report, Task};
use wicket::path::{
    file_name, inside, join, parent, resolve, same_path, validate_absolute, within,
};
use wicket::png::{check_buffer, check_framing, check_size, validate_png, verify_png};
use wicket::policy::{allowed_parent, writable_roots, ParentFacts};
use wicket::rules::{
    checked_key, same_intent, same_operation, stage_name, validate_attempt, validate_intent,
    validate_record,
};
use wicket::table::Table;
use wicket::text::{
    byte_len, decimal_text, hex_text, same_text, signed_decimal_text, split_lines, strip_prefix,
    strip_suffix, trim, trim_end, trim_start,
};

fn message<T>(r: Result<T, Error>) -> String {
    match r {
        Ok(_) => panic!("expected a refusal"),
        Err(e) => e.message,
    }
}

fn missing() -> Error {
    Error { kind: ErrorKind::NotFound, message: "missing".into() }
}

fn operation() -> OperationId {
    OperationId { slug: "test".into(), caller: "shotgun".into(), operation_id: "op-1".into() }
}

fn attempt() -> Attempt {
    Attempt { call_id: "call-1".into(), attempt_id: "a".into() }
}

fn intent() -> Intent {
    Intent {
        destination: "/p/a.png".into(),
        bytes: 3,
        sha256: sha256_hex(b"abc"),
        mode: CaptureMode::FullPage,
        source_url: "https://example.test/\"q\"".into(),
        captured_at: "now".into(),
    }
}

fn key() -> String {
    operation_key("test", "op-1").unwrap()
}

fn record() -> Record {
    Record {
        version: 2,
        operation: operation(),
        attempt: attempt(),
        intent: intent(),
        destination: "/p/a.png".into(),
        parent_identity: Identity { device: 1, inode: 2 },
        stage_name: stage_name(&key(), &"0".repeat(32)),
        stage_identity: Identity { device: 1, inode: 3 },
        verified: VerifiedPng {
            mime_type: "image/png".into(),
            bytes: 3,
            sha256: sha256_hex(b"abc"),
            pixel_width: 1,
            pixel_height: 1,
        },
        accepted_at: "later".into(),
        terminal: None,
    }
}

#[test]
fn digests_are_those_of_sha256() {
    assert_eq!(
        sha256_hex(b"abc"),
        "ba7816bf8f01cfea414140de5dae2223b00361a396177a9cb410ff61f20015ad"
    );
    assert_eq!(key(), sha256_hex(b"test\0op-1"));
    assert_eq!(checked_key(&operation()), Ok(key()));
}

#[test]
fn identities_are_short_and_plain() {
    let refusal = "identity must contain 1..128 ASCII letters, digits, hyphens or underscores";
    assert_eq!(validate_id(&"a-Z_9".repeat(25)), Ok(()));
    assert_eq!(validate_id(&"a".repeat(128)), Ok(()));
    for id in ["", "a b", "a/b", "é", &"a".repeat(129)] {
        assert_eq!(message(validate_id(id)), refusal, "{id:?}");
    }
    assert!(valid_id("a-Z_9") && !valid_id("a b"));
    let mut foreign = operation();
    foreign.caller = "some body".into();
    assert_eq!(message(checked_key(&foreign)), refusal);
    assert_eq!(message(operation_key("test", "")), refusal);
    let mut odd = attempt();
    odd.attempt_id = "..".into();
    assert_eq!(message(validate_attempt(&odd)), refusal);
    assert_eq!(validate_attempt(&attempt()), Ok(()));
}

#[test]
fn keys_are_lower_case_digests() {
    assert_eq!(validate_key(&key()), Ok(()));
    for wrong in [key().to_uppercase(), key()[1..].to_owned(), "g".repeat(64)] {
        assert_eq!(message(validate_key(&wrong)), "invalid journal key or SHA-256");
    }
}

#[test]
fn paths_are_compared_by_components() {
    for path in ["/a", "/a/b.png", "//a", "/a/..b", "/a/.b", "/a/b..."] {
        assert_eq!(validate_absolute(path), Ok(()), "{path}");
    }
    for path in ["", "a", "/", "/a/", "/a/.", "/./a", "/a/../b", "/.."] {
        assert_eq!(
            message(validate_absolute(path)),
            "destination must be absolute without dot or parent components",
            "{path}"
        );
    }
    assert_eq!(parent("/a/b.png"), "/a");
    assert_eq!(parent("/a//b.png"), "/a");
    assert_eq!(parent("/b.png"), "/");
    assert_eq!(file_name("/a/b.png"), "b.png");
    assert_eq!(join("/a/", "b"), "/a/b");
    assert_eq!(join("/a", "/b"), "/b");
    assert!(within("/a", "/a") && within("/a", "/a/b") && within("/", "/a"));
    assert!(!within("/a", "/ab") && !within("/a/b", "/a"));
}

#[test]
fn texts_are_taken_apart() {
    assert_eq!(trim(" \u{a0}a b\t\n"), "a b");
    assert_eq!(trim_start("\u{2003}a "), "a ");
    assert_eq!(trim_end(" a\u{3000}\r\n"), " a");
    assert_eq!(split_lines("a\nb\n"), vec!["a", "b", ""]);
    assert_eq!(strip_prefix("writable /a", "writable "), Some("/a"));
    assert_eq!(strip_prefix("a", "ab"), None);
    assert_eq!(strip_suffix("k.json", ".json"), Some("k"));
    assert_eq!(strip_suffix("k.json", ".new"), None);
    assert_eq!(decimal_text(u64::MAX), "18446744073709551615");
    assert_eq!(signed_decimal_text(i32::MIN), "-2147483648");
    assert_eq!(signed_decimal_text(0), "0");
    assert_eq!(hex_text(&[0x00, 0x9f, 0xab]), "009fab");
    assert_eq!(byte_len("é"), 2);
    assert!(same_text("é", "é") && !same_text("é", "e"));
}

#[test]
fn tables_forget_what_is_removed() {
    let mut table: Table<String> = Table::new();
    assert!(table.is_empty());
    table.insert("a".into(), "1".into());
    table.insert("a".into(), "2".into());
    assert_eq!(table.get("a").map(String::as_str), Some("2"));
    assert_eq!(table.len(), 1);
    table.remove("a");
    assert!(!table.contains("a"));
}

#[test]
fn intents_are_bounded() {
    assert_eq!(validate_intent(&intent()), Ok(()));
    let refused = |change: fn(&mut Intent)| {
        let mut i = intent();
        change(&mut i);
        message(validate_intent(&i))
    };
    assert_eq!(
        refused(|i| i.destination = "a.png".into()),
        "destination must be absolute without dot or parent components"
    );
    assert_eq!(refused(|i| i.sha256.clear()), "invalid journal key or SHA-256");
    assert_eq!(refused(|i| i.bytes = 0), "PNG byte count exceeds limit or is empty");
    assert_eq!(
        refused(|i| i.bytes = MAX_PNG_BYTES + 1),
        "PNG byte count exceeds limit or is empty"
    );
    assert_eq!(
        refused(|i| i.source_url = "x".repeat(8193)),
        "capture metadata exceeds limit"
    );
    assert_eq!(
        refused(|i| i.captured_at = "x".repeat(129)),
        "capture metadata exceeds limit"
    );
    assert_eq!(
        refused(|i| i.destination = format!("/{}", "x".repeat(4096))),
        "capture metadata exceeds limit"
    );
    assert_eq!(
        refused(|i| i.source_url = "\u{1}".repeat(4096)),
        "serialized capture metadata exceeds limit"
    );
    let mut other = intent();
    other.mode = CaptureMode::Viewport;
    assert_eq!(
        message(same_intent(&intent(), &other)),
        "operation ID already binds different intent"
    );
    let mut foreign = operation();
    foreign.caller = "another".into();
    assert_eq!(
        message(same_operation(&operation(), &foreign)),
        "operation identity or caller conflicts"
    );
}

#[test]
fn json_is_what_serde_writes() {
    let json = write_intent(&intent());
    assert_eq!(
        json,
        format!("{{\"destination\":\"/p/a.png\",\"bytes\":3,\"sha256\":\"{}\",\"mode\":\"full_page\",\"source_url\":\"https://example.test/\\\"q\\\"\",\"captured_at\":\"now\"}}", sha256_hex(b"abc"))
    );
    let value: serde_json::Value = serde_json::from_str(&json).unwrap();
    assert_eq!(value["source_url"], "https://example.test/\"q\"");
    assert_eq!(write_path("/a\u{7}\n\"é"), "\"/a\\u0007\\n\\\"é\"");
    let mut done = record();
    let outcomes = [
        (Outcome::Stored, "\"stored\""),
        (
            Outcome::PublishedDurabilityUnconfirmed { reason: "r".into() },
            "{\"published_durability_unconfirmed\":{\"reason\":\"r\"}}",
        ),
        (
            Outcome::Failed { action: "publish".into(), reason: "r".into() },
            "{\"failed\":{\"action\":\"publish\",\"reason\":\"r\"}}",
        ),
        (Outcome::Aborted, "\"aborted\""),
    ];
    for (outcome, expected) in outcomes {
        done.terminal = Some(terminal_receipt(&key(), &record(), outcome, "end"));
        let json = write_record(&done);
        let tail = format!("\"accepted_at\":\"later\",\"observed_at\":\"end\",\"outcome\":{expected}}}}}");
        assert!(json.ends_with(&tail), "{json}");
        let value: serde_json::Value = serde_json::from_str(&json).unwrap();
        assert_eq!(value["terminal"]["event_id"], format!("screenshot-{}-terminal", key()));
    }
}

#[test]
fn journal_records_that_break_a_rule_are_refused() {
    assert_eq!(validate_record(&key(), &record()), Ok(()));
    let refused = |change: fn(&mut Record)| {
        let mut r = record();
        change(&mut r);
        message(validate_record(&key(), &r))
    };
    assert_eq!(refused(|r| r.version = 1), "invalid journal version or identity");
    assert_eq!(
        refused(|r| r.operation.operation_id = "op-2".into()),
        "invalid journal version or identity"
    );
    assert_eq!(
        refused(|r| r.stage_name = stage_name(&key(), "short")),
        "invalid journal version or identity"
    );
    assert_eq!(refused(|r| r.stage_name = "x.stage".into()), "invalid stage name");
    assert_eq!(
        refused(|r| r.destination = "a.png".into()),
        "destination must be absolute without dot or parent components"
    );
    assert_eq!(refused(|r| r.verified.bytes = 4), "invalid verified PNG facts");
    assert_eq!(refused(|r| r.verified.pixel_width = 0), "invalid verified PNG facts");
    assert_eq!(refused(|r| r.verified.pixel_height = 32_769), "invalid verified PNG facts");
    let mismatch = "terminal receipt does not match accepted operation";
    assert_eq!(
        refused(|r| r.terminal = Some(terminal_receipt(&key(), r, Outcome::Aborted, "end"))),
        mismatch
    );
    assert_eq!(
        refused(|r| {
            r.terminal = Some(terminal_receipt("other", r, Outcome::Stored, "end"));
        }),
        mismatch
    );
    let mut done = record();
    done.terminal = Some(terminal_receipt(&key(), &record(), Outcome::Stored, "end"));
    assert_eq!(validate_record(&key(), &done), Ok(()));
}

#[test]
fn receipts_are_described_by_their_outcome() {
    let seen = |outcome: Outcome| receipt_record(&terminal_receipt("k", &record(), outcome, "end"));
    let stored = seen(Outcome::Stored);
    assert_eq!((stored.what.as_str(), stored.why), ("store", None));
    assert_eq!(stored.how, "rooted filesystem / atomic no-clobber linkat");
    assert_eq!(stored.place, "/p/a.png");
    let unsynced = seen(Outcome::PublishedDurabilityUnconfirmed { reason: "r".into() });
    assert_eq!((unsynced.what.as_str(), unsynced.why.as_deref()), ("fail_sync", Some("r")));
    assert_eq!(unsynced.how, "directory synchronization after atomic no-clobber linkat");
    assert!(matches!(unsynced.detail, Detail::Receipt { unconfirmed: true, .. }));
    for (action, how) in [
        ("verify", "PNG decode, byte count and SHA-256 verification"),
        ("prepare", "rooted staging-file preparation"),
        ("sync", "staging-file and parent synchronization"),
        ("publish", "rooted filesystem / atomic no-clobber linkat"),
    ] {
        let failed = seen(Outcome::Failed { action: action.into(), reason: "r".into() });
        assert_eq!(failed.what, format!("fail_{action}"));
        assert_eq!(failed.how, how);
    }
    let aborted = seen(Outcome::Aborted);
    assert_eq!((aborted.what.as_str(), aborted.how.as_str()), ("abort", "receiving ticket invalidation"));
    let left = cleanup_record("/p/a.png", "s.stage", &operation(), false, "busy");
    assert_eq!((left.what.as_str(), left.place.as_str()), ("fail_unlink", "/p/s.stage"));
    assert_eq!(left.why.as_deref(), Some("busy"));
}

fn file(inode: u64, links: u64) -> FileFacts {
    FileFacts { is_file: true, identity: Identity { device: 1, inode }, links, length: 3 }
}

#[test]
fn staging_files_must_be_the_ones_that_were_made() {
    let facts = |named: Result<FileFacts, Error>, held: FileFacts| StageFacts {
        named,
        held: Ok(held),
        parent: Ok(Identity { device: 1, inode: 1 }),
    };
    assert_eq!(verify_live_stage(&facts(Ok(file(7, 1)), file(7, 1))), Ok(()));
    let refusal = "receiving stage was replaced or hard-linked";
    assert_eq!(message(verify_live_stage(&facts(Ok(file(8, 1)), file(7, 1)))), refusal);
    assert_eq!(message(verify_live_stage(&facts(Ok(file(7, 2)), file(7, 2)))), refusal);
    let mut odd = file(7, 1);
    odd.is_file = false;
    assert_eq!(message(verify_live_stage(&facts(Ok(odd), file(7, 1)))), refusal);
    assert_eq!(message(verify_live_stage(&facts(Err(missing()), file(7, 1)))), "missing");
    assert_eq!(record_stage(&Ok(file(7, 2)), Identity { device: 1, inode: 7 }), Ok(()));
    assert_eq!(
        message(record_stage(&Ok(file(7, 1)), Identity { device: 2, inode: 7 })),
        "staging evidence was replaced"
    );
}

#[test]
fn files_are_read_up_to_a_limit() {
    let read = |bytes: &[u8], limit: u64| match read_bounded(
        &Ok(file(1, 1)),
        &Ok(bytes.to_vec()),
        limit,
    ) {
        Ok(bytes) => Ok(bytes.clone()),
        Err(e) => Err(e.message),
    };
    assert_eq!(read(b"abc", 3), Ok(b"abc".to_vec()));
    assert_eq!(read(b"abcd", 3), Err("file exceeds limit".into()));
    assert_eq!(read(b"abc", 2), Err("file is not regular or exceeds limit".into()));
}

fn survey(parent: &str, roots: Vec<Result<&str, Error>>) -> ParentFacts {
    ParentFacts {
        config: Err(missing()),
        parent: Ok(parent.into()),
        roots: roots.into_iter().map(|r| r.map(str::to_owned)).collect(),
        directory: Ok(Identity { device: 1, inode: 9 }),
    }
}

#[test]
fn destinations_lie_within_the_writable_roots() {
    assert_eq!(
        writable_roots("/h", "s", Some(" writable ~/e \nwritable /t\nwritable x~/y\n")),
        vec!["/h/pane/s", "/h/e", "/t", "x~/y"]
    );
    let allowed = |f: ParentFacts| allowed_parent("/h", "s", "/h/pane/s/a.png", &f).map(|r| r.0);
    let within_pane = survey("/real/s", vec![Ok("/real/s")]);
    assert_eq!(allowed(within_pane), Ok("/real/s/a.png".into()));
    assert_eq!(
        message(allowed(survey("/real/st", vec![Ok("/real/s")]))),
        "destination is outside the slug's writable roots"
    );
    assert_eq!(
        message(allowed(survey("/real/s", vec![Err(missing())]))),
        "destination is outside the slug's writable roots"
    );
    assert_eq!(message(allowed(survey("/s", vec![Err(invalid("loop"))]))), "loop");
    let mut unreadable = survey("/real/s", vec![Ok("/real/s")]);
    unreadable.config = Err(invalid("denied"));
    assert_eq!(message(allowed(unreadable)), "denied");
    let mut odd = survey("/real/s", vec![Ok("/elsewhere"), Ok("/real")]);
    odd.config = Ok("writable relative\n".into());
    assert_eq!(message(allowed(odd)), "configured writable root is not absolute");
    let long = format!("/{}", "x".repeat(4096));
    assert_eq!(
        message(allowed(survey(&long, vec![Ok("/")]))),
        "canonical destination exceeds metadata limit"
    );
    assert_eq!(
        message(allowed_parent("/h", "s s", "/a.png", &survey("/", vec![Ok("/")]))),
        "identity must contain 1..128 ASCII letters, digits, hyphens or underscores"
    );
}

fn png(width: u32, height: u32) -> Vec<u8> {
    let mut bytes = Vec::new();
    {
        let mut encoder = png::Encoder::new(&mut bytes, width, height);
        encoder.set_color(png::ColorType::Grayscale);
        let mut writer = encoder.write_header().unwrap();
        writer.write_image_data(&vec![7; (width * height) as usize]).unwrap();
        writer.finish().unwrap();
    }
    bytes
}

#[test]
fn pictures_are_decoded_before_they_are_accepted() {
    let bytes = png(3, 2);
    assert_eq!(validate_png(&bytes), Ok((3, 2)));
    let mut wanted = intent();
    wanted.bytes = bytes.len() as u64;
    wanted.sha256 = sha256_hex(&bytes);
    let verified = verify_png(&wanted, &bytes).unwrap();
    assert_eq!((verified.pixel_width, verified.pixel_height), (3, 2));
    assert_eq!(verified.sha256, wanted.sha256);
    wanted.bytes += 1;
    assert_eq!(
        message(verify_png(&wanted, &bytes)),
        "screenshot byte count or SHA-256 does not match manifest"
    );
    assert_eq!(message(validate_png(b"GIF89a")), "not a PNG");
    assert_eq!(message(check_framing(&bytes[..bytes.len() - 1])), "truncated or animated PNG is not a screenshot");
    assert_eq!(message(check_framing(&bytes[..bytes.len() - 12])), "truncated PNG chunk");
    let mut trailing = bytes.clone();
    trailing.push(0);
    assert_eq!(message(check_framing(&trailing)), "invalid PNG end or trailing bytes");
    assert_eq!(check_size(32_768, 1_024), Ok(()));
    for (width, height) in [(0, 1), (1, 0), (32_769, 1), (32_768, 1_025)] {
        assert_eq!(message(check_size(width, height)), "decoded PNG dimensions exceed limit");
    }
    assert_eq!(check_buffer(Some(134_217_728)), Ok(134_217_728));
    assert_eq!(message(check_buffer(Some(134_217_729))), "decoded PNG buffer exceeds limit");
    assert_eq!(message(check_buffer(None)), "decoded PNG buffer exceeds limit");
}

fn opening() -> Opening {
    match Opening::start("/h".into(), 1, file(1, 1)) {
        Progress::Ask(opening, Task::NextEntry) => opening,
        _ => panic!("expected to be asked for an entry"),
    }
}

fn failure(progress: Progress) -> String {
    match progress {
        Progress::Failed(e) => e.message,
        _ => panic!("expected a failure"),
    }
}

#[test]
fn stores_open_only_over_a_sound_journal() {
    let mut lock = file(1, 2);
    assert_eq!(
        failure(Opening::start("/h".into(), 1, lock)),
        "invalid screenshot store lock"
    );
    lock.links = 1;
    lock.is_file = false;
    assert_eq!(
        failure(Opening::start("/h".into(), 1, lock)),
        "invalid screenshot store lock"
    );
    let entry = |name: &str| opening().advance(Report::Entry(Ok(Some(Some(name.to_owned())))));
    assert_eq!(failure(opening().advance(Report::Entry(Ok(Some(None))))), "non-UTF8 journal name");
    assert_eq!(failure(opening().advance(Report::Entry(Err(missing())))), "missing");
    assert_eq!(failure(entry("notes.txt")), "unknown journal file");
    assert_eq!(failure(entry("x.json")), "invalid journal key or SHA-256");
    assert_eq!(failure(entry("x.new")), "invalid journal key or SHA-256");
    assert!(matches!(entry(".lock"), Progress::Ask(_, Task::NextEntry)));
    let pending = format!("{}.new", key());
    assert!(matches!(entry(&pending), Progress::Ask(_, Task::Remove { name }) if name == pending));
    let settled = format!("{}.json", key());
    let reading = || match entry(&settled) {
        Progress::Ask(opening, Task::Read { name, limit }) => {
            assert_eq!((name, limit), (settled.clone(), 65_536));
            opening
        }
        _ => panic!("expected to be asked for a journal entry"),
    };
    let mut wrong = record();
    wrong.version = 3;
    assert_eq!(
        failure(reading().advance(Report::Journal(Ok(file(4, 1)), Ok(vec![1]), Ok(wrong)))),
        "invalid journal version or identity"
    );
    assert_eq!(
        failure(reading().advance(Report::Journal(
            Ok(file(4, 1)),
            Ok(vec![1]),
            Err(invalid("not a record"))
        ))),
        "not a record"
    );
    let read = reading().advance(Report::Journal(Ok(file(4, 1)), Ok(vec![1]), Ok(record())));
    let listed = match read {
        Progress::Ask(opening, Task::NextEntry) => opening.advance(Report::Entry(Ok(None))),
        _ => panic!("expected to be asked for an entry"),
    };
    // The directory is synchronized before anything is made of what was read.
    match listed {
        Progress::Ask(opening, Task::Sync) => {
            let recovering = opening.advance(Report::Effect(Ok(())));
            assert!(matches!(recovering, Progress::Ask(_, Task::Act(_))));
        }
        _ => panic!("expected to be asked to synchronize"),
    }
}

#[test]
fn paths_are_the_same_where_their_components_are() {
    assert!(same_path("/a/b.png", "/a/b.png"));
    assert!(same_path("/a//b.png", "/a/b.png"));
    assert!(same_path("/a/./b.png", "/a/b.png"));
    assert!(same_path("/a/b/", "/a/b"));
    assert!(same_path("", ""));
    assert!(!same_path("/a/b.png", "a/b.png"));
    assert!(!same_path("/a/../b", "/b"));
    assert!(!same_path("./a", "a"));
    assert!(!same_path("/a/b", "/a/c"));
    assert!(!same_path("/a/b", "/a"));
    // They are compared as those of the standard library are.
    for a in ["/a/b", "/a//b", "/a/./b", "/a/b/", "a/b", "./a/b", "/a/../b", "/b", "", "/", "."] {
        for b in ["/a/b", "/a/b/.", "a//b", "./a/b", "/a/../b", "//b", "", "/.", "./"] {
            assert_eq!(
                same_path(a, b),
                std::path::Path::new(a) == std::path::Path::new(b),
                "{a} {b}"
            );
        }
    }
}

#[test]
fn paths_lead_into_a_root_by_whole_components() {
    assert_eq!(resolve("/a/./b//../c"), vec!["a".to_string(), "c".to_string()]);
    assert_eq!(resolve("/../a"), vec!["a".to_string()]);
    assert!(inside("/work", "/work/f"));
    assert!(inside("/work/", "/x/../work"));
    assert!(inside("/", "/anything"));
    assert!(!inside("/work", "/work-x/f"));
    assert!(!inside("/work", "/work/../f"));
    assert!(!inside("/work", "work/f"));
    assert!(!inside("work", "/work/f"));
}

#[test]
fn intents_are_the_same_however_the_destination_is_spelled() {
    let a = intent();
    let mut b = intent();
    b.destination = a.destination.replacen('/', "//", 1).replace(".png", ".png/.");
    assert!(same_intent(&a, &b).is_ok());
    b.destination = format!("{}x", a.destination);
    assert_eq!(
        message(same_intent(&a, &b)),
        "operation ID already binds different intent"
    );
}
