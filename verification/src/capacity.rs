//! Why an accepted operation always fits the journal.

use vstd::prelude::*;
use vstd::utf8::*;

use crate::identity::{is_id, is_key};
use crate::json::{
    attempt_json, identity_json, intent_json, json_escaped, json_quoted, operation_json,
    outcome_json, png_json, receipt_json, record_json,
};
use crate::model::{Attempt, Identity, OperationId, Outcome, Receipt, Record, VerifiedPng};
use crate::observation::conclusion;
use crate::policy::fits_journal;
use crate::protocol::{accepted_record, StoreView, MAX_JOURNAL_BYTES};
use crate::rules::{facts_match, is_attempt, stage_prefix, terminal_event};
use crate::soundness::{is_live, is_stage_name, sound};
use crate::text::{byte_count, decimal};

verus! {

/// The longest JSON string of a time that is taken to come from a clock, in
/// bytes.
pub const MAX_CLOCK_BYTES: usize = 256;

/// The longest JSON string of a reason that is taken to come from a file system,
/// in bytes.
pub const MAX_REASON_BYTES: usize = 8_192;

/// The bytes of two texts, one behind the other.
broadcast proof fn count_of_both(a: Seq<char>, b: Seq<char>)
    ensures
        #[trigger] byte_count(a + b) == byte_count(a) + byte_count(b),
    decreases a.len(),
{
    if a.len() == 0 {
        assert(a + b =~= b);
    } else {
        assert((a + b).drop_first() =~= a.drop_first() + b);
        assert((a + b)[0] == a[0]);
        count_of_both(a.drop_first(), b);
    }
}

/// A character takes at most four bytes.
proof fn count_bound(s: Seq<char>)
    ensures
        byte_count(s) <= 4 * s.len(),
    decreases s.len(),
{
    if s.len() > 0 {
        count_bound(s.drop_first());
    }
}

/// Whether a text is ASCII and stands in a JSON string as it is.
pub open spec fn is_plain(s: Seq<char>) -> bool {
    forall|i: int|
        0 <= i < s.len() ==> (32 <= (#[trigger] s[i]) as int && 128 > s[i] as int && s[i] != '"'
            && s[i] != '\\')
}

proof fn plain_escaped(s: Seq<char>)
    requires
        is_plain(s),
    ensures
        json_escaped(s) == s,
    decreases s.len(),
{
    if s.len() > 0 {
        assert(is_plain(s.drop_last()));
        plain_escaped(s.drop_last());
        assert(s.last() == s[s.len() - 1]);
        assert(s =~= s.drop_last() + seq![s.last()]);
    }
}

/// A plain text and its quotation marks.
proof fn plain_size(s: Seq<char>)
    requires
        is_plain(s),
    ensures
        byte_count(json_quoted(s)) == s.len() + 2,
{
    plain_escaped(s);
    assert(is_ascii_chars(json_quoted(s)));
    is_ascii_chars_encode_utf8(json_quoted(s));
}

proof fn id_size(s: Seq<char>)
    requires
        is_id(s),
    ensures
        byte_count(json_quoted(s)) <= 130,
{
    plain_size(s);
}

proof fn key_size(s: Seq<char>)
    requires
        is_key(s),
    ensures
        byte_count(json_quoted(s)) == 66,
{
    plain_size(s);
}

/// The smallest number with more than so many digits.
spec fn ten_to(digits: nat) -> nat
    decreases digits,
{
    if digits == 0 {
        1
    } else {
        10 * ten_to((digits - 1) as nat)
    }
}

proof fn decimal_digits(n: nat, digits: nat)
    requires
        digits >= 1,
        n < ten_to(digits),
    ensures
        decimal(n).len() <= digits,
        is_plain(decimal(n)),
    decreases digits,
{
    reveal_with_fuel(ten_to, 2);
    if n >= 10 {
        decimal_digits(n / 10, (digits - 1) as nat);
    }
}

proof fn decimal_size(n: u64)
    ensures
        byte_count(decimal(n as nat)) <= 20,
{
    assert(ten_to(20) > u64::MAX) by {
        reveal_with_fuel(ten_to, 21);
    }
    decimal_digits(n as nat, 20);
    assert(is_ascii_chars(decimal(n as nat)));
    is_ascii_chars_encode_utf8(decimal(n as nat));
}

proof fn operation_size(o: OperationId<Seq<char>>)
    requires
        is_id(o.slug),
        is_id(o.caller),
        is_id(o.operation_id),
    ensures
        byte_count(operation_json(o)) <= 540,
{
    broadcast use count_of_both;

    id_size(o.slug);
    id_size(o.caller);
    id_size(o.operation_id);
    reveal_strlit("{\"slug\":");
    count_bound("{\"slug\":"@);
    reveal_strlit(",\"caller\":");
    count_bound(",\"caller\":"@);
    reveal_strlit(",\"operation_id\":");
    count_bound(",\"operation_id\":"@);
    reveal_strlit("}");
    count_bound("}"@);
}

proof fn attempt_size(a: Attempt<Seq<char>>)
    requires
        is_id(a.call_id),
        is_id(a.attempt_id),
    ensures
        byte_count(attempt_json(a)) <= 380,
{
    broadcast use count_of_both;

    id_size(a.call_id);
    id_size(a.attempt_id);
    reveal_strlit("{\"call_id\":");
    count_bound("{\"call_id\":"@);
    reveal_strlit(",\"attempt_id\":");
    count_bound(",\"attempt_id\":"@);
    reveal_strlit("}");
    count_bound("}"@);
}

proof fn identity_size(i: Identity)
    ensures
        byte_count(identity_json(i)) <= 130,
{
    broadcast use count_of_both;

    decimal_size(i.device);
    decimal_size(i.inode);
    reveal_strlit("{\"device\":");
    count_bound("{\"device\":"@);
    reveal_strlit(",\"inode\":");
    count_bound(",\"inode\":"@);
    reveal_strlit("}");
    count_bound("}"@);
}

proof fn png_size(v: VerifiedPng<Seq<char>>)
    requires
        v.mime_type == "image/png"@,
        is_key(v.sha256),
    ensures
        byte_count(png_json(v)) <= 440,
{
    broadcast use count_of_both;

    key_size(v.sha256);
    decimal_size(v.bytes);
    decimal_size(v.pixel_width as u64);
    decimal_size(v.pixel_height as u64);
    reveal_strlit("image/png");
    plain_size(v.mime_type);
    reveal_strlit("{\"mime_type\":");
    count_bound("{\"mime_type\":"@);
    reveal_strlit(",\"bytes\":");
    count_bound(",\"bytes\":"@);
    reveal_strlit(",\"sha256\":");
    count_bound(",\"sha256\":"@);
    reveal_strlit(",\"pixel_width\":");
    count_bound(",\"pixel_width\":"@);
    reveal_strlit(",\"pixel_height\":");
    count_bound(",\"pixel_height\":"@);
    reveal_strlit("}");
    count_bound("}"@);
}

proof fn stage_name_size(key: Seq<char>, name: Seq<char>)
    requires
        is_key(key),
        is_stage_name(key, name),
    ensures
        byte_count(json_quoted(name)) <= 124,
{
    reveal_strlit(".wicket-screenshot-");
    reveal_strlit("-");
    reveal_strlit(".stage");
    let prefix = stage_prefix(key);
    let rest = name.skip(prefix.len() as int);
    let suffix = rest.take(rest.len() - ".stage"@.len());
    assert(name =~= prefix + suffix + ".stage"@) by {
        assert(name =~= name.take(prefix.len() as int) + rest);
        assert(rest =~= suffix + rest.skip(rest.len() - ".stage"@.len()));
    }
    assert(is_plain(prefix));
    assert(is_plain(suffix));
    assert(is_plain(name));
    plain_size(name);
}

proof fn event_size(key: Seq<char>)
    requires
        is_key(key),
    ensures
        byte_count(json_quoted(terminal_event(key))) <= 86,
{
    reveal_strlit("screenshot-");
    reveal_strlit("-terminal");
    plain_size(terminal_event(key));
}

/// Whether the reason that an outcome gives is one that a file system can give,
/// and its action has a name.
pub open spec fn has_short_reason(o: Outcome<Seq<char>>) -> bool {
    match o {
        Outcome::PublishedDurabilityUnconfirmed { reason } => {
            byte_count(json_quoted(reason)) <= MAX_REASON_BYTES
        },
        Outcome::Failed { action, reason } => {
            is_id(action) && byte_count(json_quoted(reason)) <= MAX_REASON_BYTES
        },
        _ => true,
    }
}

proof fn outcome_size(o: Outcome<Seq<char>>)
    requires
        has_short_reason(o),
    ensures
        byte_count(outcome_json(o)) <= MAX_REASON_BYTES + 400,
{
    broadcast use count_of_both;

    if let Outcome::Failed { action, .. } = o {
        id_size(action);
    }
    reveal_strlit("\"stored\"");
    count_bound("\"stored\""@);
    reveal_strlit("\"aborted\"");
    count_bound("\"aborted\""@);
    reveal_strlit("{\"published_durability_unconfirmed\":{\"reason\":");
    count_bound("{\"published_durability_unconfirmed\":{\"reason\":"@);
    reveal_strlit("{\"failed\":{\"action\":");
    count_bound("{\"failed\":{\"action\":"@);
    reveal_strlit(",\"reason\":");
    count_bound(",\"reason\":"@);
    reveal_strlit("}}");
    count_bound("}}"@);
}

/// The parts of a receipt of an accepted operation, other than its intent and
/// its destination, are short.
proof fn receipt_size(
    key: Seq<char>,
    r: Receipt<Seq<char>>,
    verified: VerifiedPng<Seq<char>>,
    accepted_at: Seq<char>,
)
    requires
        is_key(key),
        is_id(r.operation.slug),
        is_id(r.operation.caller),
        is_id(r.operation.operation_id),
        is_attempt(r.attempt),
        r.event_id == terminal_event(key),
        r.verified == Some(verified),
        verified.mime_type == "image/png"@,
        is_key(verified.sha256),
        r.accepted_at == Some(accepted_at),
        byte_count(json_quoted(accepted_at)) <= MAX_CLOCK_BYTES,
        byte_count(json_quoted(r.observed_at)) <= MAX_CLOCK_BYTES,
        has_short_reason(r.outcome),
    ensures
        byte_count(receipt_json(r)) <= byte_count(intent_json(r.requested)) + byte_count(
            json_quoted(r.destination),
        ) + 11_200,
{
    broadcast use count_of_both;

    operation_size(r.operation);
    attempt_size(r.attempt);
    event_size(key);
    png_size(verified);
    outcome_size(r.outcome);
    reveal_strlit("{\"operation\":");
    count_bound("{\"operation\":"@);
    reveal_strlit(",\"attempt\":");
    count_bound(",\"attempt\":"@);
    reveal_strlit(",\"event_id\":");
    count_bound(",\"event_id\":"@);
    reveal_strlit(",\"requested\":");
    count_bound(",\"requested\":"@);
    reveal_strlit(",\"destination\":");
    count_bound(",\"destination\":"@);
    reveal_strlit(",\"verified\":");
    count_bound(",\"verified\":"@);
    reveal_strlit(",\"accepted_at\":");
    count_bound(",\"accepted_at\":"@);
    reveal_strlit(",\"observed_at\":");
    count_bound(",\"observed_at\":"@);
    reveal_strlit(",\"outcome\":");
    count_bound(",\"outcome\":"@);
    reveal_strlit("}");
    count_bound("}"@);
}

/// The parts of a record, other than its intent, its destination and its
/// receipt, are short.
proof fn record_size(key: Seq<char>, r: Record<Seq<char>>)
    requires
        is_key(key),
        is_id(r.operation.slug),
        is_id(r.operation.caller),
        is_id(r.operation.operation_id),
        is_attempt(r.attempt),
        is_stage_name(key, r.stage_name),
        r.verified.mime_type == "image/png"@,
        is_key(r.verified.sha256),
        byte_count(json_quoted(r.accepted_at)) <= MAX_CLOCK_BYTES,
    ensures
        byte_count(record_json(r)) <= byte_count(intent_json(r.intent)) + byte_count(
            json_quoted(r.destination),
        ) + 3_000 + match r.terminal {
            Some(t) => byte_count(receipt_json(t)),
            None => 0,
        },
{
    broadcast use count_of_both;

    operation_size(r.operation);
    attempt_size(r.attempt);
    identity_size(r.parent_identity);
    identity_size(r.stage_identity);
    stage_name_size(key, r.stage_name);
    png_size(r.verified);
    decimal_size(r.version as u64);
    reveal_strlit("{\"version\":");
    count_bound("{\"version\":"@);
    reveal_strlit(",\"operation\":");
    count_bound(",\"operation\":"@);
    reveal_strlit(",\"attempt\":");
    count_bound(",\"attempt\":"@);
    reveal_strlit(",\"intent\":");
    count_bound(",\"intent\":"@);
    reveal_strlit(",\"destination\":");
    count_bound(",\"destination\":"@);
    reveal_strlit(",\"parent_identity\":");
    count_bound(",\"parent_identity\":"@);
    reveal_strlit(",\"stage_name\":");
    count_bound(",\"stage_name\":"@);
    reveal_strlit(",\"stage_identity\":");
    count_bound(",\"stage_identity\":"@);
    reveal_strlit(",\"verified\":");
    count_bound(",\"verified\":"@);
    reveal_strlit(",\"accepted_at\":");
    count_bound(",\"accepted_at\":"@);
    reveal_strlit(",\"terminal\":");
    count_bound(",\"terminal\":"@);
    reveal_strlit("null");
    count_bound("null"@);
    reveal_strlit("}");
    count_bound("}"@);
}

/// Whatever its metadata holds, an operation that is accepted fits the journal,
/// and so does its receipt: escapes cannot make it unrecordable. The times that
/// a clock gives, and the reasons that a file system gives, are taken to be
/// short.
pub proof fn accepted_operations_fit_the_journal(
    v: StoreView,
    key: Seq<char>,
    verified: VerifiedPng<Seq<char>>,
    destination: Seq<char>,
    parent: Identity,
    stage: Identity,
    at: Seq<char>,
    outcome: Outcome<Seq<char>>,
    later: Seq<char>,
)
    requires
        sound(v),
        is_key(key),
        v.receiving.contains_key(key),
        facts_match(verified, v.receiving[key].intent),
        fits_journal(destination),
        byte_count(json_quoted(at)) <= MAX_CLOCK_BYTES,
        byte_count(json_quoted(later)) <= MAX_CLOCK_BYTES,
        has_short_reason(outcome),
    ensures
        ({
            let live = v.receiving[key];
            let record = accepted_record(live, verified, destination, parent, stage, at);
            let ended = Record {
                terminal: Some(conclusion(key, record, outcome, later)),
                ..record
            };
            &&& byte_count(record_json(record)) <= MAX_JOURNAL_BYTES
            &&& byte_count(record_json(ended)) <= MAX_JOURNAL_BYTES
        }),
{
    let live = v.receiving[key];
    assert(is_live(v, key, live)) by {
        reveal(sound);
    }
    let record = accepted_record(live, verified, destination, parent, stage, at);
    let receipt = conclusion(key, record, outcome, later);
    let ended = Record { terminal: Some(receipt), ..record };
    record_size(key, record);
    record_size(key, ended);
    receipt_size(key, receipt, verified, at);
}

} // verus!
