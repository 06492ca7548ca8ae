//! The JSON texts that the store measures and journals, field by field.

use vstd::prelude::*;

use crate::model::{
    Attempt, CaptureMode, Identity, Intent, OperationId, Outcome, Receipt, Record, VerifiedPng,
};
use crate::text::{decimal, decimal_text, hex_digit};

verus! {

/// How a character stands inside a JSON string.
pub open spec fn json_escape(c: char) -> Seq<char> {
    if c == '"' {
        seq!['\\', '"']
    } else if c == '\\' {
        seq!['\\', '\\']
    } else if c == '\u{8}' {
        seq!['\\', 'b']
    } else if c == '\t' {
        seq!['\\', 't']
    } else if c == '\n' {
        seq!['\\', 'n']
    } else if c == '\u{c}' {
        seq!['\\', 'f']
    } else if c == '\r' {
        seq!['\\', 'r']
    } else if c as int >= 32 {
        seq![c]
    } else {
        seq!['\\', 'u', '0', '0', hex_digit(c as int / 16), hex_digit(c as int % 16)]
    }
}

/// The characters of a text as they stand inside a JSON string.
pub open spec fn json_escaped(s: Seq<char>) -> Seq<char>
    decreases s.len(),
{
    if s.len() == 0 {
        Seq::empty()
    } else {
        json_escaped(s.drop_last()) + json_escape(s.last())
    }
}

/// A text as a JSON string.
pub open spec fn json_quoted(s: Seq<char>) -> Seq<char> {
    seq!['"'] + json_escaped(s) + seq!['"']
}

/// Calls `serde_json::to_string` on a text. The result is the JSON string of
/// [`json_quoted`]: quotation marks around the text, in which quotation mark,
/// backslash and the characters below U+0020 are escaped and nothing else is.
#[verifier::external_body]
pub(crate) fn quote(s: &str) -> (r: String)
    ensures
        r@ == json_quoted(s@),
{
    serde_json::to_string(s).expect("a text has a JSON string")
}

/// The JSON text of an operation's identity.
pub open spec fn operation_json(o: OperationId<Seq<char>>) -> Seq<char> {
    "{\"slug\":"@ + json_quoted(o.slug) + ",\"caller\":"@ + json_quoted(o.caller)
        + ",\"operation_id\":"@ + json_quoted(o.operation_id) + "}"@
}

fn write_operation(o: &OperationId) -> (r: String)
    ensures
        r@ == operation_json(o@),
{
    let mut r = "{\"slug\":".to_owned();
    r.append(quote(o.slug.as_str()).as_str());
    r.append(",\"caller\":");
    r.append(quote(o.caller.as_str()).as_str());
    r.append(",\"operation_id\":");
    r.append(quote(o.operation_id.as_str()).as_str());
    r.append("}");
    r
}

/// The JSON text of an attempt.
pub open spec fn attempt_json(a: Attempt<Seq<char>>) -> Seq<char> {
    "{\"call_id\":"@ + json_quoted(a.call_id) + ",\"attempt_id\":"@ + json_quoted(a.attempt_id)
        + "}"@
}

fn write_attempt(a: &Attempt) -> (r: String)
    ensures
        r@ == attempt_json(a@),
{
    let mut r = "{\"call_id\":".to_owned();
    r.append(quote(a.call_id.as_str()).as_str());
    r.append(",\"attempt_id\":");
    r.append(quote(a.attempt_id.as_str()).as_str());
    r.append("}");
    r
}

/// The JSON text of a capture mode.
pub open spec fn mode_json(m: CaptureMode) -> Seq<char> {
    match m {
        CaptureMode::Viewport => "\"viewport\""@,
        CaptureMode::FullPage => "\"full_page\""@,
    }
}

/// The JSON text of an intent.
pub open spec fn intent_json(i: Intent<Seq<char>>) -> Seq<char> {
    "{\"destination\":"@ + json_quoted(i.destination) + ",\"bytes\":"@ + decimal(i.bytes as nat)
        + ",\"sha256\":"@ + json_quoted(i.sha256) + ",\"mode\":"@ + mode_json(i.mode)
        + ",\"source_url\":"@ + json_quoted(i.source_url) + ",\"captured_at\":"@ + json_quoted(
        i.captured_at,
    ) + "}"@
}

/// Writes the JSON text of an intent.
pub fn write_intent(i: &Intent) -> (r: String)
    ensures
        r@ == intent_json(i@),
{
    let mut r = "{\"destination\":".to_owned();
    r.append(quote(i.destination.as_str()).as_str());
    r.append(",\"bytes\":");
    r.append(decimal_text(i.bytes).as_str());
    r.append(",\"sha256\":");
    r.append(quote(i.sha256.as_str()).as_str());
    r.append(",\"mode\":");
    r.append(
        match i.mode {
            CaptureMode::Viewport => "\"viewport\"",
            CaptureMode::FullPage => "\"full_page\"",
        },
    );
    r.append(",\"source_url\":");
    r.append(quote(i.source_url.as_str()).as_str());
    r.append(",\"captured_at\":");
    r.append(quote(i.captured_at.as_str()).as_str());
    r.append("}");
    r
}

/// Writes the JSON text of a path.
pub fn write_path(path: &str) -> (r: String)
    ensures
        r@ == json_quoted(path@),
{
    quote(path)
}

/// The JSON text of a file identity.
pub open spec fn identity_json(i: Identity) -> Seq<char> {
    "{\"device\":"@ + decimal(i.device as nat) + ",\"inode\":"@ + decimal(i.inode as nat) + "}"@
}

fn write_identity(i: Identity) -> (r: String)
    ensures
        r@ == identity_json(i),
{
    let mut r = "{\"device\":".to_owned();
    r.append(decimal_text(i.device).as_str());
    r.append(",\"inode\":");
    r.append(decimal_text(i.inode).as_str());
    r.append("}");
    r
}

/// The JSON text of verified facts.
pub open spec fn png_json(v: VerifiedPng<Seq<char>>) -> Seq<char> {
    "{\"mime_type\":"@ + json_quoted(v.mime_type) + ",\"bytes\":"@ + decimal(v.bytes as nat)
        + ",\"sha256\":"@ + json_quoted(v.sha256) + ",\"pixel_width\":"@ + decimal(
        v.pixel_width as nat,
    ) + ",\"pixel_height\":"@ + decimal(v.pixel_height as nat) + "}"@
}

fn write_png(v: &VerifiedPng) -> (r: String)
    ensures
        r@ == png_json(v@),
{
    let mut r = "{\"mime_type\":".to_owned();
    r.append(quote(v.mime_type.as_str()).as_str());
    r.append(",\"bytes\":");
    r.append(decimal_text(v.bytes).as_str());
    r.append(",\"sha256\":");
    r.append(quote(v.sha256.as_str()).as_str());
    r.append(",\"pixel_width\":");
    r.append(decimal_text(v.pixel_width as u64).as_str());
    r.append(",\"pixel_height\":");
    r.append(decimal_text(v.pixel_height as u64).as_str());
    r.append("}");
    r
}

/// The JSON text of an outcome.
pub open spec fn outcome_json(o: Outcome<Seq<char>>) -> Seq<char> {
    match o {
        Outcome::Stored => "\"stored\""@,
        Outcome::PublishedDurabilityUnconfirmed { reason } => {
            "{\"published_durability_unconfirmed\":{\"reason\":"@ + json_quoted(reason) + "}}"@
        },
        Outcome::Failed { action, reason } => {
            "{\"failed\":{\"action\":"@ + json_quoted(action) + ",\"reason\":"@ + json_quoted(
                reason,
            ) + "}}"@
        },
        Outcome::Aborted => "\"aborted\""@,
    }
}

fn write_outcome(o: &Outcome) -> (r: String)
    ensures
        r@ == outcome_json(o@),
{
    match o {
        Outcome::Stored => "\"stored\"".to_owned(),
        Outcome::PublishedDurabilityUnconfirmed { reason } => {
            let mut r = "{\"published_durability_unconfirmed\":{\"reason\":".to_owned();
            r.append(quote(reason.as_str()).as_str());
            r.append("}}");
            r
        },
        Outcome::Failed { action, reason } => {
            let mut r = "{\"failed\":{\"action\":".to_owned();
            r.append(quote(action.as_str()).as_str());
            r.append(",\"reason\":");
            r.append(quote(reason.as_str()).as_str());
            r.append("}}");
            r
        },
        Outcome::Aborted => "\"aborted\"".to_owned(),
    }
}

/// The JSON text of an optional text.
pub open spec fn optional_json(s: Option<Seq<char>>) -> Seq<char> {
    match s {
        Some(s) => json_quoted(s),
        None => "null"@,
    }
}

/// The JSON text of a receipt.
pub open spec fn receipt_json(r: Receipt<Seq<char>>) -> Seq<char> {
    "{\"operation\":"@ + operation_json(r.operation) + ",\"attempt\":"@ + attempt_json(r.attempt)
        + ",\"event_id\":"@ + json_quoted(r.event_id) + ",\"requested\":"@ + intent_json(
        r.requested,
    ) + ",\"destination\":"@ + json_quoted(r.destination) + ",\"verified\":"@ + (
    match r.verified {
        Some(v) => png_json(v),
        None => "null"@,
    }) + ",\"accepted_at\":"@ + optional_json(r.accepted_at) + ",\"observed_at\":"@ + json_quoted(
        r.observed_at,
    ) + ",\"outcome\":"@ + outcome_json(r.outcome) + "}"@
}

fn write_receipt(x: &Receipt) -> (r: String)
    ensures
        r@ == receipt_json(x@),
{
    let mut r = "{\"operation\":".to_owned();
    r.append(write_operation(&x.operation).as_str());
    r.append(",\"attempt\":");
    r.append(write_attempt(&x.attempt).as_str());
    r.append(",\"event_id\":");
    r.append(quote(x.event_id.as_str()).as_str());
    r.append(",\"requested\":");
    r.append(write_intent(&x.requested).as_str());
    r.append(",\"destination\":");
    r.append(quote(x.destination.as_str()).as_str());
    r.append(",\"verified\":");
    match &x.verified {
        Some(v) => r.append(write_png(v).as_str()),
        None => r.append("null"),
    }
    r.append(",\"accepted_at\":");
    match &x.accepted_at {
        Some(at) => r.append(quote(at.as_str()).as_str()),
        None => r.append("null"),
    }
    r.append(",\"observed_at\":");
    r.append(quote(x.observed_at.as_str()).as_str());
    r.append(",\"outcome\":");
    r.append(write_outcome(&x.outcome).as_str());
    r.append("}");
    r
}

/// The JSON text of a record: what the journal holds for an operation.
pub open spec fn record_json(r: Record<Seq<char>>) -> Seq<char> {
    "{\"version\":"@ + decimal(r.version as nat) + ",\"operation\":"@ + operation_json(r.operation)
        + ",\"attempt\":"@ + attempt_json(r.attempt) + ",\"intent\":"@ + intent_json(r.intent)
        + ",\"destination\":"@ + json_quoted(r.destination) + ",\"parent_identity\":"@
        + identity_json(r.parent_identity) + ",\"stage_name\":"@ + json_quoted(r.stage_name)
        + ",\"stage_identity\":"@ + identity_json(r.stage_identity) + ",\"verified\":"@ + png_json(
        r.verified,
    ) + ",\"accepted_at\":"@ + json_quoted(r.accepted_at) + ",\"terminal\":"@ + (match r.terminal {
        Some(t) => receipt_json(t),
        None => "null"@,
    }) + "}"@
}

/// Writes the JSON text of a record.
pub fn write_record(x: &Record) -> (r: String)
    ensures
        r@ == record_json(x@),
{
    let mut r = "{\"version\":".to_owned();
    r.append(decimal_text(x.version as u64).as_str());
    r.append(",\"operation\":");
    r.append(write_operation(&x.operation).as_str());
    r.append(",\"attempt\":");
    r.append(write_attempt(&x.attempt).as_str());
    r.append(",\"intent\":");
    r.append(write_intent(&x.intent).as_str());
    r.append(",\"destination\":");
    r.append(quote(x.destination.as_str()).as_str());
    r.append(",\"parent_identity\":");
    r.append(write_identity(x.parent_identity).as_str());
    r.append(",\"stage_name\":");
    r.append(quote(x.stage_name.as_str()).as_str());
    r.append(",\"stage_identity\":");
    r.append(write_identity(x.stage_identity).as_str());
    r.append(",\"verified\":");
    r.append(write_png(&x.verified).as_str());
    r.append(",\"accepted_at\":");
    r.append(quote(x.accepted_at.as_str()).as_str());
    r.append(",\"terminal\":");
    match &x.terminal {
        Some(t) => r.append(write_receipt(t).as_str()),
        None => r.append("null"),
    }
    r.append("}");
    r
}

} // verus!
