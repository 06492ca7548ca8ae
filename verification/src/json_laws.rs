//! What is written in JSON: how texts are quoted, and that nothing is left out of
//! what the journal holds.

use vstd::prelude::*;

use crate::json::{
    attempt_json, identity_json, intent_json, json_escape, json_escaped, json_quoted, mode_json,
    operation_json, outcome_json, png_json, receipt_json, record_json,
};
use crate::model::{
    Attempt, CaptureMode, Identity, Intent, OperationId, Outcome, Receipt, Record, VerifiedPng,
};
use crate::text::decimal;
use crate::text_laws::hex_value;

verus! {

/// A text is quoted character by character, between quotation marks.
pub proof fn texts_are_quoted_character_by_character(a: Seq<char>, b: Seq<char>, c: char)
    ensures
        json_quoted(a) == seq!['"'] + json_escaped(a) + seq!['"'],
        json_escaped(Seq::empty()).len() == 0,
        json_escaped(seq![c]) == json_escape(c),
        json_escaped(a + b) == json_escaped(a) + json_escaped(b),
    decreases b.len(),
{
    assert(seq![c].drop_last() =~= Seq::empty());
    assert(json_escaped(seq![c].drop_last()) =~= Seq::empty());
    assert(Seq::<char>::empty() + json_escape(c) =~= json_escape(c));
    if b.len() == 0 {
        assert(a + b =~= a);
        assert(json_escaped(a) + json_escaped(b) =~= json_escaped(a));
    } else {
        texts_are_quoted_character_by_character(a, b.drop_last(), c);
        assert((a + b).drop_last() =~= a + b.drop_last());
        assert(json_escaped(a) + json_escaped(b.drop_last()) + json_escape(b.last())
            =~= json_escaped(a) + json_escaped(b));
    }
}

/// A character stands for itself in a quoted text, but for the quotation mark, the
/// backslash and the control characters below the space: those are escaped, and can
/// be read back.
pub proof fn few_characters_are_escaped(c: char)
    ensures
        c as int >= 32 && c != '"' && c != '\\' ==> json_escape(c) == seq![c],
        c == '"' || c == '\\' ==> json_escape(c) == seq!['\\', c],
        c as int == 8 ==> json_escape(c) == seq!['\\', 'b'],
        c as int == 9 ==> json_escape(c) == seq!['\\', 't'],
        c as int == 10 ==> json_escape(c) == seq!['\\', 'n'],
        c as int == 12 ==> json_escape(c) == seq!['\\', 'f'],
        c as int == 13 ==> json_escape(c) == seq!['\\', 'r'],
        c as int <= 7 || c as int == 11 || 14 <= c as int <= 31 ==> {
            let e = json_escape(c);
            &&& e.len() == 6
            &&& e.take(4) == seq!['\\', 'u', '0', '0']
            &&& 16 * hex_value(e[4]) + hex_value(e[5]) == c as int
        },
{
    if c as int <= 7 || c as int == 11 || 14 <= c as int <= 31 {
        assert(json_escape(c).take(4) =~= seq!['\\', 'u', '0', '0']);
    }
}

/// Whether a text holds a value behind a label.
pub open spec fn holds_field(text: Seq<char>, label: Seq<char>, value: Seq<char>) -> bool {
    exists|before: Seq<char>, behind: Seq<char>|
        text == #[trigger] (before + label + value + behind)
}

proof fn found(
    text: Seq<char>,
    before: Seq<char>,
    label: Seq<char>,
    value: Seq<char>,
    behind: Seq<char>,
)
    requires
        text == before + label + value + behind,
    ensures
        holds_field(text, label, value),
        text == before + (label + value + behind),
        before.len() == 0 ==> text == label + (value + behind),
{
    assert(before + label + value + behind =~= before + (label + value + behind));
    if before.len() == 0 {
        assert(text =~= label + (value + behind));
    }
}

proof fn delimited(text: Seq<char>, start: Seq<char>, rest: Seq<char>, body: Seq<char>)
    requires
        text == start + rest,
        start.len() > 0 && start[0] == '{',
        text == body + "}"@,
    ensures
        text.first() == '{' && text.last() == '}',
{
    reveal_strlit("}");
    assert(text[0] == start[0]);
    assert(text.last() == "}"@[0]);
}

/// An operation's JSON text holds its slug, its caller and its identifier.
pub proof fn operations_are_written_whole(o: OperationId<Seq<char>>)
    ensures
        ({
            let text = operation_json(o);
            &&& text.first() == '{' && text.last() == '}'
            &&& holds_field(text, "{\"slug\":"@, json_quoted(o.slug))
            &&& holds_field(text, ",\"caller\":"@, json_quoted(o.caller))
            &&& holds_field(text, ",\"operation_id\":"@, json_quoted(o.operation_id))
        }),
{
    let text = operation_json(o);
    let t0 = Seq::<char>::empty();
    let t1 = t0 + "{\"slug\":"@ + json_quoted(o.slug);
    let t2 = t1 + ",\"caller\":"@ + json_quoted(o.caller);
    let t3 = t2 + ",\"operation_id\":"@ + json_quoted(o.operation_id);
    let r3 = "}"@;
    let r2 = ",\"operation_id\":"@ + json_quoted(o.operation_id) + r3;
    let r1 = ",\"caller\":"@ + json_quoted(o.caller) + r2;
    assert(t0 + "{\"slug\":"@ =~= "{\"slug\":"@);
    found(text, t2, ",\"operation_id\":"@, json_quoted(o.operation_id), r3);
    found(text, t1, ",\"caller\":"@, json_quoted(o.caller), r2);
    found(text, t0, "{\"slug\":"@, json_quoted(o.slug), r1);
    reveal_strlit("{\"slug\":");
    delimited(text, "{\"slug\":"@, json_quoted(o.slug) + r1, t3);
}

/// An attempt's JSON text holds its call and its identifier.
pub proof fn attempts_are_written_whole(a: Attempt<Seq<char>>)
    ensures
        ({
            let text = attempt_json(a);
            &&& text.first() == '{' && text.last() == '}'
            &&& holds_field(text, "{\"call_id\":"@, json_quoted(a.call_id))
            &&& holds_field(text, ",\"attempt_id\":"@, json_quoted(a.attempt_id))
        }),
{
    let text = attempt_json(a);
    let t0 = Seq::<char>::empty();
    let t1 = t0 + "{\"call_id\":"@ + json_quoted(a.call_id);
    let t2 = t1 + ",\"attempt_id\":"@ + json_quoted(a.attempt_id);
    let r2 = "}"@;
    let r1 = ",\"attempt_id\":"@ + json_quoted(a.attempt_id) + r2;
    assert(t0 + "{\"call_id\":"@ =~= "{\"call_id\":"@);
    found(text, t1, ",\"attempt_id\":"@, json_quoted(a.attempt_id), r2);
    found(text, t0, "{\"call_id\":"@, json_quoted(a.call_id), r1);
    reveal_strlit("{\"call_id\":");
    delimited(text, "{\"call_id\":"@, json_quoted(a.call_id) + r1, t2);
}

/// An intent's JSON text holds all that it announces.
pub proof fn intents_are_written_whole(i: Intent<Seq<char>>)
    ensures
        ({
            let text = intent_json(i);
            let mode = if i.mode == CaptureMode::Viewport {
                "\"viewport\""@
            } else {
                "\"full_page\""@
            };
            &&& text.first() == '{' && text.last() == '}'
            &&& holds_field(text, "{\"destination\":"@, json_quoted(i.destination))
            &&& holds_field(text, ",\"bytes\":"@, decimal(i.bytes as nat))
            &&& holds_field(text, ",\"sha256\":"@, json_quoted(i.sha256))
            &&& holds_field(text, ",\"mode\":"@, mode)
            &&& holds_field(text, ",\"source_url\":"@, json_quoted(i.source_url))
            &&& holds_field(text, ",\"captured_at\":"@, json_quoted(i.captured_at))
        }),
{
    let text = intent_json(i);
    let mode = if i.mode == CaptureMode::Viewport {
        "\"viewport\""@
    } else {
        "\"full_page\""@
    };
    let t0 = Seq::<char>::empty();
    let t1 = t0 + "{\"destination\":"@ + json_quoted(i.destination);
    let t2 = t1 + ",\"bytes\":"@ + decimal(i.bytes as nat);
    let t3 = t2 + ",\"sha256\":"@ + json_quoted(i.sha256);
    let t4 = t3 + ",\"mode\":"@ + mode;
    let t5 = t4 + ",\"source_url\":"@ + json_quoted(i.source_url);
    let t6 = t5 + ",\"captured_at\":"@ + json_quoted(i.captured_at);
    let r6 = "}"@;
    let r5 = ",\"captured_at\":"@ + json_quoted(i.captured_at) + r6;
    let r4 = ",\"source_url\":"@ + json_quoted(i.source_url) + r5;
    let r3 = ",\"mode\":"@ + mode + r4;
    let r2 = ",\"sha256\":"@ + json_quoted(i.sha256) + r3;
    let r1 = ",\"bytes\":"@ + decimal(i.bytes as nat) + r2;
    assert(t0 + "{\"destination\":"@ =~= "{\"destination\":"@);
    assert(mode == mode_json(i.mode));
    found(text, t5, ",\"captured_at\":"@, json_quoted(i.captured_at), r6);
    found(text, t4, ",\"source_url\":"@, json_quoted(i.source_url), r5);
    found(text, t3, ",\"mode\":"@, mode, r4);
    found(text, t2, ",\"sha256\":"@, json_quoted(i.sha256), r3);
    found(text, t1, ",\"bytes\":"@, decimal(i.bytes as nat), r2);
    found(text, t0, "{\"destination\":"@, json_quoted(i.destination), r1);
    reveal_strlit("{\"destination\":");
    delimited(text, "{\"destination\":"@, json_quoted(i.destination) + r1, t6);
}

/// A file's identity in JSON holds its device and its inode.
pub proof fn identities_are_written_whole(i: Identity)
    ensures
        ({
            let text = identity_json(i);
            &&& text.first() == '{' && text.last() == '}'
            &&& holds_field(text, "{\"device\":"@, decimal(i.device as nat))
            &&& holds_field(text, ",\"inode\":"@, decimal(i.inode as nat))
        }),
{
    let text = identity_json(i);
    let t0 = Seq::<char>::empty();
    let t1 = t0 + "{\"device\":"@ + decimal(i.device as nat);
    let t2 = t1 + ",\"inode\":"@ + decimal(i.inode as nat);
    let r2 = "}"@;
    let r1 = ",\"inode\":"@ + decimal(i.inode as nat) + r2;
    assert(t0 + "{\"device\":"@ =~= "{\"device\":"@);
    found(text, t1, ",\"inode\":"@, decimal(i.inode as nat), r2);
    found(text, t0, "{\"device\":"@, decimal(i.device as nat), r1);
    reveal_strlit("{\"device\":");
    delimited(text, "{\"device\":"@, decimal(i.device as nat) + r1, t2);
}

/// The JSON text of verified facts holds every one of them.
pub proof fn facts_are_written_whole(v: VerifiedPng<Seq<char>>)
    ensures
        ({
            let text = png_json(v);
            &&& text.first() == '{' && text.last() == '}'
            &&& holds_field(text, "{\"mime_type\":"@, json_quoted(v.mime_type))
            &&& holds_field(text, ",\"bytes\":"@, decimal(v.bytes as nat))
            &&& holds_field(text, ",\"sha256\":"@, json_quoted(v.sha256))
            &&& holds_field(text, ",\"pixel_width\":"@, decimal(v.pixel_width as nat))
            &&& holds_field(text, ",\"pixel_height\":"@, decimal(v.pixel_height as nat))
        }),
{
    let text = png_json(v);
    let t0 = Seq::<char>::empty();
    let t1 = t0 + "{\"mime_type\":"@ + json_quoted(v.mime_type);
    let t2 = t1 + ",\"bytes\":"@ + decimal(v.bytes as nat);
    let t3 = t2 + ",\"sha256\":"@ + json_quoted(v.sha256);
    let t4 = t3 + ",\"pixel_width\":"@ + decimal(v.pixel_width as nat);
    let t5 = t4 + ",\"pixel_height\":"@ + decimal(v.pixel_height as nat);
    let r5 = "}"@;
    let r4 = ",\"pixel_height\":"@ + decimal(v.pixel_height as nat) + r5;
    let r3 = ",\"pixel_width\":"@ + decimal(v.pixel_width as nat) + r4;
    let r2 = ",\"sha256\":"@ + json_quoted(v.sha256) + r3;
    let r1 = ",\"bytes\":"@ + decimal(v.bytes as nat) + r2;
    assert(t0 + "{\"mime_type\":"@ =~= "{\"mime_type\":"@);
    found(text, t4, ",\"pixel_height\":"@, decimal(v.pixel_height as nat), r5);
    found(text, t3, ",\"pixel_width\":"@, decimal(v.pixel_width as nat), r4);
    found(text, t2, ",\"sha256\":"@, json_quoted(v.sha256), r3);
    found(text, t1, ",\"bytes\":"@, decimal(v.bytes as nat), r2);
    found(text, t0, "{\"mime_type\":"@, json_quoted(v.mime_type), r1);
    reveal_strlit("{\"mime_type\":");
    delimited(text, "{\"mime_type\":"@, json_quoted(v.mime_type) + r1, t5);
}

/// A receipt's JSON text holds all that it says.
pub proof fn receipts_are_written_whole(r: Receipt<Seq<char>>)
    ensures
        ({
            let text = receipt_json(r);
            let verified = match r.verified {
                Some(v) => png_json(v),
                None => "null"@,
            };
            let accepted = match r.accepted_at {
                Some(at) => json_quoted(at),
                None => "null"@,
            };
            &&& text.first() == '{' && text.last() == '}'
            &&& holds_field(text, "{\"operation\":"@, operation_json(r.operation))
            &&& holds_field(text, ",\"attempt\":"@, attempt_json(r.attempt))
            &&& holds_field(text, ",\"event_id\":"@, json_quoted(r.event_id))
            &&& holds_field(text, ",\"requested\":"@, intent_json(r.requested))
            &&& holds_field(text, ",\"destination\":"@, json_quoted(r.destination))
            &&& holds_field(text, ",\"verified\":"@, verified)
            &&& holds_field(text, ",\"accepted_at\":"@, accepted)
            &&& holds_field(text, ",\"observed_at\":"@, json_quoted(r.observed_at))
            &&& holds_field(text, ",\"outcome\":"@, outcome_json(r.outcome))
        }),
{
    let text = receipt_json(r);
    let verified = match r.verified {
        Some(v) => png_json(v),
        None => "null"@,
    };
    let accepted = match r.accepted_at {
        Some(at) => json_quoted(at),
        None => "null"@,
    };
    let t0 = Seq::<char>::empty();
    let t1 = t0 + "{\"operation\":"@ + operation_json(r.operation);
    let t2 = t1 + ",\"attempt\":"@ + attempt_json(r.attempt);
    let t3 = t2 + ",\"event_id\":"@ + json_quoted(r.event_id);
    let t4 = t3 + ",\"requested\":"@ + intent_json(r.requested);
    let t5 = t4 + ",\"destination\":"@ + json_quoted(r.destination);
    let t6 = t5 + ",\"verified\":"@ + verified;
    let t7 = t6 + ",\"accepted_at\":"@ + accepted;
    let t8 = t7 + ",\"observed_at\":"@ + json_quoted(r.observed_at);
    let t9 = t8 + ",\"outcome\":"@ + outcome_json(r.outcome);
    let r9 = "}"@;
    let r8 = ",\"outcome\":"@ + outcome_json(r.outcome) + r9;
    let r7 = ",\"observed_at\":"@ + json_quoted(r.observed_at) + r8;
    let r6 = ",\"accepted_at\":"@ + accepted + r7;
    let r5 = ",\"verified\":"@ + verified + r6;
    let r4 = ",\"destination\":"@ + json_quoted(r.destination) + r5;
    let r3 = ",\"requested\":"@ + intent_json(r.requested) + r4;
    let r2 = ",\"event_id\":"@ + json_quoted(r.event_id) + r3;
    let r1 = ",\"attempt\":"@ + attempt_json(r.attempt) + r2;
    assert(t0 + "{\"operation\":"@ =~= "{\"operation\":"@);
    found(text, t8, ",\"outcome\":"@, outcome_json(r.outcome), r9);
    found(text, t7, ",\"observed_at\":"@, json_quoted(r.observed_at), r8);
    found(text, t6, ",\"accepted_at\":"@, accepted, r7);
    found(text, t5, ",\"verified\":"@, verified, r6);
    found(text, t4, ",\"destination\":"@, json_quoted(r.destination), r5);
    found(text, t3, ",\"requested\":"@, intent_json(r.requested), r4);
    found(text, t2, ",\"event_id\":"@, json_quoted(r.event_id), r3);
    found(text, t1, ",\"attempt\":"@, attempt_json(r.attempt), r2);
    found(text, t0, "{\"operation\":"@, operation_json(r.operation), r1);
    reveal_strlit("{\"operation\":");
    delimited(text, "{\"operation\":"@, operation_json(r.operation) + r1, t9);
}

/// A record's JSON text holds all that is known of the operation.
pub proof fn records_are_written_whole(r: Record<Seq<char>>)
    ensures
        ({
            let text = record_json(r);
            let terminal = match r.terminal {
                Some(t) => receipt_json(t),
                None => "null"@,
            };
            &&& text.first() == '{' && text.last() == '}'
            &&& holds_field(text, "{\"version\":"@, decimal(r.version as nat))
            &&& holds_field(text, ",\"operation\":"@, operation_json(r.operation))
            &&& holds_field(text, ",\"attempt\":"@, attempt_json(r.attempt))
            &&& holds_field(text, ",\"intent\":"@, intent_json(r.intent))
            &&& holds_field(text, ",\"destination\":"@, json_quoted(r.destination))
            &&& holds_field(text, ",\"parent_identity\":"@, identity_json(r.parent_identity))
            &&& holds_field(text, ",\"stage_name\":"@, json_quoted(r.stage_name))
            &&& holds_field(text, ",\"stage_identity\":"@, identity_json(r.stage_identity))
            &&& holds_field(text, ",\"verified\":"@, png_json(r.verified))
            &&& holds_field(text, ",\"accepted_at\":"@, json_quoted(r.accepted_at))
            &&& holds_field(text, ",\"terminal\":"@, terminal)
        }),
{
    let text = record_json(r);
    let terminal = match r.terminal {
        Some(t) => receipt_json(t),
        None => "null"@,
    };
    let t0 = Seq::<char>::empty();
    let t1 = t0 + "{\"version\":"@ + decimal(r.version as nat);
    let t2 = t1 + ",\"operation\":"@ + operation_json(r.operation);
    let t3 = t2 + ",\"attempt\":"@ + attempt_json(r.attempt);
    let t4 = t3 + ",\"intent\":"@ + intent_json(r.intent);
    let t5 = t4 + ",\"destination\":"@ + json_quoted(r.destination);
    let t6 = t5 + ",\"parent_identity\":"@ + identity_json(r.parent_identity);
    let t7 = t6 + ",\"stage_name\":"@ + json_quoted(r.stage_name);
    let t8 = t7 + ",\"stage_identity\":"@ + identity_json(r.stage_identity);
    let t9 = t8 + ",\"verified\":"@ + png_json(r.verified);
    let t10 = t9 + ",\"accepted_at\":"@ + json_quoted(r.accepted_at);
    let t11 = t10 + ",\"terminal\":"@ + terminal;
    let r11 = "}"@;
    let r10 = ",\"terminal\":"@ + terminal + r11;
    let r9 = ",\"accepted_at\":"@ + json_quoted(r.accepted_at) + r10;
    let r8 = ",\"verified\":"@ + png_json(r.verified) + r9;
    let r7 = ",\"stage_identity\":"@ + identity_json(r.stage_identity) + r8;
    let r6 = ",\"stage_name\":"@ + json_quoted(r.stage_name) + r7;
    let r5 = ",\"parent_identity\":"@ + identity_json(r.parent_identity) + r6;
    let r4 = ",\"destination\":"@ + json_quoted(r.destination) + r5;
    let r3 = ",\"intent\":"@ + intent_json(r.intent) + r4;
    let r2 = ",\"attempt\":"@ + attempt_json(r.attempt) + r3;
    let r1 = ",\"operation\":"@ + operation_json(r.operation) + r2;
    assert(t0 + "{\"version\":"@ =~= "{\"version\":"@);
    found(text, t10, ",\"terminal\":"@, terminal, r11);
    found(text, t9, ",\"accepted_at\":"@, json_quoted(r.accepted_at), r10);
    found(text, t8, ",\"verified\":"@, png_json(r.verified), r9);
    found(text, t7, ",\"stage_identity\":"@, identity_json(r.stage_identity), r8);
    found(text, t6, ",\"stage_name\":"@, json_quoted(r.stage_name), r7);
    found(text, t5, ",\"parent_identity\":"@, identity_json(r.parent_identity), r6);
    found(text, t4, ",\"destination\":"@, json_quoted(r.destination), r5);
    found(text, t3, ",\"intent\":"@, intent_json(r.intent), r4);
    found(text, t2, ",\"attempt\":"@, attempt_json(r.attempt), r3);
    found(text, t1, ",\"operation\":"@, operation_json(r.operation), r2);
    found(text, t0, "{\"version\":"@, decimal(r.version as nat), r1);
    reveal_strlit("{\"version\":");
    delimited(text, "{\"version\":"@, decimal(r.version as nat) + r1, t11);
}

/// An outcome in JSON is its word, with why it came about where that is known.
pub proof fn outcomes_are_written_in_words(action: Seq<char>, reason: Seq<char>)
    ensures
        outcome_json(Outcome::Stored) == "\"stored\""@,
        outcome_json(Outcome::Aborted) == "\"aborted\""@,
        outcome_json(Outcome::PublishedDurabilityUnconfirmed { reason })
            == "{\"published_durability_unconfirmed\":{\"reason\":"@ + json_quoted(reason)
            + "}}"@,
        outcome_json(Outcome::Failed { action, reason }) == "{\"failed\":{\"action\":"@
            + json_quoted(action) + ",\"reason\":"@ + json_quoted(reason) + "}}"@,
{
}

} // verus!
