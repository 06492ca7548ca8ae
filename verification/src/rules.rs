//! The rules that identities, intents and journal records must meet.

use vstd::prelude::*;

use crate::error::{checked, invalid, invalid_error, Error};
use crate::identity::{
    id_error, is_id, is_key, key_for, named, operation_key, validate_id, validate_key,
};
use crate::json::{intent_json, write_intent};
use crate::model::{
    attempts_equal, intents_equal, is_same_intent, operations_equal, pngs_equal, Attempt, Intent,
    OperationId, Outcome, Receipt, Record, VerifiedPng, MAX_PNG_BYTES,
};
use crate::path::{is_file_path, is_same_path, path_error, same_path, validate_absolute};
use crate::png::{acceptable_size, is_acceptable_size};
use crate::text::{
    byte_count, byte_len, cat3, chars_of, ends_with, same_text, starts_with, strip_prefix,
    strip_suffix,
};

verus! {

/// The longest source address, in bytes.
pub const MAX_URL_BYTES: usize = 8_192;

/// The longest capture time, in bytes.
pub const MAX_TIME_BYTES: usize = 128;

/// The longest destination, in bytes.
pub const MAX_PATH_BYTES: usize = 4_096;

/// The longest JSON text of an intent, in bytes. A terminal record holds the
/// intent twice, so that escapes must not make it too long to journal.
pub const MAX_INTENT_JSON_BYTES: usize = 16_384;

/// The version of the journal's records.
pub const RECORD_VERSION: u32 = 2;

/// The number of hexadecimal digits that tell staging files apart.
pub const SUFFIX_CHARS: usize = 32;

/// The result of [`checked_key`].
pub open spec fn key_of_operation(o: OperationId<Seq<char>>) -> Result<
    Seq<char>,
    Error<Seq<char>>,
> {
    if is_id(o.caller) {
        key_for(o.slug, o.operation_id)
    } else {
        Err(id_error())
    }
}

/// The journal key of an operation whose parts are identities.
pub fn checked_key(operation: &OperationId) -> (r: Result<String, Error>)
    ensures
        named(r) == key_of_operation(operation@),
        r matches Ok(key) ==> is_key(key@),
{
    validate_id(operation.caller.as_str())?;
    operation_key(operation.slug.as_str(), operation.operation_id.as_str())
}

/// Whether both parts of an attempt are identities.
pub open spec fn is_attempt(a: Attempt<Seq<char>>) -> bool {
    is_id(a.call_id) && is_id(a.attempt_id)
}

/// The result of [`validate_attempt`].
pub open spec fn attempt_check(a: Attempt<Seq<char>>) -> Result<(), Error<Seq<char>>> {
    if is_attempt(a) {
        Ok(())
    } else {
        Err(id_error())
    }
}

/// Refuses an attempt whose parts are not identities.
pub fn validate_attempt(attempt: &Attempt) -> (r: Result<(), Error>)
    ensures
        checked(r) == attempt_check(attempt@),
{
    validate_id(attempt.call_id.as_str())?;
    validate_id(attempt.attempt_id.as_str())
}

/// The refusal of another operation under a bound identifier.
pub open spec fn operation_conflict() -> Error<Seq<char>> {
    invalid_error("operation identity or caller conflicts"@)
}

/// Refuses two operations that differ.
pub fn same_operation(a: &OperationId, b: &OperationId) -> (r: Result<(), Error>)
    ensures
        checked(r) == (if a@ == b@ {
            Ok(())
        } else {
            Err(operation_conflict())
        }),
{
    if operations_equal(a, b) {
        Ok(())
    } else {
        Err(invalid("operation identity or caller conflicts"))
    }
}

/// The refusal of another intent under a bound identifier.
pub open spec fn intent_conflict() -> Error<Seq<char>> {
    invalid_error("operation ID already binds different intent"@)
}

/// Refuses two intents that differ.
pub fn same_intent(a: &Intent, b: &Intent) -> (r: Result<(), Error>)
    ensures
        checked(r) == (if is_same_intent(a@, b@) {
            Ok(())
        } else {
            Err(intent_conflict())
        }),
{
    if intents_equal(a, b) {
        Ok(())
    } else {
        Err(invalid("operation ID already binds different intent"))
    }
}

/// The result of [`validate_intent`]: the first rule that an intent breaks.
pub open spec fn intent_check(i: Intent<Seq<char>>) -> Result<(), Error<Seq<char>>> {
    if !is_file_path(i.destination) {
        Err(path_error())
    } else if !is_key(i.sha256) {
        Err(invalid_error("invalid journal key or SHA-256"@))
    } else if i.bytes == 0 || i.bytes > MAX_PNG_BYTES {
        Err(invalid_error("PNG byte count exceeds limit or is empty"@))
    } else if byte_count(i.source_url) > MAX_URL_BYTES || byte_count(i.captured_at) > MAX_TIME_BYTES
        || byte_count(i.destination) > MAX_PATH_BYTES {
        Err(invalid_error("capture metadata exceeds limit"@))
    } else if byte_count(intent_json(i)) > MAX_INTENT_JSON_BYTES {
        Err(invalid_error("serialized capture metadata exceeds limit"@))
    } else {
        Ok(())
    }
}

/// Refuses an intent that breaks a rule.
pub fn validate_intent(intent: &Intent) -> (r: Result<(), Error>)
    ensures
        checked(r) == intent_check(intent@),
{
    validate_absolute(intent.destination.as_str())?;
    validate_key(intent.sha256.as_str())?;
    if intent.bytes == 0 || intent.bytes > MAX_PNG_BYTES {
        return Err(invalid("PNG byte count exceeds limit or is empty"));
    }
    if byte_len(intent.source_url.as_str()) > MAX_URL_BYTES || byte_len(intent.captured_at.as_str())
        > MAX_TIME_BYTES || byte_len(intent.destination.as_str()) > MAX_PATH_BYTES {
        return Err(invalid("capture metadata exceeds limit"));
    }
    let text = write_intent(intent);
    if byte_len(text.as_str()) > MAX_INTENT_JSON_BYTES {
        return Err(invalid("serialized capture metadata exceeds limit"));
    }
    Ok(())
}

/// The name of the staging file of an operation.
pub open spec fn stage_name_of(key: Seq<char>, suffix: Seq<char>) -> Seq<char> {
    stage_prefix(key) + suffix + ".stage"@
}

/// What the names of an operation's staging files begin with.
pub open spec fn stage_prefix(key: Seq<char>) -> Seq<char> {
    ".wicket-screenshot-"@ + key + "-"@
}

/// What tells a staging file of an operation apart, where a name has the form
/// of one.
pub open spec fn stage_suffix(key: Seq<char>, name: Seq<char>) -> Option<Seq<char>> {
    let rest = name.skip(stage_prefix(key).len() as int);
    if !starts_with(name, stage_prefix(key)) || !ends_with(rest, ".stage"@) {
        None
    } else {
        Some(rest.take(rest.len() - ".stage"@.len()))
    }
}

/// Makes the name of a staging file.
pub fn stage_name(key: &str, suffix: &str) -> (r: String)
    ensures
        r@ == stage_name_of(key@, suffix@),
{
    let mut r = cat3(".wicket-screenshot-", key, "-");
    r.append(suffix);
    r.append(".stage");
    r
}

/// Whether a text is made of thirty-two hexadecimal digits of either case.
pub open spec fn is_suffix(s: Seq<char>) -> bool {
    &&& s.len() == SUFFIX_CHARS
    &&& forall|i: int|
        0 <= i < s.len() ==> ('0' <= #[trigger] s[i] <= '9' || 'a' <= s[i] <= 'f' || 'A' <= s[i]
            <= 'F')
}

fn hex_suffix(s: &str) -> (r: bool)
    ensures
        r == is_suffix(s@),
{
    let chars = chars_of(s);
    if chars.len() != SUFFIX_CHARS {
        return false;
    }
    let mut i: usize = 0;
    while i < chars.len()
        invariant
            i <= chars@.len(),
            chars@ == s@,
            chars@.len() == SUFFIX_CHARS,
            forall|j: int|
                0 <= j < i ==> ('0' <= #[trigger] s@[j] <= '9' || 'a' <= s@[j] <= 'f' || 'A'
                    <= s@[j] <= 'F'),
        decreases chars@.len() - i,
    {
        let c = chars[i];
        if !(('0' <= c && c <= '9') || ('a' <= c && c <= 'f') || ('A' <= c && c <= 'F')) {
            assert(!('0' <= s@[i as int] <= '9' || 'a' <= s@[i as int] <= 'f' || 'A' <= s@[i as int]
                <= 'F'));
            return false;
        }
        i += 1;
    }
    true
}

/// Whether verified facts are those of an intent and within the limits.
pub open spec fn facts_match(v: VerifiedPng<Seq<char>>, i: Intent<Seq<char>>) -> bool {
    &&& v.mime_type == "image/png"@
    &&& v.bytes == i.bytes
    &&& v.sha256 == i.sha256
    &&& is_acceptable_size(v.pixel_width, v.pixel_height)
}

/// The name of the event that ends an accepted operation.
pub open spec fn terminal_event(key: Seq<char>) -> Seq<char> {
    "screenshot-"@ + key + "-terminal"@
}

/// Whether a receipt is one that an accepted operation can end with.
pub open spec fn receipt_matches(
    key: Seq<char>,
    r: Record<Seq<char>>,
    t: Receipt<Seq<char>>,
) -> bool {
    &&& t.operation == r.operation
    &&& t.attempt == r.attempt
    &&& is_same_intent(t.requested, r.intent)
    &&& is_same_path(t.destination, r.destination)
    &&& t.verified == Some(r.verified)
    &&& t.accepted_at == Some(r.accepted_at)
    &&& t.event_id == terminal_event(key)
    &&& !(t.outcome is Aborted)
}

/// The result of [`validate_record`]: the first rule that a record breaks.
pub open spec fn record_check(key: Seq<char>, r: Record<Seq<char>>) -> Result<
    (),
    Error<Seq<char>>,
> {
    if intent_check(r.intent) is Err {
        intent_check(r.intent)
    } else if !is_file_path(r.destination) {
        Err(path_error())
    } else if !is_attempt(r.attempt) {
        Err(id_error())
    } else {
        match stage_suffix(key, r.stage_name) {
            None => Err(invalid_error("invalid stage name"@)),
            Some(suffix) => {
                if r.version != RECORD_VERSION {
                    Err(invalid_error("invalid journal version or identity"@))
                } else {
                    match key_of_operation(r.operation) {
                        Err(e) => Err(e),
                        Ok(own) => {
                            if own != key || !is_suffix(suffix) {
                                Err(invalid_error("invalid journal version or identity"@))
                            } else if !facts_match(r.verified, r.intent) {
                                Err(invalid_error("invalid verified PNG facts"@))
                            } else if r.terminal is Some && !receipt_matches(
                                key,
                                r,
                                r.terminal->Some_0,
                            ) {
                                Err(
                                    invalid_error(
                                        "terminal receipt does not match accepted operation"@,
                                    ),
                                )
                            } else {
                                Ok(())
                            }
                        },
                    }
                }
            },
        }
    }
}

fn facts_fit(v: &VerifiedPng, i: &Intent) -> (r: bool)
    ensures
        r == facts_match(v@, i@),
{
    same_text(v.mime_type.as_str(), "image/png") && v.bytes == i.bytes && same_text(
        v.sha256.as_str(),
        i.sha256.as_str(),
    ) && acceptable_size(v.pixel_width, v.pixel_height)
}

fn receipt_fits(key: &str, r: &Record, t: &Receipt) -> (fits: bool)
    ensures
        fits == receipt_matches(key@, r@, t@),
{
    let event = cat3("screenshot-", key, "-terminal");
    let verified = match &t.verified {
        Some(v) => pngs_equal(v, &r.verified),
        None => false,
    };
    let accepted = match &t.accepted_at {
        Some(at) => same_text(at.as_str(), r.accepted_at.as_str()),
        None => false,
    };
    let aborted = match &t.outcome {
        Outcome::Aborted => true,
        _ => false,
    };
    operations_equal(&t.operation, &r.operation) && attempts_equal(&t.attempt, &r.attempt)
        && intents_equal(&t.requested, &r.intent) && same_path(
        t.destination.as_str(),
        r.destination.as_str(),
    ) && verified && accepted && same_text(t.event_id.as_str(), event.as_str()) && !aborted
}

/// Refuses a record that could not have been journaled under a key.
pub fn validate_record(key: &str, record: &Record) -> (r: Result<(), Error>)
    ensures
        checked(r) == record_check(key@, record@),
{
    validate_intent(&record.intent)?;
    validate_absolute(record.destination.as_str())?;
    validate_attempt(&record.attempt)?;
    let prefix = cat3(".wicket-screenshot-", key, "-");
    let suffix = match strip_prefix(record.stage_name.as_str(), prefix.as_str()) {
        Some(rest) => match strip_suffix(rest, ".stage") {
            Some(suffix) => suffix,
            None => return Err(invalid("invalid stage name")),
        },
        None => return Err(invalid("invalid stage name")),
    };
    if record.version != RECORD_VERSION {
        return Err(invalid("invalid journal version or identity"));
    }
    let own = checked_key(&record.operation)?;
    if !same_text(own.as_str(), key) || !hex_suffix(suffix) {
        return Err(invalid("invalid journal version or identity"));
    }
    if !facts_fit(&record.verified, &record.intent) {
        return Err(invalid("invalid verified PNG facts"));
    }
    if let Some(receipt) = &record.terminal {
        if !receipt_fits(key, record, receipt) {
            return Err(invalid("terminal receipt does not match accepted operation"));
        }
    }
    Ok(())
}

} // verus!
