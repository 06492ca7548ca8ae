//! What the rules of the store admit, in full: identities, keys, intents, records,
//! destinations, and what is reported.

use vstd::prelude::*;
use vstd::utf8::*;

use crate::encoding::chunk_of;
use crate::error::{Error, ErrorKind};
use crate::facts::{bounded, retained_check, stage_check, FileFacts, StageFacts};
use crate::identity::{fingerprint, is_id, is_key, key_of};
use crate::json::{intent_json, json_quoted};
use crate::location::pane_of;
use crate::model::{
    is_same_intent, Identity, Intent, OperationId, Outcome, Receipt, Record, VerifiedPng,
};
use crate::observation::{cleanup_seen, receipt_seen, Detail};
use crate::path::{file_name_of, is_file_path, is_same_path, is_within, joined, parent_of};
use crate::path_laws::{below, is_directory, is_relative};
use crate::policy::{admission, allowed, roots_of, ParentFacts};
use crate::rules::{
    facts_match, intent_check, is_suffix, key_of_operation, receipt_matches, record_check,
};
use crate::text::byte_count;
use crate::text_laws::lacks;

verus! {

/// An identity is 1 to 128 ASCII letters, digits, hyphens or underscores, and any
/// such text is one.
pub proof fn identities_are_short_words(s: Seq<char>)
    ensures
        is_id(s) <==> 1 <= s.len() <= 128 && forall|i: int|
            0 <= i < s.len() ==> ('a' <= #[trigger] s[i] <= 'z' || 'A' <= s[i] <= 'Z' || '0'
                <= s[i] <= '9' || s[i] == '-' || s[i] == '_'),
{
}

/// A journal key or a digest is 64 digits or letters from `a` to `f`, and any such
/// text is one.
pub proof fn keys_are_hexadecimal(s: Seq<char>)
    ensures
        is_key(s) <==> s.len() == 64 && forall|i: int|
            0 <= i < s.len() ==> ('0' <= #[trigger] s[i] <= '9' || 'a' <= s[i] <= 'f'),
{
}

/// The name of a staging file is told apart by 32 hexadecimal digits of either
/// case, and any such text does that.
pub proof fn suffixes_are_hexadecimal(s: Seq<char>)
    ensures
        is_suffix(s) <==> s.len() == 32 && forall|i: int|
            0 <= i < s.len() ==> ('0' <= #[trigger] s[i] <= '9' || 'a' <= s[i] <= 'f' || 'A'
                <= s[i] <= 'F'),
{
}

/// What is digested for the key of an operation is its slug and its identifier,
/// which is the same for no other operation; the caller does not matter.
pub proof fn keys_stand_for_operations(
    slug: Seq<char>,
    id: Seq<char>,
    other_slug: Seq<char>,
    other_id: Seq<char>,
)
    requires
        is_id(slug) && is_id(id) && is_id(other_slug) && is_id(other_id),
    ensures
        key_of(slug, id) == fingerprint(encode_utf8(slug.push('\0') + id)),
        slug.push('\0') + id == other_slug.push('\0') + other_id ==> slug == other_slug && id
            == other_id,
        forall|caller: Seq<char>|
            #![trigger key_of_operation(OperationId { slug, caller, operation_id: id })]
            is_id(caller) ==> key_of_operation(OperationId { slug, caller, operation_id: id })
                == Ok::<Seq<char>, Error<Seq<char>>>(key_of(slug, id)),
{
    reveal_strlit("\0");
    assert(slug + "\0"@ + id =~= slug.push('\0') + id);
    let a = slug.push('\0') + id;
    let b = other_slug.push('\0') + other_id;
    if a == b {
        if slug.len() < other_slug.len() {
            assert(b[slug.len() as int] == other_slug[slug.len() as int]);
            assert(a[slug.len() as int] == '\0');
        }
        if other_slug.len() < slug.len() {
            assert(a[other_slug.len() as int] == slug[other_slug.len() as int]);
            assert(b[other_slug.len() as int] == '\0');
        }
        assert(slug =~= a.take(slug.len() as int));
        assert(other_slug =~= b.take(slug.len() as int));
        assert(id =~= a.skip((slug.len() + 1) as int));
        assert(other_id =~= b.skip((slug.len() + 1) as int));
    }
}

/// An operation whose parts are not identities has no key.
pub proof fn unnamed_operations_have_no_key(o: OperationId<Seq<char>>)
    requires
        !is_id(o.slug) || !is_id(o.caller) || !is_id(o.operation_id),
    ensures
        key_of_operation(o) == Err::<Seq<char>, Error<Seq<char>>>(
            Error {
                kind: ErrorKind::InvalidData,
                message:
                    "identity must contain 1..128 ASCII letters, digits, hyphens or underscores"@,
            },
        ),
{
}

/// An intent is admitted exactly if it names a file from the root, gives a digest
/// and announces 1 to 33,554,432 bytes, and neither what it says of the capture
/// nor its JSON text is too long.
pub proof fn intents_are_admitted_within_the_limits(i: Intent<Seq<char>>)
    ensures
        intent_check(i) is Ok <==> {
            &&& is_file_path(i.destination)
            &&& is_key(i.sha256)
            &&& 1 <= i.bytes <= 33_554_432
            &&& byte_count(i.source_url) <= 8_192
            &&& byte_count(i.captured_at) <= 128
            &&& byte_count(i.destination) <= 4_096
            &&& byte_count(intent_json(i)) <= 16_384
        },
{
}

/// An intent that is refused is told the first rule that it breaks.
pub proof fn refused_intents_are_told_why(i: Intent<Seq<char>>)
    ensures
        ({
            let told = |message: Seq<char>|
                intent_check(i) == Err::<(), Error<Seq<char>>>(
                    Error { kind: ErrorKind::InvalidData, message },
                );
            let short = byte_count(i.source_url) <= 8_192 && byte_count(i.captured_at) <= 128
                && byte_count(i.destination) <= 4_096;
            &&& !is_file_path(i.destination) ==> told(
                "destination must be absolute without dot or parent components"@,
            )
            &&& is_file_path(i.destination) ==> {
                &&& !is_key(i.sha256) ==> told("invalid journal key or SHA-256"@)
                &&& is_key(i.sha256) && (i.bytes == 0 || i.bytes > 33_554_432) ==> told(
                    "PNG byte count exceeds limit or is empty"@,
                )
                &&& is_key(i.sha256) && 1 <= i.bytes <= 33_554_432 ==> {
                    &&& !short ==> told("capture metadata exceeds limit"@)
                    &&& short && byte_count(intent_json(i)) > 16_384 ==> told(
                        "serialized capture metadata exceeds limit"@,
                    )
                }
            }
        }),
{
}

/// Two intents are the same exactly if they say the same, where two destinations
/// are the same if they lead to the same place.
pub proof fn intents_are_compared_in_full(a: Intent<Seq<char>>, b: Intent<Seq<char>>)
    ensures
        is_same_intent(a, b) <==> {
            &&& is_same_path(a.destination, b.destination)
            &&& a.bytes == b.bytes
            &&& a.sha256 == b.sha256
            &&& a.mode == b.mode
            &&& a.source_url == b.source_url
            &&& a.captured_at == b.captured_at
        },
{
}

/// Whether the verified facts of a record are those of its intent: a PNG of the
/// bytes and the digest that were announced, of 1 to 32,768 pixels each way and
/// at most 33,554,432 in all.
pub open spec fn fits_intent(v: VerifiedPng<Seq<char>>, i: Intent<Seq<char>>) -> bool {
    &&& v.mime_type == "image/png"@
    &&& v.bytes == i.bytes
    &&& v.sha256 == i.sha256
    &&& 1 <= v.pixel_width <= 32_768
    &&& 1 <= v.pixel_height <= 32_768
    &&& v.pixel_width * v.pixel_height <= 33_554_432
}

/// Whether a receipt belongs to a record.
pub open spec fn belongs_to(
    t: Receipt<Seq<char>>,
    key: Seq<char>,
    r: Record<Seq<char>>,
) -> bool {
    &&& t.operation == r.operation
    &&& t.attempt == r.attempt
    &&& is_same_intent(t.requested, r.intent)
    &&& is_same_path(t.destination, r.destination)
    &&& t.verified == Some(r.verified)
    &&& t.accepted_at == Some(r.accepted_at)
    &&& t.event_id == "screenshot-"@ + key + "-terminal"@
    &&& t.outcome != Outcome::<Seq<char>>::Aborted
}

/// A record is read back from a journal exactly if everything in it is in order.
pub proof fn records_are_read_back_when_in_order(
    key: Seq<char>,
    r: Record<Seq<char>>,
    suffix: Seq<char>,
)
    requires
        r.stage_name == ".wicket-screenshot-"@ + key + "-"@ + suffix + ".stage"@,
    ensures
        record_check(key, r) is Ok <==> {
            &&& r.version == 2
            &&& is_id(r.operation.slug) && is_id(r.operation.caller) && is_id(
                r.operation.operation_id,
            )
            &&& key == key_of(r.operation.slug, r.operation.operation_id)
            &&& is_id(r.attempt.call_id) && is_id(r.attempt.attempt_id)
            &&& intent_check(r.intent) is Ok
            &&& is_file_path(r.destination)
            &&& is_suffix(suffix)
            &&& fits_intent(r.verified, r.intent)
            &&& r.terminal matches Some(t) ==> belongs_to(t, key, r)
        },
{
    let prefix = crate::rules::stage_prefix(key);
    let end = ".stage"@;
    let rest = suffix + end;
    assert(r.stage_name =~= prefix + rest);
    assert(r.stage_name.take(prefix.len() as int) =~= prefix);
    assert(r.stage_name.skip(prefix.len() as int) =~= rest);
    assert(rest.skip(rest.len() - end.len()) =~= end);
    assert(rest.take(rest.len() - end.len()) =~= suffix);
    assert(facts_match(r.verified, r.intent) <==> fits_intent(r.verified, r.intent)) by {
        let w = r.verified.pixel_width;
        let h = r.verified.pixel_height;
        assert(w * h == h * w) by (nonlinear_arith);
    }
    if let Some(t) = r.terminal {
        assert(receipt_matches(key, r, t) <==> belongs_to(t, key, r));
    }
}

/// A record whose staging file is named otherwise is refused.
pub proof fn records_name_their_staging_file(key: Seq<char>, r: Record<Seq<char>>)
    requires
        record_check(key, r) is Ok,
    ensures
        exists|suffix: Seq<char>|
            r.stage_name == #[trigger] (".wicket-screenshot-"@ + key + "-"@ + suffix + ".stage"@),
{
    let prefix = crate::rules::stage_prefix(key);
    let end = ".stage"@;
    let rest = r.stage_name.skip(prefix.len() as int);
    let suffix = rest.take(rest.len() - end.len());
    assert(rest =~= suffix + end);
    assert(r.stage_name =~= prefix + rest);
    assert(r.stage_name =~= ".wicket-screenshot-"@ + key + "-"@ + suffix + ".stage"@);
}

/// Whether a configuration was read: its text, or none where there is no file.
pub open spec fn config_is(read: Result<String, Error>, config: Option<Seq<char>>) -> bool {
    match config {
        Some(text) => read matches Ok(s) && s@ == text,
        None => read matches Err(e) && e.kind == ErrorKind::NotFound,
    }
}

/// Whether a canonical root is the directory of a destination, or above it.
pub open spec fn covers(root: Result<String, Error>, parent: Seq<char>) -> bool {
    root matches Ok(root) && (parent == root@ || root@ == "/"@ && parent.len() > 0 && parent[0]
        == '/' || exists|rest: Seq<char>| parent == #[trigger] below(root@, rest))
}

/// Whether a canonical root does not matter: it does not exist, or a destination is
/// not below it.
pub open spec fn passes_over(root: Result<String, Error>, parent: Seq<char>) -> bool {
    match root {
        Ok(_) => !covers(root, parent),
        Err(e) => e.kind == ErrorKind::NotFound,
    }
}

proof fn covering_is_within(root: Seq<char>, parent: Seq<char>)
    ensures
        is_within(root, parent) <==> parent == root || root == "/"@ && parent.len() > 0
            && parent[0] == '/' || exists|rest: Seq<char>|
            parent == #[trigger] below(root, rest),
{
    reveal_strlit("/");
    assert(root + "/"@ =~= root.push('/'));
    if crate::text::starts_with(parent, root.push('/')) {
        assert(parent =~= below(root, parent.skip((root.len() + 1) as int)));
    }
    assert forall|rest: Seq<char>| parent == #[trigger] below(root, rest) implies
        crate::text::starts_with(parent, root.push('/')) by {
        assert(parent.take((root.len() + 1) as int) =~= root.push('/'));
    }
    crate::path_laws::paths_start_at_the_root_or_at_a_directory(root, parent);
}

proof fn roots_are_tried_in_order(
    roots: Seq<Seq<char>>,
    canonical: Seq<Result<String, Error>>,
    parent: Seq<char>,
    from: int,
    to: int,
)
    requires
        0 <= from <= to <= roots.len(),
        canonical.len() == roots.len(),
        forall|k: int| from <= k < to ==> !is_relative(#[trigger] roots[k]),
        forall|k: int| from <= k < to ==> passes_over(#[trigger] canonical[k], parent),
    ensures
        admission(roots, canonical, parent, from) == admission(roots, canonical, parent, to),
    decreases to - from,
{
    if from < to {
        assert(!is_relative(roots[from]));
        assert(passes_over(canonical[from], parent));
        crate::path_laws::paths_start_at_the_root_or_at_a_directory(parent, roots[from]);
        if let Ok(root) = canonical[from] {
            covering_is_within(root@, parent);
        }
        roots_are_tried_in_order(roots, canonical, parent, from + 1, to);
    }
}

/// A destination is allowed where its directory is one of the slug's roots or below
/// one, however many roots before that one do not matter: it is then the file of
/// its name in the directory that the file system named, if that is not too long.
pub proof fn destinations_below_a_root_are_allowed(
    home: Seq<char>,
    slug: Seq<char>,
    destination: Seq<char>,
    facts: ParentFacts,
    config: Option<Seq<char>>,
    parent: Seq<char>,
    directory: Identity,
    k: int,
)
    requires
        is_id(slug),
        is_file_path(destination),
        config_is(facts.config, config),
        facts.parent matches Ok(p) && p@ == parent,
        facts.directory == Ok::<Identity, Error>(directory),
        facts.roots@.len() == roots_of(home, slug, config).len(),
        0 <= k < facts.roots@.len(),
        forall|j: int| 0 <= j <= k ==> !is_relative(#[trigger] roots_of(home, slug, config)[j]),
        forall|j: int| 0 <= j < k ==> passes_over(#[trigger] facts.roots@[j], parent),
        covers(facts.roots@[k], parent),
    ensures
        ({
            let file = joined(parent, file_name_of(destination));
            &&& byte_count(file) <= 4_096 && byte_count(json_quoted(file)) <= 8_192 ==> allowed(
                home,
                slug,
                destination,
                facts,
            ) == Ok::<(Seq<char>, Identity), Error<Seq<char>>>((file, directory))
            &&& byte_count(file) > 4_096 || byte_count(json_quoted(file)) > 8_192 ==> allowed(
                home,
                slug,
                destination,
                facts,
            ) == Err::<(Seq<char>, Identity), Error<Seq<char>>>(
                Error {
                    kind: ErrorKind::InvalidData,
                    message: "canonical destination exceeds metadata limit"@,
                },
            )
        }),
{
    let roots = roots_of(home, slug, config);
    roots_are_tried_in_order(roots, facts.roots@, parent, 0, k);
    assert(!is_relative(roots[k]));
    crate::path_laws::paths_start_at_the_root_or_at_a_directory(parent, roots[k]);
    covering_is_within(facts.roots@[k]->Ok_0@, parent);
}

/// A slug may publish in its own directory, whatever its configuration says.
pub proof fn destinations_in_the_slugs_own_directory_are_allowed(
    home: Seq<char>,
    slug: Seq<char>,
    destination: Seq<char>,
    facts: ParentFacts,
    config: Option<Seq<char>>,
    pane: String,
    parent: Seq<char>,
    directory: Identity,
)
    requires
        is_id(slug),
        is_file_path(destination),
        config_is(facts.config, config),
        !is_relative(pane_of(home, slug)),
        facts.parent matches Ok(p) && p@ == parent,
        facts.directory == Ok::<Identity, Error>(directory),
        facts.roots@.len() == roots_of(home, slug, config).len(),
        facts.roots@[0] == Ok::<String, Error>(pane),
        parent == pane@ || exists|rest: Seq<char>| parent == #[trigger] below(pane@, rest),
        ({
            let file = joined(parent, file_name_of(destination));
            byte_count(file) <= 4_096 && byte_count(json_quoted(file)) <= 8_192
        }),
    ensures
        allowed(home, slug, destination, facts) == Ok::<(Seq<char>, Identity), Error<Seq<char>>>(
            (joined(parent, file_name_of(destination)), directory),
        ),
{
    assert(roots_of(home, slug, config)[0] == pane_of(home, slug));
    destinations_below_a_root_are_allowed(
        home,
        slug,
        destination,
        facts,
        config,
        parent,
        directory,
        0,
    );
}

/// A destination that is below no root is refused, and so is one that no rule or no
/// file system can tell of; each with why.
pub proof fn other_destinations_are_refused(
    home: Seq<char>,
    slug: Seq<char>,
    destination: Seq<char>,
    facts: ParentFacts,
    config: Option<Seq<char>>,
    parent: Seq<char>,
)
    ensures
        ({
            let roots = roots_of(home, slug, config);
            let told = |kind: ErrorKind, message: Seq<char>|
                allowed(home, slug, destination, facts) == Err::<
                    (Seq<char>, Identity),
                    Error<Seq<char>>,
                >(Error { kind, message });
            let bad = ErrorKind::InvalidData;
            &&& !is_id(slug) ==> told(
                bad,
                "identity must contain 1..128 ASCII letters, digits, hyphens or underscores"@,
            )
            &&& is_id(slug) && !is_file_path(destination) ==> told(
                bad,
                "destination must be absolute without dot or parent components"@,
            )
            &&& is_id(slug) && is_file_path(destination) ==> {
                &&& facts.config matches Err(e) ==> (e.kind != ErrorKind::NotFound ==> told(
                    e.kind,
                    e.message@,
                ))
                &&& config_is(facts.config, config) ==> {
                    &&& facts.parent matches Err(e) ==> told(e.kind, e.message@)
                    &&& facts.parent matches Ok(p) ==> (p@ == parent && facts.roots@.len()
                        == roots.len() && (forall|k: int|
                        0 <= k < roots.len() ==> !is_relative(#[trigger] roots[k])) && (forall|
                        k: int,
                    |
                        0 <= k < roots.len() ==> passes_over(#[trigger] facts.roots@[k], parent))
                        ==> told(bad, "destination is outside the slug's writable roots"@))
                    &&& facts.parent is Ok && roots.len() > 0 && is_relative(roots[0]) ==> told(
                        bad,
                        "configured writable root is not absolute"@,
                    )
                }
            }
        }),
{
    let roots = roots_of(home, slug, config);
    if facts.roots@.len() == roots.len() && (forall|k: int|
        0 <= k < roots.len() ==> !is_relative(#[trigger] roots[k])) && (forall|k: int|
        0 <= k < roots.len() ==> passes_over(#[trigger] facts.roots@[k], parent)) {
        roots_are_tried_in_order(roots, facts.roots@, parent, 0, roots.len() as int);
    }
    if roots.len() > 0 {
        crate::path_laws::paths_start_at_the_root_or_at_a_directory(parent, roots[0]);
    }
}

/// A receipt is reported with what became of the operation, how, and why.
pub proof fn receipts_are_reported(r: Receipt<Seq<char>>)
    ensures
        ({
            let o = receipt_seen(r);
            let link = "rooted filesystem / atomic no-clobber linkat"@;
            &&& o.who == "screenshot"@
            &&& o.place == r.destination
            &&& o.detail == (Detail::Receipt {
                receipt: r,
                unconfirmed: r.outcome is PublishedDurabilityUnconfirmed,
            })
            &&& match r.outcome {
                Outcome::Stored => o.what == "store"@ && o.how == link && o.why is None,
                Outcome::PublishedDurabilityUnconfirmed { reason } => o.what == "fail_sync"@
                    && o.how == "directory synchronization after atomic no-clobber linkat"@
                    && o.why == Some(reason),
                Outcome::Aborted => o.what == "abort"@ && o.how
                    == "receiving ticket invalidation"@ && o.why is None,
                Outcome::Failed { action, reason } => {
                    &&& o.what == "fail_"@ + action
                    &&& o.why == Some(reason)
                    &&& action == "verify"@ ==> o.how
                        == "PNG decode, byte count and SHA-256 verification"@
                    &&& action == "prepare"@ ==> o.how == "rooted staging-file preparation"@
                    &&& action == "sync"@ ==> o.how == "staging-file and parent synchronization"@
                    &&& action == "publish"@ ==> o.how == link
                },
            }
        }),
{
    reveal_strlit("verify");
    reveal_strlit("prepare");
    reveal_strlit("sync");
    reveal_strlit("publish");
    assert("verify"@[0] == 'v' && "prepare"@.len() == 7 && "sync"@[0] == 's' && "publish"@.len()
        == 7);
    assert("prepare"@[1] == 'r' && "publish"@[1] == 'u');
    assert("verify"@.len() == 6 && "sync"@.len() == 4);
}

/// A staging file that stayed, or whose removal may not be durable, is reported
/// where it is, with why.
pub proof fn leftover_files_are_reported(
    directory: Seq<char>,
    file: Seq<char>,
    name: Seq<char>,
    operation: OperationId<Seq<char>>,
    unlinked: bool,
    reason: Seq<char>,
)
    requires
        is_directory(directory),
        lacks(file, '/'),
        is_relative(name),
    ensures
        ({
            let o = cleanup_seen(below(directory, file), name, operation, unlinked, reason);
            &&& o.who == "screenshot"@
            &&& unlinked ==> o.what == "fail_sync"@
            &&& !unlinked ==> o.what == "fail_unlink"@
            &&& o.place == below(directory, name)
            &&& o.how == "unlinkat and directory synchronization"@
            &&& o.why == Some(reason)
            &&& o.detail == (Detail::Cleanup { operation, unlinked })
        }),
{
    crate::path_laws::files_are_named_in_their_directory(directory, file);
    crate::path_laws::paths_start_at_the_root_or_at_a_directory(directory, name);
    assert(parent_of(below(directory, file)) == directory);
}

/// A root that is not absolute, or that cannot be resolved, refuses every
/// destination that no root before it covers.
pub proof fn roots_that_cannot_be_told_refuse(
    home: Seq<char>,
    slug: Seq<char>,
    destination: Seq<char>,
    facts: ParentFacts,
    config: Option<Seq<char>>,
    parent: Seq<char>,
    k: int,
)
    requires
        is_id(slug),
        is_file_path(destination),
        config_is(facts.config, config),
        facts.parent matches Ok(p) && p@ == parent,
        facts.roots@.len() == roots_of(home, slug, config).len(),
        0 <= k < facts.roots@.len(),
        forall|j: int| 0 <= j < k ==> !is_relative(#[trigger] roots_of(home, slug, config)[j]),
        forall|j: int| 0 <= j < k ==> passes_over(#[trigger] facts.roots@[j], parent),
    ensures
        ({
            let root = roots_of(home, slug, config)[k];
            let told = |kind: ErrorKind, message: Seq<char>|
                allowed(home, slug, destination, facts) == Err::<
                    (Seq<char>, Identity),
                    Error<Seq<char>>,
                >(Error { kind, message });
            &&& is_relative(root) ==> told(
                ErrorKind::InvalidData,
                "configured writable root is not absolute"@,
            )
            &&& !is_relative(root) ==> (facts.roots@[k] matches Err(e) ==> (e.kind
                != ErrorKind::NotFound ==> told(e.kind, e.message@)))
            &&& !is_relative(root) && covers(facts.roots@[k], parent) ==> (facts.directory matches Err(
                e,
            ) ==> ({
                let file = joined(parent, file_name_of(destination));
                byte_count(file) <= 4_096 && byte_count(json_quoted(file)) <= 8_192 ==> told(
                    e.kind,
                    e.message@,
                )
            }))
        }),
{
    let roots = roots_of(home, slug, config);
    roots_are_tried_in_order(roots, facts.roots@, parent, 0, k);
    crate::path_laws::paths_start_at_the_root_or_at_a_directory(parent, roots[k]);
    if let Ok(root) = facts.roots@[k] {
        covering_is_within(root@, parent);
    }
}

/// A record that is not in order is told the first rule that it breaks.
pub proof fn refused_records_are_told_why(
    key: Seq<char>,
    r: Record<Seq<char>>,
    suffix: Seq<char>,
)
    requires
        r.stage_name == ".wicket-screenshot-"@ + key + "-"@ + suffix + ".stage"@,
        intent_check(r.intent) is Ok,
        is_file_path(r.destination),
        is_id(r.attempt.call_id) && is_id(r.attempt.attempt_id),
        is_id(r.operation.slug) && is_id(r.operation.caller) && is_id(r.operation.operation_id),
    ensures
        ({
            let told = |message: Seq<char>|
                record_check(key, r) == Err::<(), Error<Seq<char>>>(
                    Error { kind: ErrorKind::InvalidData, message },
                );
            let own = r.version == 2 && key == key_of(
                r.operation.slug,
                r.operation.operation_id,
            ) && is_suffix(suffix);
            &&& !own ==> told("invalid journal version or identity"@)
            &&& own && !fits_intent(r.verified, r.intent) ==> told("invalid verified PNG facts"@)
            &&& own && fits_intent(r.verified, r.intent) ==> (r.terminal matches Some(t) ==> (
            !belongs_to(t, key, r) ==> told("terminal receipt does not match accepted operation"@)))
        }),
{
    let prefix = crate::rules::stage_prefix(key);
    let end = ".stage"@;
    let rest = suffix + end;
    assert(r.stage_name =~= prefix + rest);
    assert(r.stage_name.take(prefix.len() as int) =~= prefix);
    assert(r.stage_name.skip(prefix.len() as int) =~= rest);
    assert(rest.skip(rest.len() - end.len()) =~= end);
    assert(rest.take(rest.len() - end.len()) =~= suffix);
    assert(facts_match(r.verified, r.intent) <==> fits_intent(r.verified, r.intent));
    if let Some(t) = r.terminal {
        assert(receipt_matches(key, r, t) <==> belongs_to(t, key, r));
    }
}

/// A staging file is a transfer's own exactly if its name leads to a file, which is
/// the one that is held open and has no other name.
pub proof fn own_files_have_one_name(facts: StageFacts, named: FileFacts, held: FileFacts)
    requires
        facts.named == Ok::<FileFacts, Error>(named),
        facts.held == Ok::<FileFacts, Error>(held),
    ensures
        stage_check(facts) is Ok <==> named.is_file && named.identity == held.identity
            && held.links == 1,
        stage_check(facts) is Err ==> stage_check(facts) == Err::<(), Error<Seq<char>>>(
            Error {
                kind: ErrorKind::InvalidData,
                message: "receiving stage was replaced or hard-linked"@,
            },
        ),
{
}

/// A file is the accepted one exactly if it is a regular file of the same identity.
pub proof fn accepted_files_are_told_by_their_identity(
    file: FileFacts,
    accepted: Identity,
    e: Error,
)
    ensures
        retained_check(Ok(file), accepted) is Ok <==> file.is_file && file.identity == accepted,
        retained_check(Ok(file), accepted) is Err ==> retained_check(Ok(file), accepted) == Err::<
            (),
            Error<Seq<char>>,
        >(Error { kind: ErrorKind::InvalidData, message: "staging evidence was replaced"@ }),
        retained_check(Err(e), accepted) == Err::<(), Error<Seq<char>>>(
            Error { kind: e.kind, message: e.message@ },
        ),
{
}

/// What was read of a file is taken exactly if the file is regular and neither it
/// nor what was read is longer than the limit; and it is taken as it is.
pub proof fn short_files_are_taken_as_they_are(
    file: FileFacts,
    bytes: Vec<u8>,
    limit: u64,
    e: Error,
)
    ensures
        file.is_file && file.length <= limit && bytes@.len() <= limit ==> bounded(
            Ok(file),
            Ok(bytes),
            limit,
        ) == Ok::<Seq<u8>, Error<Seq<char>>>(bytes@),
        !file.is_file || file.length > limit ==> bounded(Ok(file), Ok(bytes), limit) == Err::<
            Seq<u8>,
            Error<Seq<char>>,
        >(
            Error {
                kind: ErrorKind::InvalidData,
                message: "file is not regular or exceeds limit"@,
            },
        ),
        file.is_file && file.length <= limit && bytes@.len() > limit ==> bounded(
            Ok(file),
            Ok(bytes),
            limit,
        ) == Err::<Seq<u8>, Error<Seq<char>>>(
            Error { kind: ErrorKind::InvalidData, message: "file exceeds limit"@ },
        ),
        file.is_file && file.length <= limit ==> bounded(Ok(file), Err(e), limit) == Err::<
            Seq<u8>,
            Error<Seq<char>>,
        >(Error { kind: e.kind, message: e.message@ }),
{
}

/// A chunk is what its text was decoded to, if that is 1 to 65,536 bytes.
pub proof fn chunks_are_neither_empty_nor_too_long(bytes: Seq<u8>)
    ensures
        1 <= bytes.len() <= 65_536 ==> chunk_of(Some(bytes)) == Some(bytes),
        bytes.len() == 0 || bytes.len() > 65_536 ==> chunk_of(Some(bytes)) is None,
        chunk_of(None) is None,
{
}

} // verus!
