//! The time of day.

use vstd::prelude::*;

verus! {

/// Calls `chrono::Utc::now` and writes the time with `to_rfc3339`. Nothing is
/// claimed of the text: it depends on the clock.
#[verifier::external_body]
pub(crate) fn now() -> String {
    chrono::Utc::now().to_rfc3339()
}

/// Calls `chrono::Utc::now` and writes the time with `to_rfc3339_opts`, in
/// milliseconds and with `Z` for the offset. Nothing is claimed of the text: it
/// depends on the clock.
#[verifier::external_body]
pub(crate) fn stamp() -> String {
    chrono::Utc::now().to_rfc3339_opts(chrono::SecondsFormat::Millis, true)
}

} // verus!
