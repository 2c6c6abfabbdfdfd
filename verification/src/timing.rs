//! Time spans, as the standard library holds them.

use vstd::prelude::*;
use std::time::Duration;

verus! {

/// The number of whole milliseconds that a span holds.
pub uninterp spec fn whole_millis(span: Duration) -> nat;

/// Calls `Duration::as_millis`. Trusted: the result is the number of whole
/// milliseconds in the span, which is what the standard library documents.
#[verifier::external_body]
pub(crate) fn millis_of(span: &Duration) -> (millis: u128)
    ensures
        millis == whole_millis(*span),
{
    span.as_millis()
}

/// Calls `Duration::from_secs`. Trusted: the span holds exactly `secs` whole
/// seconds, so a thousand times as many milliseconds.
#[verifier::external_body]
pub(crate) fn seconds(secs: u64) -> (span: Duration)
    ensures
        whole_millis(span) == secs * 1000,
{
    Duration::from_secs(secs)
}

} // verus!
