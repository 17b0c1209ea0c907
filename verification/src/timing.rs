//! The monotonic clock behind the soft time budget. Nothing is assumed of
//! the values it yields: the search loop is verified for every reading.
use vstd::prelude::*;

verus! {

#[verifier::external_type_specification]
#[verifier::external_body]
pub struct ExInstant(std::time::Instant);

/// Relies on std::time::Instant::now: an opaque reading of the monotonic
/// clock, taken when a job starts.
pub assume_specification[ std::time::Instant::now ]() -> std::time::Instant;

/// Relies on std::time::Instant::elapsed: the time since the instant was
/// taken; no bound is assumed of it.
pub assume_specification[ std::time::Instant::elapsed ](t: &std::time::Instant) -> core::time::Duration;

/// Relies on core::time::Duration::as_secs: the duration in whole seconds;
/// no bound is assumed of it.
pub assume_specification[ core::time::Duration::as_secs ](d: &core::time::Duration) -> u64;

} // verus!
