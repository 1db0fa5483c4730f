//! The monotonic clock, as far as the store relies on it.
//!
//! Clock readings are plain `u128` nanosecond counts. Nothing is assumed of
//! how two readings relate: the store treats a reading that lies before an
//! entry's insertion as an age of zero.

use std::time::{Duration, Instant};
use vstd::prelude::*;

verus! {

/// `std::time::Instant`, a point on the monotonic clock. Its contents are
/// opaque to proofs; the store only carries one through as its epoch.
#[verifier::external_type_specification]
#[verifier::external_body]
pub struct ExInstant(Instant);

/// The whole number of nanoseconds that a `Duration` spans, as
/// `Duration::as_nanos` reports it.
pub uninterp spec fn duration_nanos(d: Duration) -> u128;

/// `Duration::as_nanos`: trusted to be a function of the duration alone. The
/// result is given the name [`duration_nanos`]; nothing else is assumed.
pub assume_specification[ Duration::as_nanos ](d: &Duration) -> (n: u128)
    ensures
        n == duration_nanos(*d),
;

/// `Instant::now`: trusted only to return; nothing is assumed of the reading.
pub assume_specification[ Instant::now ]() -> (t: Instant)
;

/// `Instant::elapsed`: trusted only to return; nothing is assumed of the
/// span it reports.
pub assume_specification[ Instant::elapsed ](t: &Instant) -> (d: Duration)
;

} // verus!
