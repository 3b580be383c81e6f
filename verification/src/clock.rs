//! The one place the library reads the machine's clock.  Cutoffs are
//! recomputed from a fresh reading on every evaluation, never cached.

use crate::timestamp::Timestamp;
use vstd::prelude::*;

verus! {

/// Relies on chrono::Utc::now and chrono::DateTime::timestamp: the current
/// time as whole seconds since the Unix epoch.  Nothing can be promised of
/// a clock reading.
#[verifier::external_body]
fn now_epoch_seconds() -> (r: i64) {
    chrono::Utc::now().timestamp()
}

/// Read the clock and fit it into the renderable window.  A reading before
/// the epoch or at year 10000 and beyond is reported, never clamped.
pub fn current_timestamp() -> (r: Option<Timestamp>) {
    Timestamp::from_epoch_seconds(now_epoch_seconds())
}

} // verus!
