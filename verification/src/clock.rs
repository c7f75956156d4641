//! The system clock.

use vstd::prelude::*;

verus! {

/// Reads the system clock with `chrono::Utc::now` and gives the instant as
/// a Unix timestamp in whole seconds.
///
/// Nothing is claimed of the value: it depends on the machine's clock, and
/// two calls may differ in either direction. `chrono` itself gives up on a
/// clock that stands before 1970.
#[verifier::external_body]
pub(crate) fn now() -> (instant: i64) {
    chrono::Utc::now().timestamp()
}

} // verus!
