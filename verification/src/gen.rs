//! Generated values: fresh identifiers and creation times.

use vstd::prelude::*;

verus! {

/// Relies on uuid's `Uuid::new_v4` for a freshly drawn random version-4
/// identifier, taken as its 128-bit value. The draw is random, so nothing
/// is assumed of the result; the store itself checks it against the
/// identifiers already present.
#[verifier::external_body]
pub(crate) fn fresh_id() -> u128 {
    uuid::Uuid::new_v4().as_u128()
}

/// Relies on chrono's `Utc::now` for the current time, taken as whole
/// microseconds since the Unix epoch. The clock is outside the program, so
/// nothing is assumed of the result.
#[verifier::external_body]
pub(crate) fn now_micros() -> i64 {
    chrono::Utc::now().timestamp_micros()
}

} // verus!
