//! The wall clock.

use vstd::prelude::*;

verus! {

/// The current time in whole seconds since the Unix epoch: what
/// `chrono::Utc::now` returns, read with `DateTime::timestamp`. Nothing is
/// claimed of the value. `Utc::now` panics on a machine whose clock stands
/// before 1970.
#[verifier::external_body]
pub(crate) fn unix_now() -> i64 {
    chrono::Utc::now().timestamp()
}

} // verus!
