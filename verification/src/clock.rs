//! The wall clock.

use vstd::prelude::*;

verus! {

/// Trusted: `chrono::Utc::now().timestamp()`, the seconds since the Unix
/// epoch on this machine's clock. Nothing is claimed of the number: two reads
/// may differ in either direction. `chrono` panics where the machine's clock
/// stands before 1970.
#[verifier::external_body]
pub(crate) fn unix_now() -> i64 {
    chrono::Utc::now().timestamp()
}

} // verus!
