//! The wall clock.

use vstd::prelude::*;

verus! {

/// `chrono::DateTime::<Utc>::from` of the standard library's
/// `SystemTime::now()`, then `DateTime::timestamp`: the wall-clock time in
/// whole seconds since the start of 1970 (UTC), negative on a machine whose
/// clock stands before it. The result depends on when the call is made, so
/// nothing is claimed of it. The conversion fails only for a time outside
/// the years that `chrono` can hold, some 262,000 to either side.
#[verifier::external_body]
pub(crate) fn unix_now() -> i64 {
    chrono::DateTime::<chrono::Utc>::from(std::time::SystemTime::now()).timestamp()
}

} // verus!
