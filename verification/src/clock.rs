//! The clock: the one thing that the router takes from its surroundings
//! while it decides.

use vstd::prelude::*;

verus! {

/// `time::OffsetDateTime`, a moment in time together with a UTC offset. The
/// router never looks inside such a value: it takes one from the clock and
/// carries it into the log record.
#[verifier::external_type_specification]
#[verifier::external_body]
pub struct ExOffsetDateTime(time::OffsetDateTime);

/// `time::OffsetDateTime::now_utc` reads the system clock. Two calls may give
/// different moments, so nothing is claimed of the value that comes back.
pub assume_specification[ time::OffsetDateTime::now_utc ]() -> (now: time::OffsetDateTime)
;

} // verus!
