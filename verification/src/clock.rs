//! The time of day, read through the `chrono` crate.

use vstd::prelude::*;

verus! {

/// Reads the system's clock with std's `SystemTime::now`, has chrono make a
/// `DateTime<Utc>` of it by its `From<SystemTime>`, which takes a time
/// before 1970 as well as one after, and has the time written out by
/// `DateTime::to_rfc3339`. The text depends on the clock, so no more is
/// claimed of it than that it is a string.
#[verifier::external_body]
pub(crate) fn utc_now_rfc3339() -> String {
    chrono::DateTime::<chrono::Utc>::from(std::time::SystemTime::now()).to_rfc3339()
}

} // verus!
