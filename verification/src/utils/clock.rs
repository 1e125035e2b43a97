//! The wall clock.

use vstd::prelude::*;

verus! {

/// `time::OffsetDateTime::now_utc` followed by `unix_timestamp`: the
/// seconds since the epoch at the moment of the call. Nothing is claimed of
/// the value: two calls may differ, and a clock may be set back.
#[verifier::external_body]
pub(crate) fn unix_now() -> i64 {
    time::OffsetDateTime::now_utc().unix_timestamp()
}

} // verus!
