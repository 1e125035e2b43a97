//! The health endpoint.

use crate::constants::HEALTH_OK;
use vstd::prelude::*;

verus! {

/// What the health endpoint reports.
#[derive(Debug, Clone, PartialEq, Eq)]
pub struct Health {
    pub status: String,
    pub timestamp: i64,
}

/// The report at the second `now`.
pub fn health_check(now: i64) -> (r: Health)
    ensures
        r.status@ == HEALTH_OK@,
        r.timestamp == now,
{
    Health { status: HEALTH_OK.to_owned(), timestamp: now }
}

} // verus!
