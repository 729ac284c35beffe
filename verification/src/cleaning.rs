//! The age rule of the thumbnail cache. Walking the cache and reading file
//! times is a collaborator's concern; the decision itself — is this file old
//! enough to delete — is made here from plain timestamps.

use vstd::prelude::*;

verus! {

/// How long a thumbnail is kept, in days.
pub const DAYS_TO_KEEP: u64 = 7;

/// Seconds in one day.
pub const SECONDS_PER_DAY: u64 = 86400;

/// Whether a cache file is old enough to delete: its last modification lies
/// strictly more than [`DAYS_TO_KEEP`] days before now. Both instants are
/// seconds since a common epoch.
pub fn is_eligible_for_cleanup(modified_secs: u64, now_secs: u64) -> (r: bool)
    ensures
        r == (now_secs - DAYS_TO_KEEP * SECONDS_PER_DAY > modified_secs),
{
    now_secs > DAYS_TO_KEEP * SECONDS_PER_DAY && now_secs - DAYS_TO_KEEP * SECONDS_PER_DAY
        > modified_secs
}

} // verus!
