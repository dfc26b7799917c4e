//! Reading the audio subsystem's stream listing: is any stream actively
//! playing?

use vstd::prelude::*;

verus! {

use crate::text::contains_seq;
use crate::text::contains_str;

/// The marker a stream listing shows for every stream in the non-paused
/// ("uncorked") state.
pub open spec fn uncorked_marker() -> Seq<char> {
    "Corked: no"@
}

/// Whether the stream listing reports at least one playback or capture
/// stream in the non-paused ("uncorked") state — the session should stay
/// awake exactly while this holds.
pub fn listing_reports_uncorked(listing: &str) -> (r: bool)
    ensures
        r == contains_seq(listing@, uncorked_marker()),
{
    contains_str(listing, "Corked: no")
}

} // verus!
