//! The re-post heuristic: given the last persisted balance and the balance
//! seen this cycle, decide whether the agent should publish another
//! donation-request note.

use vstd::prelude::*;

verus! {

/// The balance must have grown by more than this many of the smallest
/// currency unit before the agent posts again.
pub const REPOST_THRESHOLD: u64 = 100;

/// Post again exactly when a previous balance was recorded and it lies
/// strictly below the current balance less the threshold (with the
/// subtraction saturating at zero).
pub open spec fn spec_should_post(previous: Option<u64>, current: u64) -> bool {
    previous is Some && previous->0 < current.saturating_sub(REPOST_THRESHOLD)
}

/// Decide whether to publish another donation request.
pub fn should_post(previous: Option<u64>, current: u64) -> (post: bool)
    ensures
        post == spec_should_post(previous, current),
{
    match previous {
        Some(p) => p < current.saturating_sub(REPOST_THRESHOLD),
        None => false,
    }
}

/// With no recorded previous balance the agent never posts, whatever the
/// current balance is.
pub proof fn lemma_never_post_without_history(current: u64)
    ensures
        !spec_should_post(None, current),
{
}

/// The saturating form of the heuristic coincides with the plain arithmetic
/// one: post exactly when the current balance exceeds the previous one by
/// more than the threshold.
pub proof fn lemma_should_post_characterization(previous: u64, current: u64)
    ensures
        spec_should_post(Some(previous), current) <==> previous + REPOST_THRESHOLD < current,
{
}

/// A wallet balance reported in millisatoshis, reduced to whole satoshis.
pub fn msats_to_sats(msats: u64) -> (sats: u64)
    ensures
        sats == msats / 1000,
{
    msats / 1000
}

} // verus!
