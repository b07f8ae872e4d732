//! Auction lifecycle: which operations are legal at a given wall-clock time.
//!
//! The state is re-derived from the current time and the configured bounds on
//! every call; no transition flag is stored. Administrative updates are legal
//! only while `Pending`, purchases only while `InProgress`, and settlement
//! only once `Ended`.

use vstd::prelude::*;

verus! {

/// Lifecycle states of an auction, in chronological order.
#[derive(Clone, Copy, Debug, PartialEq, Eq, Structural)]
pub enum AuctionState {
    /// Before the configured start time.
    Pending,
    /// From the start time up to, but not including, the end time.
    InProgress,
    /// From the end time on.
    Ended,
}

/// Chronological rank of a state, for stating that time only moves forward.
pub open spec fn state_rank(s: AuctionState) -> int {
    match s {
        AuctionState::Pending => 0,
        AuctionState::InProgress => 1,
        AuctionState::Ended => 2,
    }
}

/// The state of an auction with the given bounds at time `now`
/// (signed epoch seconds).
pub open spec fn spec_auction_state(start_time: i64, end_time: i64, now: i64) -> AuctionState {
    if now < start_time {
        AuctionState::Pending
    } else if now < end_time {
        AuctionState::InProgress
    } else {
        AuctionState::Ended
    }
}

/// The state of an auction with the given bounds at time `now`
/// (unsigned epoch seconds).
pub open spec fn spec_auction_state_u64(start_time: u64, end_time: u64, now: u64) -> AuctionState {
    if now < start_time {
        AuctionState::Pending
    } else if now < end_time {
        AuctionState::InProgress
    } else {
        AuctionState::Ended
    }
}

/// Exec twin of [`spec_auction_state_u64`].
pub fn auction_state_u64(start_time: u64, end_time: u64, now: u64) -> (r: AuctionState)
    ensures
        r == spec_auction_state_u64(start_time, end_time, now),
{
    if now < start_time {
        AuctionState::Pending
    } else if now < end_time {
        AuctionState::InProgress
    } else {
        AuctionState::Ended
    }
}

/// The derived state is a pure function of `now` and the configured bounds,
/// and is monotonic in `now`: as time advances it moves Pending to InProgress
/// to Ended and never backward.
pub proof fn lemma_auction_state_monotonic(start_time: i64, end_time: i64, now1: i64, now2: i64)
    requires
        start_time < end_time,
        now1 <= now2,
    ensures
        state_rank(spec_auction_state(start_time, end_time, now1))
            <= state_rank(spec_auction_state(start_time, end_time, now2)),
{
}

/// Monotonicity of the derived state for unsigned timestamps.
pub proof fn lemma_auction_state_monotonic_u64(start_time: u64, end_time: u64, now1: u64, now2: u64)
    requires
        start_time < end_time,
        now1 <= now2,
    ensures
        state_rank(spec_auction_state_u64(start_time, end_time, now1))
            <= state_rank(spec_auction_state_u64(start_time, end_time, now2)),
{
}

} // verus!
