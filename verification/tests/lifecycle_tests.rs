use bond_auction::lifecycle::{auction_state_u64, AuctionState};

#[test]
fn states_follow_the_configured_bounds() {
    assert_eq!(auction_state_u64(100, 200, 0), AuctionState::Pending);
    assert_eq!(auction_state_u64(100, 200, 99), AuctionState::Pending);
    assert_eq!(auction_state_u64(100, 200, 100), AuctionState::InProgress);
    assert_eq!(auction_state_u64(100, 200, 199), AuctionState::InProgress);
    assert_eq!(auction_state_u64(100, 200, 200), AuctionState::Ended);
    assert_eq!(auction_state_u64(100, 200, u64::MAX), AuctionState::Ended);
}

#[test]
fn states_never_move_backward_over_sample_times() {
    let mut seen_in_progress = false;
    let mut seen_ended = false;
    let mut now: u64 = 0;
    while now < 300 {
        match auction_state_u64(100, 200, now) {
            AuctionState::Pending => {
                assert!(!seen_in_progress && !seen_ended);
            }
            AuctionState::InProgress => {
                assert!(!seen_ended);
                seen_in_progress = true;
            }
            AuctionState::Ended => {
                seen_ended = true;
            }
        }
        now += 7;
    }
    assert!(seen_in_progress && seen_ended);
}
