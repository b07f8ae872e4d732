use bond_auction::arith::ACCURACY;
use bond_auction::errors::AuctionError;
use bond_auction::linear_bond::{
    init_auction, process_bond, process_end_auction, process_update_settings, update_authority,
    AuctionInfo, AuctionSettings,
};
use bond_auction::vesting::VestingSchedule;

fn plain_schedule() -> VestingSchedule {
    VestingSchedule {
        release_interval: 100,
        release_rate: ACCURACY / 10,
        instant_unlock: 0,
        initial_unlock: 0,
        lock_period: 1000,
        vesting_period: 1000,
    }
}

fn settings() -> AuctionSettings {
    AuctionSettings {
        max_price: 2 * ACCURACY,
        min_price: ACCURACY,
        start_time: 1000,
        end_time: 2000,
    }
}

fn fresh_auction() -> AuctionInfo {
    init_auction(7, 11, 12, 13, 1000, settings(), plain_schedule(), 5000).unwrap()
}

#[test]
fn linear_init_fills_the_record() {
    let a = fresh_auction();
    assert_eq!(a.project_owner, 7);
    assert_eq!(a.token_amount, 1000);
    assert_eq!(a.min_price, ACCURACY);
    assert_eq!(a.max_price, 2 * ACCURACY);
    assert_eq!(a.bonded_lp_amount, 0);
    assert_eq!(a.vested_amount, 0);
    assert!(!a.is_settled);
}

#[test]
fn linear_init_rejects_bad_config() {
    let mut s = settings();
    s.end_time = s.start_time;
    assert_eq!(
        init_auction(7, 11, 12, 13, 1000, s, plain_schedule(), 5000),
        Err(AuctionError::InvalidConfiguration)
    );
    let mut s = settings();
    s.min_price = 0;
    assert_eq!(
        init_auction(7, 11, 12, 13, 1000, s, plain_schedule(), 5000),
        Err(AuctionError::InvalidConfiguration)
    );
    let mut s = settings();
    s.min_price = s.max_price;
    assert_eq!(
        init_auction(7, 11, 12, 13, 1000, s, plain_schedule(), 5000),
        Err(AuctionError::InvalidConfiguration)
    );
    assert_eq!(
        init_auction(7, 11, 12, 13, 0, settings(), plain_schedule(), 5000),
        Err(AuctionError::InvalidConfiguration)
    );
    let mut bad = plain_schedule();
    bad.release_interval = 0;
    assert_eq!(
        init_auction(7, 11, 12, 13, 1000, settings(), bad, 5000),
        Err(AuctionError::InvalidConfiguration)
    );
}

#[test]
fn bond_at_midpoint_uses_timed_price() {
    let mut a = fresh_auction();
    // halfway between the bounds: price = 1.5 * ACCURACY
    let (alloc, position) = process_bond(&mut a, 300, 0, 0, 1500).unwrap();
    assert_eq!(alloc, 200);
    assert_eq!(a.bonded_lp_amount, 300);
    assert_eq!(a.vested_amount, 200);
    assert_eq!(position.total_amount, 200);
    assert_eq!(position.withdrawn_amount, 0);
    assert_eq!(position.start_time, 5000);
}

#[test]
fn bond_uses_sales_implied_price_when_higher() {
    let mut a = fresh_auction();
    a.bonded_lp_amount = 3000;
    // sales-implied price: 3000 * ACCURACY / 1000 = 3 * ACCURACY > timed price
    let (alloc, _) = process_bond(&mut a, 600, 0, 0, 1500).unwrap();
    assert_eq!(alloc, 200);
    assert_eq!(a.bonded_lp_amount, 3600);
}

#[test]
fn bond_outside_window_is_a_state_violation() {
    let mut a = fresh_auction();
    assert_eq!(process_bond(&mut a, 300, 0, 0, 999), Err(AuctionError::StateViolation));
    // the end timestamp itself is already outside the window
    assert_eq!(process_bond(&mut a, 300, 0, 0, 2000), Err(AuctionError::StateViolation));
    assert_eq!(a.bonded_lp_amount, 0);
}

#[test]
fn linear_bond_rejects_oversell() {
    let mut a = fresh_auction();
    // at the start the price is max_price = 2 * ACCURACY; 3000 buys 1500 > 1000
    assert_eq!(process_bond(&mut a, 3000, 0, 0, 1000), Err(AuctionError::CapacityExceeded));
    assert_eq!(a.vested_amount, 0);
    assert_eq!(a.bonded_lp_amount, 0);
}

#[test]
fn bond_rescales_by_decimal_difference() {
    let mut a = fresh_auction();
    // sale token has two more decimals than the payment token
    let (alloc, _) = process_bond(&mut a, 3, 2, 0, 1500).unwrap();
    assert_eq!(alloc, 200);
}

#[test]
fn end_auction_records_final_price_once() {
    let mut a = fresh_auction();
    let (_, _) = process_bond(&mut a, 1500, 0, 0, 1000).unwrap();
    assert_eq!(process_end_auction(&mut a, 1999), Err(AuctionError::StateViolation));
    let (final_price, success) = process_end_auction(&mut a, 2000).unwrap();
    // 1500 bonded over 1000 offered: 1.5 * ACCURACY, above the floor
    assert_eq!(final_price, 1500 * ACCURACY / 1000);
    assert!(success);
    assert_eq!(a.final_price, final_price);
    assert!(a.is_auction_success);
    assert!(a.is_settled);
    // settlement is one-shot
    assert_eq!(process_end_auction(&mut a, 2001), Err(AuctionError::StateViolation));
}

#[test]
fn end_auction_below_floor_fails_the_sale() {
    let mut a = fresh_auction();
    let (final_price, success) = process_end_auction(&mut a, 2000).unwrap();
    assert_eq!(final_price, 0);
    assert!(!success);
    assert!(!a.is_auction_success);
}

#[test]
fn update_settings_only_by_owner_and_only_pending() {
    let mut a = fresh_auction();
    let new_settings = AuctionSettings {
        max_price: 4 * ACCURACY,
        min_price: 2 * ACCURACY,
        start_time: 1500,
        end_time: 2500,
    };
    assert_eq!(
        process_update_settings(&mut a, 8, new_settings, plain_schedule(), 6000, 500),
        Err(AuctionError::AuthorizationDenied)
    );
    assert_eq!(
        process_update_settings(&mut a, 7, new_settings, plain_schedule(), 6000, 1000),
        Err(AuctionError::StateViolation)
    );
    process_update_settings(&mut a, 7, new_settings, plain_schedule(), 6000, 500).unwrap();
    assert_eq!(a.min_price, 2 * ACCURACY);
    assert_eq!(a.auction_start_time, 1500);
    assert_eq!(a.vesting_start_time, 6000);
}

#[test]
fn update_settings_rejects_bad_values() {
    let mut a = fresh_auction();
    let bad = AuctionSettings {
        max_price: ACCURACY,
        min_price: ACCURACY,
        start_time: 1500,
        end_time: 2500,
    };
    assert_eq!(
        process_update_settings(&mut a, 7, bad, plain_schedule(), 6000, 500),
        Err(AuctionError::InvalidConfiguration)
    );
}

#[test]
fn authority_can_be_handed_over() {
    let mut a = fresh_auction();
    assert_eq!(update_authority(&mut a, 9, 20), Err(AuctionError::AuthorizationDenied));
    update_authority(&mut a, 7, 20).unwrap();
    assert_eq!(a.project_owner, 20);
    update_authority(&mut a, 20, 7).unwrap();
    assert_eq!(a.project_owner, 7);
}

#[test]
fn overflowing_sales_price_is_reported() {
    let mut a = fresh_auction();
    a.bonded_lp_amount = u64::MAX;
    // the sales-implied price no longer fits sixty-four bits
    assert_eq!(process_bond(&mut a, 1, 0, 0, 1500), Err(AuctionError::ArithmeticOverflow));
    assert_eq!(process_end_auction(&mut a, 2000), Err(AuctionError::ArithmeticOverflow));
    assert!(!a.is_settled);
}
