use bond_auction::arith::ACCURACY;
use bond_auction::discount_bond::{
    effective_price, process_bond, process_init_new_project, process_update_authority,
    process_update_price, BondsInfo, DiscountMode, DiscountSettings, ProjectInfo,
};
use bond_auction::errors::AuctionError;
use bond_auction::vesting::VestingSchedule;

fn plain_schedule() -> VestingSchedule {
    VestingSchedule {
        release_interval: 100,
        release_rate: ACCURACY / 10,
        instant_unlock: 0,
        initial_unlock: 0,
        lock_period: 1000,
        vesting_period: 1000,
    }
}

fn fresh_project(discount: DiscountSettings, price: u64) -> ProjectInfo {
    process_init_new_project(7, 11, 12, 13, 1_000_000, price, discount, plain_schedule()).unwrap()
}

fn grows_zero_to_ten_percent() -> DiscountSettings {
    DiscountSettings {
        min_discount: 0,
        max_discount: 1000,
        discount_mode: DiscountMode::GrowsMinToMax,
    }
}

#[test]
fn discount_mode_decoding() {
    assert_eq!(DiscountMode::from_code(0), Ok(DiscountMode::NoDiscount));
    assert_eq!(DiscountMode::from_code(1), Ok(DiscountMode::GrowsMinToMax));
    assert_eq!(DiscountMode::from_code(2), Ok(DiscountMode::ShrinksMaxToMin));
    assert_eq!(DiscountMode::from_code(3), Err(AuctionError::InvalidConfiguration));
    assert_eq!(DiscountMode::from_code(u64::MAX), Err(AuctionError::InvalidConfiguration));
}

#[test]
fn discount_init_rejects_bad_config() {
    let inverted = DiscountSettings {
        min_discount: 500,
        max_discount: 100,
        discount_mode: DiscountMode::GrowsMinToMax,
    };
    assert_eq!(
        process_init_new_project(7, 11, 12, 13, 1_000_000, ACCURACY, inverted, plain_schedule()),
        Err(AuctionError::InvalidConfiguration)
    );
    let over_unity = DiscountSettings {
        min_discount: 0,
        max_discount: 10_001,
        discount_mode: DiscountMode::GrowsMinToMax,
    };
    assert_eq!(
        process_init_new_project(7, 11, 12, 13, 1_000_000, ACCURACY, over_unity, plain_schedule()),
        Err(AuctionError::InvalidConfiguration)
    );
    assert_eq!(
        process_init_new_project(7, 11, 12, 13, 1_000_000, 0, grows_zero_to_ten_percent(), plain_schedule()),
        Err(AuctionError::InvalidConfiguration)
    );
}

#[test]
fn fully_sold_growing_discount_reaches_maximum() {
    let mut p = fresh_project(grows_zero_to_ten_percent(), 1000);
    p.vested_amount = p.token_amount;
    // discount = 1000 basis points, so the price drops to nine tenths
    assert_eq!(effective_price(&p), 900);
}

#[test]
fn growing_discount_starts_at_minimum() {
    let p = fresh_project(grows_zero_to_ten_percent(), 1000);
    assert_eq!(effective_price(&p), 1000);
}

#[test]
fn shrinking_discount_starts_at_maximum() {
    let shrinks = DiscountSettings {
        min_discount: 100,
        max_discount: 1000,
        discount_mode: DiscountMode::ShrinksMaxToMin,
    };
    let mut p = fresh_project(shrinks, 10_000);
    assert_eq!(effective_price(&p), 9000);
    p.vested_amount = p.token_amount;
    assert_eq!(effective_price(&p), 9900);
}

#[test]
fn no_discount_mode_charges_the_base_price() {
    let none = DiscountSettings {
        min_discount: 300,
        max_discount: 700,
        discount_mode: DiscountMode::NoDiscount,
    };
    let mut p = fresh_project(none, 12_345);
    p.vested_amount = 400_000;
    assert_eq!(effective_price(&p), 12_345);
}

#[test]
fn bond_allocates_at_the_discounted_price() {
    let mut p = fresh_project(grows_zero_to_ten_percent(), ACCURACY);
    let mut bonds = BondsInfo { total_bonds: 0 };
    let (alloc, position) = process_bond(&mut p, &mut bonds, 100, 0, 0, 4321).unwrap();
    // no sales yet, so no discount: 100 payment units at price one
    assert_eq!(alloc, 100);
    assert_eq!(p.bonded_lp_amount, 100);
    assert_eq!(p.vested_amount, 100);
    assert_eq!(bonds.total_bonds, 1);
    assert_eq!(position.total_amount, 100);
    assert_eq!(position.withdrawn_amount, 0);
    assert_eq!(position.start_time, 4321);
}

#[test]
fn discount_bond_rejects_oversell() {
    let discount = grows_zero_to_ten_percent();
    let mut p = process_init_new_project(7, 11, 12, 13, 50, ACCURACY, discount, plain_schedule())
        .unwrap();
    let mut bonds = BondsInfo { total_bonds: 0 };
    assert_eq!(
        process_bond(&mut p, &mut bonds, 51, 0, 0, 4321),
        Err(AuctionError::CapacityExceeded)
    );
    assert_eq!(p.vested_amount, 0);
    assert_eq!(bonds.total_bonds, 0);
}

#[test]
fn bond_with_discounted_price_of_zero_is_a_division_by_zero() {
    let full_discount_at_once = DiscountSettings {
        min_discount: 1000,
        max_discount: 1000,
        discount_mode: DiscountMode::GrowsMinToMax,
    };
    // price one with a ten-percent discount floors to zero
    let mut p = fresh_project(full_discount_at_once, 1);
    let mut bonds = BondsInfo { total_bonds: 0 };
    assert_eq!(
        process_bond(&mut p, &mut bonds, 10, 0, 0, 4321),
        Err(AuctionError::DivisionByZero)
    );
}

#[test]
fn update_price_checks_owner_and_value() {
    let mut p = fresh_project(grows_zero_to_ten_percent(), 1000);
    assert_eq!(process_update_price(&mut p, 8, 2000), Err(AuctionError::AuthorizationDenied));
    assert_eq!(process_update_price(&mut p, 7, 0), Err(AuctionError::InvalidConfiguration));
    process_update_price(&mut p, 7, 2000).unwrap();
    assert_eq!(p.price, 2000);
}

#[test]
fn update_authority_checks_owner() {
    let mut p = fresh_project(grows_zero_to_ten_percent(), 1000);
    assert_eq!(process_update_authority(&mut p, 8, 9), Err(AuctionError::AuthorizationDenied));
    process_update_authority(&mut p, 7, 9).unwrap();
    assert_eq!(p.project_owner, 9);
}
