use bond_auction::arith::ACCURACY;
use bond_auction::vesting::{process_withdraw_vesting, VestingInfo, VestingSchedule};

fn schedule(
    release_interval: u64,
    release_rate: u64,
    instant_unlock: u64,
    initial_unlock: u64,
    lock_period: u64,
    vesting_period: u64,
) -> VestingSchedule {
    VestingSchedule {
        release_interval,
        release_rate,
        instant_unlock,
        initial_unlock,
        lock_period,
        vesting_period,
    }
}

#[test]
fn linear_release_after_lock() {
    // lock 1000, vesting 1000, one tenth released per 100-second interval
    let s = schedule(100, ACCURACY / 10, 0, 0, 1000, 1000);
    let v = VestingInfo { total_amount: 1000, withdrawn_amount: 0, start_time: 50 };
    assert_eq!(v.taker_vested_amount(&s, 50 + 1500, ACCURACY), 500);
}

#[test]
fn uninitialized_position_unlocks_nothing() {
    let s = schedule(100, ACCURACY / 10, 0, 0, 1000, 1000);
    let zero_start = VestingInfo { total_amount: 1000, withdrawn_amount: 0, start_time: 0 };
    assert_eq!(zero_start.taker_vested_amount(&s, 5000, ACCURACY), 0);
    let zero_total = VestingInfo { total_amount: 0, withdrawn_amount: 0, start_time: 50 };
    assert_eq!(zero_total.taker_vested_amount(&s, 5000, ACCURACY), 0);
}

#[test]
fn instant_fraction_only_during_lock() {
    // one quarter instantly, rest linear
    let s = schedule(100, ACCURACY / 10, ACCURACY / 4, 0, 1000, 1000);
    let v = VestingInfo { total_amount: 800, withdrawn_amount: 0, start_time: 100 };
    assert_eq!(v.taker_vested_amount(&s, 100, ACCURACY), 200);
    assert_eq!(v.taker_vested_amount(&s, 600, ACCURACY), 200);
}

#[test]
fn boundary_at_lock_end_exactly() {
    let s = schedule(100, ACCURACY / 10, ACCURACY / 4, ACCURACY / 10, 1000, 1000);
    let v = VestingInfo { total_amount: 800, withdrawn_amount: 0, start_time: 100 };
    // at start + lock_period exactly, only the instant fraction is claimable
    assert_eq!(v.taker_vested_amount(&s, 1100, ACCURACY), 200);
    // one second later the initial fraction joins it
    assert_eq!(v.taker_vested_amount(&s, 1101, ACCURACY), 280);
}

#[test]
fn boundary_at_vesting_end_exactly() {
    let s = schedule(100, ACCURACY / 10, 0, 0, 1000, 1000);
    let v = VestingInfo { total_amount: 1000, withdrawn_amount: 0, start_time: 50 };
    // ten full intervals of one tenth each have elapsed at the boundary
    assert_eq!(v.taker_vested_amount(&s, 50 + 2000, ACCURACY), 1000);
    assert_eq!(v.taker_vested_amount(&s, 50 + 2001, ACCURACY), 1000);
}

#[test]
fn fully_vested_after_vesting_period() {
    let s = schedule(100, ACCURACY / 10, 0, 0, 1000, 1000);
    let v = VestingInfo { total_amount: 777, withdrawn_amount: 0, start_time: 50 };
    assert_eq!(v.taker_vested_amount(&s, 50 + 2001, ACCURACY), 777);
    assert_eq!(v.taker_vested_amount(&s, u64::MAX, ACCURACY), 777);
}

#[test]
fn unlockable_is_monotonic_over_sample_times() {
    let s = schedule(300, ACCURACY / 20, ACCURACY / 100, ACCURACY / 50, 500, 6000);
    let v = VestingInfo { total_amount: 123_456, withdrawn_amount: 0, start_time: 1 };
    let mut last = 0u64;
    let mut now = 0u64;
    while now < 9000 {
        let cur = v.taker_vested_amount(&s, now, ACCURACY);
        assert!(cur >= last);
        assert!(cur <= v.total_amount);
        last = cur;
        now += 97;
    }
    assert_eq!(v.taker_vested_amount(&s, 9000, ACCURACY), v.total_amount);
}

#[test]
fn unlockable_never_below_withdrawn() {
    let s = schedule(100, ACCURACY / 10, 0, 0, 1000, 1000);
    // more already withdrawn than the phase formula would grant
    let v = VestingInfo { total_amount: 1000, withdrawn_amount: 700, start_time: 50 };
    assert_eq!(v.taker_vested_amount(&s, 50 + 1500, ACCURACY), 700);
}

#[test]
fn withdraw_transfers_delta_and_updates_position() {
    let s = schedule(100, ACCURACY / 10, 0, 0, 1000, 1000);
    let mut v = VestingInfo { total_amount: 1000, withdrawn_amount: 0, start_time: 50 };
    let delta = process_withdraw_vesting(&mut v, &s, 50 + 1500, ACCURACY);
    assert_eq!(delta, 500);
    assert_eq!(v.withdrawn_amount, 500);
    assert_eq!(v.total_amount, 1000);
    assert_eq!(v.start_time, 50);
}

#[test]
fn repeated_withdraw_at_same_time_is_no_op() {
    let s = schedule(100, ACCURACY / 10, 0, 0, 1000, 1000);
    let mut v = VestingInfo { total_amount: 1000, withdrawn_amount: 0, start_time: 50 };
    let first = process_withdraw_vesting(&mut v, &s, 50 + 1500, ACCURACY);
    assert_eq!(first, 500);
    let second = process_withdraw_vesting(&mut v, &s, 50 + 1500, ACCURACY);
    assert_eq!(second, 0);
    assert_eq!(v.withdrawn_amount, 500);
}

#[test]
fn cumulative_withdrawals_equal_last_unlockable() {
    let s = schedule(100, ACCURACY / 10, 0, 0, 1000, 1000);
    let mut v = VestingInfo { total_amount: 1000, withdrawn_amount: 0, start_time: 50 };
    let times = [50 + 1100, 50 + 1100, 50 + 1350, 50 + 1799, 50 + 1800];
    let mut cumulative = 0u64;
    for now in times {
        cumulative += process_withdraw_vesting(&mut v, &s, now, ACCURACY);
    }
    let fresh = VestingInfo { total_amount: 1000, withdrawn_amount: 0, start_time: 50 };
    assert_eq!(cumulative, fresh.taker_vested_amount(&s, 50 + 1800, ACCURACY));
    assert_eq!(cumulative, 800);
}
