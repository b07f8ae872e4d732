//! Time-weighted linear bond auction.
//!
//! The clearing price is the larger of a time-decaying ramp from the maximum
//! to the minimum price and the price implied by cumulative sales, so demand
//! already established never lets the price fall back. Purchases allocate
//! sale tokens into vesting positions; once the auction has ended a one-shot
//! settlement derives the final price and whether the sale succeeded.

use vstd::prelude::*;
use crate::arith::{spec_allocation, compute_allocation, ACCURACY};
use crate::errors::AuctionError;
use crate::lifecycle::{AuctionState, spec_auction_state_u64, auction_state_u64};
use crate::vesting::{VestingSchedule, VestingInfo, frac_of};

verus! {

/// Price and time bounds of a linear bond auction, as handed to
/// initialization and settings updates.
#[derive(Clone, Copy, Debug, PartialEq, Eq, Structural)]
pub struct AuctionSettings {
    /// Price at the start of the auction (payment units per sale unit,
    /// scaled by [`ACCURACY`]).
    pub max_price: u64,
    /// Price floor reached at the end of the auction.
    pub min_price: u64,
    /// Start of the auction (epoch seconds).
    pub start_time: u64,
    /// End of the auction (epoch seconds).
    pub end_time: u64,
}

/// The shared record of one linear bond auction.
#[derive(Clone, Copy, Debug, PartialEq, Eq, Structural)]
pub struct AuctionInfo {
    /// Identity of the project that owns the auction.
    pub project_owner: u64,
    /// Identifier of the sale token.
    pub project_token: u64,
    /// Identifier of the payment (LP) token.
    pub lp_token: u64,
    /// Identifier of the account that receives bonded LP tokens.
    pub lp_token_account: u64,
    /// Total supply of sale-token units offered.
    pub token_amount: u64,
    /// Price floor.
    pub min_price: u64,
    /// Price ceiling.
    pub max_price: u64,
    /// Start of the auction (epoch seconds).
    pub auction_start_time: u64,
    /// End of the auction (epoch seconds).
    pub auction_end_time: u64,
    /// Vesting parameters applied to every purchase.
    pub schedule: VestingSchedule,
    /// Epoch second at which purchased positions begin vesting.
    pub vesting_start_time: u64,
    /// Cumulative LP (payment) units bonded so far.
    pub bonded_lp_amount: u64,
    /// Cumulative sale-token units allocated so far.
    pub vested_amount: u64,
    /// Clearing price recorded by settlement; zero until then.
    pub final_price: u64,
    /// Whether settlement found the final price at or above the floor.
    pub is_auction_success: bool,
    /// Whether settlement has happened; set once and never cleared.
    pub is_settled: bool,
}

/// Running count of a project's auctions, used to number them.
#[derive(Clone, Copy, Debug, PartialEq, Eq, Structural)]
pub struct ProjectAuctions {
    /// Identifier the next auction of the project will get.
    pub next_auction_id: u64,
}

/// Configuration values a linear bond auction accepts.
pub open spec fn spec_valid_linear_config(
    amount: u64,
    settings: AuctionSettings,
    schedule: VestingSchedule,
) -> bool {
    &&& settings.start_time < settings.end_time
    &&& 0 < settings.min_price < settings.max_price
    &&& amount > 0
    &&& schedule.spec_wf(ACCURACY)
}

impl AuctionInfo {
    /// The record's invariant, established at initialization and preserved
    /// by every operation.
    pub open spec fn spec_wf(self) -> bool {
        &&& self.auction_start_time < self.auction_end_time
        &&& 0 < self.min_price < self.max_price
        &&& self.token_amount > 0
        &&& self.vested_amount <= self.token_amount
        &&& self.schedule.spec_wf(ACCURACY)
    }
}

/// Creates the record of a new linear bond auction, rejecting inverted time
/// or price bounds, a zero price floor, a zero supply and an unusable
/// vesting schedule.
pub fn init_auction(
    project_owner: u64,
    project_token: u64,
    lp_token: u64,
    lp_token_account: u64,
    amount: u64,
    settings: AuctionSettings,
    schedule: VestingSchedule,
    vesting_start_time: u64,
) -> (r: Result<AuctionInfo, AuctionError>)
    ensures
        r.is_ok() <==> spec_valid_linear_config(amount, settings, schedule),
        r matches Err(e) ==> e == AuctionError::InvalidConfiguration,
        r matches Ok(a) ==> a == (AuctionInfo {
            project_owner,
            project_token,
            lp_token,
            lp_token_account,
            token_amount: amount,
            min_price: settings.min_price,
            max_price: settings.max_price,
            auction_start_time: settings.start_time,
            auction_end_time: settings.end_time,
            schedule,
            vesting_start_time,
            bonded_lp_amount: 0,
            vested_amount: 0,
            final_price: 0,
            is_auction_success: false,
            is_settled: false,
        }),
        r matches Ok(a) ==> a.spec_wf(),
{
    if !(settings.start_time < settings.end_time && 0 < settings.min_price
        && settings.min_price < settings.max_price && amount > 0 && schedule.wf(ACCURACY)) {
        return Err(AuctionError::InvalidConfiguration);
    }
    Ok(
        AuctionInfo {
            project_owner,
            project_token,
            lp_token,
            lp_token_account,
            token_amount: amount,
            min_price: settings.min_price,
            max_price: settings.max_price,
            auction_start_time: settings.start_time,
            auction_end_time: settings.end_time,
            schedule,
            vesting_start_time,
            bonded_lp_amount: 0,
            vested_amount: 0,
            final_price: 0,
            is_auction_success: false,
            is_settled: false,
        },
    )
}

/// Hands the auction to a new owner, if the caller is the current owner.
pub fn update_authority(auction_info: &mut AuctionInfo, caller: u64, new_authority: u64) -> (r:
    Result<(), AuctionError>)
    ensures
        caller != old(auction_info).project_owner ==> r == Err::<(), AuctionError>(
            AuctionError::AuthorizationDenied,
        ) && *final(auction_info) == *old(auction_info),
        caller == old(auction_info).project_owner ==> r == Ok::<(), AuctionError>(())
            && *final(auction_info) == (AuctionInfo {
            project_owner: new_authority,
            ..*old(auction_info)
        }),
{
    if caller != auction_info.project_owner {
        return Err(AuctionError::AuthorizationDenied);
    }
    auction_info.project_owner = new_authority;
    Ok(())
}

/// What a settings update does: the owner may replace prices, times and the
/// vesting schedule, but only while the auction is still pending, and only
/// with values a new auction would accept.
pub open spec fn spec_update_settings(
    a: AuctionInfo,
    caller: u64,
    settings: AuctionSettings,
    schedule: VestingSchedule,
    vesting_start_time: u64,
    now: u64,
) -> Result<AuctionInfo, AuctionError> {
    if caller != a.project_owner {
        Err(AuctionError::AuthorizationDenied)
    } else if spec_auction_state_u64(a.auction_start_time, a.auction_end_time, now)
        != AuctionState::Pending {
        Err(AuctionError::StateViolation)
    } else if !spec_valid_linear_config(a.token_amount, settings, schedule) {
        Err(AuctionError::InvalidConfiguration)
    } else {
        Ok(
            AuctionInfo {
                min_price: settings.min_price,
                max_price: settings.max_price,
                auction_start_time: settings.start_time,
                auction_end_time: settings.end_time,
                schedule,
                vesting_start_time,
                ..a
            },
        )
    }
}

/// Applies [`spec_update_settings`] to the auction record.
pub fn process_update_settings(
    auction_info: &mut AuctionInfo,
    caller: u64,
    settings: AuctionSettings,
    schedule: VestingSchedule,
    vesting_start_time: u64,
    now: u64,
) -> (r: Result<(), AuctionError>)
    requires
        old(auction_info).spec_wf(),
    ensures
        match spec_update_settings(
            *old(auction_info),
            caller,
            settings,
            schedule,
            vesting_start_time,
            now,
        ) {
            Ok(a2) => r == Ok::<(), AuctionError>(()) && *final(auction_info) == a2,
            Err(e) => r == Err::<(), AuctionError>(e) && *final(auction_info) == *old(
                auction_info,
            ),
        },
        final(auction_info).spec_wf(),
{
    if caller != auction_info.project_owner {
        return Err(AuctionError::AuthorizationDenied);
    }
    let state = auction_state_u64(auction_info.auction_start_time, auction_info.auction_end_time, now);
    if !(state == AuctionState::Pending) {
        return Err(AuctionError::StateViolation);
    }
    if !(settings.start_time < settings.end_time && 0 < settings.min_price
        && settings.min_price < settings.max_price && auction_info.token_amount > 0
        && schedule.wf(ACCURACY)) {
        return Err(AuctionError::InvalidConfiguration);
    }
    auction_info.min_price = settings.min_price;
    auction_info.max_price = settings.max_price;
    auction_info.auction_start_time = settings.start_time;
    auction_info.auction_end_time = settings.end_time;
    auction_info.schedule = schedule;
    auction_info.vesting_start_time = vesting_start_time;
    Ok(())
}

/// The time-weighted component of the price: a linear ramp from `max_price`
/// at the start down towards `min_price` at the end.
pub open spec fn spec_timed_price(a: AuctionInfo, now: u64) -> int {
    a.min_price + (a.max_price - a.min_price) * (a.auction_end_time - now) / (a.auction_end_time
        - a.auction_start_time)
}

/// The price implied by cumulative sales: bonded payment units per offered
/// sale unit.
pub open spec fn spec_sales_price(a: AuctionInfo) -> int {
    (a.bonded_lp_amount as int) * (ACCURACY as int) / (a.token_amount as int)
}

/// The clearing price quoted during the auction: the larger of the
/// time-weighted ramp and the sales-implied price.
pub open spec fn spec_current_price(a: AuctionInfo, now: u64) -> Result<u64, AuctionError> {
    if spec_sales_price(a) > u64::MAX {
        Err(AuctionError::ArithmeticOverflow)
    } else if spec_timed_price(a, now) > spec_sales_price(a) {
        Ok(spec_timed_price(a, now) as u64)
    } else {
        Ok(spec_sales_price(a) as u64)
    }
}

/// Quotes the current clearing price. The result is never below the price
/// floor, and never below the price that cumulative sales already imply.
pub fn current_price(auction_info: &AuctionInfo, now: u64) -> (r: Result<u64, AuctionError>)
    requires
        auction_info.spec_wf(),
        spec_auction_state_u64(
            auction_info.auction_start_time,
            auction_info.auction_end_time,
            now,
        ) == AuctionState::InProgress,
    ensures
        r == spec_current_price(*auction_info, now),
        r matches Ok(p) ==> auction_info.min_price <= p,
        r matches Ok(p) ==> spec_sales_price(*auction_info) <= p,
{
    let a = auction_info;
    let dur: u64 = a.auction_end_time - a.auction_start_time;
    let remaining: u64 = a.auction_end_time - now;
    let ramp: u64 = frac_of(a.max_price - a.min_price, remaining, dur);
    let timed: u64 = a.min_price + ramp;
    proof {
        assert((a.bonded_lp_amount as int) * (ACCURACY as int) <= u64::MAX * u64::MAX)
            by (nonlinear_arith)
            requires
                a.bonded_lp_amount <= u64::MAX,
                ACCURACY <= u64::MAX,
        ;
        vstd::arithmetic::mul::lemma_mul_nonnegative(a.bonded_lp_amount as int, ACCURACY as int);
        vstd::arithmetic::div_mod::lemma_div_pos_is_pos(
            (a.bonded_lp_amount as int) * (ACCURACY as int),
            a.token_amount as int,
        );
    }
    let sales: u128 = (a.bonded_lp_amount as u128) * (ACCURACY as u128) / (a.token_amount as u128);
    if sales > u64::MAX as u128 {
        return Err(AuctionError::ArithmeticOverflow);
    }
    if timed as u128 > sales {
        Ok(timed)
    } else {
        Ok(sales as u64)
    }
}

/// What a purchase does, from the record, the payment and the two tokens'
/// decimal exponents: the clearing price is quoted, the allocation computed,
/// capacity and accumulator widths checked, and the record plus a fresh
/// vesting position produced.
pub open spec fn spec_process_bond(
    a: AuctionInfo,
    lp_amount: u64,
    token_decimals: u8,
    lp_decimals: u8,
    now: u64,
) -> Result<(AuctionInfo, u64, VestingInfo), AuctionError> {
    if spec_auction_state_u64(a.auction_start_time, a.auction_end_time, now)
        != AuctionState::InProgress {
        Err(AuctionError::StateViolation)
    } else {
        match spec_current_price(a, now) {
            Err(e) => Err(e),
            Ok(price) => match spec_allocation(lp_amount, price, token_decimals, lp_decimals) {
                Err(e) => Err(e),
                Ok(alloc) => if a.vested_amount + alloc > a.token_amount {
                    Err(AuctionError::CapacityExceeded)
                } else if a.bonded_lp_amount + lp_amount > u64::MAX {
                    Err(AuctionError::ArithmeticOverflow)
                } else {
                    Ok(
                        (
                            AuctionInfo {
                                bonded_lp_amount: (a.bonded_lp_amount + lp_amount) as u64,
                                vested_amount: (a.vested_amount + alloc) as u64,
                                ..a
                            },
                            alloc,
                            VestingInfo {
                                total_amount: alloc,
                                withdrawn_amount: 0,
                                start_time: a.vesting_start_time,
                            },
                        ),
                    )
                },
            },
        }
    }
}

/// Purchases from the auction: on success the bonded and vested
/// accumulators grow and the buyer receives a fresh vesting position over
/// the computed allocation; on any failure the record is unchanged.
pub fn process_bond(
    auction_info: &mut AuctionInfo,
    lp_amount: u64,
    token_decimals: u8,
    lp_decimals: u8,
    now: u64,
) -> (r: Result<(u64, VestingInfo), AuctionError>)
    requires
        old(auction_info).spec_wf(),
    ensures
        match spec_process_bond(*old(auction_info), lp_amount, token_decimals, lp_decimals, now) {
            Ok(t) => r == Ok::<(u64, VestingInfo), AuctionError>((t.1, t.2))
                && *final(auction_info) == t.0,
            Err(e) => r == Err::<(u64, VestingInfo), AuctionError>(e) && *final(auction_info)
                == *old(auction_info),
        },
        final(auction_info).spec_wf(),
{
    let state = auction_state_u64(auction_info.auction_start_time, auction_info.auction_end_time, now);
    if !(state == AuctionState::InProgress) {
        return Err(AuctionError::StateViolation);
    }
    let price: u64 = match current_price(auction_info, now) {
        Ok(p) => p,
        Err(e) => { return Err(e) },
    };
    let alloc: u64 = match compute_allocation(lp_amount, price, token_decimals, lp_decimals) {
        Ok(v) => v,
        Err(e) => { return Err(e) },
    };
    if alloc > auction_info.token_amount - auction_info.vested_amount {
        return Err(AuctionError::CapacityExceeded);
    }
    let bonded: u64 = match auction_info.bonded_lp_amount.checked_add(lp_amount) {
        Some(v) => v,
        None => { return Err(AuctionError::ArithmeticOverflow) },
    };
    auction_info.bonded_lp_amount = bonded;
    auction_info.vested_amount = auction_info.vested_amount + alloc;
    Ok(
        (
            alloc,
            VestingInfo {
                total_amount: alloc,
                withdrawn_amount: 0,
                start_time: auction_info.vesting_start_time,
            },
        ),
    )
}

/// What settlement does: once the auction has ended, and only once, the
/// final price is derived from cumulative sales and the sale is marked
/// successful exactly when that price reached the floor.
pub open spec fn spec_process_end_auction(a: AuctionInfo, now: u64) -> Result<
    (AuctionInfo, u64, bool),
    AuctionError,
> {
    if a.is_settled {
        Err(AuctionError::StateViolation)
    } else if spec_auction_state_u64(a.auction_start_time, a.auction_end_time, now)
        != AuctionState::Ended {
        Err(AuctionError::StateViolation)
    } else if spec_sales_price(a) > u64::MAX {
        Err(AuctionError::ArithmeticOverflow)
    } else {
        let fp = spec_sales_price(a) as u64;
        Ok(
            (
                AuctionInfo {
                    final_price: fp,
                    is_auction_success: fp >= a.min_price,
                    is_settled: true,
                    ..a
                },
                fp,
                fp >= a.min_price,
            ),
        )
    }
}

/// Settles an ended auction: records the final sales-implied price and
/// whether it reached the floor. A second call fails and changes nothing.
pub fn process_end_auction(auction_info: &mut AuctionInfo, now: u64) -> (r: Result<
    (u64, bool),
    AuctionError,
>)
    requires
        old(auction_info).spec_wf(),
    ensures
        match spec_process_end_auction(*old(auction_info), now) {
            Ok(t) => r == Ok::<(u64, bool), AuctionError>((t.1, t.2)) && *final(auction_info)
                == t.0,
            Err(e) => r == Err::<(u64, bool), AuctionError>(e) && *final(auction_info) == *old(
                auction_info,
            ),
        },
        final(auction_info).spec_wf(),
{
    if auction_info.is_settled {
        return Err(AuctionError::StateViolation);
    }
    let state = auction_state_u64(auction_info.auction_start_time, auction_info.auction_end_time, now);
    if !(state == AuctionState::Ended) {
        return Err(AuctionError::StateViolation);
    }
    proof {
        assert((auction_info.bonded_lp_amount as int) * (ACCURACY as int) <= u64::MAX * u64::MAX)
            by (nonlinear_arith)
            requires
                auction_info.bonded_lp_amount <= u64::MAX,
                ACCURACY <= u64::MAX,
        ;
        vstd::arithmetic::mul::lemma_mul_nonnegative(
            auction_info.bonded_lp_amount as int,
            ACCURACY as int,
        );
        vstd::arithmetic::div_mod::lemma_div_pos_is_pos(
            (auction_info.bonded_lp_amount as int) * (ACCURACY as int),
            auction_info.token_amount as int,
        );
    }
    let fp_wide: u128 = (auction_info.bonded_lp_amount as u128) * (ACCURACY as u128) / (
    auction_info.token_amount as u128);
    if fp_wide > u64::MAX as u128 {
        return Err(AuctionError::ArithmeticOverflow);
    }
    let fp: u64 = fp_wide as u64;
    let success: bool = fp >= auction_info.min_price;
    auction_info.final_price = fp;
    auction_info.is_auction_success = success;
    auction_info.is_settled = true;
    Ok((fp, success))
}

} // verus!
