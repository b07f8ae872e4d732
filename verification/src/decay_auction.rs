//! Exponential-decay descending auction.
//!
//! The price starts at a ceiling and decays continuously towards a floor:
//! each elapsed second multiplies the divisor by a fixed per-second base.
//! A purchase pays the ceiling of the current price times the purchased
//! amount, and carries a buyer-declared slippage bound that rejects the
//! trade if the settled payment has moved too far past the quote.

use vstd::prelude::*;
use crate::arith::{decay_pow, decay_pow_of, pow10, pow10_u128, PRECISE_ONE};
use crate::errors::AuctionError;
use crate::lifecycle::{AuctionState, spec_auction_state};
use vstd::arithmetic::div_mod::{
    lemma_fundamental_div_mod, lemma_fundamental_div_mod_converse, lemma_div_nonincreasing,
    lemma_div_pos_is_pos,
};
use vstd::arithmetic::mul::lemma_mul_nonnegative;

verus! {

/// Per-second decay base: 1.00005, scaled by [`PRECISE_ONE`]. Each elapsed
/// second divides the ceiling price by one more factor of this.
pub const DECAY_BASE: u64 = 1_000_050_000_000;

/// One descending auction.
#[derive(Clone, Copy, Debug, PartialEq, Eq, Structural)]
pub struct Auction {
    /// Identity of the authority that controls the auction.
    pub authority: u64,
    /// Start of the auction (signed epoch seconds).
    pub start_timestamp: i64,
    /// End of the auction (signed epoch seconds).
    pub end_timestamp: i64,
    /// Identifier of the payment token.
    pub payment_mint: u64,
    /// Identifier of the account that receives payments.
    pub payment_destination: u64,
    /// Identifier of the sale token.
    pub sale_mint: u64,
    /// Identifier of the pool holding the sale tokens.
    pub auction_pool: u64,
    /// Price at the moment the auction starts (payment units per whole sale
    /// token).
    pub ceil_price: u64,
    /// Price the decay never goes below.
    pub floor_price: u64,
    /// When the last accepted purchase happened, if any.
    pub last_purchase_timestamp: Option<i64>,
    /// Price recorded for the last accepted purchase.
    pub last_purchase_price: u64,
}

impl Auction {
    /// The record's invariant: a positive span of time and a positive price
    /// band.
    pub open spec fn spec_wf(self) -> bool {
        &&& self.start_timestamp < self.end_timestamp
        &&& 0 < self.floor_price < self.ceil_price
    }
}

/// Configuration values a descending auction accepts.
pub open spec fn spec_valid_auction_config(
    start_timestamp: i64,
    end_timestamp: i64,
    ceil_price: u64,
    floor_price: u64,
) -> bool {
    &&& start_timestamp < end_timestamp
    &&& 0 < floor_price < ceil_price
}

/// Sets up a new descending auction, rejecting an empty time span, an
/// inverted price band and a zero floor.
pub fn initialize_auction(
    authority: u64,
    payment_mint: u64,
    payment_destination: u64,
    sale_mint: u64,
    auction_pool: u64,
    start_timestamp: i64,
    end_timestamp: i64,
    ceil_price: u64,
    floor_price: u64,
) -> (r: Result<Auction, AuctionError>)
    ensures
        r.is_ok() <==> spec_valid_auction_config(
            start_timestamp,
            end_timestamp,
            ceil_price,
            floor_price,
        ),
        r matches Err(e) ==> e == AuctionError::InvalidConfiguration,
        r matches Ok(a) ==> a == (Auction {
            authority,
            start_timestamp,
            end_timestamp,
            payment_mint,
            payment_destination,
            sale_mint,
            auction_pool,
            ceil_price,
            floor_price,
            last_purchase_timestamp: None,
            last_purchase_price: ceil_price,
        }),
        r matches Ok(a) ==> a.spec_wf(),
{
    if !(start_timestamp < end_timestamp && 0 < floor_price && floor_price < ceil_price) {
        return Err(AuctionError::InvalidConfiguration);
    }
    Ok(
        Auction {
            authority,
            start_timestamp,
            end_timestamp,
            payment_mint,
            payment_destination,
            sale_mint,
            auction_pool,
            ceil_price,
            floor_price,
            last_purchase_timestamp: None,
            last_purchase_price: ceil_price,
        },
    )
}

impl Auction {
    /// The lifecycle state of this auction at time `now`, re-derived from
    /// the configured bounds alone.
    pub fn get_current_auction_state(&self, current_timestamp: i64) -> (r: AuctionState)
        ensures
            r == spec_auction_state(self.start_timestamp, self.end_timestamp, current_timestamp),
    {
        if current_timestamp < self.start_timestamp {
            AuctionState::Pending
        } else if current_timestamp < self.end_timestamp {
            AuctionState::InProgress
        } else {
            AuctionState::Ended
        }
    }

    /// Accepts exactly the expected lifecycle state.
    pub fn assert_auction_state(&self, expected_state: AuctionState, now: i64) -> (r: Result<
        (),
        AuctionError,
    >)
        ensures
            r.is_ok() <==> spec_auction_state(self.start_timestamp, self.end_timestamp, now)
                == expected_state,
            r matches Err(e) ==> e == AuctionError::StateViolation,
    {
        let state = self.get_current_auction_state(now);
        if state == expected_state {
            Ok(())
        } else {
            Err(AuctionError::StateViolation)
        }
    }

    /// Accepts a pending or an ended auction, rejecting one in progress.
    pub fn assert_auction_state_not_in_progress(&self, now: i64) -> (r: Result<(), AuctionError>)
        ensures
            r.is_ok() <==> spec_auction_state(self.start_timestamp, self.end_timestamp, now)
                != AuctionState::InProgress,
            r matches Err(e) ==> e == AuctionError::StateViolation,
    {
        let state = self.get_current_auction_state(now);
        if !(state == AuctionState::InProgress) {
            Ok(())
        } else {
            Err(AuctionError::StateViolation)
        }
    }
}

/// What an admin update of one configuration value does: it is accepted if
/// the caller controls the auction, the auction has not started, and the
/// new value passes its validation.
pub open spec fn spec_admin_update(
    a: Auction,
    caller: u64,
    now: i64,
    valid: bool,
    updated: Auction,
) -> Result<Auction, AuctionError> {
    if caller != a.authority {
        Err(AuctionError::AuthorizationDenied)
    } else if spec_auction_state(a.start_timestamp, a.end_timestamp, now) != AuctionState::Pending {
        Err(AuctionError::StateViolation)
    } else if !valid {
        Err(AuctionError::InvalidConfiguration)
    } else {
        Ok(updated)
    }
}

/// Moves the end of a pending auction, keeping it after the start.
pub fn update_end_time(auction: &mut Auction, caller: u64, end_timestamp: i64, now: i64) -> (r:
    Result<(), AuctionError>)
    requires
        old(auction).spec_wf(),
    ensures
        match spec_admin_update(
            *old(auction),
            caller,
            now,
            old(auction).start_timestamp < end_timestamp,
            (Auction { end_timestamp, ..*old(auction) }),
        ) {
            Ok(a2) => r == Ok::<(), AuctionError>(()) && *final(auction) == a2,
            Err(e) => r == Err::<(), AuctionError>(e) && *final(auction) == *old(auction),
        },
        final(auction).spec_wf(),
{
    if caller != auction.authority {
        return Err(AuctionError::AuthorizationDenied);
    }
    let state = auction.get_current_auction_state(now);
    if !(state == AuctionState::Pending) {
        return Err(AuctionError::StateViolation);
    }
    if !(auction.start_timestamp < end_timestamp) {
        return Err(AuctionError::InvalidConfiguration);
    }
    auction.end_timestamp = end_timestamp;
    Ok(())
}

/// Moves the start of a pending auction, keeping it before the end and in
/// the future.
pub fn update_start_time(auction: &mut Auction, caller: u64, start_timestamp: i64, now: i64) -> (r:
    Result<(), AuctionError>)
    requires
        old(auction).spec_wf(),
    ensures
        match spec_admin_update(
            *old(auction),
            caller,
            now,
            start_timestamp < old(auction).end_timestamp && now < start_timestamp,
            (Auction { start_timestamp, ..*old(auction) }),
        ) {
            Ok(a2) => r == Ok::<(), AuctionError>(()) && *final(auction) == a2,
            Err(e) => r == Err::<(), AuctionError>(e) && *final(auction) == *old(auction),
        },
        final(auction).spec_wf(),
{
    if caller != auction.authority {
        return Err(AuctionError::AuthorizationDenied);
    }
    let state = auction.get_current_auction_state(now);
    if !(state == AuctionState::Pending) {
        return Err(AuctionError::StateViolation);
    }
    if !(start_timestamp < auction.end_timestamp && now < start_timestamp) {
        return Err(AuctionError::InvalidConfiguration);
    }
    auction.start_timestamp = start_timestamp;
    Ok(())
}

/// Raises or lowers the ceiling of a pending auction, keeping it above the
/// floor.
pub fn update_ceil_price(auction: &mut Auction, caller: u64, ceil_price: u64, now: i64) -> (r:
    Result<(), AuctionError>)
    requires
        old(auction).spec_wf(),
    ensures
        match spec_admin_update(
            *old(auction),
            caller,
            now,
            old(auction).floor_price < ceil_price,
            (Auction { ceil_price, ..*old(auction) }),
        ) {
            Ok(a2) => r == Ok::<(), AuctionError>(()) && *final(auction) == a2,
            Err(e) => r == Err::<(), AuctionError>(e) && *final(auction) == *old(auction),
        },
        final(auction).spec_wf(),
{
    if caller != auction.authority {
        return Err(AuctionError::AuthorizationDenied);
    }
    let state = auction.get_current_auction_state(now);
    if !(state == AuctionState::Pending) {
        return Err(AuctionError::StateViolation);
    }
    if !(auction.floor_price < ceil_price) {
        return Err(AuctionError::InvalidConfiguration);
    }
    auction.ceil_price = ceil_price;
    Ok(())
}

/// Raises or lowers the floor of a pending auction, keeping it positive and
/// below the ceiling.
pub fn update_floor_price(auction: &mut Auction, caller: u64, floor_price: u64, now: i64) -> (r:
    Result<(), AuctionError>)
    requires
        old(auction).spec_wf(),
    ensures
        match spec_admin_update(
            *old(auction),
            caller,
            now,
            0 < floor_price && floor_price < old(auction).ceil_price,
            (Auction { floor_price, ..*old(auction) }),
        ) {
            Ok(a2) => r == Ok::<(), AuctionError>(()) && *final(auction) == a2,
            Err(e) => r == Err::<(), AuctionError>(e) && *final(auction) == *old(auction),
        },
        final(auction).spec_wf(),
{
    if caller != auction.authority {
        return Err(AuctionError::AuthorizationDenied);
    }
    let state = auction.get_current_auction_state(now);
    if !(state == AuctionState::Pending) {
        return Err(AuctionError::StateViolation);
    }
    if !(0 < floor_price && floor_price < auction.ceil_price) {
        return Err(AuctionError::InvalidConfiguration);
    }
    auction.floor_price = floor_price;
    Ok(())
}

/// The current price, scaled by [`PRECISE_ONE`]: the ceiling divided by the
/// decay factor for the elapsed time, but never below the floor.
pub open spec fn spec_price_scaled(ceil_price: u64, floor_price: u64, elapsed: u64) -> Result<
    u128,
    AuctionError,
> {
    match decay_pow_of(DECAY_BASE, elapsed) {
        None => Err(AuctionError::ArithmeticOverflow),
        Some(d) => {
            if d == 0 {
                Err(AuctionError::DivisionByZero)
            } else if (ceil_price as int) * (PRECISE_ONE as int) * (PRECISE_ONE as int)
                > u128::MAX {
                Err(AuctionError::ArithmeticOverflow)
            } else {
                let decayed = (ceil_price as int) * (PRECISE_ONE as int) * (PRECISE_ONE as int) / (
                d as int);
                let floor_scaled = (floor_price as int) * (PRECISE_ONE as int);
                Ok((if decayed > floor_scaled { decayed } else { floor_scaled }) as u128)
            }
        },
    }
}

/// `ceil(n / d)` over mathematical integers.
pub open spec fn spec_ceil_div(n: int, d: int) -> int {
    (n + d - 1) / d
}

/// The payment, in payment-token base units, for `purchase_amount` sale
/// base units at the decayed price, rounded up, with every failure case
/// spelled out.
pub open spec fn spec_payment_amount(
    ceil_price: u64,
    floor_price: u64,
    purchase_amount: u64,
    sale_decimals: u8,
    elapsed: u64,
) -> Result<u64, AuctionError> {
    match spec_price_scaled(ceil_price, floor_price, elapsed) {
        Err(e) => Err(e),
        Ok(price) => {
            if pow10(sale_decimals as nat) > u128::MAX || (PRECISE_ONE as int) * pow10(
                sale_decimals as nat,
            ) > u128::MAX {
                Err(AuctionError::ArithmeticOverflow)
            } else if (purchase_amount as int) * (price as int) > u128::MAX {
                Err(AuctionError::ArithmeticOverflow)
            } else {
                let pay = spec_ceil_div(
                    (purchase_amount as int) * (price as int),
                    (PRECISE_ONE as int) * pow10(sale_decimals as nat),
                );
                if pay > u64::MAX {
                    Err(AuctionError::ArithmeticOverflow)
                } else {
                    Ok(pay as u64)
                }
            }
        },
    }
}

/// Rounding up a division equals flooring it and adding one exactly when
/// there is a remainder.
proof fn lemma_ceil_div_equiv(n: int, d: int)
    requires
        0 <= n,
        0 < d,
    ensures
        spec_ceil_div(n, d) == n / d + (if n % d == 0 { 0int } else { 1int }),
{
    let q = n / d;
    let r = n % d;
    lemma_fundamental_div_mod(n, d);
    vstd::arithmetic::div_mod::lemma_mod_bound(n, d);
    assert(q * d == d * q) by (nonlinear_arith);
    assert((q + 1) * d == q * d + d) by (nonlinear_arith);
    if r == 0 {
        lemma_fundamental_div_mod_converse(n + d - 1, d, q, d - 1);
    } else {
        lemma_fundamental_div_mod_converse(n + d - 1, d, q + 1, r - 1);
    }
}

/// Computes [`spec_price_scaled`]. A successfully quoted price is never
/// below the configured floor.
pub fn current_price_scaled(ceil_price: u64, floor_price: u64, elapsed: u64) -> (r: Result<
    u128,
    AuctionError,
>)
    ensures
        r == spec_price_scaled(ceil_price, floor_price, elapsed),
        r matches Ok(p) ==> (floor_price as int) * (PRECISE_ONE as int) <= p,
{
    let d: u128 = match decay_pow(DECAY_BASE, elapsed) {
        Some(v) => v,
        None => { return Err(AuctionError::ArithmeticOverflow) },
    };
    if d == 0 {
        return Err(AuctionError::DivisionByZero);
    }
    proof {
        assert((ceil_price as int) * (PRECISE_ONE as int) <= u64::MAX * (PRECISE_ONE as int))
            by (nonlinear_arith)
            requires
                ceil_price <= u64::MAX,
        ;
        assert((floor_price as int) * (PRECISE_ONE as int) <= u64::MAX * (PRECISE_ONE as int))
            by (nonlinear_arith)
            requires
                floor_price <= u64::MAX,
        ;
    }
    let ceil_wide: u128 = (ceil_price as u128) * PRECISE_ONE;
    let numer: u128 = match ceil_wide.checked_mul(PRECISE_ONE) {
        Some(v) => v,
        None => { return Err(AuctionError::ArithmeticOverflow) },
    };
    proof {
        lemma_mul_nonnegative((ceil_price as int) * (PRECISE_ONE as int), PRECISE_ONE as int);
        lemma_div_pos_is_pos(numer as int, d as int);
        lemma_div_nonincreasing(numer as int, d as int);
    }
    let decayed: u128 = numer / d;
    let floor_scaled: u128 = (floor_price as u128) * PRECISE_ONE;
    if decayed > floor_scaled {
        Ok(decayed)
    } else {
        Ok(floor_scaled)
    }
}

impl Auction {
    /// The payment required right now for `purchase_amount` sale base
    /// units, where one whole sale token is `10^sale_decimals` base units:
    /// the decayed price, applied to the amount and rounded up to the next
    /// payment base unit.
    pub fn get_payment_amount(&self, purchase_amount: u64, sale_decimals: u8, now: i64) -> (r:
        Result<u64, AuctionError>)
        requires
            self.spec_wf(),
            self.start_timestamp <= now,
        ensures
            r == spec_payment_amount(
                self.ceil_price,
                self.floor_price,
                purchase_amount,
                sale_decimals,
                (now - self.start_timestamp) as u64,
            ),
    {
        let elapsed: u64 = ((now as i128) - (self.start_timestamp as i128)) as u64;
        let price: u128 = match current_price_scaled(self.ceil_price, self.floor_price, elapsed) {
            Ok(v) => v,
            Err(e) => { return Err(e) },
        };
        let p10: u128 = match pow10_u128(sale_decimals) {
            Some(v) => v,
            None => { return Err(AuctionError::ArithmeticOverflow) },
        };
        let denom: u128 = match PRECISE_ONE.checked_mul(p10) {
            Some(v) => v,
            None => { return Err(AuctionError::ArithmeticOverflow) },
        };
        let numer: u128 = match (purchase_amount as u128).checked_mul(price) {
            Some(v) => v,
            None => { return Err(AuctionError::ArithmeticOverflow) },
        };
        proof {
            crate::arith::lemma_pow10_pos(sale_decimals as nat);
            assert((PRECISE_ONE as int) * pow10(sale_decimals as nat) >= PRECISE_ONE)
                by (nonlinear_arith)
                requires
                    pow10(sale_decimals as nat) >= 1,
            ;
            lemma_ceil_div_equiv(numer as int, denom as int);
            lemma_fundamental_div_mod(numer as int, denom as int);
            vstd::arithmetic::div_mod::lemma_mod_bound(numer as int, denom as int);
            lemma_div_nonincreasing(numer as int, denom as int);
            lemma_mul_nonnegative(purchase_amount as int, price as int);
            lemma_div_pos_is_pos(numer as int, denom as int);
        }
        let q: u128 = numer / denom;
        let rem: u128 = numer % denom;
        let pay: u128 = if rem == 0 {
            q
        } else {
            proof {
                vstd::arithmetic::div_mod::lemma_div_is_ordered_by_denominator(
                    numer as int,
                    2,
                    denom as int,
                );
            }
            q + 1
        };
        if pay > u64::MAX as u128 {
            Err(AuctionError::ArithmeticOverflow)
        } else {
            Ok(pay as u64)
        }
    }
}

/// What a purchase does: the auction must be in progress and the pool able
/// to cover the amount; the payment is computed at the decayed price; a
/// payment above the buyer's expectation is accepted only within the
/// declared slippage tolerance (in parts per thousand); and an accepted
/// purchase records its timestamp.
pub open spec fn spec_purchase(
    a: Auction,
    purchase_amount: u64,
    expected_payment: u64,
    slippage_tolerance: u64,
    sale_decimals: u8,
    pool_balance: u64,
    now: i64,
) -> Result<(Auction, u64), AuctionError> {
    if spec_auction_state(a.start_timestamp, a.end_timestamp, now) != AuctionState::InProgress {
        Err(AuctionError::StateViolation)
    } else if pool_balance < purchase_amount {
        Err(AuctionError::CapacityExceeded)
    } else {
        match spec_payment_amount(
            a.ceil_price,
            a.floor_price,
            purchase_amount,
            sale_decimals,
            (now - a.start_timestamp) as u64,
        ) {
            Err(e) => Err(e),
            Ok(payment) => {
                if payment > expected_payment {
                    if (expected_payment as int) * (slippage_tolerance as int + 1000)
                        > u128::MAX {
                        Err(AuctionError::ArithmeticOverflow)
                    } else if payment > (expected_payment as int) * (slippage_tolerance as int
                        + 1000) / 1000 {
                        Err(AuctionError::SlippageExceeded)
                    } else {
                        Ok((Auction { last_purchase_timestamp: Some(now), ..a }, payment))
                    }
                } else {
                    Ok((Auction { last_purchase_timestamp: Some(now), ..a }, payment))
                }
            },
        }
    }
}

/// Purchases `purchase_amount` sale base units: on success the payment to
/// collect is returned and the purchase timestamp recorded; on any failure
/// the record is unchanged.
pub fn purchase(
    auction: &mut Auction,
    purchase_amount: u64,
    expected_payment: u64,
    slippage_tolerance: u64,
    sale_decimals: u8,
    pool_balance: u64,
    now: i64,
) -> (r: Result<u64, AuctionError>)
    requires
        old(auction).spec_wf(),
    ensures
        match spec_purchase(
            *old(auction),
            purchase_amount,
            expected_payment,
            slippage_tolerance,
            sale_decimals,
            pool_balance,
            now,
        ) {
            Ok(t) => r == Ok::<u64, AuctionError>(t.1) && *final(auction) == t.0,
            Err(e) => r == Err::<u64, AuctionError>(e) && *final(auction) == *old(auction),
        },
        final(auction).spec_wf(),
{
    let state = auction.get_current_auction_state(now);
    if !(state == AuctionState::InProgress) {
        return Err(AuctionError::StateViolation);
    }
    if pool_balance < purchase_amount {
        return Err(AuctionError::CapacityExceeded);
    }
    let payment: u64 = match auction.get_payment_amount(purchase_amount, sale_decimals, now) {
        Ok(v) => v,
        Err(e) => { return Err(e) },
    };
    if payment > expected_payment {
        proof {
            assert((expected_payment as int) * (slippage_tolerance as int + 1000) <= u64::MAX * (
            u64::MAX as int + 1000)) by (nonlinear_arith)
                requires
                    expected_payment <= u64::MAX,
                    slippage_tolerance <= u64::MAX,
            ;
        }
        let bound_wide: u128 = match (expected_payment as u128).checked_mul(
            slippage_tolerance as u128 + 1000,
        ) {
            Some(v) => v,
            None => { return Err(AuctionError::ArithmeticOverflow) },
        };
        let bound: u128 = bound_wide / 1000;
        if payment as u128 > bound {
            return Err(AuctionError::SlippageExceeded);
        }
    }
    auction.last_purchase_timestamp = Some(now);
    Ok(payment)
}

} // verus!
