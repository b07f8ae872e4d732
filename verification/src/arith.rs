//! Overflow-checked fixed-point arithmetic shared by the pricing formulas.

use vstd::prelude::*;
use crate::errors::AuctionError;

verus! {

/// Scale factor for all fractional configuration values (1e9).
pub const ACCURACY: u64 = 1_000_000_000;

/// `10^e` as a mathematical integer.
pub open spec fn pow10(e: nat) -> int
    decreases e,
{
    if e == 0 {
        1
    } else {
        10 * pow10((e - 1) as nat)
    }
}

pub proof fn lemma_pow10_pos(e: nat)
    ensures
        pow10(e) >= 1,
    decreases e,
{
    if e > 0 {
        lemma_pow10_pos((e - 1) as nat);
    }
}

pub proof fn lemma_pow10_increases(e1: nat, e2: nat)
    requires
        e1 <= e2,
    ensures
        pow10(e1) <= pow10(e2),
    decreases e2,
{
    if e1 < e2 {
        lemma_pow10_increases(e1, (e2 - 1) as nat);
        lemma_pow10_pos((e2 - 1) as nat);
    }
}

/// `10^e`, or `None` where it does not fit a `u128`.
pub fn pow10_u128(e: u8) -> (r: Option<u128>)
    ensures
        match r {
            Some(v) => v == pow10(e as nat),
            None => pow10(e as nat) > u128::MAX,
        },
{
    let mut acc: u128 = 1;
    let mut i: u8 = 0;
    while i < e
        invariant
            i <= e,
            acc == pow10(i as nat),
        decreases e - i,
    {
        match acc.checked_mul(10) {
            Some(next) => {
                acc = next;
                i = i + 1;
            },
            None => {
                proof {
                    lemma_pow10_increases((i + 1) as nat, e as nat);
                }
                return None;
            },
        }
    }
    Some(acc)
}

/// Scale factor of `spl_math::precise_number::PreciseNumber` (1e12): the
/// raw inner value of a precise number is the represented number times this.
pub const PRECISE_ONE: u128 = 1_000_000_000_000;

/// What `decay_pow` returns for a given scaled base and exponent: the crate
/// computing it rounds at every step of its square-and-multiply loop, so the
/// result is named rather than written out. It is a function of the two
/// arguments alone.
pub uninterp spec fn decay_pow_of(base_scaled: u64, exponent: u64) -> Option<u128>;

/// `base ^ exponent` over fixed-point numbers scaled by [`PRECISE_ONE`],
/// computed on 256-bit integers with a checked multiplication at each step;
/// `None` on intermediate overflow or where the result exceeds `u128`.
///
/// Relies on `spl_math::precise_number::PreciseNumber::checked_pow`: the
/// result depends on the base and exponent alone, and an exponent of zero
/// returns exactly one (a raw value of [`PRECISE_ONE`]), before the
/// square-and-multiply loop is entered.
#[verifier::external_body]
pub fn decay_pow(base_scaled: u64, exponent: u64) -> (r: Option<u128>)
    ensures
        r == decay_pow_of(base_scaled, exponent),
        exponent == 0 ==> r == Some(PRECISE_ONE),
{
    let base = spl_math::precise_number::PreciseNumber {
        value: spl_math::uint::U256::from(base_scaled),
    };
    let powered = base.checked_pow(exponent as u128)?;
    u128::try_from(powered.value).ok()
}

/// What `scaled_mul_div` returns: `a * b / c` with its two failure cases.
pub open spec fn spec_scaled_mul_div(a: u64, b: u64, c: u64) -> Result<u64, AuctionError> {
    if c == 0 {
        Err(AuctionError::DivisionByZero)
    } else if (a as int) * (b as int) / (c as int) > u64::MAX {
        Err(AuctionError::ArithmeticOverflow)
    } else {
        Ok(((a as int) * (b as int) / (c as int)) as u64)
    }
}

/// How many sale-token base units a payment of `lp_amount` buys at `price`
/// (a fixed-point number of payment units per sale unit, scaled by
/// [`ACCURACY`]), rescaled by the difference between the two tokens'
/// decimal exponents, with every step's failure case spelled out.
pub open spec fn spec_allocation(
    lp_amount: u64,
    price: u64,
    token_decimals: u8,
    lp_decimals: u8,
) -> Result<u64, AuctionError> {
    if price == 0 {
        Err(AuctionError::DivisionByZero)
    } else if pow10(token_decimals as nat) > u128::MAX || pow10(lp_decimals as nat) > u128::MAX {
        Err(AuctionError::ArithmeticOverflow)
    } else {
        let scaled = (lp_amount as int) * (ACCURACY as int) / (price as int);
        let widened = scaled * pow10(token_decimals as nat);
        if widened > u128::MAX {
            Err(AuctionError::ArithmeticOverflow)
        } else {
            let res = widened / pow10(lp_decimals as nat);
            if res > u64::MAX {
                Err(AuctionError::ArithmeticOverflow)
            } else {
                Ok(res as u64)
            }
        }
    }
}

/// Computes [`spec_allocation`]: `lp_amount * ACCURACY / price`, widened by
/// `10^token_decimals` and narrowed by `10^lp_decimals`, on 128-bit
/// intermediates with every multiplication checked.
pub fn compute_allocation(lp_amount: u64, price: u64, token_decimals: u8, lp_decimals: u8) -> (r:
    Result<u64, AuctionError>)
    ensures
        r == spec_allocation(lp_amount, price, token_decimals, lp_decimals),
{
    if price == 0 {
        return Err(AuctionError::DivisionByZero);
    }
    let p_td: u128 = match pow10_u128(token_decimals) {
        Some(v) => v,
        None => { return Err(AuctionError::ArithmeticOverflow) },
    };
    let p_ld: u128 = match pow10_u128(lp_decimals) {
        Some(v) => v,
        None => { return Err(AuctionError::ArithmeticOverflow) },
    };
    proof {
        assert((lp_amount as int) * (ACCURACY as int) <= u64::MAX * u64::MAX) by (nonlinear_arith)
            requires
                lp_amount <= u64::MAX,
                ACCURACY <= u64::MAX,
        ;
        vstd::arithmetic::mul::lemma_mul_nonnegative(lp_amount as int, ACCURACY as int);
        vstd::arithmetic::div_mod::lemma_div_pos_is_pos(
            (lp_amount as int) * (ACCURACY as int),
            price as int,
        );
        lemma_pow10_pos(lp_decimals as nat);
        lemma_pow10_pos(token_decimals as nat);
        vstd::arithmetic::mul::lemma_mul_nonnegative(
            (lp_amount as int) * (ACCURACY as int) / (price as int),
            pow10(token_decimals as nat),
        );
        vstd::arithmetic::div_mod::lemma_div_pos_is_pos(
            ((lp_amount as int) * (ACCURACY as int) / (price as int)) * pow10(
                token_decimals as nat,
            ),
            pow10(lp_decimals as nat),
        );
    }
    let scaled: u128 = (lp_amount as u128) * (ACCURACY as u128) / (price as u128);
    let widened: u128 = match scaled.checked_mul(p_td) {
        Some(v) => v,
        None => { return Err(AuctionError::ArithmeticOverflow) },
    };
    let res: u128 = widened / p_ld;
    if res > u64::MAX as u128 {
        Err(AuctionError::ArithmeticOverflow)
    } else {
        Ok(res as u64)
    }
}

/// `a * b / c` over a 128-bit intermediate, so the product itself cannot
/// overflow; the quotient is still checked against the 64-bit result width.
pub fn scaled_mul_div(a: u64, b: u64, c: u64) -> (r: Result<u64, AuctionError>)
    ensures
        r == spec_scaled_mul_div(a, b, c),
{
    if c == 0 {
        return Err(AuctionError::DivisionByZero);
    }
    proof {
        assert((a as int) * (b as int) <= u64::MAX * u64::MAX) by (nonlinear_arith)
            requires
                a <= u64::MAX,
                b <= u64::MAX,
        ;
    }
    let prod: u128 = (a as u128) * (b as u128);
    let q: u128 = prod / (c as u128);
    if q > u64::MAX as u128 {
        Err(AuctionError::ArithmeticOverflow)
    } else {
        Ok(q as u64)
    }
}

} // verus!
