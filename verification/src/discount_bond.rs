//! Discount-curve bond.
//!
//! The sale has a fixed base price; each purchase gets a discount, in basis
//! points, that moves with the fraction of the supply already sold. The
//! discount either grows from its minimum to its maximum, shrinks from its
//! maximum to its minimum, or is not applied at all, as chosen at
//! configuration time.

use vstd::prelude::*;
use crate::arith::{spec_allocation, compute_allocation, ACCURACY};
use crate::errors::AuctionError;
use crate::vesting::{VestingSchedule, VestingInfo, frac_of, lemma_frac_le};

verus! {

/// How the discount moves with cumulative sales.
#[derive(Clone, Copy, Debug, PartialEq, Eq, Structural)]
pub enum DiscountMode {
    /// The discount grows from the minimum towards the maximum as the sale
    /// fills up.
    GrowsMinToMax,
    /// The discount shrinks from the maximum towards the minimum as the
    /// sale fills up.
    ShrinksMaxToMin,
    /// No discount is applied.
    NoDiscount,
}

impl DiscountMode {
    /// Decodes the stored small-integer encoding of a discount mode. An
    /// unrecognized code is a configuration error, not a silent default.
    pub fn from_code(code: u64) -> (r: Result<DiscountMode, AuctionError>)
        ensures
            code == 0 ==> r == Ok::<DiscountMode, AuctionError>(DiscountMode::NoDiscount),
            code == 1 ==> r == Ok::<DiscountMode, AuctionError>(DiscountMode::GrowsMinToMax),
            code == 2 ==> r == Ok::<DiscountMode, AuctionError>(DiscountMode::ShrinksMaxToMin),
            code > 2 ==> r == Err::<DiscountMode, AuctionError>(
                AuctionError::InvalidConfiguration,
            ),
    {
        if code == 0 {
            Ok(DiscountMode::NoDiscount)
        } else if code == 1 {
            Ok(DiscountMode::GrowsMinToMax)
        } else if code == 2 {
            Ok(DiscountMode::ShrinksMaxToMin)
        } else {
            Err(AuctionError::InvalidConfiguration)
        }
    }
}

/// Discount bounds, in basis points, and the mode that moves between them.
#[derive(Clone, Copy, Debug, PartialEq, Eq, Structural)]
pub struct DiscountSettings {
    /// Minimum discount in basis points.
    pub min_discount: u64,
    /// Maximum discount in basis points.
    pub max_discount: u64,
    /// How the discount moves between the two bounds.
    pub discount_mode: DiscountMode,
}

/// The shared record of one discount-curve bond sale.
#[derive(Clone, Copy, Debug, PartialEq, Eq, Structural)]
pub struct ProjectInfo {
    /// Identity of the project that owns the sale.
    pub project_owner: u64,
    /// Identifier of the sale token.
    pub project_token: u64,
    /// Identifier of the payment (LP) token.
    pub lp_token: u64,
    /// Identifier of the account that receives bonded LP tokens.
    pub lp_token_account: u64,
    /// Total supply of sale-token units offered.
    pub token_amount: u64,
    /// Base price (payment units per sale unit, scaled by [`ACCURACY`]).
    pub price: u64,
    /// Discount configuration.
    pub discount: DiscountSettings,
    /// Vesting parameters applied to every purchase.
    pub schedule: VestingSchedule,
    /// Cumulative LP (payment) units bonded so far.
    pub bonded_lp_amount: u64,
    /// Cumulative sale-token units allocated so far.
    pub vested_amount: u64,
}

/// Running count of a buyer's bonds, used to number successive positions.
#[derive(Clone, Copy, Debug, PartialEq, Eq, Structural)]
pub struct BondsInfo {
    /// How many bonds the buyer has made so far.
    pub total_bonds: u64,
}

/// Configuration values a discount-curve bond accepts.
pub open spec fn spec_valid_project_config(
    amount: u64,
    price: u64,
    discount: DiscountSettings,
    schedule: VestingSchedule,
) -> bool {
    &&& amount > 0
    &&& price > 0
    &&& discount.min_discount <= discount.max_discount
    &&& discount.max_discount <= 10000
    &&& schedule.spec_wf(ACCURACY)
}

impl ProjectInfo {
    /// The record's invariant, established at initialization and preserved
    /// by every operation.
    pub open spec fn spec_wf(self) -> bool {
        &&& self.token_amount > 0
        &&& self.price > 0
        &&& self.discount.min_discount <= self.discount.max_discount
        &&& self.discount.max_discount <= 10000
        &&& self.vested_amount <= self.token_amount
        &&& self.schedule.spec_wf(ACCURACY)
    }
}

/// Creates the record of a new discount-curve bond sale, rejecting a zero
/// supply or base price, inverted or over-unity discount bounds and an
/// unusable vesting schedule.
pub fn process_init_new_project(
    project_owner: u64,
    project_token: u64,
    lp_token: u64,
    lp_token_account: u64,
    amount: u64,
    price: u64,
    discount_settings: DiscountSettings,
    vesting_schedule: VestingSchedule,
) -> (r: Result<ProjectInfo, AuctionError>)
    ensures
        r.is_ok() <==> spec_valid_project_config(amount, price, discount_settings, vesting_schedule),
        r matches Err(e) ==> e == AuctionError::InvalidConfiguration,
        r matches Ok(p) ==> p == (ProjectInfo {
            project_owner,
            project_token,
            lp_token,
            lp_token_account,
            token_amount: amount,
            price,
            discount: discount_settings,
            schedule: vesting_schedule,
            bonded_lp_amount: 0,
            vested_amount: 0,
        }),
        r matches Ok(p) ==> p.spec_wf(),
{
    if !(amount > 0 && price > 0 && discount_settings.min_discount <= discount_settings.max_discount
        && discount_settings.max_discount <= 10000 && vesting_schedule.wf(ACCURACY)) {
        return Err(AuctionError::InvalidConfiguration);
    }
    Ok(
        ProjectInfo {
            project_owner,
            project_token,
            lp_token,
            lp_token_account,
            token_amount: amount,
            price,
            discount: discount_settings,
            schedule: vesting_schedule,
            bonded_lp_amount: 0,
            vested_amount: 0,
        },
    )
}

/// Hands the project to a new owner, if the caller is the current owner.
pub fn process_update_authority(project_info: &mut ProjectInfo, caller: u64, new_authority: u64)
    -> (r: Result<(), AuctionError>)
    ensures
        caller != old(project_info).project_owner ==> r == Err::<(), AuctionError>(
            AuctionError::AuthorizationDenied,
        ) && *final(project_info) == *old(project_info),
        caller == old(project_info).project_owner ==> r == Ok::<(), AuctionError>(())
            && *final(project_info) == (ProjectInfo {
            project_owner: new_authority,
            ..*old(project_info)
        }),
{
    if caller != project_info.project_owner {
        return Err(AuctionError::AuthorizationDenied);
    }
    project_info.project_owner = new_authority;
    Ok(())
}

/// Re-prices the sale, if the caller is the owner and the new base price is
/// not zero.
pub fn process_update_price(project_info: &mut ProjectInfo, caller: u64, new_price: u64) -> (r:
    Result<(), AuctionError>)
    requires
        old(project_info).spec_wf(),
    ensures
        caller != old(project_info).project_owner ==> r == Err::<(), AuctionError>(
            AuctionError::AuthorizationDenied,
        ) && *final(project_info) == *old(project_info),
        caller == old(project_info).project_owner && new_price == 0 ==> r == Err::<(),
            AuctionError,
        >(AuctionError::InvalidConfiguration) && *final(project_info) == *old(project_info),
        caller == old(project_info).project_owner && new_price > 0 ==> r == Ok::<(),
            AuctionError,
        >(()) && *final(project_info) == (ProjectInfo { price: new_price, ..*old(project_info) }),
        final(project_info).spec_wf(),
{
    if caller != project_info.project_owner {
        return Err(AuctionError::AuthorizationDenied);
    }
    if new_price == 0 {
        return Err(AuctionError::InvalidConfiguration);
    }
    project_info.price = new_price;
    Ok(())
}

/// The discount for the next purchase, in basis points: the configured
/// bounds interpolated by the fraction of the supply already sold.
pub open spec fn spec_discount_rate(p: ProjectInfo) -> int {
    let spread = (p.discount.max_discount - p.discount.min_discount) as int;
    let progress = spread * (p.vested_amount as int) / (p.token_amount as int);
    match p.discount.discount_mode {
        DiscountMode::GrowsMinToMax => p.discount.min_discount + progress,
        DiscountMode::ShrinksMaxToMin => p.discount.max_discount - progress,
        DiscountMode::NoDiscount => 0,
    }
}

/// The effective price for the next purchase: the base price less the
/// current discount.
pub open spec fn spec_effective_price(p: ProjectInfo) -> int {
    (p.price as int) * (10000 - spec_discount_rate(p)) / 10000
}

/// The discount stays within its configured bounds, and the effective price
/// never exceeds the base price.
pub proof fn lemma_discount_bounds(p: ProjectInfo)
    requires
        p.spec_wf(),
    ensures
        0 <= spec_discount_rate(p) <= p.discount.max_discount,
        p.discount.discount_mode is GrowsMinToMax ==> p.discount.min_discount
            <= spec_discount_rate(p),
        p.discount.discount_mode is ShrinksMaxToMin ==> p.discount.min_discount
            <= spec_discount_rate(p),
        0 <= spec_effective_price(p) <= p.price,
{
    let spread = (p.discount.max_discount - p.discount.min_discount) as int;
    lemma_frac_le(spread, p.vested_amount as int, p.token_amount as int);
    vstd::arithmetic::mul::lemma_mul_nonnegative(spread, p.vested_amount as int);
    vstd::arithmetic::div_mod::lemma_div_pos_is_pos(
        spread * (p.vested_amount as int),
        p.token_amount as int,
    );
    lemma_frac_le(p.price as int, 10000 - spec_discount_rate(p), 10000);
    vstd::arithmetic::mul::lemma_mul_nonnegative(p.price as int, 10000 - spec_discount_rate(p));
    vstd::arithmetic::div_mod::lemma_div_pos_is_pos(
        (p.price as int) * (10000 - spec_discount_rate(p)),
        10000,
    );
}

/// Quotes the discounted price a purchase would pay right now. The result
/// never exceeds the configured base price.
pub fn effective_price(project_info: &ProjectInfo) -> (r: u64)
    requires
        project_info.spec_wf(),
    ensures
        r == spec_effective_price(*project_info),
        r <= project_info.price,
{
    proof {
        lemma_discount_bounds(*project_info);
    }
    let spread: u64 = project_info.discount.max_discount - project_info.discount.min_discount;
    let progress: u64 = frac_of(spread, project_info.vested_amount, project_info.token_amount);
    let discount: u64 = match project_info.discount.discount_mode {
        DiscountMode::GrowsMinToMax => project_info.discount.min_discount + progress,
        DiscountMode::ShrinksMaxToMin => project_info.discount.max_discount - progress,
        DiscountMode::NoDiscount => 0,
    };
    frac_of(project_info.price, 10000 - discount, 10000)
}

/// What a purchase does: the effective price is quoted, the allocation
/// computed, capacity and accumulator widths checked, and the updated
/// record, bond count and a fresh vesting position produced.
pub open spec fn spec_process_bond(
    p: ProjectInfo,
    bonds: BondsInfo,
    lp_amount: u64,
    token_decimals: u8,
    lp_decimals: u8,
    now: u64,
) -> Result<(ProjectInfo, BondsInfo, u64, VestingInfo), AuctionError> {
    match spec_allocation(
        lp_amount,
        spec_effective_price(p) as u64,
        token_decimals,
        lp_decimals,
    ) {
        Err(e) => Err(e),
        Ok(alloc) => if p.vested_amount + alloc > p.token_amount {
            Err(AuctionError::CapacityExceeded)
        } else if p.bonded_lp_amount + lp_amount > u64::MAX {
            Err(AuctionError::ArithmeticOverflow)
        } else if bonds.total_bonds + 1 > u64::MAX {
            Err(AuctionError::ArithmeticOverflow)
        } else {
            Ok(
                (
                    ProjectInfo {
                        bonded_lp_amount: (p.bonded_lp_amount + lp_amount) as u64,
                        vested_amount: (p.vested_amount + alloc) as u64,
                        ..p
                    },
                    BondsInfo { total_bonds: (bonds.total_bonds + 1) as u64 },
                    alloc,
                    VestingInfo { total_amount: alloc, withdrawn_amount: 0, start_time: now },
                ),
            )
        },
    }
}

/// Purchases from the sale at the current discounted price: on success the
/// accumulators and the buyer's bond count grow and the buyer receives a
/// fresh vesting position, whose clock starts now; on any failure nothing
/// changes.
pub fn process_bond(
    project_info: &mut ProjectInfo,
    bonds_info: &mut BondsInfo,
    lp_amount: u64,
    token_decimals: u8,
    lp_decimals: u8,
    now: u64,
) -> (r: Result<(u64, VestingInfo), AuctionError>)
    requires
        old(project_info).spec_wf(),
    ensures
        match spec_process_bond(
            *old(project_info),
            *old(bonds_info),
            lp_amount,
            token_decimals,
            lp_decimals,
            now,
        ) {
            Ok(t) => r == Ok::<(u64, VestingInfo), AuctionError>((t.2, t.3))
                && *final(project_info) == t.0 && *final(bonds_info) == t.1,
            Err(e) => r == Err::<(u64, VestingInfo), AuctionError>(e) && *final(project_info)
                == *old(project_info) && *final(bonds_info) == *old(bonds_info),
        },
        final(project_info).spec_wf(),
{
    let price: u64 = effective_price(project_info);
    let alloc: u64 = match compute_allocation(lp_amount, price, token_decimals, lp_decimals) {
        Ok(v) => v,
        Err(e) => { return Err(e) },
    };
    if alloc > project_info.token_amount - project_info.vested_amount {
        return Err(AuctionError::CapacityExceeded);
    }
    let bonded: u64 = match project_info.bonded_lp_amount.checked_add(lp_amount) {
        Some(v) => v,
        None => { return Err(AuctionError::ArithmeticOverflow) },
    };
    let new_total_bonds: u64 = match bonds_info.total_bonds.checked_add(1) {
        Some(v) => v,
        None => { return Err(AuctionError::ArithmeticOverflow) },
    };
    project_info.bonded_lp_amount = bonded;
    project_info.vested_amount = project_info.vested_amount + alloc;
    bonds_info.total_bonds = new_total_bonds;
    Ok((alloc, VestingInfo { total_amount: alloc, withdrawn_amount: 0, start_time: now }))
}

} // verus!
