//! Pricing-and-vesting computation engine for a fixed-supply token sale.
//!
//! A configured amount of a sale token is released to buyers through one of
//! three price-discovery mechanisms (a time-weighted linear bond, a
//! discount-curve bond, and an exponential-decay descending auction), and
//! redemption of purchased tokens is gated by a tiered vesting schedule.
//! Every monetary computation is integer fixed-point arithmetic with explicit
//! overflow checking; the contracts below pin each formula down exactly.

pub mod arith;
pub mod decay_auction;
pub mod discount_bond;
pub mod errors;
pub mod lifecycle;
pub mod linear_bond;
pub mod vesting;
