//! Per-purchase vesting positions and the unlock-amount formula.
//!
//! A position vests in four phases driven purely by elapsed time: before the
//! clock starts nothing is owed; during the lock period only the instant
//! fraction is claimable; afterwards a linear schedule releases a fixed
//! fraction per interval on top of the initial and instant fractions; once
//! the vesting period has passed the whole amount is claimable. Two clamps
//! are applied after every phase: the result never drops below what was
//! already withdrawn, and never exceeds the total owed.

use vstd::prelude::*;
use vstd::arithmetic::div_mod::{
    lemma_div_is_ordered, lemma_div_by_multiple, lemma_div_pos_is_pos, lemma_div_nonincreasing,
};
use vstd::arithmetic::mul::{lemma_mul_inequality, lemma_mul_nonnegative};

verus! {

/// Parameters of a vesting schedule. All fractions are scaled by a fixed
/// accuracy constant handed to the formula ([`crate::arith::ACCURACY`] in
/// this crate's programs).
#[derive(Clone, Copy, Debug, PartialEq, Eq, Structural)]
pub struct VestingSchedule {
    /// Length of one release interval; every interval, `release_rate` of the
    /// total is released.
    pub release_interval: u64,
    /// Fraction of the total released per elapsed interval.
    pub release_rate: u64,
    /// Fraction of the total unlocked immediately, before the lock ends.
    pub instant_unlock: u64,
    /// Fraction of the total unlocked once the lock period ends.
    pub initial_unlock: u64,
    /// Duration after the vesting start before linear release begins.
    pub lock_period: u64,
    /// Duration over which the linear release runs after the lock ends.
    pub vesting_period: u64,
}

/// One buyer's claim from one purchase.
#[derive(Clone, Copy, Debug, PartialEq, Eq, Structural)]
pub struct VestingInfo {
    /// Total amount of sale-token units owed to the buyer.
    pub total_amount: u64,
    /// Amount already withdrawn; never decreases and never exceeds the total.
    pub withdrawn_amount: u64,
    /// Epoch second at which this position's vesting clock began;
    /// zero marks an uninitialized position.
    pub start_time: u64,
}

impl VestingSchedule {
    /// A usable schedule: the release interval is a positive duration and
    /// each fraction is at most one (i.e. at most `accuracy`).
    pub open spec fn spec_wf(self, accuracy: u64) -> bool {
        &&& accuracy > 0
        &&& self.release_interval > 0
        &&& self.release_rate <= accuracy
        &&& self.instant_unlock <= accuracy
        &&& self.initial_unlock <= accuracy
    }

    /// Runtime check of [`VestingSchedule::spec_wf`].
    pub fn wf(&self, accuracy: u64) -> (r: bool)
        ensures
            r == self.spec_wf(accuracy),
    {
        accuracy > 0 && self.release_interval > 0 && self.release_rate <= accuracy
            && self.instant_unlock <= accuracy && self.initial_unlock <= accuracy
    }
}

impl VestingInfo {
    /// The position's invariant: withdrawals never exceed the principal.
    pub open spec fn spec_wf(self) -> bool {
        self.withdrawn_amount <= self.total_amount
    }
}

/// `amount * numer / denom` where `numer / denom` is a fraction of at most
/// one, so the result fits back into a `u64` and never exceeds `amount`.
pub fn frac_of(amount: u64, numer: u64, denom: u64) -> (r: u64)
    requires
        denom > 0,
        numer <= denom,
    ensures
        r == (amount as int) * (numer as int) / (denom as int),
        r <= amount,
{
    proof {
        lemma_frac_le(amount as int, numer as int, denom as int);
        lemma_mul_nonnegative(amount as int, numer as int);
        lemma_div_pos_is_pos((amount as int) * (numer as int), denom as int);
        assert((amount as int) * (numer as int) <= u64::MAX * u64::MAX) by (nonlinear_arith)
            requires
                amount <= u64::MAX,
                numer <= u64::MAX,
        ;
    }
    let r: u128 = (amount as u128) * (numer as u128) / (denom as u128);
    r as u64
}

/// `a * b / c <= a` whenever `b <= c`.
pub proof fn lemma_frac_le(a: int, b: int, c: int)
    requires
        0 <= a,
        0 <= b,
        b <= c,
        0 < c,
    ensures
        a * b / c <= a,
{
    lemma_mul_inequality(b, c, a);
    assert(b * a == a * b) by (nonlinear_arith);
    assert(c * a == a * c) by (nonlinear_arith);
    lemma_div_is_ordered(a * b, a * c, c);
    lemma_div_by_multiple(a, c);
}

/// The amount claimable before clamping, per vesting phase.
pub open spec fn spec_unlockable_raw(
    total: u64,
    start: u64,
    s: VestingSchedule,
    now: u64,
    accuracy: u64,
) -> int {
    let lock_end = start + s.lock_period;
    let vesting_end = lock_end + s.vesting_period;
    if start == 0 || total == 0 {
        0
    } else if now <= lock_end {
        (total as int) * (s.instant_unlock as int) / (accuracy as int)
    } else if now > vesting_end {
        total as int
    } else {
        (now - lock_end) / (s.release_interval as int) * ((total as int) * (s.release_rate as int)
            / (accuracy as int)) + (total as int) * (s.initial_unlock as int) / (accuracy as int)
            + (total as int) * (s.instant_unlock as int) / (accuracy as int)
    }
}

/// The amount currently claimable by the position's owner: the phase formula,
/// clamped from below by what was already withdrawn and from above by the
/// total owed.
pub open spec fn spec_unlockable(v: VestingInfo, s: VestingSchedule, now: u64, accuracy: u64) -> int {
    let raw = spec_unlockable_raw(v.total_amount, v.start_time, s, now, accuracy);
    let floored = if raw > v.withdrawn_amount { raw } else { v.withdrawn_amount as int };
    if floored > v.total_amount {
        v.total_amount as int
    } else {
        floored
    }
}

impl VestingInfo {
    /// The amount of this position currently claimable at time `now`.
    ///
    /// The result is always between what was already withdrawn and the total
    /// owed.
    pub fn taker_vested_amount(&self, schedule: &VestingSchedule, now: u64, accuracy: u64) -> (r:
        u64)
        requires
            schedule.spec_wf(accuracy),
            self.spec_wf(),
        ensures
            r == spec_unlockable(*self, *schedule, now, accuracy),
            self.withdrawn_amount <= r <= self.total_amount,
    {
        let total: u128 = self.total_amount as u128;
        let lock_end: u128 = self.start_time as u128 + schedule.lock_period as u128;
        let vesting_end: u128 = lock_end + schedule.vesting_period as u128;
        let instant_amt: u64 = frac_of(self.total_amount, schedule.instant_unlock, accuracy);

        let raw: u128 = if self.start_time == 0 || self.total_amount == 0 {
            0
        } else if now as u128 <= lock_end {
            instant_amt as u128
        } else if now as u128 > vesting_end {
            total
        } else {
            let initial_amt: u64 = frac_of(self.total_amount, schedule.initial_unlock, accuracy);
            let per_interval: u64 = frac_of(self.total_amount, schedule.release_rate, accuracy);
            let intervals: u128 = (now as u128 - lock_end) / (schedule.release_interval as u128);
            proof {
                lemma_div_nonincreasing(now as u128 - lock_end, schedule.release_interval as int);
                lemma_div_pos_is_pos(now as u128 - lock_end, schedule.release_interval as int);
                assert(intervals * per_interval <= u64::MAX * u64::MAX) by (nonlinear_arith)
                    requires
                        0 <= intervals <= u64::MAX,
                        0 <= per_interval <= u64::MAX,
                ;
                lemma_mul_nonnegative(intervals as int, per_interval as int);
                assert(u64::MAX * u64::MAX + u64::MAX + u64::MAX == u128::MAX);
            }
            intervals * (per_interval as u128) + initial_amt as u128 + instant_amt as u128
        };
        let floored: u128 = if raw > self.withdrawn_amount as u128 {
            raw
        } else {
            self.withdrawn_amount as u128
        };
        let clamped: u128 = if floored > total {
            total
        } else {
            floored
        };
        clamped as u64
    }
}

/// The phase formula never yields a negative amount.
proof fn lemma_raw_nonneg(total: u64, start: u64, s: VestingSchedule, now: u64, accuracy: u64)
    requires
        s.spec_wf(accuracy),
    ensures
        spec_unlockable_raw(total, start, s, now, accuracy) >= 0,
{
    let lock_end = start + s.lock_period;
    let vesting_end = lock_end + s.vesting_period;
    if start == 0 || total == 0 {
    } else if now <= lock_end {
        lemma_mul_nonnegative(total as int, s.instant_unlock as int);
        lemma_div_pos_is_pos((total as int) * (s.instant_unlock as int), accuracy as int);
    } else if now > vesting_end {
    } else {
        lemma_phase2_parts_nonneg(total, start, s, now, accuracy);
    }
}

/// Each summand of the linear-release phase is nonnegative.
proof fn lemma_phase2_parts_nonneg(total: u64, start: u64, s: VestingSchedule, now: u64, accuracy: u64)
    requires
        s.spec_wf(accuracy),
        now > start + s.lock_period,
    ensures
        (now - (start + s.lock_period)) / (s.release_interval as int) * ((total as int) * (
        s.release_rate as int) / (accuracy as int)) >= 0,
        (total as int) * (s.initial_unlock as int) / (accuracy as int) >= 0,
        (total as int) * (s.instant_unlock as int) / (accuracy as int) >= 0,
{
    let lock_end = start + s.lock_period;
    lemma_mul_nonnegative(total as int, s.release_rate as int);
    lemma_div_pos_is_pos((total as int) * (s.release_rate as int), accuracy as int);
    lemma_div_pos_is_pos(now - lock_end, s.release_interval as int);
    lemma_mul_nonnegative(
        (now - lock_end) / (s.release_interval as int),
        (total as int) * (s.release_rate as int) / (accuracy as int),
    );
    lemma_mul_nonnegative(total as int, s.initial_unlock as int);
    lemma_div_pos_is_pos((total as int) * (s.initial_unlock as int), accuracy as int);
    lemma_mul_nonnegative(total as int, s.instant_unlock as int);
    lemma_div_pos_is_pos((total as int) * (s.instant_unlock as int), accuracy as int);
}

/// Between two times that both fall before the end of the vesting period,
/// the phase formula does not decrease.
proof fn lemma_raw_monotonic(
    total: u64,
    start: u64,
    s: VestingSchedule,
    now1: u64,
    now2: u64,
    accuracy: u64,
)
    requires
        s.spec_wf(accuracy),
        now1 <= now2,
        now2 <= start + s.lock_period + s.vesting_period,
    ensures
        spec_unlockable_raw(total, start, s, now1, accuracy) <= spec_unlockable_raw(
            total,
            start,
            s,
            now2,
            accuracy,
        ),
{
    let lock_end = start + s.lock_period;
    if start == 0 || total == 0 {
    } else if now2 <= lock_end {
    } else if now1 <= lock_end {
        lemma_phase2_parts_nonneg(total, start, s, now2, accuracy);
    } else {
        let per = (total as int) * (s.release_rate as int) / (accuracy as int);
        lemma_mul_nonnegative(total as int, s.release_rate as int);
        lemma_div_pos_is_pos((total as int) * (s.release_rate as int), accuracy as int);
        lemma_div_is_ordered(now1 - lock_end, now2 - lock_end, s.release_interval as int);
        lemma_mul_inequality(
            (now1 - lock_end) / (s.release_interval as int),
            (now2 - lock_end) / (s.release_interval as int),
            per,
        );
    }
}

/// The amount a position's owner can claim is monotonic, non-decreasing in
/// time: for a fixed position and schedule, what is claimable at a later
/// time is at least what was claimable at an earlier one. Together with the
/// contract of [`VestingInfo::taker_vested_amount`], the claimable amount
/// always lies between the withdrawn amount and the total owed.
pub proof fn lemma_unlockable_monotonic(
    v: VestingInfo,
    s: VestingSchedule,
    now1: u64,
    now2: u64,
    accuracy: u64,
)
    requires
        s.spec_wf(accuracy),
        v.spec_wf(),
        now1 <= now2,
    ensures
        spec_unlockable(v, s, now1, accuracy) <= spec_unlockable(v, s, now2, accuracy),
{
    let vesting_end = v.start_time + s.lock_period + s.vesting_period;
    if v.start_time == 0 || v.total_amount == 0 {
    } else if now2 > vesting_end {
        lemma_raw_nonneg(v.total_amount, v.start_time, s, now1, accuracy);
    } else {
        lemma_raw_monotonic(v.total_amount, v.start_time, s, now1, now2, accuracy);
    }
}

/// The claimable amount always lies between what was already withdrawn and
/// the total owed.
pub proof fn lemma_unlockable_bounds(v: VestingInfo, s: VestingSchedule, now: u64, accuracy: u64)
    requires
        s.spec_wf(accuracy),
        v.spec_wf(),
    ensures
        v.withdrawn_amount <= spec_unlockable(v, s, now, accuracy) <= v.total_amount,
{
    lemma_raw_nonneg(v.total_amount, v.start_time, s, now, accuracy);
}

/// The position after one withdrawal at time `now`: the withdrawn amount is
/// raised to what was then claimable, everything else is unchanged.
pub open spec fn spec_after_withdraw(
    v: VestingInfo,
    s: VestingSchedule,
    now: u64,
    accuracy: u64,
) -> VestingInfo {
    VestingInfo { withdrawn_amount: spec_unlockable(v, s, now, accuracy) as u64, ..v }
}

/// A withdrawal at one time changes nothing about what a withdrawal at any
/// later (or equal) time can claim: the claimable amount after the first
/// withdrawal equals the claimable amount of the untouched position.
pub proof fn lemma_withdraw_absorbs(
    v: VestingInfo,
    s: VestingSchedule,
    now1: u64,
    now2: u64,
    accuracy: u64,
)
    requires
        s.spec_wf(accuracy),
        v.spec_wf(),
        now1 <= now2,
    ensures
        spec_after_withdraw(v, s, now1, accuracy).spec_wf(),
        spec_unlockable(spec_after_withdraw(v, s, now1, accuracy), s, now2, accuracy)
            == spec_unlockable(v, s, now2, accuracy),
{
    let raw1 = spec_unlockable_raw(v.total_amount, v.start_time, s, now1, accuracy);
    let raw2 = spec_unlockable_raw(v.total_amount, v.start_time, s, now2, accuracy);
    let vesting_end = v.start_time + s.lock_period + s.vesting_period;
    lemma_raw_nonneg(v.total_amount, v.start_time, s, now1, accuracy);
    lemma_raw_nonneg(v.total_amount, v.start_time, s, now2, accuracy);
    if v.start_time == 0 || v.total_amount == 0 {
    } else if now2 > vesting_end {
        assert(raw2 == v.total_amount as int);
    } else {
        lemma_raw_monotonic(v.total_amount, v.start_time, s, now1, now2, accuracy);
    }
}

/// Repeated withdrawals at one timestamp are no-ops after the first: once
/// the withdrawn amount has been raised to the claimable amount, the
/// claimable delta at the same time is zero.
pub proof fn lemma_withdraw_repeat_no_op(v: VestingInfo, s: VestingSchedule, now: u64, accuracy: u64)
    requires
        s.spec_wf(accuracy),
        v.spec_wf(),
    ensures
        spec_unlockable(spec_after_withdraw(v, s, now, accuracy), s, now, accuracy)
            == spec_after_withdraw(v, s, now, accuracy).withdrawn_amount,
{
    lemma_withdraw_absorbs(v, s, now, now, accuracy);
}

/// The position left after withdrawing at each time of `times` in order.
pub open spec fn spec_run_withdrawals(
    v: VestingInfo,
    s: VestingSchedule,
    times: Seq<u64>,
    accuracy: u64,
) -> VestingInfo
    decreases times.len(),
{
    if times.len() == 0 {
        v
    } else {
        spec_run_withdrawals(spec_after_withdraw(v, s, times[0], accuracy), s, times.skip(1), accuracy)
    }
}

/// The sum of the deltas transferred by withdrawing at each time of `times`
/// in order.
pub open spec fn spec_cumulative_withdrawn(
    v: VestingInfo,
    s: VestingSchedule,
    times: Seq<u64>,
    accuracy: u64,
) -> int
    decreases times.len(),
{
    if times.len() == 0 {
        0
    } else {
        (spec_unlockable(v, s, times[0], accuracy) - v.withdrawn_amount)
            + spec_cumulative_withdrawn(
            spec_after_withdraw(v, s, times[0], accuracy),
            s,
            times.skip(1),
            accuracy,
        )
    }
}

/// Across any non-decreasing sequence of withdrawal times, the cumulative
/// amount transferred equals the amount claimable at the last time, less
/// what had been withdrawn before the sequence began; each withdrawal after
/// one at the same time contributes zero.
pub proof fn lemma_withdraw_sequence(
    v: VestingInfo,
    s: VestingSchedule,
    times: Seq<u64>,
    accuracy: u64,
)
    requires
        s.spec_wf(accuracy),
        v.spec_wf(),
        times.len() > 0,
        forall|i: int, j: int| 0 <= i <= j < times.len() ==> times[i] <= times[j],
    ensures
        spec_cumulative_withdrawn(v, s, times, accuracy) == spec_unlockable(
            v,
            s,
            times[times.len() - 1],
            accuracy,
        ) - v.withdrawn_amount,
        spec_run_withdrawals(v, s, times, accuracy) == spec_after_withdraw(
            v,
            s,
            times[times.len() - 1],
            accuracy,
        ),
    decreases times.len(),
{
    let v1 = spec_after_withdraw(v, s, times[0], accuracy);
    let last = times[times.len() - 1];
    lemma_unlockable_bounds(v, s, times[0], accuracy);
    lemma_withdraw_absorbs(v, s, times[0], times[0], accuracy);
    assert(v1.withdrawn_amount == spec_unlockable(v, s, times[0], accuracy));
    if times.len() == 1 {
        assert(times.skip(1).len() == 0);
        assert(spec_run_withdrawals(v1, s, times.skip(1), accuracy) == v1);
        assert(spec_cumulative_withdrawn(v1, s, times.skip(1), accuracy) == 0);
    } else {
        let rest = times.skip(1);
        assert(forall|i: int, j: int| 0 <= i <= j < rest.len() ==> rest[i] <= rest[j]);
        assert(times[0] <= last);
        lemma_withdraw_sequence(v1, s, rest, accuracy);
        assert(rest[rest.len() - 1] == last);
        lemma_withdraw_absorbs(v, s, times[0], last, accuracy);
        assert(spec_unlockable(v1, s, last, accuracy) == spec_unlockable(v, s, last, accuracy));
        assert(spec_run_withdrawals(v, s, times, accuracy) == spec_run_withdrawals(
            v1,
            s,
            rest,
            accuracy,
        ));
        assert(spec_after_withdraw(v1, s, last, accuracy) == spec_after_withdraw(
            v,
            s,
            last,
            accuracy,
        ));
    }
}

/// At the exact end of the lock period, only the instant-unlock fraction is
/// claimable (for a live position on which no more than that fraction has
/// been withdrawn).
pub proof fn lemma_boundary_lock_end(v: VestingInfo, s: VestingSchedule, accuracy: u64)
    requires
        s.spec_wf(accuracy),
        v.spec_wf(),
        v.start_time > 0,
        v.total_amount > 0,
        v.start_time + s.lock_period <= u64::MAX,
        v.withdrawn_amount <= (v.total_amount as int) * (s.instant_unlock as int) / (
        accuracy as int),
    ensures
        spec_unlockable(v, s, (v.start_time + s.lock_period) as u64, accuracy) == (
        v.total_amount as int) * (s.instant_unlock as int) / (accuracy as int),
{
    lemma_frac_le(v.total_amount as int, s.instant_unlock as int, accuracy as int);
}

/// At the exact end of the vesting period, the whole amount is claimable,
/// provided the schedule's fractions release the full amount over the
/// vesting period (which integer division may fail to do for small amounts
/// or incomplete schedules).
pub proof fn lemma_boundary_vesting_end(v: VestingInfo, s: VestingSchedule, accuracy: u64)
    requires
        s.spec_wf(accuracy),
        v.spec_wf(),
        v.start_time > 0,
        v.total_amount > 0,
        s.vesting_period > 0,
        v.start_time + s.lock_period + s.vesting_period <= u64::MAX,
        (s.vesting_period as int) / (s.release_interval as int) * ((v.total_amount as int) * (
        s.release_rate as int) / (accuracy as int)) + (v.total_amount as int) * (
        s.initial_unlock as int) / (accuracy as int) + (v.total_amount as int) * (
        s.instant_unlock as int) / (accuracy as int) >= v.total_amount,
    ensures
        spec_unlockable(v, s, (v.start_time + s.lock_period + s.vesting_period) as u64, accuracy)
            == v.total_amount as int,
{
    let now = (v.start_time + s.lock_period + s.vesting_period) as u64;
    let lock_end = v.start_time + s.lock_period;
    assert(now - lock_end == s.vesting_period as int);
}

/// Withdraws the currently claimable delta from a position: the claimable
/// amount is computed, the position's withdrawn amount is raised to it, and
/// the difference is returned (the number of units to transfer out). A
/// repeated call with no newly vested amount returns zero and changes
/// nothing.
pub fn process_withdraw_vesting(
    vesting_info: &mut VestingInfo,
    schedule: &VestingSchedule,
    now: u64,
    accuracy: u64,
) -> (delta: u64)
    requires
        schedule.spec_wf(accuracy),
        old(vesting_info).spec_wf(),
    ensures
        final(vesting_info).total_amount == old(vesting_info).total_amount,
        final(vesting_info).start_time == old(vesting_info).start_time,
        final(vesting_info).withdrawn_amount == spec_unlockable(
            *old(vesting_info),
            *schedule,
            now,
            accuracy,
        ),
        delta == spec_unlockable(*old(vesting_info), *schedule, now, accuracy) - old(
            vesting_info,
        ).withdrawn_amount,
        final(vesting_info).spec_wf(),
{
    let vested: u64 = vesting_info.taker_vested_amount(schedule, now, accuracy);
    let delta: u64 = vested - vesting_info.withdrawn_amount;
    if delta > 0 {
        vesting_info.withdrawn_amount = vested;
    }
    delta
}

} // verus!
