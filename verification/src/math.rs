//! Fixed-point reward arithmetic.
//!
//! The canonical convention of this crate: APY values, the global
//! `reward_rate` and the emergency-withdraw penalty are fractions scaled
//! by [`SCALE`] (1e9). A reward accrues as
//! `floor(amount * apy * elapsed_seconds / (SECONDS_PER_YEAR * SCALE))`,
//! computed in a widened 128-bit domain; a product too large even for
//! that domain, or a quotient that does not fit in `u64`, degrades to a
//! reward of zero rather than aborting, mirroring the zero-fallback
//! convention of the reward paths.
use vstd::prelude::*;
use vstd::arithmetic::div_mod::lemma_div_is_ordered;
use vstd::arithmetic::div_mod::lemma_div_multiples_vanish;

verus! {

/// Seconds in the 365-day year the APY is quoted over.
pub const SECONDS_PER_YEAR: u64 = 31_536_000;

/// Fixed-point scale of APY, reward-rate and penalty fractions.
pub const SCALE: u64 = 1_000_000_000;

/// Denominator of the reward formula: one year at full scale.
pub const REWARD_DENOMINATOR: u64 = 31_536_000 * 1_000_000_000;

/// The exact mathematical reward quotient, before any width limit.
pub open spec fn rewards_quotient(amount: int, apy: int, duration: int) -> int {
    (amount * apy * duration) / (REWARD_DENOMINATOR as int)
}

/// The reward a stake of `amount` at `apy` earns over `duration`
/// seconds: the exact quotient when it is representable, zero otherwise.
pub open spec fn rewards_of(amount: u64, apy: u64, duration: int) -> u64
    recommends
        0 <= duration,
{
    let q = rewards_quotient(amount as int, apy as int, duration);
    if q <= u64::MAX {
        q as u64
    } else {
        0u64
    }
}

/// Proof that a quotient of a product too large for 128 bits cannot be
/// represented in 64 bits either.
proof fn lemma_huge_product_overflows(p: int)
    requires
        p > u128::MAX,
    ensures
        p / (REWARD_DENOMINATOR as int) > u64::MAX,
{
    let d = REWARD_DENOMINATOR as int;
    let k = u64::MAX as int + 1;
    lemma_div_multiples_vanish(k, d);
    assert(k * d <= p);
    lemma_div_is_ordered(k * d, p, d);
}

/// Reward for `amount` staked at `apy` over `duration` seconds.
pub fn calculate_rewards(amount: u64, apy: u64, duration: i64) -> (r: u64)
    requires
        0 <= duration,
    ensures
        r == rewards_of(amount, apy, duration as int),
{
    proof {
        assert((amount as int) * (apy as int) <= (u64::MAX as int) * (u64::MAX as int))
            by (nonlinear_arith)
            requires
                amount as int <= u64::MAX as int,
                apy as int <= u64::MAX as int,
                0 <= amount as int,
                0 <= apy as int,
        ;
    }
    let m1: u128 = (amount as u128) * (apy as u128);
    match m1.checked_mul(duration as u128) {
        None => {
            proof {
                lemma_huge_product_overflows(
                    (amount as int) * (apy as int) * (duration as int),
                );
            }
            0u64
        },
        Some(product) => {
            let q: u128 = product / (REWARD_DENOMINATOR as u128);
            if q > u64::MAX as u128 {
                0u64
            } else {
                q as u64
            }
        },
    }
}

/// Reward accrual is monotone in the amount, the rate and the duration
/// together, wherever the larger reward is still representable.
pub proof fn lemma_rewards_monotonic(a1: u64, a2: u64, p1: u64, p2: u64, d1: int, d2: int)
    requires
        a1 <= a2,
        p1 <= p2,
        0 <= d1 <= d2,
        rewards_quotient(a2 as int, p2 as int, d2) <= u64::MAX,
    ensures
        rewards_of(a1, p1, d1) <= rewards_of(a2, p2, d2),
{
    assert((a1 as int) * (p1 as int) * d1 <= (a2 as int) * (p2 as int) * d2)
        by (nonlinear_arith)
        requires
            0 <= a1 as int <= a2 as int,
            0 <= p1 as int <= p2 as int,
            0 <= d1 <= d2,
    ;
    lemma_div_is_ordered(
        (a1 as int) * (p1 as int) * d1,
        (a2 as int) * (p2 as int) * d2,
        REWARD_DENOMINATOR as int,
    );
    assert(rewards_quotient(a1 as int, p1 as int, d1) >= 0) by {
        assert((a1 as int) * (p1 as int) * d1 >= 0) by (nonlinear_arith)
            requires
                0 <= a1 as int,
                0 <= p1 as int,
                0 <= d1,
        ;
        lemma_div_is_ordered(0, (a1 as int) * (p1 as int) * d1, REWARD_DENOMINATOR as int);
    }
}

/// A zero duration earns nothing.
pub proof fn lemma_rewards_zero_duration(amount: u64, apy: u64)
    ensures
        rewards_of(amount, apy, 0) == 0,
{
    assert((amount as int) * (apy as int) * 0 == 0) by (nonlinear_arith);
}

/// Scale factor applied to stakes recorded before a precision upgrade.
pub const DECIMAL_COMPENSATION: u64 = 1_000_000_000_000;

/// The precision-compensated value: widened by [`DECIMAL_COMPENSATION`]
/// for stakes older than the upgrade, unchanged when widening would
/// overflow or the stake is newer.
pub open spec fn compensated_of(value: u64, start_time: i64, upgraded_timestamp: i64) -> u64 {
    if start_time < upgraded_timestamp {
        if value * DECIMAL_COMPENSATION <= u64::MAX {
            (value * DECIMAL_COMPENSATION) as u64
        } else {
            value
        }
    } else {
        value
    }
}

/// Normalizes a stake's amount and APY across the precision upgrade;
/// the termination flag selects no alternative rate and is kept only
/// for interface stability.
pub fn normalize_staking(
    staked_amount: u64,
    apy: u64,
    start_time: i64,
    upgraded_timestamp: i64,
    _is_termination: bool,
) -> (r: (u64, u64))
    ensures
        r.0 == compensated_of(staked_amount, start_time, upgraded_timestamp),
        r.1 == compensated_of(apy, start_time, upgraded_timestamp),
{
    let mut normalized_staked_amount = staked_amount;
    let mut normalized_apy = apy;
    if start_time < upgraded_timestamp {
        normalized_staked_amount = match staked_amount.checked_mul(DECIMAL_COMPENSATION) {
            Some(widened) => widened,
            None => staked_amount,
        };
        normalized_apy = match apy.checked_mul(DECIMAL_COMPENSATION) {
            Some(widened) => widened,
            None => apy,
        };
    }
    (normalized_staked_amount, normalized_apy)
}

/// Yield for `staked_amount` at `apy` over a `staking_period` given in
/// seconds; the same formula as [`calculate_rewards`] with an unsigned
/// period.
pub fn calculate_yield(staked_amount: u64, apy: u64, staking_period: u64) -> (r: u64)
    ensures
        r == rewards_of(staked_amount, apy, staking_period as int),
{
    proof {
        assert((staked_amount as int) * (apy as int) <= (u64::MAX as int) * (u64::MAX as int))
            by (nonlinear_arith)
            requires
                staked_amount as int <= u64::MAX as int,
                apy as int <= u64::MAX as int,
                0 <= staked_amount as int,
                0 <= apy as int,
        ;
    }
    let m1: u128 = (staked_amount as u128) * (apy as u128);
    match m1.checked_mul(staking_period as u128) {
        None => {
            proof {
                lemma_huge_product_overflows(
                    (staked_amount as int) * (apy as int) * (staking_period as int),
                );
            }
            0u64
        },
        Some(product) => {
            let q: u128 = product / (REWARD_DENOMINATOR as u128);
            if q > u64::MAX as u128 {
                0u64
            } else {
                q as u64
            }
        },
    }
}

} // verus!
