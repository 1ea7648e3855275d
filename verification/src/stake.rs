//! The staking engine: per-owner stake records and the stake, claim
//! and withdraw transitions over them.
//!
//! Canonical accrual rule: every transition folds the reward earned
//! since `last_update_time` into `rewards_earned` and then advances
//! `last_update_time` to the current time, so no interval is ever
//! counted twice across interleaved stakes, claims and withdrawals.
//! Staking (and restaking) uses the pool's APY snapshot stored on the
//! record; `status` moves to `Claimed` only when the principal reaches
//! zero through a withdrawal, so that a claim that finds nothing new
//! accrued fails with `NoRewardsToClaim` rather than a status error.
use vstd::prelude::*;
use vstd::arithmetic::div_mod::lemma_div_is_ordered;
use vstd::arithmetic::div_mod::lemma_div_multiples_vanish;

use crate::errors::WUSDError;
use crate::math::SCALE;
use crate::math::calculate_rewards;
use crate::math::lemma_rewards_zero_duration;
use crate::math::rewards_of;
use crate::pubkey::Pubkey;
use crate::pubkey::pubkey_eq;
use crate::softstake::SoftStakeAccount;
use crate::softstake::SoftStakingStatus;
use crate::softstake::eq_except_claims;
use crate::softstake::key_is_zero_spec;
use crate::state::MAX_CLAIM_ENTRIES;
use crate::state::PoolStatus;
use crate::state::Role;
use crate::state::StakingConfig;
use crate::state::StakingPool;
use crate::state::StateAccount;
use crate::state::pool_with;
use crate::state::pools_have;

verus! {

broadcast use vstd::array::group_array_axioms;

/// Lifecycle of a stake record.
#[derive(Clone, Copy, Debug, PartialEq, Eq, Structural)]
pub enum StakingStatus {
    /// Principal held and accruing.
    Active,
    /// Held under an unexpired lock.
    Locked,
    /// Lock expired, principal still held.
    Unlocked,
    /// Principal fully withdrawn.
    Claimed,
}

/// How a record's principal left it.
#[derive(Clone, Copy, Debug, PartialEq, Eq, Structural)]
pub enum ClaimType {
    Unclaimed,
    Claimed,
    Emergency,
}

/// A user's stake record; one per owner, reused across repeated stakes.
#[derive(Clone, Copy, Debug)]
pub struct StakeAccount {
    pub owner: Pubkey,
    pub staking_pool_id: u64,
    pub amount: u64,
    /// APY snapshot taken from the pool at stake time, scaled by 1e9.
    pub apy: u64,
    pub start_time: i64,
    pub end_time: i64,
    pub claimable_timestamp: i64,
    pub rewards_earned: u64,
    pub status: StakingStatus,
    pub claim_type: ClaimType,
    pub apy_tier: u8,
    /// Timestamp after which another emergency withdrawal is permitted.
    pub emergency_cooldown: i64,
    pub last_update_time: i64,
}

impl StakeAccount {
    /// All recorded timestamps are non-negative, as ledger time is.
    pub open spec fn wf(self) -> bool {
        &&& 0 <= self.start_time
        &&& 0 <= self.end_time
        &&& 0 <= self.last_update_time
        &&& 0 <= self.emergency_cooldown
    }
}

/// A fresh, empty stake record owned by `owner`.
pub fn initialize_stake_account(owner: Pubkey, now: i64) -> (record: StakeAccount)
    requires
        0 <= now,
    ensures
        record.wf(),
        record == (StakeAccount {
            owner,
            staking_pool_id: 0,
            amount: 0,
            apy: 0,
            start_time: now,
            end_time: 0,
            claimable_timestamp: 0,
            rewards_earned: 0,
            status: StakingStatus::Active,
            claim_type: ClaimType::Unclaimed,
            apy_tier: 0,
            emergency_cooldown: 0,
            last_update_time: now,
        }),
{
    StakeAccount {
        owner,
        staking_pool_id: 0,
        amount: 0,
        apy: 0,
        start_time: now,
        end_time: 0,
        claimable_timestamp: 0,
        rewards_earned: 0,
        status: StakingStatus::Active,
        claim_type: ClaimType::Unclaimed,
        apy_tier: 0,
        emergency_cooldown: 0,
        last_update_time: now,
    }
}

/// The reward the record has accrued since its last update: its APY
/// snapshot applied to its principal over the elapsed seconds.
pub open spec fn pending_rewards(record: StakeAccount, now: i64) -> u64
    recommends
        record.last_update_time <= now,
{
    if record.amount > 0 {
        rewards_of(record.amount, record.apy, now - record.last_update_time)
    } else {
        0u64
    }
}

/// Which outcome `stake` reaches, in check order: pause, amount, pool
/// resolution and status, the pool's entry floor, then the three
/// checked additions.
pub open spec fn stake_check(
    state: StateAccount,
    record: StakeAccount,
    now: i64,
    amount: u64,
    staking_pool_id: u64,
) -> Result<(), WUSDError> {
    let pool = pool_with(state.staking_pools@, staking_pool_id);
    if state.paused {
        Err(WUSDError::ContractPaused)
    } else if amount == 0 {
        Err(WUSDError::InvalidAmount)
    } else if staking_pool_id == 0 || !pools_have(state.staking_pools@, staking_pool_id) {
        Err(WUSDError::InvalidPoolId)
    } else if pool.status != PoolStatus::Active {
        Err(WUSDError::InvalidPoolStatus)
    } else if amount < pool.min_stake_amount {
        Err(WUSDError::StakingAmountTooLow)
    } else if now + pool.duration > i64::MAX {
        Err(WUSDError::MathOverflow)
    } else if record.rewards_earned + pending_rewards(record, now) > u64::MAX {
        Err(WUSDError::MathOverflow)
    } else if state.staking_config.total_staked + amount > u64::MAX {
        Err(WUSDError::MathOverflow)
    } else {
        Ok(())
    }
}

/// The record after a successful stake: pending reward folded in,
/// principal and APY snapshot overwritten, clock restarted, ownership
/// claimed if the record was unowned.
pub open spec fn staked_record(
    record: StakeAccount,
    user: Pubkey,
    now: i64,
    amount: u64,
    pool: StakingPool,
) -> StakeAccount {
    StakeAccount {
        owner: if record.owner.is_zero_spec() {
            user
        } else {
            record.owner
        },
        staking_pool_id: pool.id,
        amount,
        apy: pool.apy,
        start_time: now,
        end_time: (now + pool.duration) as i64,
        rewards_earned: (record.rewards_earned + pending_rewards(record, now)) as u64,
        status: StakingStatus::Active,
        claim_type: ClaimType::Unclaimed,
        last_update_time: now,
        ..record
    }
}

/// Stakes `amount` into the pool `staking_pool_id` for `user`,
/// folding any reward the record had accrued into `rewards_earned`
/// first and adding `amount` to the registry's total.
pub fn stake(
    state: &mut StateAccount,
    record: &mut StakeAccount,
    user: &Pubkey,
    now: i64,
    amount: u64,
    staking_pool_id: u64,
) -> (r: Result<(), WUSDError>)
    requires
        old(state).wf(),
        old(record).wf(),
        old(record).last_update_time <= now,
    ensures
        final(state).wf(),
        final(record).wf(),
        r == stake_check(*old(state), *old(record), now, amount, staking_pool_id),
        r is Err ==> *final(state) == *old(state) && *final(record) == *old(record),
        r is Ok ==> *final(record) == staked_record(
            *old(record),
            *user,
            now,
            amount,
            pool_with(old(state).staking_pools@, staking_pool_id),
        ),
        r is Ok ==> *final(state) == (StateAccount {
            staking_config: StakingConfig {
                total_staked: (old(state).staking_config.total_staked + amount) as u64,
                last_update_time: now,
                ..old(state).staking_config
            },
            ..*old(state)
        }),
        r is Ok ==> final(record).rewards_earned >= old(record).rewards_earned,
{
    if state.paused {
        return Err(WUSDError::ContractPaused);
    }
    if amount == 0 {
        return Err(WUSDError::InvalidAmount);
    }
    if staking_pool_id == 0 {
        return Err(WUSDError::InvalidPoolId);
    }
    let pool = match state.get_staking_pool(staking_pool_id) {
        Ok(pool) => pool,
        Err(e) => { return Err(e) },
    };
    if !matches!(pool.status, PoolStatus::Active) {
        return Err(WUSDError::InvalidPoolStatus);
    }
    if amount < pool.min_stake_amount {
        return Err(WUSDError::StakingAmountTooLow);
    }
    let end_time = match now.checked_add(pool.duration) {
        Some(t) => t,
        None => { return Err(WUSDError::MathOverflow) },
    };
    let pending = if record.amount > 0 {
        let elapsed = now - record.last_update_time;
        calculate_rewards(record.amount, record.apy, elapsed)
    } else {
        0u64
    };
    let new_rewards = match record.rewards_earned.checked_add(pending) {
        Some(total) => total,
        None => { return Err(WUSDError::MathOverflow) },
    };
    let new_total_staked = match state.staking_config.total_staked.checked_add(amount) {
        Some(total) => total,
        None => { return Err(WUSDError::MathOverflow) },
    };
    if record.owner.is_zero() {
        record.owner = *user;
    }
    record.staking_pool_id = staking_pool_id;
    record.amount = amount;
    record.apy = pool.apy;
    record.start_time = now;
    record.end_time = end_time;
    record.rewards_earned = new_rewards;
    record.status = StakingStatus::Active;
    record.claim_type = ClaimType::Unclaimed;
    record.last_update_time = now;
    state.staking_config.total_staked = new_total_staked;
    state.staking_config.last_update_time = now;
    Ok(())
}

/// Restaking while the record still holds principal never loses a
/// previously accrued reward: the folded-in total is no smaller than
/// what stood before.
pub proof fn lemma_restake_preserves_rewards(
    record: StakeAccount,
    user: Pubkey,
    now: i64,
    amount: u64,
    pool: StakingPool,
)
    requires
        record.rewards_earned + pending_rewards(record, now) <= u64::MAX,
    ensures
        staked_record(record, user, now, amount, pool).rewards_earned >= record.rewards_earned,
{
}

/// Which outcome `claim` reaches, and the amount a successful claim
/// pays: everything already folded into the record plus the accrual
/// since its last update.
pub open spec fn claim_check(state: StateAccount, record: StakeAccount, now: i64) -> Result<
    u64,
    WUSDError,
> {
    let total = record.rewards_earned + pending_rewards(record, now);
    if state.paused {
        Err(WUSDError::ContractPaused)
    } else if record.amount == 0 {
        Err(WUSDError::InvalidAmount)
    } else if record.status != StakingStatus::Active {
        Err(WUSDError::InvalidStakingStatus)
    } else if total > u64::MAX {
        Err(WUSDError::MathOverflow)
    } else if total == 0 {
        Err(WUSDError::NoRewardsToClaim)
    } else {
        Ok(total as u64)
    }
}

/// Collects the record's accrued reward. On success the returned
/// amount is owed to the owner, the record's reward balance is zeroed
/// and its clock advanced; the principal and status are untouched, so
/// an immediate second claim fails with `NoRewardsToClaim`.
pub fn claim(state: &StateAccount, record: &mut StakeAccount, now: i64) -> (r: Result<
    u64,
    WUSDError,
>)
    requires
        old(record).wf(),
        old(record).last_update_time <= now,
    ensures
        final(record).wf(),
        r == claim_check(*state, *old(record), now),
        r is Err ==> *final(record) == *old(record),
        r is Ok ==> *final(record) == (StakeAccount {
            rewards_earned: 0,
            last_update_time: now,
            ..*old(record)
        }),
{
    if state.paused {
        return Err(WUSDError::ContractPaused);
    }
    if record.amount == 0 {
        return Err(WUSDError::InvalidAmount);
    }
    if !matches!(record.status, StakingStatus::Active) {
        return Err(WUSDError::InvalidStakingStatus);
    }
    let elapsed = now - record.last_update_time;
    let accrued = calculate_rewards(record.amount, record.apy, elapsed);
    let total = match record.rewards_earned.checked_add(accrued) {
        Some(total) => total,
        None => { return Err(WUSDError::MathOverflow) },
    };
    if total == 0 {
        return Err(WUSDError::NoRewardsToClaim);
    }
    record.rewards_earned = 0;
    record.last_update_time = now;
    Ok(total)
}

/// The emergency penalty charged on `amount` at the fraction
/// `penalty_rate` (x1e9), when the product is representable.
pub open spec fn penalty_of(amount: u64, penalty_rate: u64) -> u64
    recommends
        amount * penalty_rate <= u64::MAX,
{
    ((amount * penalty_rate) / (SCALE as int)) as u64
}

/// A penalty charged at a fraction of at most one never exceeds the
/// amount it is charged on, so the payout `amount - penalty` is a
/// well-defined value of at most `amount`.
pub proof fn lemma_emergency_penalty(amount: u64, penalty_rate: u64)
    requires
        penalty_rate <= SCALE,
        amount * penalty_rate <= u64::MAX,
    ensures
        penalty_of(amount, penalty_rate) <= amount,
        amount - penalty_of(amount, penalty_rate) <= amount,
{
    let a = amount as int;
    let r = penalty_rate as int;
    let s = SCALE as int;
    assert(a * r <= s * a) by (nonlinear_arith)
        requires
            0 <= a,
            0 <= r <= s,
    ;
    lemma_div_is_ordered(a * r, s * a, s);
    lemma_div_multiples_vanish(a, s);
}

/// Which outcome `withdraw` reaches, and on success the pair of the
/// payout owed to the owner and the penalty withheld.
pub open spec fn withdraw_check(
    state: StateAccount,
    record: StakeAccount,
    now: i64,
    amount: u64,
    is_emergency: bool,
) -> Result<(u64, u64), WUSDError> {
    let penalty = if is_emergency {
        penalty_of(amount, state.staking_config.emergency_withdraw_penalty)
    } else {
        0u64
    };
    if state.paused {
        Err(WUSDError::ContractPaused)
    } else if amount == 0 || amount > record.amount {
        Err(WUSDError::InvalidAmount)
    } else if record.status != StakingStatus::Active {
        Err(WUSDError::InvalidStakingStatus)
    } else if is_emergency && now < record.emergency_cooldown {
        Err(WUSDError::EmergencyWithdrawCooldown)
    } else if is_emergency && amount * state.staking_config.emergency_withdraw_penalty
        > u64::MAX {
        Err(WUSDError::MathOverflow)
    } else if !is_emergency && now < record.end_time {
        Err(WUSDError::StakeLocked)
    } else if record.rewards_earned + pending_rewards(record, now) > u64::MAX {
        Err(WUSDError::MathOverflow)
    } else if is_emergency && amount == record.amount && now
        + state.staking_config.emergency_cooldown_duration > i64::MAX {
        Err(WUSDError::MathOverflow)
    } else {
        Ok(((amount - penalty) as u64, penalty))
    }
}

/// The record after a successful withdrawal of `amount`.
pub open spec fn withdrawn_record(
    state: StateAccount,
    record: StakeAccount,
    now: i64,
    amount: u64,
    is_emergency: bool,
) -> StakeAccount {
    StakeAccount {
        amount: (record.amount - amount) as u64,
        rewards_earned: (record.rewards_earned + pending_rewards(record, now)) as u64,
        last_update_time: now,
        claim_type: if is_emergency {
            ClaimType::Emergency
        } else {
            ClaimType::Claimed
        },
        status: if record.amount == amount {
            StakingStatus::Claimed
        } else {
            record.status
        },
        emergency_cooldown: if is_emergency && record.amount == amount {
            (now + state.staking_config.emergency_cooldown_duration) as i64
        } else {
            record.emergency_cooldown
        },
        ..record
    }
}

/// Withdraws `amount` of the record's principal. The normal path
/// demands an expired lock; the emergency path demands an expired
/// cooldown and withholds the proportional penalty from the payout.
/// The record's principal falls by exactly `amount`, never more, and
/// the registry's `total_staked` falls by exactly the same `amount`.
pub fn withdraw(
    state: &mut StateAccount,
    record: &mut StakeAccount,
    now: i64,
    amount: u64,
    is_emergency: bool,
) -> (r: Result<(u64, u64), WUSDError>)
    requires
        old(state).wf(),
        old(record).wf(),
        0 <= now,
        old(record).last_update_time <= now,
        old(state).staking_config.total_staked >= old(record).amount,
    ensures
        final(state).wf(),
        final(record).wf(),
        r == withdraw_check(*old(state), *old(record), now, amount, is_emergency),
        r is Err ==> *final(state) == *old(state) && *final(record) == *old(record),
        r is Ok ==> *final(record) == withdrawn_record(
            *old(state),
            *old(record),
            now,
            amount,
            is_emergency,
        ),
        r is Ok ==> *final(state) == (StateAccount {
            staking_config: StakingConfig {
                total_staked: (old(state).staking_config.total_staked - amount) as u64,
                last_update_time: now,
                ..old(state).staking_config
            },
            ..*old(state)
        }),
        r is Ok ==> final(record).amount == old(record).amount - amount,
        r is Ok ==> final(state).staking_config.total_staked == old(
            state,
        ).staking_config.total_staked - amount,
        r is Ok && is_emergency ==> r->Ok_0.1 == penalty_of(
            amount,
            old(state).staking_config.emergency_withdraw_penalty,
        ) && r->Ok_0.0 == amount - r->Ok_0.1 && r->Ok_0.0 <= amount,
        r is Ok && !is_emergency ==> r->Ok_0.0 == amount && r->Ok_0.1 == 0,
{
    if state.paused {
        return Err(WUSDError::ContractPaused);
    }
    if amount == 0 || amount > record.amount {
        return Err(WUSDError::InvalidAmount);
    }
    if !matches!(record.status, StakingStatus::Active) {
        return Err(WUSDError::InvalidStakingStatus);
    }
    let mut penalty: u64 = 0;
    if is_emergency {
        if now < record.emergency_cooldown {
            return Err(WUSDError::EmergencyWithdrawCooldown);
        }
        let scaled = match amount.checked_mul(state.staking_config.emergency_withdraw_penalty) {
            Some(scaled) => scaled,
            None => { return Err(WUSDError::MathOverflow) },
        };
        penalty = scaled / SCALE;
        proof {
            lemma_emergency_penalty(amount, state.staking_config.emergency_withdraw_penalty);
        }
    } else {
        if now < record.end_time {
            return Err(WUSDError::StakeLocked);
        }
    }
    let payout = amount - penalty;
    let elapsed = now - record.last_update_time;
    let accrued = calculate_rewards(record.amount, record.apy, elapsed);
    let new_rewards = match record.rewards_earned.checked_add(accrued) {
        Some(total) => total,
        None => { return Err(WUSDError::MathOverflow) },
    };
    let new_amount = record.amount - amount;
    let mut new_cooldown = record.emergency_cooldown;
    if is_emergency && new_amount == 0 {
        new_cooldown =
        match now.checked_add(state.staking_config.emergency_cooldown_duration) {
            Some(t) => t,
            None => { return Err(WUSDError::MathOverflow) },
        };
    }
    record.amount = new_amount;
    record.rewards_earned = new_rewards;
    record.last_update_time = now;
    record.claim_type = if is_emergency {
        ClaimType::Emergency
    } else {
        ClaimType::Claimed
    };
    if new_amount == 0 {
        record.status = StakingStatus::Claimed;
    }
    record.emergency_cooldown = new_cooldown;
    state.staking_config.total_staked = state.staking_config.total_staked - amount;
    state.staking_config.last_update_time = now;
    Ok((payout, penalty))
}

/// A second claim straight after a successful one, with no time
/// elapsed and no new stake, finds nothing to pay and is rejected
/// with `NoRewardsToClaim`.
pub proof fn lemma_double_claim_rejected(state: StateAccount, record: StakeAccount, now: i64)
    requires
        record.last_update_time <= now,
        claim_check(state, record, now) is Ok,
    ensures
        claim_check(
            state,
            StakeAccount { rewards_earned: 0, last_update_time: now, ..record },
            now,
        ) == Err::<u64, WUSDError>(WUSDError::NoRewardsToClaim),
{
    let after = StakeAccount { rewards_earned: 0, last_update_time: now, ..record };
    lemma_rewards_zero_duration(after.amount, after.apy);
}

/// A per-claim staking offer, reported with its slot index.
#[derive(Clone, Copy, Debug)]
pub struct StakingPoolDetail {
    pub staking_pool_id: u64,
    pub staking_pool: StakingPool,
}

/// A user's staking plan, as reported by the plan queries.
#[derive(Clone, Copy, Debug)]
pub struct StakingPlan {
    pub min_stake_amount: u64,
    pub apy: u64,
    pub duration: i64,
    pub status: PoolStatus,
}

/// A staking plan, reported with its slot index.
#[derive(Clone, Copy, Debug)]
pub struct StakingPlanDetail {
    pub staking_plan_id: u64,
    pub staking_plan: StakingPlan,
}

/// Whether a claim record is the cooldown marker that
/// `set_terminated_plan_cooldown` writes for a terminated plan.
pub open spec fn is_cooldown_record(
    record: SoftStakeAccount,
    authority: Pubkey,
    staking_plan_id: u64,
    cooldown: i64,
    now: i64,
) -> bool {
    &&& record.owner == authority
    &&& record.staking_pool_id == staking_plan_id
    &&& record.amount == 0
    &&& record.apy == 0
    &&& record.rewards_earned == 0
    &&& record.start_time == now
    &&& record.end_time == cooldown
    &&& record.claimable_timestamp == cooldown
    &&& record.last_update_time == now
    &&& record.status == SoftStakingStatus::Active
    &&& key_is_zero_spec(record.access_key)
}

/// Which outcome `set_terminated_plan_cooldown` reaches: pause,
/// authorization, a real user, a positive cooldown, a real plan id,
/// and a free claim slot.
pub open spec fn terminated_cooldown_check(
    state: StateAccount,
    authority: Pubkey,
    user: Pubkey,
    staking_plan_id: u64,
    cooldown: i64,
) -> Result<(), WUSDError> {
    if state.paused {
        Err(WUSDError::ContractPaused)
    } else if authority != state.authority {
        Err(WUSDError::Unauthorized)
    } else if user.is_zero_spec() {
        Err(WUSDError::InvalidAddress)
    } else if cooldown <= 0 {
        Err(WUSDError::InvalidLockDuration)
    } else if staking_plan_id == 0 {
        Err(WUSDError::InvalidPoolId)
    } else if state.claims@.len() >= MAX_CLAIM_ENTRIES {
        Err(WUSDError::NoAvailableSlot)
    } else {
        Ok(())
    }
}

/// Records the cooldown of a terminated staking plan as a claim-table
/// marker entry keyed by the affected user.
pub fn set_terminated_plan_cooldown(
    state: &mut StateAccount,
    authority: &Pubkey,
    user: &Pubkey,
    staking_plan_id: u64,
    cooldown: i64,
    now: i64,
) -> (r: Result<(), WUSDError>)
    requires
        old(state).wf(),
        0 <= now,
    ensures
        final(state).wf(),
        r == terminated_cooldown_check(*old(state), *authority, *user, staking_plan_id, cooldown),
        r is Err ==> *final(state) == *old(state),
        r is Ok ==> exists|record: SoftStakeAccount|
            final(state).claims@ == old(state).claims@.push((*user, record))
                && is_cooldown_record(record, *authority, staking_plan_id, cooldown, now),
        r is Ok ==> eq_except_claims(*final(state), *old(state)),
{
    if state.paused {
        return Err(WUSDError::ContractPaused);
    }
    if !state.has_role(Role::Admin, authority) {
        return Err(WUSDError::Unauthorized);
    }
    if user.is_zero() {
        return Err(WUSDError::InvalidAddress);
    }
    if cooldown <= 0 {
        return Err(WUSDError::InvalidLockDuration);
    }
    if staking_plan_id == 0 {
        return Err(WUSDError::InvalidPoolId);
    }
    if state.claims.len() >= MAX_CLAIM_ENTRIES {
        return Err(WUSDError::NoAvailableSlot);
    }
    let record = SoftStakeAccount {
        owner: *authority,
        staking_pool_id: staking_plan_id,
        amount: 0,
        apy: 0,
        start_time: now,
        end_time: cooldown,
        claimable_timestamp: cooldown,
        rewards_earned: 0,
        status: SoftStakingStatus::Active,
        access_key: [0u8; 32],
        last_update_time: now,
    };
    state.claims.push((*user, record));
    proof {
        assert(forall|i: int| 0 <= i < 32 ==> record.access_key[i] == 0u8);
        assert(is_cooldown_record(record, *authority, staking_plan_id, cooldown, now));
        assert(state.claims@ == old(state).claims@.push((*user, record)));
    }
    Ok(())
}

/// The first claim entry recorded for `user` and `staking_plan_id`,
/// scanning the table in slot order.
pub open spec fn first_plan_cooldown(
    claims: Seq<(Pubkey, SoftStakeAccount)>,
    user: Pubkey,
    staking_plan_id: u64,
) -> Option<i64>
    decreases claims.len(),
{
    if claims.len() == 0 {
        None
    } else if claims[0].1.owner == user && claims[0].1.staking_pool_id == staking_plan_id {
        Some(claims[0].1.end_time)
    } else {
        first_plan_cooldown(claims.drop_first(), user, staking_plan_id)
    }
}

/// The cooldown recorded for a user's terminated plan, or
/// `InvalidStakingPlan` when none is recorded.
pub fn get_terminated_plan_cooldown(
    state: &StateAccount,
    user: &Pubkey,
    staking_plan_id: u64,
) -> (r: Result<i64, WUSDError>)
    ensures
        r == if staking_plan_id == 0 {
            Err::<i64, WUSDError>(WUSDError::InvalidPoolId)
        } else {
            match first_plan_cooldown(state.claims@, *user, staking_plan_id) {
                Some(cooldown) => Ok::<i64, WUSDError>(cooldown),
                None => Err::<i64, WUSDError>(WUSDError::InvalidStakingPlan),
            }
        },
{
    if staking_plan_id == 0 {
        return Err(WUSDError::InvalidPoolId);
    }
    let n = state.claims.len();
    proof {
        assert(state.claims@.skip(0) =~= state.claims@);
    }
    let mut i: usize = 0;
    while i < n
        invariant
            0 <= i <= n,
            n == state.claims@.len(),
            staking_plan_id != 0,
            first_plan_cooldown(state.claims@, *user, staking_plan_id) == first_plan_cooldown(
                state.claims@.skip(i as int),
                *user,
                staking_plan_id,
            ),
        decreases n - i,
    {
        let entry = &state.claims[i];
        proof {
            assert(state.claims@.skip(i as int)[0] == state.claims@[i as int]);
            assert(state.claims@.skip(i as int).drop_first() =~= state.claims@.skip(i as int + 1));
        }
        if pubkey_eq(&entry.1.owner, user) && entry.1.staking_pool_id == staking_plan_id {
            proof {
                assert(first_plan_cooldown(state.claims@.skip(i as int), *user, staking_plan_id)
                    == Some(state.claims@[i as int].1.end_time));
            }
            return Ok(entry.1.end_time);
        }
        i = i + 1;
    }
    proof {
        assert(state.claims@.skip(n as int) =~= Seq::<(Pubkey, SoftStakeAccount)>::empty());
    }
    Err(WUSDError::InvalidStakingPlan)
}

/// The pool detail reported for an active claim slot.
pub open spec fn pool_detail_of(index: int, record: SoftStakeAccount) -> StakingPoolDetail {
    StakingPoolDetail {
        staking_pool_id: index as u64,
        staking_pool: StakingPool {
            id: index as u64,
            apy: record.apy,
            duration: (record.end_time - record.start_time) as i64,
            min_stake_amount: record.amount,
            status: PoolStatus::Active,
        },
    }
}

/// The active-claim pool details from slot `i` to the end of the
/// table, in slot order.
pub open spec fn general_staking_from(
    claims: Seq<(Pubkey, SoftStakeAccount)>,
    i: int,
) -> Seq<StakingPoolDetail>
    decreases claims.len() - i,
{
    if i < 0 || i >= claims.len() {
        Seq::empty()
    } else if claims[i].1.status == SoftStakingStatus::Active {
        seq![pool_detail_of(i, claims[i].1)] + general_staking_from(claims, i + 1)
    } else {
        general_staking_from(claims, i + 1)
    }
}

/// Reports every active claim slot as a staking-pool detail.
pub fn get_general_staking(state: &StateAccount) -> (r: Result<Vec<StakingPoolDetail>, WUSDError>)
    requires
        state.wf(),
    ensures
        r is Ok,
        r->Ok_0@ == general_staking_from(state.claims@, 0),
{
    let mut details: Vec<StakingPoolDetail> = Vec::new();
    let n = state.claims.len();
    let mut i: usize = 0;
    while i < n
        invariant
            state.wf(),
            0 <= i <= n,
            n == state.claims@.len(),
            details@ + general_staking_from(state.claims@, i as int) == general_staking_from(
                state.claims@,
                0,
            ),
        decreases n - i,
    {
        let entry = &state.claims[i];
        let ghost before = details@;
        if matches!(entry.1.status, SoftStakingStatus::Active) {
            proof {
                assert(state.claims@[i as int].1.wf());
            }
            details.push(
                StakingPoolDetail {
                    staking_pool_id: i as u64,
                    staking_pool: StakingPool {
                        id: i as u64,
                        apy: entry.1.apy,
                        duration: entry.1.end_time - entry.1.start_time,
                        min_stake_amount: entry.1.amount,
                        status: PoolStatus::Active,
                    },
                },
            );
            proof {
                assert(details@.last() == pool_detail_of(i as int, state.claims@[i as int].1));
                assert(details@ + general_staking_from(state.claims@, i as int + 1)
                    =~= before + general_staking_from(state.claims@, i as int));
            }
        } else {
            proof {
                assert(details@ + general_staking_from(state.claims@, i as int + 1)
                    =~= before + general_staking_from(state.claims@, i as int));
            }
        }
        i = i + 1;
    }
    proof {
        assert(general_staking_from(state.claims@, n as int) =~= Seq::<StakingPoolDetail>::empty());
        assert(details@ =~= details@ + general_staking_from(state.claims@, n as int));
    }
    Ok(details)
}

/// The pool stored at table index `staking_pool_id`, or
/// `InvalidPoolId` when the index is out of range.
pub fn get_staking_pool_details(state: &StateAccount, staking_pool_id: u64) -> (r: Result<
    StakingPool,
    WUSDError,
>)
    ensures
        r == if staking_pool_id < state.staking_pools@.len() {
            Ok::<StakingPool, WUSDError>(state.staking_pools@[staking_pool_id as int])
        } else {
            Err::<StakingPool, WUSDError>(WUSDError::InvalidPoolId)
        },
{
    if staking_pool_id >= state.staking_pools.len() as u64 {
        return Err(WUSDError::InvalidPoolId);
    }
    Ok(state.staking_pools[staking_pool_id as usize])
}

/// The plan detail reported for a claim slot owned by the queried
/// user.
pub open spec fn plan_detail_of(index: int, record: SoftStakeAccount) -> StakingPlanDetail {
    StakingPlanDetail {
        staking_plan_id: index as u64,
        staking_plan: StakingPlan {
            min_stake_amount: record.amount,
            apy: record.apy,
            duration: (record.end_time - record.start_time) as i64,
            status: PoolStatus::Active,
        },
    }
}

/// The plan details of `user`'s claim slots from slot `i` to the end
/// of the table, in slot order.
pub open spec fn user_plans_from(
    claims: Seq<(Pubkey, SoftStakeAccount)>,
    user: Pubkey,
    i: int,
) -> Seq<StakingPlanDetail>
    decreases claims.len() - i,
{
    if i < 0 || i >= claims.len() {
        Seq::empty()
    } else if claims[i].1.owner == user {
        seq![plan_detail_of(i, claims[i].1)] + user_plans_from(claims, user, i + 1)
    } else {
        user_plans_from(claims, user, i + 1)
    }
}

/// Reports every claim slot owned by `user` as a staking-plan detail.
pub fn get_user_staking_plans(state: &StateAccount, user: &Pubkey) -> (r: Result<
    Vec<StakingPlanDetail>,
    WUSDError,
>)
    requires
        state.wf(),
    ensures
        r is Ok,
        r->Ok_0@ == user_plans_from(state.claims@, *user, 0),
{
    let mut user_plans: Vec<StakingPlanDetail> = Vec::new();
    let n = state.claims.len();
    let mut i: usize = 0;
    while i < n
        invariant
            state.wf(),
            0 <= i <= n,
            n == state.claims@.len(),
            user_plans@ + user_plans_from(state.claims@, *user, i as int) == user_plans_from(
                state.claims@,
                *user,
                0,
            ),
        decreases n - i,
    {
        let entry = &state.claims[i];
        let ghost before = user_plans@;
        if pubkey_eq(&entry.1.owner, user) {
            proof {
                assert(state.claims@[i as int].1.wf());
            }
            user_plans.push(
                StakingPlanDetail {
                    staking_plan_id: i as u64,
                    staking_plan: StakingPlan {
                        min_stake_amount: entry.1.amount,
                        apy: entry.1.apy,
                        duration: entry.1.end_time - entry.1.start_time,
                        status: PoolStatus::Active,
                    },
                },
            );
            proof {
                assert(user_plans@.last() == plan_detail_of(i as int, state.claims@[i as int].1));
                assert(user_plans@ + user_plans_from(state.claims@, *user, i as int + 1)
                    =~= before + user_plans_from(state.claims@, *user, i as int));
            }
        } else {
            proof {
                assert(user_plans@ + user_plans_from(state.claims@, *user, i as int + 1)
                    =~= before + user_plans_from(state.claims@, *user, i as int));
            }
        }
        i = i + 1;
    }
    proof {
        assert(user_plans_from(state.claims@, *user, n as int) =~= Seq::<
            StakingPlanDetail,
        >::empty());
        assert(user_plans@ =~= user_plans@ + user_plans_from(state.claims@, *user, n as int));
    }
    Ok(user_plans)
}

/// All registry fields but the staking-pool table agree.
pub open spec fn eq_except_pools(a: StateAccount, b: StateAccount) -> bool {
    &&& a.authority == b.authority
    &&& a.token_config == b.token_config
    &&& a.staking_config == b.staking_config
    &&& a.paused == b.paused
    &&& a.token_whitelist@ == b.token_whitelist@
    &&& a.exchange_rates@ == b.exchange_rates@
    &&& a.claims@ == b.claims@
    &&& a.owners@ == b.owners@
}

/// Which outcome `update_pool_duration` reaches: pause,
/// authorization, a positive duration, then pool resolution.
pub open spec fn update_pool_duration_check(
    state: StateAccount,
    authority: Pubkey,
    pool_id: u64,
    new_duration: i64,
) -> Result<(), WUSDError> {
    if state.paused {
        Err(WUSDError::ContractPaused)
    } else if authority != state.authority {
        Err(WUSDError::Unauthorized)
    } else if new_duration <= 0 {
        Err(WUSDError::InvalidLockDuration)
    } else if !pools_have(state.staking_pools@, pool_id) {
        Err(WUSDError::InvalidPoolId)
    } else {
        Ok(())
    }
}

/// Sets the lock duration of the pool registered under `pool_id`;
/// only the authority may, and only to a positive number of seconds.
pub fn update_pool_duration(
    state: &mut StateAccount,
    authority: &Pubkey,
    pool_id: u64,
    new_duration: i64,
) -> (r: Result<(), WUSDError>)
    requires
        old(state).wf(),
    ensures
        final(state).wf(),
        r == update_pool_duration_check(*old(state), *authority, pool_id, new_duration),
        r is Err ==> *final(state) == *old(state),
        r is Ok ==> exists|i: int|
            0 <= i < old(state).staking_pools@.len() && old(state).staking_pools@[i].id == pool_id
                && final(state).staking_pools@ == old(state).staking_pools@.update(
                i,
                (StakingPool { duration: new_duration, ..old(state).staking_pools@[i] }),
            ),
        r is Ok ==> eq_except_pools(*final(state), *old(state)),
{
    if state.paused {
        return Err(WUSDError::ContractPaused);
    }
    if !state.has_role(Role::Admin, authority) {
        return Err(WUSDError::Unauthorized);
    }
    if new_duration <= 0 {
        return Err(WUSDError::InvalidLockDuration);
    }
    let n = state.staking_pools.len();
    let mut i: usize = 0;
    while i < n
        invariant
            *state == *old(state),
            old(state).wf(),
            0 <= i <= n,
            n == state.staking_pools@.len(),
            0 < new_duration,
            !old(state).paused,
            *authority == old(state).authority,
            forall|j: int| 0 <= j < i ==> state.staking_pools@[j].id != pool_id,
        decreases n - i,
    {
        let pool = state.staking_pools[i];
        if pool.id == pool_id {
            proof {
                assert(old(state).staking_pools@[i as int].id == pool_id);
                assert(pools_have(old(state).staking_pools@, pool_id));
            }
            let updated = StakingPool { duration: new_duration, ..pool };
            state.staking_pools.set(i, updated);
            proof {
                assert(state.staking_pools@ == old(state).staking_pools@.update(
                    i as int,
                    (StakingPool { duration: new_duration, ..old(state).staking_pools@[i as int] }),
                ));
                let old_ps = old(state).staking_pools@;
                let new_ps = state.staking_pools@;
                assert forall|p: int, q: int|
                    0 <= p < q < new_ps.len() implies new_ps[p].id != new_ps[q].id by {
                    assert(old_ps[p].id != old_ps[q].id);
                    assert(new_ps[p].id == old_ps[p].id);
                    assert(new_ps[q].id == old_ps[q].id);
                }
            }
            return Ok(());
        }
        i = i + 1;
    }
    Err(WUSDError::InvalidPoolId)
}

} // verus!
