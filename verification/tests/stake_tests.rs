use wusd_core::errors::WUSDError;
use wusd_core::pubkey::Pubkey;
use wusd_core::pubkey::pubkey_eq;
use wusd_core::stake::ClaimType;
use wusd_core::stake::StakingStatus;
use wusd_core::stake::claim;
use wusd_core::stake::get_general_staking;
use wusd_core::stake::get_staking_pool_details;
use wusd_core::stake::get_terminated_plan_cooldown;
use wusd_core::stake::get_user_staking_plans;
use wusd_core::stake::initialize_stake_account;
use wusd_core::stake::set_terminated_plan_cooldown;
use wusd_core::stake::stake;
use wusd_core::stake::update_pool_duration;
use wusd_core::stake::withdraw;
use wusd_core::state::StateAccount;
use wusd_core::state::initialize;

fn pk(n: u8) -> Pubkey {
    Pubkey { bytes: [n; 32] }
}

fn fresh_state() -> StateAccount {
    initialize(pk(1), pk(2), pk(3), pk(4), 9, 1_000)
}

const YEAR: i64 = 31_536_000;

#[test]
fn stake_records_principal_and_total() {
    let mut state = fresh_state();
    let mut record = initialize_stake_account(pk(10), 1_000);
    assert_eq!(stake(&mut state, &mut record, &pk(10), 1_000, 1_000_000_000, 1), Ok(()));
    assert_eq!(record.amount, 1_000_000_000);
    assert_eq!(record.apy, 500_000_000);
    assert_eq!(record.start_time, 1_000);
    assert_eq!(record.end_time, 1_000 + YEAR);
    assert_eq!(record.rewards_earned, 0);
    assert!(matches!(record.status, StakingStatus::Active));
    assert!(matches!(record.claim_type, ClaimType::Unclaimed));
    assert_eq!(state.staking_config.total_staked, 1_000_000_000);
    assert_eq!(state.staking_config.last_update_time, 1_000);
}

#[test]
fn stake_claims_ownership_of_unowned_record() {
    let mut state = fresh_state();
    let mut record = initialize_stake_account(Pubkey::zero(), 1_000);
    assert_eq!(stake(&mut state, &mut record, &pk(10), 1_000, 200_000_000, 1), Ok(()));
    assert!(pubkey_eq(&record.owner, &pk(10)));
}

#[test]
fn stake_rejections() {
    let mut state = fresh_state();
    let mut record = initialize_stake_account(pk(10), 1_000);
    assert_eq!(
        stake(&mut state, &mut record, &pk(10), 1_000, 0, 1),
        Err(WUSDError::InvalidAmount)
    );
    assert_eq!(
        stake(&mut state, &mut record, &pk(10), 1_000, 1_000_000_000, 0),
        Err(WUSDError::InvalidPoolId)
    );
    assert_eq!(
        stake(&mut state, &mut record, &pk(10), 1_000, 1_000_000_000, 7),
        Err(WUSDError::InvalidPoolId)
    );
    // Below the pool's entry floor of 100_000_000.
    assert_eq!(
        stake(&mut state, &mut record, &pk(10), 1_000, 99_999_999, 1),
        Err(WUSDError::StakingAmountTooLow)
    );
    state.paused = true;
    assert_eq!(
        stake(&mut state, &mut record, &pk(10), 1_000, 1_000_000_000, 1),
        Err(WUSDError::ContractPaused)
    );
    state.paused = false;
    // A paused pool is not stakeable.
    let mut paused_pool = state.staking_pools[0];
    paused_pool.id = 2;
    paused_pool.status = wusd_core::state::PoolStatus::Paused;
    state.staking_pools.push(paused_pool);
    assert_eq!(
        stake(&mut state, &mut record, &pk(10), 1_000, 1_000_000_000, 2),
        Err(WUSDError::InvalidPoolStatus)
    );
    // The lock end must stay representable.
    assert_eq!(
        stake(&mut state, &mut record, &pk(10), i64::MAX - 10, 1_000_000_000, 1),
        Err(WUSDError::MathOverflow)
    );
    assert_eq!(record.amount, 0);
    assert_eq!(state.staking_config.total_staked, 0);
}

// Restaking while principal is held folds the pending reward in
// first: the reward balance never decreases.
#[test]
fn restake_preserves_accrued_rewards() {
    let mut state = fresh_state();
    let mut record = initialize_stake_account(pk(10), 1_000);
    assert_eq!(stake(&mut state, &mut record, &pk(10), 1_000, 1_000_000_000, 1), Ok(()));
    let before = record.rewards_earned;
    assert_eq!(
        stake(&mut state, &mut record, &pk(10), 1_000 + YEAR, 200_000_000, 1),
        Ok(())
    );
    assert!(record.rewards_earned >= before);
    assert_eq!(record.rewards_earned, 500_000_000);
    assert_eq!(record.amount, 200_000_000);
    assert_eq!(state.staking_config.total_staked, 1_200_000_000);
}

// The reference scenario: stake 1_000_000_000 into the default pool
// (rate 500_000_000 x1e9, duration one year); after exactly one year
// the claim pays exactly 500_000_000.
#[test]
fn claim_after_one_year_pays_the_snapshot_rate() {
    let mut state = fresh_state();
    let mut record = initialize_stake_account(pk(10), 1_000);
    assert_eq!(stake(&mut state, &mut record, &pk(10), 1_000, 1_000_000_000, 1), Ok(()));
    let paid = claim(&state, &mut record, 1_000 + YEAR).unwrap();
    assert_eq!(paid, 500_000_000);
    assert_eq!(record.rewards_earned, 0);
    assert_eq!(record.last_update_time, 1_000 + YEAR);
    assert!(matches!(record.status, StakingStatus::Active));
}

// A second claim with no time elapsed finds nothing to pay.
#[test]
fn double_claim_is_rejected() {
    let mut state = fresh_state();
    let mut record = initialize_stake_account(pk(10), 1_000);
    assert_eq!(stake(&mut state, &mut record, &pk(10), 1_000, 1_000_000_000, 1), Ok(()));
    assert_eq!(claim(&state, &mut record, 1_000 + YEAR), Ok(500_000_000));
    assert_eq!(
        claim(&state, &mut record, 1_000 + YEAR),
        Err(WUSDError::NoRewardsToClaim)
    );
    state.paused = true;
    assert_eq!(
        claim(&state, &mut record, 1_000 + YEAR),
        Err(WUSDError::ContractPaused)
    );
}

#[test]
fn claim_rejections() {
    let state = fresh_state();
    let mut record = initialize_stake_account(pk(10), 1_000);
    assert_eq!(claim(&state, &mut record, 2_000), Err(WUSDError::InvalidAmount));
    record.amount = 1_000_000_000;
    record.status = StakingStatus::Claimed;
    assert_eq!(claim(&state, &mut record, 2_000), Err(WUSDError::InvalidStakingStatus));
}

// A matured withdrawal pays the full amount; the principal falls by
// exactly the requested amount and so does the registry total.
#[test]
fn withdraw_after_lock_pays_in_full() {
    let mut state = fresh_state();
    let mut record = initialize_stake_account(pk(10), 1_000);
    assert_eq!(stake(&mut state, &mut record, &pk(10), 1_000, 1_000_000_000, 1), Ok(()));
    let now = 1_000 + YEAR;
    let (payout, penalty) = withdraw(&mut state, &mut record, now, 400_000_000, false).unwrap();
    assert_eq!((payout, penalty), (400_000_000, 0));
    assert_eq!(record.amount, 600_000_000);
    assert_eq!(state.staking_config.total_staked, 600_000_000);
    assert!(matches!(record.claim_type, ClaimType::Claimed));
    assert!(matches!(record.status, StakingStatus::Active));
    // Withdrawing the rest closes the record.
    let (payout, penalty) = withdraw(&mut state, &mut record, now, 600_000_000, false).unwrap();
    assert_eq!((payout, penalty), (600_000_000, 0));
    assert_eq!(record.amount, 0);
    assert_eq!(state.staking_config.total_staked, 0);
    assert!(matches!(record.status, StakingStatus::Claimed));
}

// The emergency path always satisfies payout = amount - penalty with
// penalty = floor(amount * penalty_rate / 1e9), and payout <= amount.
#[test]
fn emergency_withdraw_charges_the_penalty() {
    let mut state = fresh_state();
    let mut record = initialize_stake_account(pk(10), 1_000);
    assert_eq!(stake(&mut state, &mut record, &pk(10), 1_000, 1_000_000_000, 1), Ok(()));
    let (payout, penalty) = withdraw(&mut state, &mut record, 1_000, 1_000_000_000, true).unwrap();
    assert_eq!(penalty, 500_000);
    assert_eq!(payout, 1_000_000_000 - 500_000);
    assert!(payout <= 1_000_000_000);
    assert_eq!(record.amount, 0);
    assert_eq!(state.staking_config.total_staked, 0);
    assert!(matches!(record.claim_type, ClaimType::Emergency));
    assert!(matches!(record.status, StakingStatus::Claimed));
    // Emptying the record arms a fresh cooldown.
    assert_eq!(record.emergency_cooldown, 1_000 + 86_400);
}

#[test]
fn emergency_withdraw_respects_the_cooldown() {
    let mut state = fresh_state();
    let mut record = initialize_stake_account(pk(10), 1_000);
    assert_eq!(stake(&mut state, &mut record, &pk(10), 1_000, 1_000_000_000, 1), Ok(()));
    assert!(withdraw(&mut state, &mut record, 1_000, 1_000_000_000, true).is_ok());
    // Restake, then try another emergency exit before the cooldown.
    assert_eq!(stake(&mut state, &mut record, &pk(10), 2_000, 1_000_000_000, 1), Ok(()));
    assert_eq!(
        withdraw(&mut state, &mut record, 2_000, 1_000_000_000, true),
        Err(WUSDError::EmergencyWithdrawCooldown)
    );
    // Once the cooldown has passed, the exit is allowed again.
    assert!(withdraw(&mut state, &mut record, 1_000 + 86_400, 1_000_000_000, true).is_ok());
}

#[test]
fn withdraw_rejections() {
    let mut state = fresh_state();
    let mut record = initialize_stake_account(pk(10), 1_000);
    assert_eq!(stake(&mut state, &mut record, &pk(10), 1_000, 1_000_000_000, 1), Ok(()));
    assert_eq!(
        withdraw(&mut state, &mut record, 2_000, 0, false),
        Err(WUSDError::InvalidAmount)
    );
    assert_eq!(
        withdraw(&mut state, &mut record, 2_000, 1_000_000_001, false),
        Err(WUSDError::InvalidAmount)
    );
    // The lock has not expired yet.
    assert_eq!(
        withdraw(&mut state, &mut record, 2_000, 1_000_000_000, false),
        Err(WUSDError::StakeLocked)
    );
    state.paused = true;
    assert_eq!(
        withdraw(&mut state, &mut record, 2_000, 1_000_000_000, false),
        Err(WUSDError::ContractPaused)
    );
    state.paused = false;
    record.status = StakingStatus::Claimed;
    assert_eq!(
        withdraw(&mut state, &mut record, 2_000, 1_000_000_000, false),
        Err(WUSDError::InvalidStakingStatus)
    );
}

// A penalty product beyond 64 bits is reported, not silently wrapped.
#[test]
fn emergency_penalty_overflow_is_reported() {
    let mut state = fresh_state();
    let mut record = initialize_stake_account(pk(10), 1_000);
    assert_eq!(stake(&mut state, &mut record, &pk(10), 1_000, u64::MAX, 1), Ok(()));
    assert_eq!(
        withdraw(&mut state, &mut record, 1_000, u64::MAX, true),
        Err(WUSDError::MathOverflow)
    );
    assert_eq!(record.amount, u64::MAX);
}

#[test]
fn terminated_plan_cooldown_round_trip() {
    let mut state = fresh_state();
    assert_eq!(
        set_terminated_plan_cooldown(&mut state, &pk(1), &pk(10), 5, 7_200, 1_000),
        Ok(())
    );
    assert_eq!(get_terminated_plan_cooldown(&state, &pk(1), 5), Ok(7_200));
    assert_eq!(
        get_terminated_plan_cooldown(&state, &pk(1), 6),
        Err(WUSDError::InvalidStakingPlan)
    );
    assert_eq!(
        get_terminated_plan_cooldown(&state, &pk(1), 0),
        Err(WUSDError::InvalidPoolId)
    );
}

#[test]
fn terminated_plan_cooldown_rejections() {
    let mut state = fresh_state();
    assert_eq!(
        set_terminated_plan_cooldown(&mut state, &pk(9), &pk(10), 5, 7_200, 1_000),
        Err(WUSDError::Unauthorized)
    );
    assert_eq!(
        set_terminated_plan_cooldown(&mut state, &pk(1), &Pubkey::zero(), 5, 7_200, 1_000),
        Err(WUSDError::InvalidAddress)
    );
    assert_eq!(
        set_terminated_plan_cooldown(&mut state, &pk(1), &pk(10), 5, 0, 1_000),
        Err(WUSDError::InvalidLockDuration)
    );
    assert_eq!(
        set_terminated_plan_cooldown(&mut state, &pk(1), &pk(10), 0, 7_200, 1_000),
        Err(WUSDError::InvalidPoolId)
    );
    assert!(state.claims.is_empty());
}

#[test]
fn staking_plan_queries_report_claim_slots() {
    let mut state = fresh_state();
    assert_eq!(
        set_terminated_plan_cooldown(&mut state, &pk(1), &pk(10), 5, 7_200, 1_000),
        Ok(())
    );
    let pools = get_general_staking(&state).unwrap();
    assert_eq!(pools.len(), 1);
    assert_eq!(pools[0].staking_pool_id, 0);
    assert_eq!(pools[0].staking_pool.duration, 7_200 - 1_000);
    // The marker entry's record is owned by the provisioning
    // authority, so the plans query finds it under that identity.
    let plans = get_user_staking_plans(&state, &pk(1)).unwrap();
    assert_eq!(plans.len(), 1);
    assert_eq!(plans[0].staking_plan_id, 0);
    assert!(get_user_staking_plans(&state, &pk(10)).unwrap().is_empty());
}

#[test]
fn pool_details_by_index() {
    let state = fresh_state();
    let pool = get_staking_pool_details(&state, 0).unwrap();
    assert_eq!(pool.id, 1);
    assert_eq!(
        get_staking_pool_details(&state, 1).unwrap_err(),
        WUSDError::InvalidPoolId
    );
}

#[test]
fn pool_duration_update() {
    let mut state = fresh_state();
    assert_eq!(update_pool_duration(&mut state, &pk(1), 1, 7_200), Ok(()));
    assert_eq!(state.staking_pools[0].duration, 7_200);
    assert_eq!(
        update_pool_duration(&mut state, &pk(9), 1, 7_200),
        Err(WUSDError::Unauthorized)
    );
    assert_eq!(
        update_pool_duration(&mut state, &pk(1), 1, 0),
        Err(WUSDError::InvalidLockDuration)
    );
    assert_eq!(
        update_pool_duration(&mut state, &pk(1), 9, 7_200),
        Err(WUSDError::InvalidPoolId)
    );
}
