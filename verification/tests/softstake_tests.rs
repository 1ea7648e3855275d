use ed25519_dalek::Signer;
use wusd_core::errors::WUSDError;
use wusd_core::pubkey::Pubkey;
use wusd_core::softstake::ClaimDataInput;
use wusd_core::softstake::SoftStakingStatus;
use wusd_core::softstake::calculate_soft_stake_rewards;
use wusd_core::softstake::claims;
use wusd_core::softstake::create_claim_data;
use wusd_core::softstake::create_claim_data_multiple;
use wusd_core::softstake::execute;
use wusd_core::softstake::initialize_soft_stake_account;
use wusd_core::softstake::soft_claim;
use wusd_core::softstake::soft_stake;
use wusd_core::softstake::update_soft_stake;
use wusd_core::softstake::update_soft_stake_rewards;
use wusd_core::softstake::update_soft_stake_status;
use wusd_core::softstake::validate_soft_stake;
use wusd_core::softstake::verify_signature;
use wusd_core::softstake::SoftStakeRewards;
use wusd_core::state::StateAccount;
use wusd_core::state::initialize;

fn pk(n: u8) -> Pubkey {
    Pubkey { bytes: [n; 32] }
}

fn fresh_state() -> StateAccount {
    initialize(pk(1), pk(2), pk(3), pk(4), 9, 1_000)
}

const YEAR: i64 = 31_536_000;

#[test]
fn soft_stake_records_principal() {
    let mut state = fresh_state();
    let mut record = initialize_soft_stake_account(pk(10), 1_000);
    assert_eq!(
        soft_stake(&mut state, &mut record, &pk(10), 1_000, 1_000_000_000, 1, [7u8; 32], true),
        Ok(())
    );
    assert_eq!(record.amount, 1_000_000_000);
    assert_eq!(record.apy, 500_000_000);
    assert_eq!(record.access_key, [7u8; 32]);
    assert_eq!(record.end_time, 1_000 + YEAR);
    assert!(matches!(record.status, SoftStakingStatus::Active));
    assert_eq!(state.staking_config.total_staked, 1_000_000_000);
}

#[test]
fn soft_stake_demands_a_verified_key() {
    let mut state = fresh_state();
    let mut record = initialize_soft_stake_account(pk(10), 1_000);
    assert_eq!(
        soft_stake(&mut state, &mut record, &pk(10), 1_000, 1_000_000_000, 1, [7u8; 32], false),
        Err(WUSDError::InvalidSignatureError)
    );
    assert_eq!(
        soft_stake(&mut state, &mut record, &pk(10), 1_000, 1_000_000_000, 1, [0u8; 32], true),
        Err(WUSDError::InvalidAccessKey)
    );
    assert_eq!(record.amount, 0);
    assert_eq!(state.staking_config.total_staked, 0);
}

// The soft claim accrues at the global reward rate: 1_000_000_000
// staked at rate 100_000 (x1e9) for 10_000 seconds pays exactly
// 1_000_000_000 * 100_000 * 10_000 / 1e9 = 1_000_000_000.
#[test]
fn soft_claim_pays_the_reward_rate_accrual() {
    let mut state = fresh_state();
    let mut record = initialize_soft_stake_account(pk(10), 1_000);
    assert_eq!(
        soft_stake(&mut state, &mut record, &pk(10), 1_000, 1_000_000_000, 1, [7u8; 32], true),
        Ok(())
    );
    let paid = soft_claim(&state, &mut record, 11_000).unwrap();
    assert_eq!(paid, 1_000_000_000);
    assert_eq!(record.rewards_earned, 0);
    assert_eq!(record.last_update_time, 11_000);
    assert!(matches!(record.status, SoftStakingStatus::Claimed));
    // Nothing new has accrued, so claiming again finds nothing.
    assert_eq!(soft_claim(&state, &mut record, 11_000), Err(WUSDError::NoRewardsToClaim));
}

#[test]
fn soft_claim_when_paused_is_rejected() {
    let mut state = fresh_state();
    let mut record = initialize_soft_stake_account(pk(10), 1_000);
    state.paused = true;
    assert_eq!(soft_claim(&state, &mut record, 2_000), Err(WUSDError::ContractPaused));
}

// Base is the APY reward, bonus the reward-rate accrual; on
// 1_000_000_000 over one year at APY 500_000_000 and rate 2 the base
// is 500_000_000 and the bonus 1e9 * 2 * 31_536_000 / 1e9 =
// 63_072_000.
#[test]
fn soft_stake_rewards_formula() {
    let rewards = calculate_soft_stake_rewards(1_000_000_000, 500_000_000, YEAR, 2, 42).unwrap();
    assert_eq!(rewards.base_rewards, 500_000_000);
    assert_eq!(rewards.bonus_rewards, 63_072_000);
    assert_eq!(rewards.total_rewards, 563_072_000);
    assert_eq!(rewards.last_update_time, 42);
}

#[test]
fn soft_stake_rewards_overflow_is_reported() {
    assert_eq!(
        calculate_soft_stake_rewards(u64::MAX, 0, 1, 2, 42),
        Err(WUSDError::ArithmeticOverflow)
    );
}

#[test]
fn soft_stake_updates() {
    let mut record = initialize_soft_stake_account(pk(10), 1_000);
    assert_eq!(update_soft_stake_status(&mut record, SoftStakingStatus::Claimable), Ok(()));
    assert!(matches!(record.status, SoftStakingStatus::Claimable));
    assert_eq!(update_soft_stake_rewards(&mut record, 77), Ok(()));
    assert_eq!(record.rewards_earned, 77);
    let rewards = SoftStakeRewards {
        base_rewards: 5,
        bonus_rewards: 6,
        total_rewards: 11,
        last_update_time: 2_000,
    };
    assert_eq!(update_soft_stake(&mut record, SoftStakingStatus::Claimed, Some(rewards)), Ok(()));
    assert_eq!(record.rewards_earned, 11);
    assert_eq!(record.last_update_time, 2_000);
    assert!(matches!(record.status, SoftStakingStatus::Claimed));
}

#[test]
fn soft_stake_validation() {
    let state = fresh_state();
    let mut record = initialize_soft_stake_account(pk(10), 1_000);
    record.staking_pool_id = 1;
    assert_eq!(validate_soft_stake(&record, &state), Ok(()));
    record.staking_pool_id = 9;
    assert_eq!(validate_soft_stake(&record, &state), Err(WUSDError::InvalidPoolId));
    record.status = SoftStakingStatus::Claimed;
    assert_eq!(validate_soft_stake(&record, &state), Err(WUSDError::InvalidStakingStatus));
}

#[test]
fn claim_data_provisioning() {
    let mut state = fresh_state();
    assert_eq!(
        create_claim_data(&mut state, &pk(1), &pk(10), 5_000, 77, [9u8; 32], 1_000),
        Ok(())
    );
    assert_eq!(state.claims.len(), 1);
    let (slot, record) = state.claims[0];
    assert_eq!(slot.bytes, pk(1).bytes);
    assert_eq!(record.owner.bytes, pk(10).bytes);
    assert_eq!(record.amount, 77);
    assert_eq!(record.claimable_timestamp, 5_000);
    assert_eq!(
        create_claim_data(&mut state, &pk(1), &Pubkey::zero(), 5_000, 77, [9u8; 32], 1_000),
        Err(WUSDError::InvalidAddress)
    );
    assert_eq!(
        create_claim_data(&mut state, &pk(1), &pk(10), 5_000, 0, [9u8; 32], 1_000),
        Err(WUSDError::InvalidAmount)
    );
}

#[test]
fn claim_table_capacity_is_sixteen() {
    let mut state = fresh_state();
    for i in 0..16u8 {
        assert_eq!(
            create_claim_data(&mut state, &pk(1), &pk(100 + i), 5_000, 77, [9u8; 32], 1_000),
            Ok(())
        );
    }
    assert_eq!(
        create_claim_data(&mut state, &pk(1), &pk(200), 5_000, 77, [9u8; 32], 1_000),
        Err(WUSDError::NoAvailableSlot)
    );
    assert_eq!(state.claims.len(), 16);
}

#[test]
fn batch_claim_provisioning_is_all_or_nothing() {
    let mut state = fresh_state();
    let input = |n: u8| ClaimDataInput {
        account: pk(n),
        claimable_timestamp: 5_000,
        amount: 10,
        access_key: [n; 32],
    };
    let batch: Vec<ClaimDataInput> = (0..15u8).map(input).collect();
    assert_eq!(create_claim_data_multiple(&mut state, &pk(1), batch, 1_000), Ok(()));
    assert_eq!(state.claims.len(), 15);
    // Two more entries would overflow the table: nothing is committed.
    let overflowing: Vec<ClaimDataInput> = (20..22u8).map(input).collect();
    assert_eq!(
        create_claim_data_multiple(&mut state, &pk(1), overflowing, 1_000),
        Err(WUSDError::NoAvailableSlot)
    );
    assert_eq!(state.claims.len(), 15);
}

#[test]
fn batch_claims_collect_nothing_from_placeholders() {
    let state = fresh_state();
    assert_eq!(claims(&state, &pk(10), vec![[1u8; 32], [2u8; 32]], 1_000), Ok(0));
}

fn test_keypair() -> ed25519_dalek::Keypair {
    let secret = ed25519_dalek::SecretKey::from_bytes(&[7u8; 32]).unwrap();
    let public = ed25519_dalek::PublicKey::from(&secret);
    ed25519_dalek::Keypair { secret, public }
}

#[test]
fn signature_verification_round_trip() {
    let keypair = test_keypair();
    let signer = Pubkey { bytes: keypair.public.to_bytes() };
    let selector = [1u8, 2, 3, 4];
    let input_data = vec![9u8, 8, 7];
    let mut message = selector.to_vec();
    message.extend_from_slice(&input_data);
    let signature = keypair.sign(&message).to_bytes();
    let granted = verify_signature(&signer, &selector, &input_data, &signature).unwrap();
    assert_eq!(granted.bytes, signer.bytes);
    // A flipped message byte must not verify.
    let other_data = vec![9u8, 8, 6];
    assert_eq!(
        verify_signature(&signer, &selector, &other_data, &signature).unwrap_err(),
        WUSDError::InvalidSignatureError
    );
    // A signature of the wrong length must not verify.
    assert_eq!(
        verify_signature(&signer, &selector, &input_data, &signature[..63]).unwrap_err(),
        WUSDError::InvalidSignatureError
    );
    // A signature under a different key must not verify.
    assert_eq!(
        verify_signature(&pk(5), &selector, &input_data, &signature).unwrap_err(),
        WUSDError::InvalidSignatureError
    );
}

#[test]
fn execute_demands_every_owner_signature() {
    let keypair = test_keypair();
    let mut state = fresh_state();
    state.owners.push(Pubkey { bytes: keypair.public.to_bytes() });
    let selector = [0u8, 0, 0, 1];
    let input_data = vec![5u8, 5];
    let mut message = selector.to_vec();
    message.extend_from_slice(&input_data);
    let signature = keypair.sign(&message).to_bytes().to_vec();
    // A fully authorized call still dispatches to no operation.
    assert_eq!(
        execute(&state, selector, input_data.clone(), vec![signature.clone()]),
        Err(WUSDError::InvalidSelector)
    );
    assert_eq!(
        execute(&state, selector, input_data.clone(), vec![]),
        Err(WUSDError::EmptySignatures)
    );
    assert_eq!(
        execute(&state, selector, input_data.clone(), vec![signature.clone(), signature.clone()]),
        Err(WUSDError::InvalidNumberOfSigners)
    );
    let mut tampered = signature.clone();
    tampered[0] ^= 1;
    assert_eq!(
        execute(&state, selector, input_data, vec![tampered]),
        Err(WUSDError::InvalidSignatureError)
    );
}
