use wusd_core::errors::WUSDError;
use wusd_core::pubkey::Pubkey;
use wusd_core::pubkey::pubkey_eq;
use wusd_core::state::Role;
use wusd_core::state::ensure_non_zero_address;
use wusd_core::state::initialize;
use wusd_core::state::pause;
use wusd_core::state::unpause;

fn pk(n: u8) -> Pubkey {
    Pubkey { bytes: [n; 32] }
}

#[test]
fn pubkey_equality_and_zero() {
    assert!(pubkey_eq(&pk(3), &pk(3)));
    assert!(!pubkey_eq(&pk(3), &pk(4)));
    assert!(Pubkey::zero().is_zero());
    assert!(!pk(1).is_zero());
    let mut almost_zero = Pubkey::zero();
    almost_zero.bytes[31] = 1;
    assert!(!almost_zero.is_zero());
}

#[test]
fn zero_address_is_rejected() {
    assert_eq!(ensure_non_zero_address(&pk(1)), Ok(()));
    assert_eq!(
        ensure_non_zero_address(&Pubkey::zero()),
        Err(WUSDError::InvalidAddress)
    );
}

#[test]
fn initialize_seeds_registry() {
    let state = initialize(pk(1), pk(2), pk(3), pk(4), 9, 1_000);
    assert!(!state.paused);
    assert!(pubkey_eq(&state.authority, &pk(1)));
    assert_eq!(state.staking_config.total_staked, 0);
    assert_eq!(state.staking_config.reward_rate, 100_000);
    assert_eq!(state.staking_config.emergency_withdraw_penalty, 500_000);
    assert_eq!(state.staking_config.emergency_cooldown_duration, 86_400);
    assert_eq!(state.token_whitelist.len(), 2);
    assert_eq!(state.exchange_rates.len(), 1);
    assert_eq!(state.staking_pools.len(), 1);
    assert_eq!(state.staking_pools[0].id, 1);
    assert_eq!(state.staking_pools[0].apy, 500_000_000);
    assert_eq!(state.staking_pools[0].duration, 31_536_000);
    assert_eq!(state.staking_pools[0].min_stake_amount, 100_000_000);
    assert!(state.claims.is_empty());
    assert!(state.owners.is_empty());
}

#[test]
fn whitelist_lookup() {
    let state = initialize(pk(1), pk(2), pk(3), pk(4), 9, 0);
    assert!(state.is_token_whitelisted(&pk(2)));
    assert!(state.is_token_whitelisted(&pk(3)));
    assert!(!state.is_token_whitelisted(&pk(9)));
}

#[test]
fn decimals_lookup() {
    let state = initialize(pk(1), pk(2), pk(3), pk(4), 9, 0);
    assert_eq!(state.get_token_decimals(&pk(2)), Ok(9));
    assert_eq!(state.get_token_decimals(&pk(3)), Ok(6));
    assert_eq!(state.get_token_decimals(&pk(9)), Err(WUSDError::TokenNotWhitelisted));
}

#[test]
fn exchange_rate_lookup_and_default() {
    let state = initialize(pk(1), pk(2), pk(3), pk(4), 9, 0);
    let stored = state.get_exchange_rate(&pk(2), &pk(3)).unwrap();
    assert_eq!((stored.input, stored.output), (1_000_000, 1_000_000));
    // The reverse pair is an independent entry; with none stored the
    // one-to-one default applies.
    let reverse = state.get_exchange_rate(&pk(3), &pk(2)).unwrap();
    assert_eq!((reverse.input, reverse.output), (1_000_000_000, 1_000_000_000));
    assert_eq!(
        state.get_exchange_rate(&pk(9), &pk(2)),
        Err(WUSDError::TokenNotWhitelisted)
    );
}

#[test]
fn staking_pool_lookup() {
    let state = initialize(pk(1), pk(2), pk(3), pk(4), 9, 0);
    let pool = state.get_staking_pool(1).unwrap();
    assert_eq!(pool.apy, 500_000_000);
    assert_eq!(state.get_staking_pool(7).unwrap_err(), WUSDError::InvalidPoolId);
    assert_eq!(state.get_staking_pool(0).unwrap_err(), WUSDError::InvalidPoolId);
}

#[test]
fn roles_are_held_by_the_authority() {
    let state = initialize(pk(1), pk(2), pk(3), pk(4), 9, 0);
    assert!(state.has_role(Role::Admin, &pk(1)));
    assert!(state.has_role(Role::RateSetter, &pk(1)));
    assert!(!state.has_role(Role::Admin, &pk(2)));
}

#[test]
fn pause_and_unpause() {
    let mut state = initialize(pk(1), pk(2), pk(3), pk(4), 9, 0);
    assert!(state.ensure_not_paused().is_ok());
    assert_eq!(pause(&mut state, &pk(9)), Err(WUSDError::Unauthorized));
    assert!(!state.paused);
    assert_eq!(pause(&mut state, &pk(1)), Ok(()));
    assert!(state.paused);
    assert_eq!(state.ensure_not_paused(), Err(WUSDError::ContractPaused));
    assert_eq!(unpause(&mut state, &pk(9)), Err(WUSDError::Unauthorized));
    assert!(state.paused);
    assert_eq!(unpause(&mut state, &pk(1)), Ok(()));
    assert!(!state.paused);
}
