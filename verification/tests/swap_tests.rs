use wusd_core::errors::WUSDError;
use wusd_core::pubkey::Pubkey;
use wusd_core::pubkey::pubkey_eq;
use wusd_core::state::Rate;
use wusd_core::state::StateAccount;
use wusd_core::state::initialize;
use wusd_core::swap::TokenAccountInfo;
use wusd_core::swap::assert_exchange_rate_setting;
use wusd_core::swap::assert_whitelist_tokens;
use wusd_core::swap::calculate_output_amount;
use wusd_core::swap::get_pool_address;
use wusd_core::swap::get_rate;
use wusd_core::swap::set_config;
use wusd_core::swap::set_pool_address;
use wusd_core::swap::set_rate;
use wusd_core::swap::set_whitelist_token;
use wusd_core::swap::set_whitelist_tokens;
use wusd_core::swap::swap;
use wusd_core::swap::validate_swap_inputs;
use wusd_core::swap::validate_token_addresses;

fn pk(n: u8) -> Pubkey {
    Pubkey { bytes: [n; 32] }
}

// Authority pk(1), platform token pk(2) at the given precision,
// collateral pk(3) at six digits, treasury pk(4).
fn state_with_decimals(decimals: u8) -> StateAccount {
    initialize(pk(1), pk(2), pk(3), pk(4), decimals, 1_000)
}

// Swap round-trip: at the seeded one-to-one rate between tokens of
// equal precision the output equals the input exactly.
#[test]
fn swap_round_trip_at_unit_rate() {
    let mut state = state_with_decimals(9);
    // Align the collateral precision with the platform token's.
    assert_eq!(set_config(&mut state, &pk(1), &pk(3), 9), Ok(()));
    assert_eq!(calculate_output_amount(12_345, &pk(2), &pk(3), &state), Ok(12_345));
    assert_eq!(calculate_output_amount(1, &pk(2), &pk(3), &state), Ok(1));
}

// Doubling the input doubles the output where the divisions are
// exact: rate 2:1 on nine-digit tokens.
#[test]
fn swap_scales_with_exact_divisions() {
    let mut state = state_with_decimals(9);
    assert_eq!(set_config(&mut state, &pk(1), &pk(3), 9), Ok(()));
    assert_eq!(set_rate(&mut state, &pk(1), &pk(2), &pk(3), Rate { input: 2, output: 1 }), Ok(()));
    let once = calculate_output_amount(10, &pk(2), &pk(3), &state).unwrap();
    let twice = calculate_output_amount(20, &pk(2), &pk(3), &state).unwrap();
    assert_eq!(once, 5);
    assert_eq!(twice, 2 * once);
}

// The normalization boundary: swapping an eighteen-digit token into a
// six-digit token at a one-to-one rate truncates twelve digits, so
// anything below 10^12 base units is rejected as too small and 10^12
// base units yield exactly one unit.
#[test]
fn swap_amount_too_small_boundary() {
    let state = state_with_decimals(18);
    assert_eq!(
        calculate_output_amount(1_000_000, &pk(2), &pk(3), &state),
        Err(WUSDError::AmountTooSmall)
    );
    assert_eq!(
        calculate_output_amount(999_999_999_999, &pk(2), &pk(3), &state),
        Err(WUSDError::AmountTooSmall)
    );
    assert_eq!(
        calculate_output_amount(1_000_000_000_000, &pk(2), &pk(3), &state),
        Ok(1)
    );
    assert_eq!(
        calculate_output_amount(2_500_000_000_000, &pk(2), &pk(3), &state),
        Ok(2)
    );
}

#[test]
fn swap_pricing_rejections() {
    let state = state_with_decimals(9);
    assert_eq!(
        calculate_output_amount(0, &pk(2), &pk(3), &state),
        Err(WUSDError::InvalidAmount)
    );
    assert_eq!(
        calculate_output_amount(10, &pk(9), &pk(3), &state),
        Err(WUSDError::TokenNotWhitelisted)
    );
    let wide = state_with_decimals(19);
    assert_eq!(
        calculate_output_amount(10, &pk(2), &pk(3), &wide),
        Err(WUSDError::InvalidDecimals)
    );
    // A rate stored with a zero component is unusable.
    let mut zero_rate = state_with_decimals(9);
    zero_rate.exchange_rates[0].2 = Rate { input: 0, output: 1 };
    assert_eq!(
        calculate_output_amount(10, &pk(2), &pk(3), &zero_rate),
        Err(WUSDError::InvalidExchangeRate)
    );
}

fn account(mint: Pubkey, owner: Pubkey, amount: u64) -> TokenAccountInfo {
    TokenAccountInfo { mint, owner, amount }
}

#[test]
fn swap_authorizes_and_prices() {
    let mut state = state_with_decimals(9);
    assert_eq!(set_config(&mut state, &pk(1), &pk(3), 9), Ok(()));
    let user = pk(10);
    let token_in = account(pk(2), user, 1_000_000);
    let token_out = account(pk(3), user, 0);
    assert_eq!(
        swap(&state, &user, &token_in, &token_out, 1_000_000, 500_000, 500_000),
        Ok(500_000)
    );
    assert_eq!(
        swap(&state, &user, &token_in, &token_out, 1_000_000, 500_000, 500_001),
        Err(WUSDError::SlippageExceeded)
    );
    assert_eq!(
        swap(&state, &user, &token_in, &token_out, 499_999, 500_000, 500_000),
        Err(WUSDError::InsufficientTreasuryBalance)
    );
    assert_eq!(
        swap(&state, &user, &token_in, &token_out, 1_000_000, 2_000_000, 500_000),
        Err(WUSDError::InsufficientBalance)
    );
    assert_eq!(
        swap(&state, &user, &token_in, &token_out, 1_000_000, 0, 500_000),
        Err(WUSDError::InvalidAmount)
    );
    assert_eq!(
        swap(&state, &user, &account(pk(2), pk(11), 1_000_000), &token_out, 1_000_000, 500_000, 500_000),
        Err(WUSDError::InvalidOwner)
    );
    assert_eq!(
        swap(&state, &user, &token_in, &account(pk(2), user, 0), 1_000_000, 500_000, 500_000),
        Err(WUSDError::SameTokenAddresses)
    );
}

// An un-whitelisted token always fails the swap with
// `TokenNotWhitelisted`, and since the swap only reads the registry
// nothing is partially applied.
#[test]
fn swap_rejects_unwhitelisted_tokens() {
    let mut state = state_with_decimals(9);
    let user = pk(10);
    assert_eq!(
        swap(&state, &user, &account(pk(9), user, 100), &account(pk(3), user, 0), 100, 1, 1),
        Err(WUSDError::TokenNotWhitelisted)
    );
    assert_eq!(
        swap(&state, &user, &account(pk(2), user, 100), &account(pk(9), user, 0), 100, 1, 1),
        Err(WUSDError::TokenNotWhitelisted)
    );
    state.paused = true;
    assert_eq!(
        swap(&state, &user, &account(pk(2), user, 100), &account(pk(3), user, 0), 100, 1, 1),
        Err(WUSDError::ContractPaused)
    );
}

// An un-whitelisted token always fails `set_rate` with
// `TokenNotWhitelisted` and writes nothing.
#[test]
fn set_rate_rejects_unwhitelisted_tokens() {
    let mut state = state_with_decimals(9);
    assert_eq!(
        set_rate(&mut state, &pk(1), &pk(9), &pk(3), Rate { input: 1, output: 1 }),
        Err(WUSDError::TokenNotWhitelisted)
    );
    assert_eq!(
        set_rate(&mut state, &pk(1), &pk(2), &pk(9), Rate { input: 1, output: 1 }),
        Err(WUSDError::TokenNotWhitelisted)
    );
    assert_eq!(state.exchange_rates.len(), 1);
    assert_eq!(state.exchange_rates[0].2, Rate { input: 1_000_000, output: 1_000_000 });
}

#[test]
fn set_rate_upserts_and_validates() {
    let mut state = state_with_decimals(9);
    assert_eq!(
        set_rate(&mut state, &pk(9), &pk(2), &pk(3), Rate { input: 1, output: 2 }),
        Err(WUSDError::Unauthorized)
    );
    assert_eq!(
        set_rate(&mut state, &pk(1), &pk(2), &pk(3), Rate { input: 0, output: 2 }),
        Err(WUSDError::InvalidExchangeRate)
    );
    assert_eq!(
        set_rate(&mut state, &pk(1), &pk(2), &pk(2), Rate { input: 1, output: 2 }),
        Err(WUSDError::SameTokenAddresses)
    );
    // Replacing the seeded pair reuses its slot.
    assert_eq!(
        set_rate(&mut state, &pk(1), &pk(2), &pk(3), Rate { input: 1, output: 2 }),
        Ok(())
    );
    assert_eq!(state.exchange_rates.len(), 1);
    let rate = state.get_exchange_rate(&pk(2), &pk(3)).unwrap();
    assert_eq!((rate.input, rate.output), (1, 2));
    // The reverse pair takes a new slot.
    assert_eq!(
        set_rate(&mut state, &pk(1), &pk(3), &pk(2), Rate { input: 2, output: 1 }),
        Ok(())
    );
    assert_eq!(state.exchange_rates.len(), 2);
}

#[test]
fn rate_table_capacity_is_three() {
    let mut state = state_with_decimals(9);
    assert_eq!(set_whitelist_token(&mut state, &pk(1), &pk(5), true), Ok(()));
    assert_eq!(
        set_rate(&mut state, &pk(1), &pk(3), &pk(2), Rate { input: 1, output: 1 }),
        Ok(())
    );
    assert_eq!(
        set_rate(&mut state, &pk(1), &pk(2), &pk(5), Rate { input: 1, output: 1 }),
        Ok(())
    );
    assert_eq!(
        set_rate(&mut state, &pk(1), &pk(5), &pk(2), Rate { input: 1, output: 1 }),
        Err(WUSDError::NoAvailableSlot)
    );
    assert_eq!(state.exchange_rates.len(), 3);
}

#[test]
fn whitelist_upserts_and_capacity() {
    let mut state = state_with_decimals(9);
    assert_eq!(
        set_whitelist_token(&mut state, &pk(9), &pk(5), true),
        Err(WUSDError::Unauthorized)
    );
    assert_eq!(
        set_whitelist_token(&mut state, &pk(1), &Pubkey::zero(), true),
        Err(WUSDError::InvalidAddress)
    );
    // Disabling an admitted token reuses its slot.
    assert_eq!(set_whitelist_token(&mut state, &pk(1), &pk(3), false), Ok(()));
    assert!(!state.is_token_whitelisted(&pk(3)));
    assert_eq!(state.token_whitelist.len(), 2);
    // The third slot is the last one.
    assert_eq!(set_whitelist_token(&mut state, &pk(1), &pk(5), true), Ok(()));
    assert_eq!(
        set_whitelist_token(&mut state, &pk(1), &pk(6), true),
        Err(WUSDError::NoAvailableSlot)
    );
}

#[test]
fn whitelist_batch_updates() {
    let mut state = state_with_decimals(9);
    assert_eq!(
        set_whitelist_tokens(&mut state, &pk(9), vec![pk(5)], true),
        Err(WUSDError::Unauthorized)
    );
    assert_eq!(
        set_whitelist_tokens(&mut state, &pk(1), vec![], true),
        Err(WUSDError::InvalidInput)
    );
    assert_eq!(
        set_whitelist_tokens(&mut state, &pk(1), vec![pk(5), pk(6), pk(7), pk(8)], true),
        Err(WUSDError::TooManyTokens)
    );
    // Nothing in the batch can apply: the zero key is rejected and
    // nothing changes.
    assert_eq!(
        set_whitelist_tokens(&mut state, &pk(1), vec![Pubkey::zero()], true),
        Err(WUSDError::NoTokensUpdated)
    );
    assert_eq!(state.token_whitelist.len(), 2);
    // A batch that partly fits applies what it can.
    assert_eq!(
        set_whitelist_tokens(&mut state, &pk(1), vec![pk(5), pk(6)], true),
        Ok(())
    );
    assert!(state.is_token_whitelisted(&pk(5)));
    assert!(!state.is_token_whitelisted(&pk(6)));
    assert_eq!(state.token_whitelist.len(), 3);
}

#[test]
fn config_updates_platform_precisions() {
    let mut state = state_with_decimals(9);
    assert_eq!(
        set_config(&mut state, &pk(9), &pk(2), 6),
        Err(WUSDError::Unauthorized)
    );
    assert_eq!(
        set_config(&mut state, &pk(1), &Pubkey::zero(), 6),
        Err(WUSDError::InvalidAddress)
    );
    assert_eq!(
        set_config(&mut state, &pk(1), &pk(2), 19),
        Err(WUSDError::InvalidDecimals)
    );
    assert_eq!(
        set_config(&mut state, &pk(1), &pk(5), 6),
        Err(WUSDError::TokenNotWhitelisted)
    );
    assert_eq!(set_config(&mut state, &pk(1), &pk(2), 12), Ok(()));
    assert_eq!(state.token_config.wusd_decimals, 12);
    assert_eq!(set_config(&mut state, &pk(1), &pk(3), 8), Ok(()));
    assert_eq!(state.token_config.collateral_decimals, 8);
}

#[test]
fn pool_address_updates() {
    let mut state = state_with_decimals(9);
    assert!(pubkey_eq(&get_pool_address(&state), &pk(4)));
    assert_eq!(
        set_pool_address(&mut state, &pk(9), &pk(5)),
        Err(WUSDError::Unauthorized)
    );
    assert_eq!(
        set_pool_address(&mut state, &pk(1), &Pubkey::zero()),
        Err(WUSDError::InvalidAddress)
    );
    assert_eq!(set_pool_address(&mut state, &pk(1), &pk(5)), Ok(()));
    assert!(pubkey_eq(&get_pool_address(&state), &pk(5)));
}

#[test]
fn rate_queries_and_validators() {
    let state = state_with_decimals(9);
    let rate = get_rate(&pk(2), &pk(3), &state).unwrap();
    assert_eq!((rate.input, rate.output), (1_000_000, 1_000_000));
    assert_eq!(
        get_rate(&Pubkey::zero(), &pk(3), &state),
        Err(WUSDError::InvalidAddress)
    );
    assert_eq!(get_rate(&pk(2), &pk(2), &state), Err(WUSDError::SameTokenAddresses));
    assert_eq!(get_rate(&pk(2), &pk(9), &state), Err(WUSDError::TokenNotWhitelisted));
    assert_eq!(validate_token_addresses(&pk(2), &pk(3)), Ok(()));
    assert_eq!(
        validate_token_addresses(&pk(2), &pk(2)),
        Err(WUSDError::SameTokenAddresses)
    );
    assert_eq!(validate_swap_inputs(&pk(2), &pk(3), 5, 5), Ok(()));
    assert_eq!(
        validate_swap_inputs(&pk(2), &pk(3), 0, 5),
        Err(WUSDError::InvalidAmount)
    );
    assert_eq!(assert_whitelist_tokens(&pk(2), &pk(3), &state), Ok(()));
    assert_eq!(
        assert_whitelist_tokens(&pk(2), &pk(9), &state),
        Err(WUSDError::TokenNotWhitelisted)
    );
    assert_eq!(assert_exchange_rate_setting(&pk(2), &pk(3), &state), Ok(()));
}
