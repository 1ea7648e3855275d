//! The swap engine: decimal-normalizing cross-token pricing, and the
//! administrative operations on the rate table, the whitelist and the
//! token configuration.
use vstd::prelude::*;
use vstd::arithmetic::div_mod::lemma_div_is_ordered;
use vstd::arithmetic::div_mod::lemma_div_multiples_vanish;
use vstd::arithmetic::div_mod::lemma_fundamental_div_mod;

use vstd::pervasive::VecAdditionalExecFns;

use crate::errors::WUSDError;
use crate::pubkey::Pubkey;
use crate::pubkey::pubkey_eq;
use crate::state::ExchangeRate;
use crate::state::MAX_RATE_ENTRIES;
use crate::state::MAX_WHITELIST_ENTRIES;
use crate::state::Rate;
use crate::state::Role;
use crate::state::StateAccount;
use crate::state::TokenConfig;
use crate::state::rates_have;
use crate::state::whitelist_enabled;
use crate::state::whitelist_has;

verus! {

/// Highest token precision the engine normalizes across.
pub const MAX_DECIMALS: u8 = 18;

/// Ten to the power `e`.
pub open spec fn pow10(e: nat) -> int
    decreases e,
{
    if e == 0 {
        1
    } else {
        10 * pow10((e - 1) as nat)
    }
}

/// Powers of ten are positive.
pub proof fn lemma_pow10_pos(e: nat)
    ensures
        pow10(e) >= 1,
    decreases e,
{
    if e > 0 {
        lemma_pow10_pos((e - 1) as nat);
    }
}

/// Powers of ten grow with the exponent.
pub proof fn lemma_pow10_mono(a: nat, b: nat)
    requires
        a <= b,
    ensures
        pow10(a) <= pow10(b),
    decreases b,
{
    if a < b {
        lemma_pow10_mono(a, (b - 1) as nat);
        lemma_pow10_pos((b - 1) as nat);
    }
}

/// The largest factor the engine uses, ten to the eighteenth.
pub proof fn lemma_pow10_18()
    ensures
        pow10(18) == 1_000_000_000_000_000_000,
{
    reveal_with_fuel(pow10, 19);
}

/// Ten to the power `e`, for exponents up to [`MAX_DECIMALS`].
fn pow10_u128(e: u8) -> (r: u128)
    requires
        e <= MAX_DECIMALS,
    ensures
        r as int == pow10(e as nat),
        1 <= r <= 1_000_000_000_000_000_000,
{
    let mut r: u128 = 1;
    let mut i: u8 = 0;
    proof {
        lemma_pow10_18();
    }
    while i < e
        invariant
            i <= e <= 18,
            r as int == pow10(i as nat),
            pow10(18) == 1_000_000_000_000_000_000,
        decreases e - i,
    {
        proof {
            lemma_pow10_mono(i as nat + 1, 18nat);
            lemma_pow10_pos(i as nat);
        }
        r = r * 10;
        i = i + 1;
    }
    proof {
        lemma_pow10_mono(i as nat, 18nat);
        lemma_pow10_pos(i as nat);
    }
    r
}

/// The token-account data the host hands the engine: a mint, an owner
/// and a balance.
#[derive(Clone, Copy, Debug)]
pub struct TokenAccountInfo {
    pub mint: Pubkey,
    pub owner: Pubkey,
    pub amount: u64,
}

/// The exact normalized product `amount * 10^(18 - in_decimals) *
/// rate.output / rate.input`, before denormalization.
pub open spec fn swap_scaled(amount_in: u64, in_decimals: u8, rate: ExchangeRate) -> int
    recommends
        in_decimals <= MAX_DECIMALS,
        rate.input > 0,
{
    (amount_in * pow10((MAX_DECIMALS - in_decimals) as nat) * rate.output) / (rate.input as int)
}

/// The exact swap output: the scaled value brought back down to the
/// output token's precision.
pub open spec fn swap_quote(amount_in: u64, in_decimals: u8, out_decimals: u8, rate: ExchangeRate) -> int
    recommends
        in_decimals <= MAX_DECIMALS,
        out_decimals <= MAX_DECIMALS,
        rate.input > 0,
{
    swap_scaled(amount_in, in_decimals, rate) / pow10((MAX_DECIMALS - out_decimals) as nat)
}

/// Which outcome `calculate_output_amount` reaches, in check order:
/// the amount, both precisions, the rate, the widened multiply, the
/// minimum-output floor, and the final narrowing.
pub open spec fn swap_output_check(
    state: StateAccount,
    amount_in: u64,
    token_in: Pubkey,
    token_out: Pubkey,
) -> Result<u64, WUSDError> {
    if amount_in == 0 {
        Err(WUSDError::InvalidAmount)
    } else {
        match (state.decimals_spec(token_in), state.decimals_spec(token_out)) {
            (Err(e), _) => Err(e),
            (Ok(_), Err(e)) => Err(e),
            (Ok(in_decimals), Ok(out_decimals)) => {
                if in_decimals > MAX_DECIMALS || out_decimals > MAX_DECIMALS {
                    Err(WUSDError::InvalidDecimals)
                } else {
                    match state.exchange_rate_spec(token_in, token_out) {
                        Err(e) => Err(e),
                        Ok(rate) => {
                            if !(rate.input > 0 && rate.output > 0) {
                                Err(WUSDError::InvalidExchangeRate)
                            } else if amount_in * pow10((MAX_DECIMALS - in_decimals) as nat)
                                * rate.output > u128::MAX {
                                Err(WUSDError::MathOverflow)
                            } else if swap_scaled(amount_in, in_decimals, rate) < pow10(
                                (MAX_DECIMALS - out_decimals) as nat,
                            ) {
                                Err(WUSDError::AmountTooSmall)
                            } else if swap_quote(amount_in, in_decimals, out_decimals, rate)
                                > u64::MAX {
                                Err(WUSDError::MathOverflow)
                            } else {
                                Ok(swap_quote(amount_in, in_decimals, out_decimals, rate) as u64)
                            }
                        },
                    }
                }
            },
        }
    }
}

/// Computes the cross-token output for `amount_in`: normalize to the
/// maximum precision, apply the stored rate, denormalize, and reject
/// an output that would round down to less than one unit.
pub fn calculate_output_amount(
    amount_in: u64,
    token_in_mint: &Pubkey,
    token_out_mint: &Pubkey,
    state: &StateAccount,
) -> (r: Result<u64, WUSDError>)
    requires
        state.wf(),
    ensures
        r == swap_output_check(*state, amount_in, *token_in_mint, *token_out_mint),
{
    if amount_in == 0 {
        return Err(WUSDError::InvalidAmount);
    }
    let in_decimals = match state.get_token_decimals(token_in_mint) {
        Ok(d) => d,
        Err(e) => { return Err(e) },
    };
    let out_decimals = match state.get_token_decimals(token_out_mint) {
        Ok(d) => d,
        Err(e) => { return Err(e) },
    };
    if in_decimals > MAX_DECIMALS || out_decimals > MAX_DECIMALS {
        return Err(WUSDError::InvalidDecimals);
    }
    let rate = match state.get_exchange_rate(token_in_mint, token_out_mint) {
        Ok(rate) => rate,
        Err(e) => { return Err(e) },
    };
    if !(rate.input > 0 && rate.output > 0) {
        return Err(WUSDError::InvalidExchangeRate);
    }
    let in_factor = pow10_u128(MAX_DECIMALS - in_decimals);
    proof {
        assert((amount_in as int) * (in_factor as int) <= (u64::MAX as int)
            * 1_000_000_000_000_000_000) by (nonlinear_arith)
            requires
                0 <= amount_in as int <= u64::MAX as int,
                0 <= in_factor as int <= 1_000_000_000_000_000_000,
        ;
    }
    let normalized: u128 = (amount_in as u128) * in_factor;
    let scaled_numerator = match normalized.checked_mul(rate.output as u128) {
        Some(v) => v,
        None => { return Err(WUSDError::MathOverflow) },
    };
    let scaled = scaled_numerator / (rate.input as u128);
    let out_factor = pow10_u128(MAX_DECIMALS - out_decimals);
    if scaled < out_factor {
        return Err(WUSDError::AmountTooSmall);
    }
    let amount_out = scaled / out_factor;
    if amount_out > u64::MAX as u128 {
        return Err(WUSDError::MathOverflow);
    }
    Ok(amount_out as u64)
}

/// Which outcome `swap` reaches, in check order: pause, admission of
/// both mints, distinctness, the two amounts, the payer's balance,
/// ownership of both accounts, the pricing computation, slippage, and
/// treasury cover. On success, the output amount to pay out.
pub open spec fn swap_check(
    state: StateAccount,
    user: Pubkey,
    token_in: TokenAccountInfo,
    token_out: TokenAccountInfo,
    treasury_balance: u64,
    amount_in: u64,
    min_amount_out: u64,
) -> Result<u64, WUSDError> {
    if state.paused {
        Err(WUSDError::ContractPaused)
    } else if !whitelist_enabled(state.token_whitelist@, token_in.mint) {
        Err(WUSDError::TokenNotWhitelisted)
    } else if !whitelist_enabled(state.token_whitelist@, token_out.mint) {
        Err(WUSDError::TokenNotWhitelisted)
    } else if token_in.mint == token_out.mint {
        Err(WUSDError::SameTokenAddresses)
    } else if amount_in == 0 || min_amount_out == 0 {
        Err(WUSDError::InvalidAmount)
    } else if token_in.amount < amount_in {
        Err(WUSDError::InsufficientBalance)
    } else if token_in.owner != user || token_out.owner != user {
        Err(WUSDError::InvalidOwner)
    } else {
        match swap_output_check(state, amount_in, token_in.mint, token_out.mint) {
            Err(e) => Err(e),
            Ok(amount_out) => {
                if amount_out < min_amount_out {
                    Err(WUSDError::SlippageExceeded)
                } else if treasury_balance < amount_out {
                    Err(WUSDError::InsufficientTreasuryBalance)
                } else {
                    Ok(amount_out)
                }
            },
        }
    }
}

/// Prices a swap and authorizes it: on success the returned amount is
/// what the treasury owes the user, and the host performs the two
/// custody transfers (user to treasury, treasury to user — never
/// netted). The registry is read, never written, so a failed swap
/// applies nothing.
pub fn swap(
    state: &StateAccount,
    user: &Pubkey,
    token_in: &TokenAccountInfo,
    token_out: &TokenAccountInfo,
    treasury_balance: u64,
    amount_in: u64,
    min_amount_out: u64,
) -> (r: Result<u64, WUSDError>)
    requires
        state.wf(),
    ensures
        r == swap_check(
            *state,
            *user,
            *token_in,
            *token_out,
            treasury_balance,
            amount_in,
            min_amount_out,
        ),
{
    if state.paused {
        return Err(WUSDError::ContractPaused);
    }
    if !state.is_token_whitelisted(&token_in.mint) {
        return Err(WUSDError::TokenNotWhitelisted);
    }
    if !state.is_token_whitelisted(&token_out.mint) {
        return Err(WUSDError::TokenNotWhitelisted);
    }
    if pubkey_eq(&token_in.mint, &token_out.mint) {
        return Err(WUSDError::SameTokenAddresses);
    }
    if amount_in == 0 || min_amount_out == 0 {
        return Err(WUSDError::InvalidAmount);
    }
    if token_in.amount < amount_in {
        return Err(WUSDError::InsufficientBalance);
    }
    if !pubkey_eq(&token_in.owner, user) || !pubkey_eq(&token_out.owner, user) {
        return Err(WUSDError::InvalidOwner);
    }
    let amount_out = match calculate_output_amount(
        amount_in,
        &token_in.mint,
        &token_out.mint,
        state,
    ) {
        Ok(amount_out) => amount_out,
        Err(e) => { return Err(e) },
    };
    if amount_out < min_amount_out {
        return Err(WUSDError::SlippageExceeded);
    }
    if treasury_balance < amount_out {
        return Err(WUSDError::InsufficientTreasuryBalance);
    }
    Ok(amount_out)
}

/// Swap round-trip: at a one-to-one rate between tokens of equal
/// precision, the engine returns the input amount exactly, whenever
/// the widened multiply stays representable.
pub proof fn lemma_swap_round_trip(
    state: StateAccount,
    amount_in: u64,
    token_in: Pubkey,
    token_out: Pubkey,
    d: u8,
)
    requires
        amount_in > 0,
        d <= MAX_DECIMALS,
        state.decimals_spec(token_in) == Ok::<u8, WUSDError>(d),
        state.decimals_spec(token_out) == Ok::<u8, WUSDError>(d),
        state.exchange_rate_spec(token_in, token_out) == Ok::<ExchangeRate, WUSDError>(
            ExchangeRate { input: 1_000_000, output: 1_000_000 },
        ),
        amount_in * pow10((MAX_DECIMALS - d) as nat) * 1_000_000 <= u128::MAX,
    ensures
        swap_output_check(state, amount_in, token_in, token_out) == Ok::<u64, WUSDError>(
            amount_in,
        ),
{
    let f = pow10((MAX_DECIMALS - d) as nat);
    lemma_pow10_pos((MAX_DECIMALS - d) as nat);
    let rate = ExchangeRate { input: 1_000_000, output: 1_000_000 };
    let normalized = amount_in * f;
    assert(normalized * 1_000_000 == 1_000_000 * normalized) by (nonlinear_arith);
    lemma_div_multiples_vanish(normalized, 1_000_000);
    assert(swap_scaled(amount_in, d, rate) == normalized);
    assert(normalized >= f) by (nonlinear_arith)
        requires
            normalized == amount_in * f,
            amount_in >= 1,
            f > 0,
    ;
    assert(amount_in * f == f * (amount_in as int)) by (nonlinear_arith);
    lemma_div_multiples_vanish(amount_in as int, f);
    assert(swap_quote(amount_in, d, d, rate) == amount_in);
}

/// Swap scale-consistency: where the rate and the output factor both
/// divide the scaled input exactly and nothing overflows, doubling
/// the input exactly doubles the output.
pub proof fn lemma_swap_scale_consistent(
    state: StateAccount,
    x: u64,
    token_in: Pubkey,
    token_out: Pubkey,
    din: u8,
    dout: u8,
    rate: ExchangeRate,
)
    requires
        x > 0,
        2 * x <= u64::MAX,
        din <= MAX_DECIMALS,
        dout <= MAX_DECIMALS,
        state.decimals_spec(token_in) == Ok::<u8, WUSDError>(din),
        state.decimals_spec(token_out) == Ok::<u8, WUSDError>(dout),
        state.exchange_rate_spec(token_in, token_out) == Ok::<ExchangeRate, WUSDError>(rate),
        rate.input > 0,
        rate.output > 0,
        2 * (x * pow10((MAX_DECIMALS - din) as nat) * rate.output) <= u128::MAX,
        (x * pow10((MAX_DECIMALS - din) as nat) * rate.output) % (rate.input as int) == 0,
        swap_scaled(x, din, rate) % pow10((MAX_DECIMALS - dout) as nat) == 0,
        swap_output_check(state, x, token_in, token_out) is Ok,
        2 * swap_quote(x, din, dout, rate) <= u64::MAX,
    ensures
        swap_output_check(state, (2 * x) as u64, token_in, token_out) == Ok::<u64, WUSDError>(
            (2 * swap_output_check(state, x, token_in, token_out)->Ok_0) as u64,
        ),
{
    let f = pow10((MAX_DECIMALS - din) as nat);
    let g = pow10((MAX_DECIMALS - dout) as nat);
    lemma_pow10_pos((MAX_DECIMALS - din) as nat);
    lemma_pow10_pos((MAX_DECIMALS - dout) as nat);
    let i = rate.input as int;
    let n = x * f * (rate.output as int);
    let q = swap_scaled(x, din, rate);
    let y = swap_quote(x, din, dout, rate);
    lemma_fundamental_div_mod(n, i);
    assert(n == i * q);
    let x2 = (2 * x) as u64;
    let n2 = x2 * f * (rate.output as int);
    assert(n2 == 2 * n) by (nonlinear_arith)
        requires
            n == x * f * (rate.output as int),
            n2 == x2 * f * (rate.output as int),
            x2 == 2 * (x as int),
    ;
    assert(n2 == i * (2 * q)) by (nonlinear_arith)
        requires
            n2 == 2 * n,
            n == i * q,
    ;
    lemma_div_multiples_vanish(2 * q, i);
    assert(swap_scaled(x2, din, rate) == 2 * q);
    lemma_fundamental_div_mod(q, g);
    assert(q == g * y);
    assert(2 * q == g * (2 * y)) by (nonlinear_arith)
        requires
            q == g * y,
    ;
    lemma_div_multiples_vanish(2 * y, g);
    assert(swap_quote(x2, din, dout, rate) == 2 * y);
    assert(q >= g);
    assert(2 * q >= g);
    assert(n2 >= 0) by (nonlinear_arith)
        requires
            n2 == 2 * n,
            n == i * q,
            i > 0,
            q >= g,
            g >= 1,
    ;
    assert(swap_output_check(state, x, token_in, token_out)->Ok_0 == y as u64);
}

/// A swap involving a token without whitelist admission fails with
/// `TokenNotWhitelisted` — and since `swap` only reads the registry,
/// nothing is ever partially applied.
pub proof fn lemma_unwhitelisted_swap_rejected(
    state: StateAccount,
    user: Pubkey,
    token_in: TokenAccountInfo,
    token_out: TokenAccountInfo,
    treasury_balance: u64,
    amount_in: u64,
    min_amount_out: u64,
)
    requires
        !state.paused,
        !whitelist_enabled(state.token_whitelist@, token_in.mint) || !whitelist_enabled(
            state.token_whitelist@,
            token_out.mint,
        ),
    ensures
        swap_check(state, user, token_in, token_out, treasury_balance, amount_in, min_amount_out)
            == Err::<u64, WUSDError>(WUSDError::TokenNotWhitelisted),
{
}

/// A rate update involving a token without whitelist admission fails
/// with `TokenNotWhitelisted`, before anything is written.
pub proof fn lemma_unwhitelisted_set_rate_rejected(
    state: StateAccount,
    authority: Pubkey,
    token_in: Pubkey,
    token_out: Pubkey,
    rate: Rate,
)
    requires
        authority == state.authority,
        rate.input > 0,
        rate.output > 0,
        token_in != token_out,
        !whitelist_enabled(state.token_whitelist@, token_in) || !whitelist_enabled(
            state.token_whitelist@,
            token_out,
        ),
    ensures
        set_rate_check(state, authority, token_in, token_out, rate) == Err::<(), WUSDError>(
            WUSDError::TokenNotWhitelisted,
        ),
{
}

/// All registry fields but the exchange-rate table agree.
pub open spec fn eq_except_rates(a: StateAccount, b: StateAccount) -> bool {
    &&& a.authority == b.authority
    &&& a.token_config == b.token_config
    &&& a.staking_config == b.staking_config
    &&& a.paused == b.paused
    &&& a.token_whitelist@ == b.token_whitelist@
    &&& a.staking_pools@ == b.staking_pools@
    &&& a.claims@ == b.claims@
    &&& a.owners@ == b.owners@
}

/// All registry fields but the whitelist agree.
pub open spec fn eq_except_whitelist(a: StateAccount, b: StateAccount) -> bool {
    &&& a.authority == b.authority
    &&& a.token_config == b.token_config
    &&& a.staking_config == b.staking_config
    &&& a.paused == b.paused
    &&& a.exchange_rates@ == b.exchange_rates@
    &&& a.staking_pools@ == b.staking_pools@
    &&& a.claims@ == b.claims@
    &&& a.owners@ == b.owners@
}

/// The rate table after an upsert of the ordered pair: the stored
/// entry replaced in place, or a new entry appended.
pub open spec fn rates_after_set(
    rs: Seq<(Pubkey, Pubkey, Rate)>,
    token_in: Pubkey,
    token_out: Pubkey,
    rate: Rate,
) -> Seq<(Pubkey, Pubkey, Rate)> {
    if rates_have(rs, token_in, token_out) {
        let i = choose|i: int|
            0 <= i < rs.len() && rs[i].0 == token_in && rs[i].1 == token_out;
        rs.update(i, (token_in, token_out, rate))
    } else {
        rs.push((token_in, token_out, rate))
    }
}

/// In a uniquely keyed table the upsert of the pair stored at `i`
/// replaces exactly entry `i`.
proof fn lemma_rates_after_set_at(rs: Seq<(Pubkey, Pubkey, Rate)>, i: int, rate: Rate)
    requires
        crate::state::rates_unique(rs),
        0 <= i < rs.len(),
    ensures
        rates_after_set(rs, rs[i].0, rs[i].1, rate) == rs.update(i, (rs[i].0, rs[i].1, rate)),
{
    assert(rates_have(rs, rs[i].0, rs[i].1));
    let j = choose|j: int| 0 <= j < rs.len() && rs[j].0 == rs[i].0 && rs[j].1 == rs[i].1;
    if j < i {
        assert(!(rs[j].0 == rs[i].0 && rs[j].1 == rs[i].1));
    } else if i < j {
        assert(!(rs[i].0 == rs[j].0 && rs[i].1 == rs[j].1));
    }
}

/// Which outcome `set_rate` reaches, in check order: authorization,
/// rate validity, distinctness, admission of both tokens, capacity.
pub open spec fn set_rate_check(
    state: StateAccount,
    authority: Pubkey,
    token_in: Pubkey,
    token_out: Pubkey,
    rate: Rate,
) -> Result<(), WUSDError> {
    if authority != state.authority {
        Err(WUSDError::Unauthorized)
    } else if !(rate.input > 0 && rate.output > 0) {
        Err(WUSDError::InvalidExchangeRate)
    } else if token_in == token_out {
        Err(WUSDError::SameTokenAddresses)
    } else if !whitelist_enabled(state.token_whitelist@, token_in) || !whitelist_enabled(
        state.token_whitelist@,
        token_out,
    ) {
        Err(WUSDError::TokenNotWhitelisted)
    } else if !rates_have(state.exchange_rates@, token_in, token_out)
        && state.exchange_rates@.len() >= MAX_RATE_ENTRIES {
        Err(WUSDError::NoAvailableSlot)
    } else {
        Ok(())
    }
}

/// Upserts the exchange rate of the ordered pair. Only the authority
/// may; both components of the rate must be positive, both tokens
/// whitelisted and distinct. A failure applies nothing.
pub fn set_rate(
    state: &mut StateAccount,
    authority: &Pubkey,
    token_in_mint: &Pubkey,
    token_out_mint: &Pubkey,
    rate: Rate,
) -> (r: Result<(), WUSDError>)
    requires
        old(state).wf(),
    ensures
        final(state).wf(),
        r == set_rate_check(*old(state), *authority, *token_in_mint, *token_out_mint, rate),
        r is Err ==> *final(state) == *old(state),
        r is Ok ==> final(state).exchange_rates@ == rates_after_set(
            old(state).exchange_rates@,
            *token_in_mint,
            *token_out_mint,
            rate,
        ),
        r is Ok ==> eq_except_rates(*final(state), *old(state)),
{
    if !state.has_role(Role::RateSetter, authority) {
        return Err(WUSDError::Unauthorized);
    }
    if !(rate.input > 0 && rate.output > 0) {
        return Err(WUSDError::InvalidExchangeRate);
    }
    if pubkey_eq(token_in_mint, token_out_mint) {
        return Err(WUSDError::SameTokenAddresses);
    }
    if !state.is_token_whitelisted(token_in_mint) || !state.is_token_whitelisted(token_out_mint) {
        return Err(WUSDError::TokenNotWhitelisted);
    }
    let n = state.exchange_rates.len();
    let mut i: usize = 0;
    while i < n
        invariant
            *state == *old(state),
            old(state).wf(),
            n == state.exchange_rates@.len(),
            0 <= i <= n,
            *authority == old(state).authority,
            rate.input > 0 && rate.output > 0,
            *token_in_mint != *token_out_mint,
            whitelist_enabled(old(state).token_whitelist@, *token_in_mint),
            whitelist_enabled(old(state).token_whitelist@, *token_out_mint),
            forall|j: int|
                0 <= j < i ==> !(state.exchange_rates@[j].0 == *token_in_mint
                    && state.exchange_rates@[j].1 == *token_out_mint),
        decreases n - i,
    {
        let entry = state.exchange_rates[i];
        if pubkey_eq(&entry.0, token_in_mint) && pubkey_eq(&entry.1, token_out_mint) {
            proof {
                assert(state.exchange_rates@[i as int].0 == *token_in_mint
                    && state.exchange_rates@[i as int].1 == *token_out_mint);
                assert(rates_have(state.exchange_rates@, *token_in_mint, *token_out_mint));
                lemma_rates_after_set_at(state.exchange_rates@, i as int, rate);
            }
            state.exchange_rates.set(i, (*token_in_mint, *token_out_mint, rate));
            proof {
                let old_rs = old(state).exchange_rates@;
                let new_rs = state.exchange_rates@;
                assert forall|p: int, q: int|
                    0 <= p < q < new_rs.len() implies !(new_rs[p].0 == new_rs[q].0 && new_rs[p].1
                    == new_rs[q].1) by {
                    assert(!(old_rs[p].0 == old_rs[q].0 && old_rs[p].1 == old_rs[q].1));
                    assert(new_rs[p].0 == old_rs[p].0 && new_rs[p].1 == old_rs[p].1);
                    assert(new_rs[q].0 == old_rs[q].0 && new_rs[q].1 == old_rs[q].1);
                }
            }
            return Ok(());
        }
        i = i + 1;
    }
    if state.exchange_rates.len() >= MAX_RATE_ENTRIES {
        return Err(WUSDError::NoAvailableSlot);
    }
    state.exchange_rates.push((*token_in_mint, *token_out_mint, rate));
    proof {
        let old_rs = old(state).exchange_rates@;
        let new_rs = state.exchange_rates@;
        assert forall|p: int, q: int|
            0 <= p < q < new_rs.len() implies !(new_rs[p].0 == new_rs[q].0 && new_rs[p].1
            == new_rs[q].1) by {
            if q < old_rs.len() {
                assert(!(old_rs[p].0 == old_rs[q].0 && old_rs[p].1 == old_rs[q].1));
            } else {
                assert(!(old_rs[p].0 == *token_in_mint && old_rs[p].1 == *token_out_mint));
            }
        }
    }
    Ok(())
}

/// The whitelist after an upsert that may not apply: unchanged when
/// the token is the reserved zero identity or the table is full and
/// the token new; otherwise the entry replaced in place or appended.
pub open spec fn whitelist_upsert(wl: Seq<(Pubkey, bool)>, token: Pubkey, status: bool) -> Seq<
    (Pubkey, bool),
> {
    if token.is_zero_spec() {
        wl
    } else if whitelist_has(wl, token) {
        let i = choose|i: int| 0 <= i < wl.len() && wl[i].0 == token;
        wl.update(i, (token, status))
    } else if wl.len() < MAX_WHITELIST_ENTRIES {
        wl.push((token, status))
    } else {
        wl
    }
}

/// Whether an upsert of `token` changes the whitelist.
pub open spec fn whitelist_upsert_applies(wl: Seq<(Pubkey, bool)>, token: Pubkey) -> bool {
    !token.is_zero_spec() && (whitelist_has(wl, token) || wl.len() < MAX_WHITELIST_ENTRIES)
}

/// In a uniquely keyed whitelist the upsert of the token stored at
/// `i` replaces exactly entry `i`.
proof fn lemma_whitelist_upsert_at(wl: Seq<(Pubkey, bool)>, i: int, status: bool)
    requires
        crate::state::whitelist_unique(wl),
        0 <= i < wl.len(),
        !wl[i].0.is_zero_spec(),
    ensures
        whitelist_upsert(wl, wl[i].0, status) == wl.update(i, (wl[i].0, status)),
{
    assert(whitelist_has(wl, wl[i].0));
    let j = choose|j: int| 0 <= j < wl.len() && wl[j].0 == wl[i].0;
    if j < i {
        assert(wl[j].0 != wl[i].0);
    } else if i < j {
        assert(wl[i].0 != wl[j].0);
    }
}

/// Which outcome a single whitelist upsert reaches: a zero token is
/// rejected, a new token needs a free slot.
pub open spec fn whitelist_update_check(state: StateAccount, token: Pubkey) -> Result<
    (),
    WUSDError,
> {
    if token.is_zero_spec() {
        Err(WUSDError::InvalidAddress)
    } else if !whitelist_has(state.token_whitelist@, token) && state.token_whitelist@.len()
        >= MAX_WHITELIST_ENTRIES {
        Err(WUSDError::NoAvailableSlot)
    } else {
        Ok(())
    }
}

/// Upserts one whitelist entry; a failure applies nothing.
pub(crate) fn update_whitelist_token(
    state: &mut StateAccount,
    token_mint: &Pubkey,
    status: bool,
) -> (r: Result<(), WUSDError>)
    requires
        old(state).wf(),
    ensures
        final(state).wf(),
        r == whitelist_update_check(*old(state), *token_mint),
        final(state).token_whitelist@ == whitelist_upsert(
            old(state).token_whitelist@,
            *token_mint,
            status,
        ),
        eq_except_whitelist(*final(state), *old(state)),
        r is Err ==> *final(state) == *old(state),
{
    if token_mint.is_zero() {
        return Err(WUSDError::InvalidAddress);
    }
    let n = state.token_whitelist.len();
    let mut i: usize = 0;
    while i < n
        invariant
            *state == *old(state),
            old(state).wf(),
            n == state.token_whitelist@.len(),
            0 <= i <= n,
            !token_mint.is_zero_spec(),
            forall|j: int| 0 <= j < i ==> state.token_whitelist@[j].0 != *token_mint,
        decreases n - i,
    {
        let entry = state.token_whitelist[i];
        if pubkey_eq(&entry.0, token_mint) {
            proof {
                lemma_whitelist_upsert_at(state.token_whitelist@, i as int, status);
            }
            state.token_whitelist.set(i, (*token_mint, status));
            proof {
                let old_wl = old(state).token_whitelist@;
                let new_wl = state.token_whitelist@;
                assert forall|p: int, q: int|
                    0 <= p < q < new_wl.len() implies new_wl[p].0 != new_wl[q].0 by {
                    assert(old_wl[p].0 != old_wl[q].0);
                    assert(new_wl[p].0 == old_wl[p].0);
                    assert(new_wl[q].0 == old_wl[q].0);
                }
            }
            return Ok(());
        }
        i = i + 1;
    }
    if state.token_whitelist.len() >= MAX_WHITELIST_ENTRIES {
        return Err(WUSDError::NoAvailableSlot);
    }
    state.token_whitelist.push((*token_mint, status));
    proof {
        let old_wl = old(state).token_whitelist@;
        let new_wl = state.token_whitelist@;
        assert forall|p: int, q: int|
            0 <= p < q < new_wl.len() implies new_wl[p].0 != new_wl[q].0 by {
            if q < old_wl.len() {
                assert(old_wl[p].0 != old_wl[q].0);
            } else {
                assert(old_wl[p].0 != *token_mint);
            }
        }
    }
    Ok(())
}

/// Which outcome `set_whitelist_token` reaches: authorization, then
/// the single upsert.
pub open spec fn set_whitelist_token_check(
    state: StateAccount,
    authority: Pubkey,
    token: Pubkey,
) -> Result<(), WUSDError> {
    if authority != state.authority {
        Err(WUSDError::Unauthorized)
    } else {
        whitelist_update_check(state, token)
    }
}

/// Sets one token's whitelist status; only the authority may. A
/// failure applies nothing.
pub fn set_whitelist_token(
    state: &mut StateAccount,
    authority: &Pubkey,
    token_mint: &Pubkey,
    status: bool,
) -> (r: Result<(), WUSDError>)
    requires
        old(state).wf(),
    ensures
        final(state).wf(),
        r == set_whitelist_token_check(*old(state), *authority, *token_mint),
        r is Err ==> *final(state) == *old(state),
        r is Ok ==> final(state).token_whitelist@ == whitelist_upsert(
            old(state).token_whitelist@,
            *token_mint,
            status,
        ),
        r is Ok ==> eq_except_whitelist(*final(state), *old(state)),
{
    if !state.has_role(Role::ConfigSetter, authority) {
        return Err(WUSDError::Unauthorized);
    }
    update_whitelist_token(state, token_mint, status)
}

/// The whitelist after a batch of upserts, applied left to right.
pub open spec fn whitelist_after_batch(
    wl: Seq<(Pubkey, bool)>,
    tokens: Seq<Pubkey>,
    status: bool,
) -> Seq<(Pubkey, bool)>
    decreases tokens.len(),
{
    if tokens.len() == 0 {
        wl
    } else {
        whitelist_after_batch(whitelist_upsert(wl, tokens[0], status), tokens.drop_first(), status)
    }
}

/// How many upserts of the batch change the whitelist.
pub open spec fn batch_applied_count(
    wl: Seq<(Pubkey, bool)>,
    tokens: Seq<Pubkey>,
    status: bool,
) -> nat
    decreases tokens.len(),
{
    if tokens.len() == 0 {
        0nat
    } else {
        (if whitelist_upsert_applies(wl, tokens[0]) {
            1nat
        } else {
            0nat
        }) + batch_applied_count(whitelist_upsert(wl, tokens[0], status), tokens.drop_first(), status)
    }
}

/// Appending one token to a batch applies it after the rest.
proof fn lemma_batch_snoc(wl: Seq<(Pubkey, bool)>, tokens: Seq<Pubkey>, t: Pubkey, status: bool)
    ensures
        whitelist_after_batch(wl, tokens.push(t), status) == whitelist_upsert(
            whitelist_after_batch(wl, tokens, status),
            t,
            status,
        ),
        batch_applied_count(wl, tokens.push(t), status) == batch_applied_count(wl, tokens, status)
            + (if whitelist_upsert_applies(whitelist_after_batch(wl, tokens, status), t) {
            1nat
        } else {
            0nat
        }),
    decreases tokens.len(),
{
    let snoc = tokens.push(t);
    if tokens.len() == 0 {
        assert(snoc[0] == t);
        assert(snoc.drop_first() =~= Seq::<Pubkey>::empty());
        assert(whitelist_after_batch(whitelist_upsert(wl, t, status), snoc.drop_first(), status)
            == whitelist_upsert(wl, t, status));
        assert(batch_applied_count(whitelist_upsert(wl, t, status), snoc.drop_first(), status)
            == 0);
        assert(whitelist_after_batch(wl, tokens, status) == wl);
        assert(batch_applied_count(wl, tokens, status) == 0);
    } else {
        assert(snoc[0] == tokens[0]);
        assert(snoc.drop_first() =~= tokens.drop_first().push(t));
        let wl1 = whitelist_upsert(wl, tokens[0], status);
        lemma_batch_snoc(wl1, tokens.drop_first(), t, status);
        assert(whitelist_after_batch(wl, snoc, status) == whitelist_after_batch(
            wl1,
            snoc.drop_first(),
            status,
        ));
        assert(whitelist_after_batch(wl, tokens, status) == whitelist_after_batch(
            wl1,
            tokens.drop_first(),
            status,
        ));
        assert(batch_applied_count(wl, snoc, status) == (if whitelist_upsert_applies(
            wl,
            tokens[0],
        ) {
            1nat
        } else {
            0nat
        }) + batch_applied_count(wl1, snoc.drop_first(), status));
        assert(batch_applied_count(wl, tokens, status) == (if whitelist_upsert_applies(
            wl,
            tokens[0],
        ) {
            1nat
        } else {
            0nat
        }) + batch_applied_count(wl1, tokens.drop_first(), status));
    }
}

/// Which outcome `set_whitelist_tokens` reaches: authorization, a
/// non-empty list within capacity, and at least one applied upsert.
pub open spec fn set_whitelist_tokens_check(
    state: StateAccount,
    authority: Pubkey,
    tokens: Seq<Pubkey>,
    status: bool,
) -> Result<(), WUSDError> {
    if authority != state.authority {
        Err(WUSDError::Unauthorized)
    } else if tokens.len() == 0 {
        Err(WUSDError::InvalidInput)
    } else if tokens.len() > MAX_WHITELIST_ENTRIES {
        Err(WUSDError::TooManyTokens)
    } else if batch_applied_count(state.token_whitelist@, tokens, status) == 0 {
        Err(WUSDError::NoTokensUpdated)
    } else {
        Ok(())
    }
}

/// Sets the whitelist status of several tokens at once, left to
/// right; an upsert that cannot apply is skipped, and the operation
/// fails only when none applied — in which case nothing changed.
pub fn set_whitelist_tokens(
    state: &mut StateAccount,
    authority: &Pubkey,
    token_mints: Vec<Pubkey>,
    status: bool,
) -> (r: Result<(), WUSDError>)
    requires
        old(state).wf(),
    ensures
        final(state).wf(),
        r == set_whitelist_tokens_check(*old(state), *authority, token_mints@, status),
        r is Err ==> *final(state) == *old(state),
        r is Ok ==> final(state).token_whitelist@ == whitelist_after_batch(
            old(state).token_whitelist@,
            token_mints@,
            status,
        ),
        r is Ok ==> eq_except_whitelist(*final(state), *old(state)),
{
    if !state.has_role(Role::ConfigSetter, authority) {
        return Err(WUSDError::Unauthorized);
    }
    if token_mints.len() == 0 {
        return Err(WUSDError::InvalidInput);
    }
    if token_mints.len() > MAX_WHITELIST_ENTRIES {
        return Err(WUSDError::TooManyTokens);
    }
    let ghost old_wl = old(state).token_whitelist@;
    let n = token_mints.len();
    let mut updated: usize = 0;
    let mut k: usize = 0;
    while k < n
        invariant
            state.wf(),
            n == token_mints@.len(),
            0 <= k <= n,
            updated <= k,
            state.token_whitelist@ == whitelist_after_batch(
                old_wl,
                token_mints@.take(k as int),
                status,
            ),
            updated as nat == batch_applied_count(old_wl, token_mints@.take(k as int), status),
            eq_except_whitelist(*state, *old(state)),
            updated == 0 ==> *state == *old(state),
        decreases n - k,
    {
        let ghost prefix = token_mints@.take(k as int);
        let token = token_mints[k];
        proof {
            assert(token_mints@.take(k as int + 1) =~= prefix.push(token));
            lemma_batch_snoc(old_wl, prefix, token, status);
        }
        match update_whitelist_token(state, &token, status) {
            Ok(()) => {
                updated = updated + 1;
            },
            Err(_) => {
            },
        }
        k = k + 1;
    }
    proof {
        assert(token_mints@.take(n as int) =~= token_mints@);
    }
    if updated == 0 {
        return Err(WUSDError::NoTokensUpdated);
    }
    Ok(())
}

/// Which outcome `set_config` reaches: authorization, a real token,
/// a representable precision, and one of the two platform tokens.
pub open spec fn set_config_check(
    state: StateAccount,
    authority: Pubkey,
    token_mint: Pubkey,
    decimals: u8,
) -> Result<(), WUSDError> {
    if authority != state.authority {
        Err(WUSDError::Unauthorized)
    } else if token_mint.is_zero_spec() {
        Err(WUSDError::InvalidAddress)
    } else if decimals > MAX_DECIMALS {
        Err(WUSDError::InvalidDecimals)
    } else if token_mint == state.token_config.wusd_mint || token_mint
        == state.token_config.collateral_mint {
        Ok(())
    } else {
        Err(WUSDError::TokenNotWhitelisted)
    }
}

/// Sets the recorded precision of one of the two platform tokens;
/// only the authority may, and only up to [`MAX_DECIMALS`].
pub fn set_config(
    state: &mut StateAccount,
    authority: &Pubkey,
    token_mint: &Pubkey,
    decimals: u8,
) -> (r: Result<(), WUSDError>)
    requires
        old(state).wf(),
    ensures
        final(state).wf(),
        r == set_config_check(*old(state), *authority, *token_mint, decimals),
        r is Err ==> *final(state) == *old(state),
        r is Ok && *token_mint == old(state).token_config.wusd_mint ==> *final(state)
            == (StateAccount {
            token_config: TokenConfig { wusd_decimals: decimals, ..old(state).token_config },
            ..*old(state)
        }),
        r is Ok && *token_mint != old(state).token_config.wusd_mint ==> *final(state)
            == (StateAccount {
            token_config: TokenConfig { collateral_decimals: decimals, ..old(state).token_config },
            ..*old(state)
        }),
{
    if !state.has_role(Role::ConfigSetter, authority) {
        return Err(WUSDError::Unauthorized);
    }
    if token_mint.is_zero() {
        return Err(WUSDError::InvalidAddress);
    }
    if decimals > MAX_DECIMALS {
        return Err(WUSDError::InvalidDecimals);
    }
    if pubkey_eq(token_mint, &state.token_config.wusd_mint) {
        state.token_config.wusd_decimals = decimals;
        Ok(())
    } else if pubkey_eq(token_mint, &state.token_config.collateral_mint) {
        state.token_config.collateral_decimals = decimals;
        Ok(())
    } else {
        Err(WUSDError::TokenNotWhitelisted)
    }
}

/// Which outcome `set_pool_address` reaches: authorization, then a
/// real address.
pub open spec fn set_pool_address_check(
    state: StateAccount,
    authority: Pubkey,
    new_pool_address: Pubkey,
) -> Result<(), WUSDError> {
    if authority != state.authority {
        Err(WUSDError::Unauthorized)
    } else if new_pool_address.is_zero_spec() {
        Err(WUSDError::InvalidAddress)
    } else {
        Ok(())
    }
}

/// Points the treasury at a new custody address; only the authority
/// may, and never at the zero identity.
pub fn set_pool_address(
    state: &mut StateAccount,
    authority: &Pubkey,
    new_pool_address: &Pubkey,
) -> (r: Result<(), WUSDError>)
    requires
        old(state).wf(),
    ensures
        final(state).wf(),
        r == set_pool_address_check(*old(state), *authority, *new_pool_address),
        r is Err ==> *final(state) == *old(state),
        r is Ok ==> *final(state) == (StateAccount {
            token_config: TokenConfig { treasury: *new_pool_address, ..old(state).token_config },
            ..*old(state)
        }),
{
    if !state.has_role(Role::ConfigSetter, authority) {
        return Err(WUSDError::Unauthorized);
    }
    if new_pool_address.is_zero() {
        return Err(WUSDError::InvalidAddress);
    }
    state.token_config.treasury = *new_pool_address;
    Ok(())
}

/// The current treasury custody address.
pub fn get_pool_address(state: &StateAccount) -> (r: Pubkey)
    ensures
        r == state.token_config.treasury,
{
    state.token_config.treasury
}

/// Which outcome `validate_token_addresses` reaches: both real, and
/// distinct.
pub open spec fn token_addresses_check(token_in: Pubkey, token_out: Pubkey) -> Result<
    (),
    WUSDError,
> {
    if token_in.is_zero_spec() {
        Err(WUSDError::InvalidAddress)
    } else if token_out.is_zero_spec() {
        Err(WUSDError::InvalidAddress)
    } else if token_in == token_out {
        Err(WUSDError::SameTokenAddresses)
    } else {
        Ok(())
    }
}

/// Rejects a token pair with a zero member or equal members.
pub fn validate_token_addresses(token_in: &Pubkey, token_out: &Pubkey) -> (r: Result<
    (),
    WUSDError,
>)
    ensures
        r == token_addresses_check(*token_in, *token_out),
{
    if token_in.is_zero() {
        return Err(WUSDError::InvalidAddress);
    }
    if token_out.is_zero() {
        return Err(WUSDError::InvalidAddress);
    }
    if pubkey_eq(token_in, token_out) {
        return Err(WUSDError::SameTokenAddresses);
    }
    Ok(())
}

/// Rejects invalid swap arguments: a bad token pair or a zero amount
/// on either side.
pub fn validate_swap_inputs(
    token_in: &Pubkey,
    token_out: &Pubkey,
    amount: u64,
    min_output_amount: u64,
) -> (r: Result<(), WUSDError>)
    ensures
        r == if token_addresses_check(*token_in, *token_out) is Err {
            token_addresses_check(*token_in, *token_out)
        } else if amount == 0 || min_output_amount == 0 {
            Err::<(), WUSDError>(WUSDError::InvalidAmount)
        } else {
            Ok::<(), WUSDError>(())
        },
{
    match validate_token_addresses(token_in, token_out) {
        Ok(()) => {},
        Err(e) => { return Err(e) },
    }
    if amount == 0 || min_output_amount == 0 {
        return Err(WUSDError::InvalidAmount);
    }
    Ok(())
}

/// Rejects a pair of which either token lacks whitelist admission.
pub fn assert_whitelist_tokens(
    token_in: &Pubkey,
    token_out: &Pubkey,
    state: &StateAccount,
) -> (r: Result<(), WUSDError>)
    requires
        state.wf(),
    ensures
        r == if whitelist_enabled(state.token_whitelist@, *token_in) && whitelist_enabled(
            state.token_whitelist@,
            *token_out,
        ) {
            Ok::<(), WUSDError>(())
        } else {
            Err::<(), WUSDError>(WUSDError::TokenNotWhitelisted)
        },
{
    if !state.is_token_whitelisted(token_in) {
        return Err(WUSDError::TokenNotWhitelisted);
    }
    if !state.is_token_whitelisted(token_out) {
        return Err(WUSDError::TokenNotWhitelisted);
    }
    Ok(())
}

/// Rejects a pair whose effective exchange rate is unusable: not
/// whitelisted, or stored with a zero component.
pub fn assert_exchange_rate_setting(
    token_in: &Pubkey,
    token_out: &Pubkey,
    state: &StateAccount,
) -> (r: Result<(), WUSDError>)
    requires
        state.wf(),
    ensures
        r == match state.exchange_rate_spec(*token_in, *token_out) {
            Err(e) => Err::<(), WUSDError>(e),
            Ok(rate) => if rate.input > 0 && rate.output > 0 {
                Ok::<(), WUSDError>(())
            } else {
                Err::<(), WUSDError>(WUSDError::InvalidExchangeRate)
            },
        },
{
    let rate = match state.get_exchange_rate(token_in, token_out) {
        Ok(rate) => rate,
        Err(e) => { return Err(e) },
    };
    if rate.input > 0 && rate.output > 0 {
        Ok(())
    } else {
        Err(WUSDError::InvalidExchangeRate)
    }
}

/// Which outcome `get_rate` reaches: a valid pair, admission of both
/// tokens, then the effective rate.
pub open spec fn get_rate_check(
    state: StateAccount,
    token_in: Pubkey,
    token_out: Pubkey,
) -> Result<Rate, WUSDError> {
    if token_addresses_check(token_in, token_out) is Err {
        Err(token_addresses_check(token_in, token_out)->Err_0)
    } else if !(whitelist_enabled(state.token_whitelist@, token_in) && whitelist_enabled(
        state.token_whitelist@,
        token_out,
    )) {
        Err(WUSDError::TokenNotWhitelisted)
    } else {
        let rate = state.exchange_rate_spec(token_in, token_out)->Ok_0;
        Ok(Rate { input: rate.input, output: rate.output })
    }
}

/// The effective exchange rate between two distinct whitelisted
/// tokens, as a [`Rate`].
pub fn get_rate(
    token_in_mint: &Pubkey,
    token_out_mint: &Pubkey,
    state: &StateAccount,
) -> (r: Result<Rate, WUSDError>)
    requires
        state.wf(),
    ensures
        r == get_rate_check(*state, *token_in_mint, *token_out_mint),
{
    match validate_token_addresses(token_in_mint, token_out_mint) {
        Ok(()) => {},
        Err(e) => { return Err(e) },
    }
    match assert_whitelist_tokens(token_in_mint, token_out_mint, state) {
        Ok(()) => {},
        Err(e) => { return Err(e) },
    }
    let exchange_rate = match state.get_exchange_rate(token_in_mint, token_out_mint) {
        Ok(rate) => rate,
        Err(e) => { return Err(e) },
    };
    Ok(Rate { input: exchange_rate.input, output: exchange_rate.output })
}

} // verus!
