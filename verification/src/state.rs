//! The registry: global configuration and admission control. It owns
//! the pause flag, the authority, the token whitelist, the exchange-rate
//! table, the staking-pool table and the soft-stake claim slots.
//!
//! The fixed-capacity sentinel arrays of the ledger layout become
//! explicit capacity-bounded tables here: a key appears at most once,
//! insertion into a full table fails with `NoAvailableSlot`, and no
//! all-zero sentinel entry is ever stored.
use vstd::prelude::*;

use crate::errors::WUSDError;
use crate::math::SCALE;
use crate::pubkey::Pubkey;
use crate::pubkey::pubkey_eq;
use crate::softstake::SoftStakeAccount;

verus! {

/// Capacity of the token whitelist.
pub const MAX_WHITELIST_ENTRIES: usize = 3;

/// Capacity of the exchange-rate table.
pub const MAX_RATE_ENTRIES: usize = 3;

/// Capacity of the staking-pool table.
pub const MAX_STAKING_POOLS: usize = 16;

/// Capacity of the soft-stake claim table.
pub const MAX_CLAIM_ENTRIES: usize = 16;

/// Capacity of the multi-signature owner set.
pub const MAX_OWNERS: usize = 5;

/// Reward rate installed at initialization.
pub const DEFAULT_REWARD_RATE: u64 = 100_000;

/// Emergency-withdraw penalty installed at initialization (x1e9).
pub const DEFAULT_EMERGENCY_PENALTY: u64 = 500_000;

/// Emergency cooldown installed at initialization, in seconds.
pub const DEFAULT_EMERGENCY_COOLDOWN: i64 = 86_400;

/// Id of the pool seeded at initialization.
pub const DEFAULT_POOL_ID: u64 = 1;

/// APY of the seeded pool (x1e9).
pub const DEFAULT_POOL_APY: u64 = 500_000_000;

/// Lock duration of the seeded pool, in seconds.
pub const DEFAULT_POOL_DURATION: i64 = 31_536_000;

/// Minimum stake of the seeded pool.
pub const DEFAULT_POOL_MIN_STAKE: u64 = 100_000_000;

/// Lifecycle of a staking pool.
#[derive(Clone, Copy, Debug, PartialEq, Eq, Structural)]
pub enum PoolStatus {
    Active,
    Paused,
    Closed,
}

/// A staking offer: a rate, a lock duration and an entry floor.
#[derive(Clone, Copy, Debug)]
pub struct StakingPool {
    pub id: u64,
    /// Annualized rate, scaled by 1e9.
    pub apy: u64,
    /// Lock duration in seconds; never negative.
    pub duration: i64,
    pub min_stake_amount: u64,
    pub status: PoolStatus,
}

/// A cross-token price: `amount_out = amount_in * output / input`.
#[derive(Clone, Copy, Debug, PartialEq, Eq, Structural)]
pub struct Rate {
    pub input: u64,
    pub output: u64,
}

/// A stored exchange rate, as handed back to callers.
#[derive(Clone, Copy, Debug, PartialEq, Eq, Structural)]
pub struct ExchangeRate {
    pub input: u64,
    pub output: u64,
}

/// Identities and precisions of the two platform tokens.
#[derive(Clone, Copy, Debug)]
pub struct TokenConfig {
    pub wusd_mint: Pubkey,
    pub collateral_mint: Pubkey,
    pub treasury: Pubkey,
    pub total_supply: u64,
    pub decimals: u8,
    pub collateral_decimals: u8,
    pub wusd_decimals: u8,
}

/// Aggregate staking configuration and counters.
#[derive(Clone, Copy, Debug)]
pub struct StakingConfig {
    pub total_staked: u64,
    /// Per-second reward fraction, scaled by 1e9.
    pub reward_rate: u64,
    pub last_update_time: i64,
    /// Emergency-withdraw penalty fraction, scaled by 1e9; at most 1e9.
    pub emergency_withdraw_penalty: u64,
    pub emergency_cooldown_duration: i64,
    pub total_staking_plans: u64,
}

/// The capabilities an administrative call may demand. Policy: every
/// role is held exactly by the stored authority.
#[derive(Clone, Copy, Debug, PartialEq, Eq, Structural)]
pub enum Role {
    Admin,
    Upgrader,
    Pauser,
    ConfigSetter,
    RateSetter,
}

/// Some whitelist entry carries this token.
pub open spec fn whitelist_has(wl: Seq<(Pubkey, bool)>, token: Pubkey) -> bool {
    exists|i: int| 0 <= i < wl.len() && wl[i].0 == token
}

/// Some whitelist entry carries this token with admission enabled.
pub open spec fn whitelist_enabled(wl: Seq<(Pubkey, bool)>, token: Pubkey) -> bool {
    exists|i: int| 0 <= i < wl.len() && wl[i].0 == token && wl[i].1
}

/// Each token appears in at most one whitelist entry.
pub open spec fn whitelist_unique(wl: Seq<(Pubkey, bool)>) -> bool {
    forall|i: int, j: int| 0 <= i < j < wl.len() ==> wl[i].0 != wl[j].0
}

/// Some rate entry carries this ordered token pair.
pub open spec fn rates_have(rs: Seq<(Pubkey, Pubkey, Rate)>, token_in: Pubkey, token_out: Pubkey) -> bool {
    exists|i: int| 0 <= i < rs.len() && rs[i].0 == token_in && rs[i].1 == token_out
}

/// The rate stored for this ordered pair; meaningful only when
/// `rates_have` holds of the pair.
pub open spec fn stored_rate(rs: Seq<(Pubkey, Pubkey, Rate)>, token_in: Pubkey, token_out: Pubkey) -> Rate
    recommends
        rates_have(rs, token_in, token_out),
{
    let i = choose|i: int| 0 <= i < rs.len() && rs[i].0 == token_in && rs[i].1 == token_out;
    rs[i].2
}

/// Each ordered token pair appears in at most one rate entry.
pub open spec fn rates_unique(rs: Seq<(Pubkey, Pubkey, Rate)>) -> bool {
    forall|i: int, j: int|
        0 <= i < j < rs.len() ==> !(rs[i].0 == rs[j].0 && rs[i].1 == rs[j].1)
}

/// Some pool carries this id.
pub open spec fn pools_have(ps: Seq<StakingPool>, id: u64) -> bool {
    exists|i: int| 0 <= i < ps.len() && ps[i].id == id
}

/// The pool stored under this id; meaningful only when `pools_have`
/// holds of the id.
pub open spec fn pool_with(ps: Seq<StakingPool>, id: u64) -> StakingPool
    recommends
        pools_have(ps, id),
{
    let i = choose|i: int| 0 <= i < ps.len() && ps[i].id == id;
    ps[i]
}

/// Each pool id appears at most once.
pub open spec fn pools_unique(ps: Seq<StakingPool>) -> bool {
    forall|i: int, j: int| 0 <= i < j < ps.len() ==> ps[i].id != ps[j].id
}

/// Every pool's lock duration is non-negative.
pub open spec fn pools_wf(ps: Seq<StakingPool>) -> bool {
    forall|i: int| 0 <= i < ps.len() ==> ps[i].duration >= 0
}

/// An entry whose key equals the key of entry `i` is entry `i` itself,
/// so the looked-up status is the status stored at `i`.
pub proof fn lemma_whitelist_entry(wl: Seq<(Pubkey, bool)>, i: int)
    requires
        whitelist_unique(wl),
        0 <= i < wl.len(),
    ensures
        whitelist_has(wl, wl[i].0),
        whitelist_enabled(wl, wl[i].0) == wl[i].1,
{
    assert(whitelist_has(wl, wl[i].0));
    if wl[i].1 {
        assert(whitelist_enabled(wl, wl[i].0));
    } else {
        assert forall|k: int| 0 <= k < wl.len() && wl[k].0 == wl[i].0 implies !wl[k].1 by {
            if k < i {
                assert(wl[k].0 != wl[i].0);
            } else if i < k {
                assert(wl[i].0 != wl[k].0);
            }
        }
    }
}

/// The rate looked up for the pair of entry `i` is the rate stored
/// at `i`.
pub proof fn lemma_rate_entry(rs: Seq<(Pubkey, Pubkey, Rate)>, i: int)
    requires
        rates_unique(rs),
        0 <= i < rs.len(),
    ensures
        rates_have(rs, rs[i].0, rs[i].1),
        stored_rate(rs, rs[i].0, rs[i].1) == rs[i].2,
{
    assert(rates_have(rs, rs[i].0, rs[i].1));
    let j = choose|j: int| 0 <= j < rs.len() && rs[j].0 == rs[i].0 && rs[j].1 == rs[i].1;
    if j < i {
        assert(!(rs[j].0 == rs[i].0 && rs[j].1 == rs[i].1));
    } else if i < j {
        assert(!(rs[i].0 == rs[j].0 && rs[i].1 == rs[j].1));
    }
}

/// The pool looked up under the id of entry `i` is the pool stored
/// at `i`.
pub proof fn lemma_pool_entry(ps: Seq<StakingPool>, i: int)
    requires
        pools_unique(ps),
        0 <= i < ps.len(),
    ensures
        pools_have(ps, ps[i].id),
        pool_with(ps, ps[i].id) == ps[i],
{
    assert(pools_have(ps, ps[i].id));
    let j = choose|j: int| 0 <= j < ps.len() && ps[j].id == ps[i].id;
    if j < i {
        assert(ps[j].id != ps[i].id);
    } else if i < j {
        assert(ps[i].id != ps[j].id);
    }
}

/// The registry singleton.
pub struct StateAccount {
    pub authority: Pubkey,
    pub token_config: TokenConfig,
    pub staking_config: StakingConfig,
    pub paused: bool,
    pub token_whitelist: Vec<(Pubkey, bool)>,
    pub exchange_rates: Vec<(Pubkey, Pubkey, Rate)>,
    pub staking_pools: Vec<StakingPool>,
    pub claims: Vec<(Pubkey, SoftStakeAccount)>,
    pub owners: Vec<Pubkey>,
}

impl StateAccount {
    /// Admission invariant of the registry: every table is within its
    /// capacity, keyed uniquely, pool durations are non-negative, and
    /// the penalty fraction never exceeds the scale (so a penalty never
    /// exceeds the amount it is charged on).
    pub open spec fn wf(self) -> bool {
        &&& self.token_whitelist@.len() <= MAX_WHITELIST_ENTRIES
        &&& whitelist_unique(self.token_whitelist@)
        &&& self.exchange_rates@.len() <= MAX_RATE_ENTRIES
        &&& rates_unique(self.exchange_rates@)
        &&& self.staking_pools@.len() <= MAX_STAKING_POOLS
        &&& pools_unique(self.staking_pools@)
        &&& pools_wf(self.staking_pools@)
        &&& self.claims@.len() <= MAX_CLAIM_ENTRIES
        &&& forall|i: int| 0 <= i < self.claims@.len() ==> self.claims@[i].1.wf()
        &&& self.owners@.len() <= MAX_OWNERS
        &&& self.staking_config.emergency_withdraw_penalty <= SCALE
        &&& 0 <= self.staking_config.emergency_cooldown_duration
    }

    /// Whether `authority` holds `role`. Every role is held exactly by
    /// the stored authority.
    pub fn has_role(&self, _role: Role, authority: &Pubkey) -> (r: bool)
        ensures
            r == (*authority == self.authority),
    {
        pubkey_eq(authority, &self.authority)
    }

    /// Fails fast when the registry is paused.
    pub fn ensure_not_paused(&self) -> (r: Result<(), WUSDError>)
        ensures
            r == if self.paused {
                Err::<(), WUSDError>(WUSDError::ContractPaused)
            } else {
                Ok::<(), WUSDError>(())
            },
    {
        if self.paused {
            Err(WUSDError::ContractPaused)
        } else {
            Ok(())
        }
    }

    /// The pool registered under `pool_id`, or `InvalidPoolId` if the
    /// id resolves to no pool.
    pub fn get_staking_pool(&self, pool_id: u64) -> (r: Result<StakingPool, WUSDError>)
        requires
            self.wf(),
        ensures
            pools_have(self.staking_pools@, pool_id) ==> r == Ok::<StakingPool, WUSDError>(
                pool_with(self.staking_pools@, pool_id),
            ),
            !pools_have(self.staking_pools@, pool_id) ==> r == Err::<StakingPool, WUSDError>(
                WUSDError::InvalidPoolId,
            ),
    {
        let n = self.staking_pools.len();
        let mut i: usize = 0;
        while i < n
            invariant
                self.wf(),
                n == self.staking_pools@.len(),
                0 <= i <= n,
                forall|j: int| 0 <= j < i ==> self.staking_pools@[j].id != pool_id,
            decreases n - i,
        {
            let pool = self.staking_pools[i];
            if pool.id == pool_id {
                proof {
                    lemma_pool_entry(self.staking_pools@, i as int);
                }
                return Ok(pool);
            }
            i = i + 1;
        }
        Err(WUSDError::InvalidPoolId)
    }

    /// Whether `mint` is whitelisted with admission enabled.
    pub fn is_token_whitelisted(&self, mint: &Pubkey) -> (r: bool)
        requires
            self.wf(),
        ensures
            r == whitelist_enabled(self.token_whitelist@, *mint),
    {
        let n = self.token_whitelist.len();
        let mut i: usize = 0;
        while i < n
            invariant
                self.wf(),
                n == self.token_whitelist@.len(),
                0 <= i <= n,
                forall|j: int| 0 <= j < i ==> self.token_whitelist@[j].0 != *mint,
            decreases n - i,
        {
            let entry = self.token_whitelist[i];
            if pubkey_eq(&entry.0, mint) {
                proof {
                    lemma_whitelist_entry(self.token_whitelist@, i as int);
                }
                return entry.1;
            }
            i = i + 1;
        }
        false
    }

    /// What `get_token_decimals` returns: the precision of one of the
    /// two platform tokens, provided it is whitelisted.
    pub open spec fn decimals_spec(self, mint: Pubkey) -> Result<u8, WUSDError> {
        if !whitelist_enabled(self.token_whitelist@, mint) {
            Err(WUSDError::TokenNotWhitelisted)
        } else if mint == self.token_config.wusd_mint {
            Ok(self.token_config.wusd_decimals)
        } else if mint == self.token_config.collateral_mint {
            Ok(self.token_config.collateral_decimals)
        } else {
            Err(WUSDError::TokenNotWhitelisted)
        }
    }

    /// The precision of `mint`; a token outside the whitelist, or other
    /// than the two platform tokens, yields `TokenNotWhitelisted`.
    pub fn get_token_decimals(&self, mint: &Pubkey) -> (r: Result<u8, WUSDError>)
        requires
            self.wf(),
        ensures
            r == self.decimals_spec(*mint),
    {
        if !self.is_token_whitelisted(mint) {
            return Err(WUSDError::TokenNotWhitelisted);
        }
        if pubkey_eq(mint, &self.token_config.wusd_mint) {
            Ok(self.token_config.wusd_decimals)
        } else if pubkey_eq(mint, &self.token_config.collateral_mint) {
            Ok(self.token_config.collateral_decimals)
        } else {
            Err(WUSDError::TokenNotWhitelisted)
        }
    }

    /// What `get_exchange_rate` returns: the stored rate of the ordered
    /// pair, a one-to-one default when none is stored, and
    /// `TokenNotWhitelisted` when either token lacks admission.
    pub open spec fn exchange_rate_spec(self, token_in: Pubkey, token_out: Pubkey) -> Result<
        ExchangeRate,
        WUSDError,
    > {
        if !whitelist_enabled(self.token_whitelist@, token_in) || !whitelist_enabled(
            self.token_whitelist@,
            token_out,
        ) {
            Err(WUSDError::TokenNotWhitelisted)
        } else if rates_have(self.exchange_rates@, token_in, token_out) {
            let rate = stored_rate(self.exchange_rates@, token_in, token_out);
            Ok(ExchangeRate { input: rate.input, output: rate.output })
        } else {
            Ok(ExchangeRate { input: SCALE, output: SCALE })
        }
    }

    /// The exchange rate for the ordered pair `(token_in, token_out)`.
    /// Pairs are directional: `(a, b)` and `(b, a)` are independent.
    pub fn get_exchange_rate(&self, token_in: &Pubkey, token_out: &Pubkey) -> (r: Result<
        ExchangeRate,
        WUSDError,
    >)
        requires
            self.wf(),
        ensures
            r == self.exchange_rate_spec(*token_in, *token_out),
    {
        if !self.is_token_whitelisted(token_in) || !self.is_token_whitelisted(token_out) {
            return Err(WUSDError::TokenNotWhitelisted);
        }
        let n = self.exchange_rates.len();
        let mut i: usize = 0;
        while i < n
            invariant
                self.wf(),
                n == self.exchange_rates@.len(),
                0 <= i <= n,
                whitelist_enabled(self.token_whitelist@, *token_in),
                whitelist_enabled(self.token_whitelist@, *token_out),
                forall|j: int|
                    0 <= j < i ==> !(self.exchange_rates@[j].0 == *token_in
                        && self.exchange_rates@[j].1 == *token_out),
            decreases n - i,
        {
            let entry = self.exchange_rates[i];
            if pubkey_eq(&entry.0, token_in) && pubkey_eq(&entry.1, token_out) {
                proof {
                    lemma_rate_entry(self.exchange_rates@, i as int);
                }
                return Ok(ExchangeRate { input: entry.2.input, output: entry.2.output });
            }
            i = i + 1;
        }
        Ok(ExchangeRate { input: SCALE, output: SCALE })
    }
}

/// The pool seeded at initialization; it replaces the implicit default
/// pool of the ledger layout with a real table entry.
pub open spec fn default_pool() -> StakingPool {
    StakingPool {
        id: DEFAULT_POOL_ID,
        apy: DEFAULT_POOL_APY,
        duration: DEFAULT_POOL_DURATION,
        min_stake_amount: DEFAULT_POOL_MIN_STAKE,
        status: PoolStatus::Active,
    }
}

/// Creates the registry: unpaused, with the two platform tokens
/// whitelisted, a one-to-one rate between them, and the default pool
/// registered.
pub fn initialize(
    authority: Pubkey,
    wusd_mint: Pubkey,
    collateral_mint: Pubkey,
    treasury: Pubkey,
    decimals: u8,
    now: i64,
) -> (state: StateAccount)
    requires
        wusd_mint != collateral_mint,
    ensures
        state.wf(),
        state.authority == authority,
        !state.paused,
        state.token_config == (TokenConfig {
            wusd_mint,
            collateral_mint,
            treasury,
            total_supply: 0,
            decimals,
            collateral_decimals: 6,
            wusd_decimals: decimals,
        }),
        state.staking_config == (StakingConfig {
            total_staked: 0,
            reward_rate: DEFAULT_REWARD_RATE,
            last_update_time: now,
            emergency_withdraw_penalty: DEFAULT_EMERGENCY_PENALTY,
            emergency_cooldown_duration: DEFAULT_EMERGENCY_COOLDOWN,
            total_staking_plans: 0,
        }),
        state.token_whitelist@ == seq![(wusd_mint, true), (collateral_mint, true)],
        state.exchange_rates@ == seq![
            (wusd_mint, collateral_mint, Rate { input: 1_000_000, output: 1_000_000 }),
        ],
        state.staking_pools@ == seq![default_pool()],
        state.claims@ == Seq::<(Pubkey, SoftStakeAccount)>::empty(),
        state.owners@ == Seq::<Pubkey>::empty(),
{
    let mut token_whitelist: Vec<(Pubkey, bool)> = Vec::new();
    token_whitelist.push((wusd_mint, true));
    token_whitelist.push((collateral_mint, true));
    let mut exchange_rates: Vec<(Pubkey, Pubkey, Rate)> = Vec::new();
    exchange_rates.push((wusd_mint, collateral_mint, Rate { input: 1_000_000, output: 1_000_000 }));
    let mut staking_pools: Vec<StakingPool> = Vec::new();
    staking_pools.push(
        StakingPool {
            id: DEFAULT_POOL_ID,
            apy: DEFAULT_POOL_APY,
            duration: DEFAULT_POOL_DURATION,
            min_stake_amount: DEFAULT_POOL_MIN_STAKE,
            status: PoolStatus::Active,
        },
    );
    let state = StateAccount {
        authority,
        token_config: TokenConfig {
            wusd_mint,
            collateral_mint,
            treasury,
            total_supply: 0,
            decimals,
            collateral_decimals: 6,
            wusd_decimals: decimals,
        },
        staking_config: StakingConfig {
            total_staked: 0,
            reward_rate: DEFAULT_REWARD_RATE,
            last_update_time: now,
            emergency_withdraw_penalty: DEFAULT_EMERGENCY_PENALTY,
            emergency_cooldown_duration: DEFAULT_EMERGENCY_COOLDOWN,
            total_staking_plans: 0,
        },
        paused: false,
        token_whitelist,
        exchange_rates,
        staking_pools,
        claims: Vec::new(),
        owners: Vec::new(),
    };
    proof {
        assert(state.token_whitelist@ =~= seq![(wusd_mint, true), (collateral_mint, true)]);
        assert(state.exchange_rates@ =~= seq![
            (wusd_mint, collateral_mint, Rate { input: 1_000_000, output: 1_000_000 }),
        ]);
        assert(state.staking_pools@ =~= seq![default_pool()]);
        assert(state.claims@ =~= Seq::<(Pubkey, SoftStakeAccount)>::empty());
        assert(state.owners@ =~= Seq::<Pubkey>::empty());
    }
    state
}

/// Rejects the reserved all-zero identity where a real one is needed.
pub fn ensure_non_zero_address(address: &Pubkey) -> (r: Result<(), WUSDError>)
    ensures
        r == if address.is_zero_spec() {
            Err::<(), WUSDError>(WUSDError::InvalidAddress)
        } else {
            Ok::<(), WUSDError>(())
        },
{
    if address.is_zero() {
        Err(WUSDError::InvalidAddress)
    } else {
        Ok(())
    }
}

/// Pauses the registry; only the authority may.
pub fn pause(state: &mut StateAccount, authority: &Pubkey) -> (r: Result<(), WUSDError>)
    requires
        old(state).wf(),
    ensures
        final(state).wf(),
        *authority == old(state).authority ==> r == Ok::<(), WUSDError>(()) && *final(state)
            == (StateAccount { paused: true, ..*old(state) }),
        *authority != old(state).authority ==> r == Err::<(), WUSDError>(WUSDError::Unauthorized)
            && *final(state) == *old(state),
{
    if !pubkey_eq(authority, &state.authority) {
        return Err(WUSDError::Unauthorized);
    }
    state.paused = true;
    Ok(())
}

/// Unpauses the registry; only the authority may.
pub fn unpause(state: &mut StateAccount, authority: &Pubkey) -> (r: Result<(), WUSDError>)
    requires
        old(state).wf(),
    ensures
        final(state).wf(),
        *authority == old(state).authority ==> r == Ok::<(), WUSDError>(()) && *final(state)
            == (StateAccount { paused: false, ..*old(state) }),
        *authority != old(state).authority ==> r == Err::<(), WUSDError>(WUSDError::Unauthorized)
            && *final(state) == *old(state),
{
    if !pubkey_eq(authority, &state.authority) {
        return Err(WUSDError::Unauthorized);
    }
    state.paused = false;
    Ok(())
}

} // verus!
