//! The soft-stake engine: a stake variant whose activation is gated by
//! an externally verified access credential, with batch provisioning
//! of claim slots and a multi-signature dispatch gate.
//!
//! Signature verification is a black-box capability: the engine takes
//! the collaborator's verdict (or calls Ed25519 through the trusted
//! wrapper below) and is verified for every value of that verdict.
use vstd::prelude::*;

use ed25519_dalek::Verifier;

use crate::errors::WUSDError;
use crate::math::SCALE;
use crate::math::calculate_rewards;
use crate::math::rewards_of;
use crate::pubkey::Pubkey;
use crate::state::MAX_CLAIM_ENTRIES;
use crate::state::PoolStatus;
use crate::state::StakingConfig;
use crate::state::StateAccount;
use crate::state::pool_with;
use crate::state::pools_have;

verus! {

broadcast use vstd::array::group_array_axioms;

/// Lifecycle of a soft-stake record.
#[derive(Clone, Copy, Debug, PartialEq, Eq, Structural)]
pub enum SoftStakingStatus {
    /// Accruing rewards.
    Active,
    /// Released for collection.
    Claimable,
    /// Collected.
    Claimed,
}

/// A user's soft-stake record, carrying the access credential that
/// gated its creation.
#[derive(Clone, Copy, Debug)]
pub struct SoftStakeAccount {
    pub owner: Pubkey,
    pub staking_pool_id: u64,
    pub amount: u64,
    /// APY snapshot taken from the pool at stake time, scaled by 1e9.
    pub apy: u64,
    pub start_time: i64,
    pub end_time: i64,
    pub claimable_timestamp: i64,
    pub rewards_earned: u64,
    pub status: SoftStakingStatus,
    pub access_key: [u8; 32],
    pub last_update_time: i64,
}

impl SoftStakeAccount {
    /// All recorded timestamps are non-negative, as ledger time is.
    pub open spec fn wf(self) -> bool {
        &&& 0 <= self.start_time
        &&& 0 <= self.end_time
        &&& 0 <= self.last_update_time
    }
}

/// A fresh, empty soft-stake record owned by `owner`.
pub fn initialize_soft_stake_account(owner: Pubkey, now: i64) -> (record: SoftStakeAccount)
    ensures
        record.owner == owner,
        record.staking_pool_id == 0,
        record.amount == 0,
        record.apy == 0,
        record.start_time == now,
        record.end_time == 0,
        record.claimable_timestamp == 0,
        record.rewards_earned == 0,
        record.status == SoftStakingStatus::Active,
        key_is_zero_spec(record.access_key),
        record.last_update_time == now,
{
    SoftStakeAccount {
        owner,
        staking_pool_id: 0,
        amount: 0,
        apy: 0,
        start_time: now,
        end_time: 0,
        claimable_timestamp: 0,
        rewards_earned: 0,
        status: SoftStakingStatus::Active,
        access_key: [0u8; 32],
        last_update_time: now,
    }
}

/// Whether an access key is the reserved all-zero credential.
pub open spec fn key_is_zero_spec(key: [u8; 32]) -> bool {
    forall|i: int| 0 <= i < 32 ==> key[i] == 0u8
}

/// Whether an access key is the reserved all-zero credential.
pub fn key_is_zero(key: &[u8; 32]) -> (r: bool)
    ensures
        r == key_is_zero_spec(*key),
{
    let mut i: usize = 0;
    while i < 32
        invariant
            0 <= i <= 32,
            forall|j: int| 0 <= j < i ==> key[j] == 0u8,
        decreases 32 - i,
    {
        if key[i] != 0u8 {
            return false;
        }
        i = i + 1;
    }
    true
}

/// The per-second reward-rate accrual of the soft engine:
/// `floor(amount * reward_rate * elapsed / 1e9)`, computed with
/// 64-bit checked steps that degrade to zero on overflow.
pub open spec fn rate_accrual_of(amount: u64, reward_rate: u64, elapsed: int) -> u64
    recommends
        0 <= elapsed,
{
    if amount * reward_rate > u64::MAX {
        0u64
    } else if amount * reward_rate * elapsed > u64::MAX {
        0u64
    } else {
        ((amount * reward_rate * elapsed) / (SCALE as int)) as u64
    }
}

/// Computes [`rate_accrual_of`].
pub fn rate_accrual(amount: u64, reward_rate: u64, elapsed: i64) -> (r: u64)
    requires
        0 <= elapsed,
    ensures
        r == rate_accrual_of(amount, reward_rate, elapsed as int),
{
    let m1 = match amount.checked_mul(reward_rate) {
        Some(v) => v,
        None => { return 0u64 },
    };
    let m2 = match m1.checked_mul(elapsed as u64) {
        Some(v) => v,
        None => { return 0u64 },
    };
    m2 / SCALE
}

/// The reward a soft-stake record has accrued under its own APY
/// snapshot since its last update.
pub open spec fn soft_pending_rewards(record: SoftStakeAccount, now: i64) -> u64
    recommends
        record.last_update_time <= now,
{
    if record.amount > 0 {
        rewards_of(record.amount, record.apy, now - record.last_update_time)
    } else {
        0u64
    }
}

/// Which outcome `soft_stake` reaches, in check order: pause, the
/// collaborator's access verdict, a real key, the amount, pool
/// resolution and status, the pool's entry floor, then the checked
/// additions.
pub open spec fn soft_stake_check(
    state: StateAccount,
    record: SoftStakeAccount,
    now: i64,
    amount: u64,
    staking_pool_id: u64,
    access_key: [u8; 32],
    access_key_verified: bool,
) -> Result<(), WUSDError> {
    let pool = pool_with(state.staking_pools@, staking_pool_id);
    if state.paused {
        Err(WUSDError::ContractPaused)
    } else if !access_key_verified {
        Err(WUSDError::InvalidSignatureError)
    } else if key_is_zero_spec(access_key) {
        Err(WUSDError::InvalidAccessKey)
    } else if amount == 0 {
        Err(WUSDError::InvalidAmount)
    } else if staking_pool_id == 0 || !pools_have(state.staking_pools@, staking_pool_id) {
        Err(WUSDError::InvalidPoolId)
    } else if pool.status != PoolStatus::Active {
        Err(WUSDError::InvalidPoolStatus)
    } else if amount < pool.min_stake_amount {
        Err(WUSDError::StakingAmountTooLow)
    } else if now + pool.duration > i64::MAX {
        Err(WUSDError::MathOverflow)
    } else if record.rewards_earned + soft_pending_rewards(record, now) > u64::MAX {
        Err(WUSDError::MathOverflow)
    } else if state.staking_config.total_staked + amount > u64::MAX {
        Err(WUSDError::MathOverflow)
    } else {
        Ok(())
    }
}

/// The record after a successful soft stake.
pub open spec fn soft_staked_record(
    record: SoftStakeAccount,
    user: Pubkey,
    now: i64,
    amount: u64,
    pool: crate::state::StakingPool,
    access_key: [u8; 32],
) -> SoftStakeAccount {
    SoftStakeAccount {
        owner: if record.owner.is_zero_spec() {
            user
        } else {
            record.owner
        },
        staking_pool_id: pool.id,
        amount,
        apy: pool.apy,
        start_time: now,
        end_time: (now + pool.duration) as i64,
        rewards_earned: (record.rewards_earned + soft_pending_rewards(record, now)) as u64,
        status: SoftStakingStatus::Active,
        access_key,
        last_update_time: now,
        ..record
    }
}

/// Soft-stakes `amount` into the pool for `user`. The caller supplies
/// the collaborator's verdict on the access-key proof; a rejected or
/// all-zero key stakes nothing. Pending reward is folded in first and
/// `amount` is added to the registry's total.
pub fn soft_stake(
    state: &mut StateAccount,
    record: &mut SoftStakeAccount,
    user: &Pubkey,
    now: i64,
    amount: u64,
    staking_pool_id: u64,
    access_key: [u8; 32],
    access_key_verified: bool,
) -> (r: Result<(), WUSDError>)
    requires
        old(state).wf(),
        old(record).wf(),
        old(record).last_update_time <= now,
    ensures
        final(state).wf(),
        final(record).wf(),
        r == soft_stake_check(
            *old(state),
            *old(record),
            now,
            amount,
            staking_pool_id,
            access_key,
            access_key_verified,
        ),
        r is Err ==> *final(state) == *old(state) && *final(record) == *old(record),
        r is Ok ==> *final(record) == soft_staked_record(
            *old(record),
            *user,
            now,
            amount,
            pool_with(old(state).staking_pools@, staking_pool_id),
            access_key,
        ),
        r is Ok ==> *final(state) == (StateAccount {
            staking_config: StakingConfig {
                total_staked: (old(state).staking_config.total_staked + amount) as u64,
                last_update_time: now,
                ..old(state).staking_config
            },
            ..*old(state)
        }),
        r is Ok ==> final(record).rewards_earned >= old(record).rewards_earned,
{
    if state.paused {
        return Err(WUSDError::ContractPaused);
    }
    if !access_key_verified {
        return Err(WUSDError::InvalidSignatureError);
    }
    if key_is_zero(&access_key) {
        return Err(WUSDError::InvalidAccessKey);
    }
    if amount == 0 {
        return Err(WUSDError::InvalidAmount);
    }
    if staking_pool_id == 0 {
        return Err(WUSDError::InvalidPoolId);
    }
    let pool = match state.get_staking_pool(staking_pool_id) {
        Ok(pool) => pool,
        Err(e) => { return Err(e) },
    };
    if !matches!(pool.status, PoolStatus::Active) {
        return Err(WUSDError::InvalidPoolStatus);
    }
    if amount < pool.min_stake_amount {
        return Err(WUSDError::StakingAmountTooLow);
    }
    let end_time = match now.checked_add(pool.duration) {
        Some(t) => t,
        None => { return Err(WUSDError::MathOverflow) },
    };
    let pending = if record.amount > 0 {
        let elapsed = now - record.last_update_time;
        calculate_rewards(record.amount, record.apy, elapsed)
    } else {
        0u64
    };
    let new_rewards = match record.rewards_earned.checked_add(pending) {
        Some(total) => total,
        None => { return Err(WUSDError::MathOverflow) },
    };
    let new_total_staked = match state.staking_config.total_staked.checked_add(amount) {
        Some(total) => total,
        None => { return Err(WUSDError::MathOverflow) },
    };
    if record.owner.is_zero() {
        record.owner = *user;
    }
    record.staking_pool_id = staking_pool_id;
    record.amount = amount;
    record.apy = pool.apy;
    record.start_time = now;
    record.end_time = end_time;
    record.rewards_earned = new_rewards;
    record.status = SoftStakingStatus::Active;
    record.access_key = access_key;
    record.last_update_time = now;
    state.staking_config.total_staked = new_total_staked;
    state.staking_config.last_update_time = now;
    Ok(())
}

/// Which outcome `soft_claim` reaches, and the amount a successful
/// claim pays: the folded-in balance plus the reward-rate accrual
/// since the last update.
pub open spec fn soft_claim_check(
    state: StateAccount,
    record: SoftStakeAccount,
    now: i64,
) -> Result<u64, WUSDError> {
    let total = record.rewards_earned + rate_accrual_of(
        record.amount,
        state.staking_config.reward_rate,
        now - record.last_update_time,
    );
    if state.paused {
        Err(WUSDError::ContractPaused)
    } else if total > u64::MAX {
        Err(WUSDError::MathOverflow)
    } else if total == 0 {
        Err(WUSDError::NoRewardsToClaim)
    } else {
        Ok(total as u64)
    }
}

/// Collects a soft-stake record's accrued reward, computed at the
/// current global reward rate. On success the returned amount is owed
/// to the owner, the reward balance is zeroed, the clock advanced and
/// the record marked `Claimed`.
pub fn soft_claim(state: &StateAccount, record: &mut SoftStakeAccount, now: i64) -> (r: Result<
    u64,
    WUSDError,
>)
    requires
        old(record).wf(),
        old(record).last_update_time <= now,
    ensures
        final(record).wf(),
        r == soft_claim_check(*state, *old(record), now),
        r is Err ==> *final(record) == *old(record),
        r is Ok ==> *final(record) == (SoftStakeAccount {
            rewards_earned: 0,
            last_update_time: now,
            status: SoftStakingStatus::Claimed,
            ..*old(record)
        }),
{
    if state.paused {
        return Err(WUSDError::ContractPaused);
    }
    let elapsed = now - record.last_update_time;
    let accrued = rate_accrual(record.amount, state.staking_config.reward_rate, elapsed);
    let total = match record.rewards_earned.checked_add(accrued) {
        Some(total) => total,
        None => { return Err(WUSDError::MathOverflow) },
    };
    if total == 0 {
        return Err(WUSDError::NoRewardsToClaim);
    }
    record.rewards_earned = 0;
    record.last_update_time = now;
    record.status = SoftStakingStatus::Claimed;
    Ok(total)
}

/// A soft-stake reward computation: the APY-based base, the
/// reward-rate bonus, and their sum.
#[derive(Clone, Copy, Debug, PartialEq, Eq, Structural)]
pub struct SoftStakeRewards {
    pub base_rewards: u64,
    pub bonus_rewards: u64,
    pub total_rewards: u64,
    pub last_update_time: i64,
}

/// Which outcome `calculate_soft_stake_rewards` reaches: the base is
/// the APY reward, the bonus the reward-rate accrual with overflow
/// reported rather than degraded, and the total their checked sum.
pub open spec fn soft_rewards_check(
    amount: u64,
    apy: u64,
    duration: int,
    reward_rate: u64,
    now: i64,
) -> Result<SoftStakeRewards, WUSDError> {
    let base = rewards_of(amount, apy, duration);
    if amount * reward_rate > u64::MAX {
        Err(WUSDError::ArithmeticOverflow)
    } else if amount * reward_rate * duration > u64::MAX {
        Err(WUSDError::ArithmeticOverflow)
    } else {
        let bonus = ((amount * reward_rate * duration) / (SCALE as int)) as u64;
        if base + bonus > u64::MAX {
            Err(WUSDError::ArithmeticOverflow)
        } else {
            Ok(SoftStakeRewards {
                base_rewards: base,
                bonus_rewards: bonus,
                total_rewards: (base + bonus) as u64,
                last_update_time: now,
            })
        }
    }
}

/// Computes the base, bonus and total reward of a soft stake of
/// `amount` at `apy` over `duration` seconds, with the bonus accruing
/// at `reward_rate`.
pub fn calculate_soft_stake_rewards(
    amount: u64,
    apy: u64,
    duration: i64,
    reward_rate: u64,
    now: i64,
) -> (r: Result<SoftStakeRewards, WUSDError>)
    requires
        0 <= duration,
    ensures
        r == soft_rewards_check(amount, apy, duration as int, reward_rate, now),
{
    let base_rewards = calculate_rewards(amount, apy, duration);
    let m1 = match amount.checked_mul(reward_rate) {
        Some(v) => v,
        None => { return Err(WUSDError::ArithmeticOverflow) },
    };
    let m2 = match m1.checked_mul(duration as u64) {
        Some(v) => v,
        None => { return Err(WUSDError::ArithmeticOverflow) },
    };
    let bonus_rewards = m2 / SCALE;
    let total_rewards = match base_rewards.checked_add(bonus_rewards) {
        Some(v) => v,
        None => { return Err(WUSDError::ArithmeticOverflow) },
    };
    Ok(SoftStakeRewards { base_rewards, bonus_rewards, total_rewards, last_update_time: now })
}

/// Overwrites a record's status and, when a reward computation is
/// supplied, installs its total and timestamp.
pub fn update_soft_stake(
    record: &mut SoftStakeAccount,
    new_status: SoftStakingStatus,
    rewards: Option<SoftStakeRewards>,
) -> (r: Result<(), WUSDError>)
    ensures
        r == Ok::<(), WUSDError>(()),
        *final(record) == match rewards {
            Some(rw) => (SoftStakeAccount {
                status: new_status,
                rewards_earned: rw.total_rewards,
                last_update_time: rw.last_update_time,
                ..*old(record)
            }),
            None => (SoftStakeAccount { status: new_status, ..*old(record) }),
        },
{
    record.status = new_status;
    match rewards {
        Some(rw) => {
            record.rewards_earned = rw.total_rewards;
            record.last_update_time = rw.last_update_time;
        },
        None => {},
    }
    Ok(())
}

/// Overwrites a record's status.
pub fn update_soft_stake_status(
    record: &mut SoftStakeAccount,
    new_status: SoftStakingStatus,
) -> (r: Result<(), WUSDError>)
    ensures
        r == Ok::<(), WUSDError>(()),
        *final(record) == (SoftStakeAccount { status: new_status, ..*old(record) }),
{
    record.status = new_status;
    Ok(())
}

/// Overwrites a record's reward balance.
pub fn update_soft_stake_rewards(record: &mut SoftStakeAccount, new_rewards: u64) -> (r: Result<
    (),
    WUSDError,
>)
    ensures
        r == Ok::<(), WUSDError>(()),
        *final(record) == (SoftStakeAccount { rewards_earned: new_rewards, ..*old(record) }),
{
    record.rewards_earned = new_rewards;
    Ok(())
}

/// Names the outcome of Ed25519 verification: whether `signature` is
/// a valid signature of `message` under `public_key`. The outcome is
/// a function of the three byte strings alone.
pub uninterp spec fn ed25519_valid(message: Seq<u8>, signature: Seq<u8>, public_key: Seq<u8>) -> bool;

/// Relies on ed25519_dalek::PublicKey::verify, with
/// Signature::from_bytes and PublicKey::from_bytes: the outcome is
/// deterministic in the message, signature and key bytes, and a
/// malformed signature or key verifies as false.
#[verifier::external_body]
fn ed25519_verify(message: &[u8], signature: &[u8], public_key: &[u8; 32]) -> (r: bool)
    ensures
        r == ed25519_valid(message@, signature@, public_key@),
{
    let signature = match ed25519_dalek::Signature::from_bytes(signature) {
        Ok(signature) => signature,
        Err(_) => return false,
    };
    let public_key = match ed25519_dalek::PublicKey::from_bytes(public_key) {
        Ok(public_key) => public_key,
        Err(_) => return false,
    };
    public_key.verify(message, &signature).is_ok()
}

/// The byte string a dispatch signature covers: the selector followed
/// by the call data.
pub open spec fn message_of(selector: [u8; 4], input_data: Seq<u8>) -> Seq<u8> {
    selector@ + input_data
}

/// Checks that `signature` is a 64-byte Ed25519 signature by `signer`
/// over the selector and call data, and hands the signer back.
pub fn verify_signature(
    signer: &Pubkey,
    selector: &[u8; 4],
    input_data: &[u8],
    signature: &[u8],
) -> (r: Result<Pubkey, WUSDError>)
    ensures
        r == if signature@.len() == 64 && ed25519_valid(
            message_of(*selector, input_data@),
            signature@,
            signer.bytes@,
        ) {
            Ok::<Pubkey, WUSDError>(*signer)
        } else {
            Err::<Pubkey, WUSDError>(WUSDError::InvalidSignatureError)
        },
{
    if signature.len() != 64 {
        return Err(WUSDError::InvalidSignatureError);
    }
    let mut message: Vec<u8> = Vec::new();
    let mut i: usize = 0;
    while i < 4
        invariant
            0 <= i <= 4,
            message@ == selector@.take(i as int),
        decreases 4 - i,
    {
        message.push(selector[i]);
        proof {
            assert(selector@.take(i as int + 1) =~= selector@.take(i as int).push(
                selector@[i as int],
            ));
        }
        i = i + 1;
    }
    proof {
        assert(selector@.take(4) =~= selector@);
    }
    let n = input_data.len();
    let mut j: usize = 0;
    while j < n
        invariant
            0 <= j <= n,
            n == input_data@.len(),
            message@ == selector@ + input_data@.take(j as int),
        decreases n - j,
    {
        message.push(input_data[j]);
        proof {
            assert(selector@ + input_data@.take(j as int + 1) =~= (selector@
                + input_data@.take(j as int)).push(input_data@[j as int]));
        }
        j = j + 1;
    }
    proof {
        assert(input_data@.take(n as int) =~= input_data@);
    }
    if ed25519_verify(message.as_slice(), signature, &signer.bytes) {
        Ok(*signer)
    } else {
        Err(WUSDError::InvalidSignatureError)
    }
}

/// Whether the `i`-th owner's signature over the dispatch message is
/// well-formed and valid.
pub open spec fn signer_ok(
    owners: Seq<Pubkey>,
    selector: [u8; 4],
    input_data: Seq<u8>,
    signatures: Seq<Vec<u8>>,
    i: int,
) -> bool {
    &&& signatures[i]@.len() == 64
    &&& ed25519_valid(message_of(selector, input_data), signatures[i]@, owners[i].bytes@)
}

/// Which outcome `execute` reaches: pause, a non-empty signature set
/// matching the owner set, every signature valid — and then, with no
/// operation wired to any selector, `InvalidSelector`.
pub open spec fn execute_check(
    state: StateAccount,
    selector: [u8; 4],
    input_data: Seq<u8>,
    signatures: Seq<Vec<u8>>,
) -> Result<(), WUSDError> {
    if state.paused {
        Err(WUSDError::ContractPaused)
    } else if signatures.len() == 0 {
        Err(WUSDError::EmptySignatures)
    } else if signatures.len() != state.owners@.len() {
        Err(WUSDError::InvalidNumberOfSigners)
    } else if !(forall|i: int|
        0 <= i < signatures.len() ==> signer_ok(state.owners@, selector, input_data, signatures, i)) {
        Err(WUSDError::InvalidSignatureError)
    } else {
        Err(WUSDError::InvalidSelector)
    }
}

/// The multi-signature dispatch gate: demands one valid owner
/// signature per registered owner over the selector and call data.
/// No operation is wired to any selector, so a fully authorized call
/// still ends in `InvalidSelector`.
pub fn execute(
    state: &StateAccount,
    selector: [u8; 4],
    input_data: Vec<u8>,
    signatures: Vec<Vec<u8>>,
) -> (r: Result<(), WUSDError>)
    ensures
        r == execute_check(*state, selector, input_data@, signatures@),
{
    if state.paused {
        return Err(WUSDError::ContractPaused);
    }
    if signatures.len() == 0 {
        return Err(WUSDError::EmptySignatures);
    }
    if signatures.len() != state.owners.len() {
        return Err(WUSDError::InvalidNumberOfSigners);
    }
    let n = signatures.len();
    let mut i: usize = 0;
    while i < n
        invariant
            0 <= i <= n,
            0 < n,
            !state.paused,
            n == signatures@.len(),
            n == state.owners@.len(),
            forall|j: int|
                0 <= j < i ==> signer_ok(state.owners@, selector, input_data@, signatures@, j),
        decreases n - i,
    {
        let owner = state.owners[i];
        match verify_signature(
            &owner,
            &selector,
            input_data.as_slice(),
            signatures[i].as_slice(),
        ) {
            Ok(_) => {},
            Err(_) => {
                proof {
                    assert(!signer_ok(state.owners@, selector, input_data@, signatures@, i as int));
                }
                return Err(WUSDError::InvalidSignatureError);
            },
        }
        i = i + 1;
    }
    Err(WUSDError::InvalidSelector)
}

/// All registry fields but the claim table agree.
pub open spec fn eq_except_claims(a: StateAccount, b: StateAccount) -> bool {
    &&& a.authority == b.authority
    &&& a.token_config == b.token_config
    &&& a.staking_config == b.staking_config
    &&& a.paused == b.paused
    &&& a.token_whitelist@ == b.token_whitelist@
    &&& a.exchange_rates@ == b.exchange_rates@
    &&& a.staking_pools@ == b.staking_pools@
    &&& a.owners@ == b.owners@
}

/// One provisioning input of a claim batch.
#[derive(Clone, Copy, Debug)]
pub struct ClaimDataInput {
    pub account: Pubkey,
    pub claimable_timestamp: i64,
    pub amount: u64,
    pub access_key: [u8; 32],
}

/// The claim-table entry provisioned for `account`: a zero-pool
/// soft-stake record releasing at `claimable_timestamp`, slotted
/// under the provisioning authority.
pub open spec fn claim_entry_of(
    authority: Pubkey,
    account: Pubkey,
    claimable_timestamp: i64,
    amount: u64,
    access_key: [u8; 32],
    now: i64,
) -> (Pubkey, SoftStakeAccount) {
    (
        authority,
        SoftStakeAccount {
            owner: account,
            staking_pool_id: 0,
            amount,
            apy: 0,
            start_time: now,
            end_time: claimable_timestamp,
            claimable_timestamp,
            rewards_earned: 0,
            status: SoftStakingStatus::Active,
            access_key,
            last_update_time: now,
        },
    )
}

/// Which outcome `create_claim_data` reaches: pause, a real account,
/// a positive amount, a free claim slot.
pub open spec fn create_claim_data_check(
    state: StateAccount,
    account: Pubkey,
    amount: u64,
) -> Result<(), WUSDError> {
    if state.paused {
        Err(WUSDError::ContractPaused)
    } else if account.is_zero_spec() {
        Err(WUSDError::InvalidAddress)
    } else if amount == 0 {
        Err(WUSDError::InvalidAmount)
    } else if state.claims@.len() >= MAX_CLAIM_ENTRIES {
        Err(WUSDError::NoAvailableSlot)
    } else {
        Ok(())
    }
}

/// Provisions one claim slot for `account`, releasing at
/// `claimable_timestamp`; fails with `NoAvailableSlot` when the claim
/// table is full.
pub fn create_claim_data(
    state: &mut StateAccount,
    authority: &Pubkey,
    account: &Pubkey,
    claimable_timestamp: i64,
    amount: u64,
    access_key: [u8; 32],
    now: i64,
) -> (r: Result<(), WUSDError>)
    requires
        old(state).wf(),
        0 <= now,
        0 <= claimable_timestamp,
    ensures
        final(state).wf(),
        r == create_claim_data_check(*old(state), *account, amount),
        r is Err ==> *final(state) == *old(state),
        r is Ok ==> final(state).claims@ == old(state).claims@.push(
            claim_entry_of(*authority, *account, claimable_timestamp, amount, access_key, now),
        ),
        r is Ok ==> eq_except_claims(*final(state), *old(state)),
{
    if state.paused {
        return Err(WUSDError::ContractPaused);
    }
    if account.is_zero() {
        return Err(WUSDError::InvalidAddress);
    }
    if amount == 0 {
        return Err(WUSDError::InvalidAmount);
    }
    if state.claims.len() >= MAX_CLAIM_ENTRIES {
        return Err(WUSDError::NoAvailableSlot);
    }
    state.claims.push(
        (
            *authority,
            SoftStakeAccount {
                owner: *account,
                staking_pool_id: 0,
                amount,
                apy: 0,
                start_time: now,
                end_time: claimable_timestamp,
                claimable_timestamp,
                rewards_earned: 0,
                status: SoftStakingStatus::Active,
                access_key,
                last_update_time: now,
            },
        ),
    );
    Ok(())
}

/// The claim-table entries a batch provisions, one per input, in
/// order.
pub open spec fn claim_entries_of(
    authority: Pubkey,
    now: i64,
    inputs: Seq<ClaimDataInput>,
) -> Seq<(Pubkey, SoftStakeAccount)> {
    inputs.map(
        |i: int, input: ClaimDataInput|
            claim_entry_of(
                authority,
                input.account,
                input.claimable_timestamp,
                input.amount,
                input.access_key,
                now,
            ),
    )
}

/// Which outcome `create_claim_data_multiple` reaches: pause, then
/// room for the whole batch — a batch that does not fit entirely
/// provisions nothing.
pub open spec fn create_claim_data_multiple_check(
    state: StateAccount,
    inputs: Seq<ClaimDataInput>,
) -> Result<(), WUSDError> {
    if state.paused {
        Err(WUSDError::ContractPaused)
    } else if state.claims@.len() + inputs.len() > MAX_CLAIM_ENTRIES {
        Err(WUSDError::NoAvailableSlot)
    } else {
        Ok(())
    }
}

/// Provisions one claim slot per input, all or nothing: when the
/// batch does not fit in the claim table the whole operation fails
/// with `NoAvailableSlot` and nothing is committed.
pub fn create_claim_data_multiple(
    state: &mut StateAccount,
    authority: &Pubkey,
    claim_data_list: Vec<ClaimDataInput>,
    now: i64,
) -> (r: Result<(), WUSDError>)
    requires
        old(state).wf(),
        0 <= now,
        forall|i: int|
            0 <= i < claim_data_list@.len() ==> 0 <= claim_data_list@[i].claimable_timestamp,
    ensures
        final(state).wf(),
        r == create_claim_data_multiple_check(*old(state), claim_data_list@),
        r is Err ==> *final(state) == *old(state),
        r is Ok ==> final(state).claims@ == old(state).claims@ + claim_entries_of(
            *authority,
            now,
            claim_data_list@,
        ),
        r is Ok ==> eq_except_claims(*final(state), *old(state)),
{
    if state.paused {
        return Err(WUSDError::ContractPaused);
    }
    let room = MAX_CLAIM_ENTRIES - state.claims.len();
    if claim_data_list.len() > room {
        return Err(WUSDError::NoAvailableSlot);
    }
    let ghost entries = claim_entries_of(*authority, now, claim_data_list@);
    let n = claim_data_list.len();
    let mut k: usize = 0;
    while k < n
        invariant
            state.wf(),
            n == claim_data_list@.len(),
            0 <= k <= n,
            0 <= now,
            forall|i: int|
                0 <= i < claim_data_list@.len() ==> 0 <= claim_data_list@[i].claimable_timestamp,
            old(state).claims@.len() + n <= MAX_CLAIM_ENTRIES,
            entries == claim_entries_of(*authority, now, claim_data_list@),
            state.claims@ == old(state).claims@ + entries.take(k as int),
            eq_except_claims(*state, *old(state)),
        decreases n - k,
    {
        let input = claim_data_list[k];
        state.claims.push(
            (
                *authority,
                SoftStakeAccount {
                    owner: input.account,
                    staking_pool_id: 0,
                    amount: input.amount,
                    apy: 0,
                    start_time: now,
                    end_time: input.claimable_timestamp,
                    claimable_timestamp: input.claimable_timestamp,
                    rewards_earned: 0,
                    status: SoftStakingStatus::Active,
                    access_key: input.access_key,
                    last_update_time: now,
                },
            ),
        );
        proof {
            assert(entries[k as int] == claim_entry_of(
                *authority,
                input.account,
                input.claimable_timestamp,
                input.amount,
                input.access_key,
                now,
            ));
            assert(entries.take(k as int + 1) =~= entries.take(k as int).push(
                entries[k as int],
            ));
            assert(state.claims@ =~= old(state).claims@ + entries.take(k as int + 1));
        }
        k = k + 1;
    }
    proof {
        assert(entries.take(n as int) =~= entries);
    }
    Ok(())
}

/// Batch collection over a list of access keys. Each key admits only
/// a freshly provisioned placeholder claim holding a zero amount and
/// releasing immediately, so the collected total is always zero.
pub fn claims(state: &StateAccount, user: &Pubkey, access_keys: Vec<[u8; 32]>, now: i64) -> (r: Result<
    u64,
    WUSDError,
>)
    ensures
        r == if state.paused {
            Err::<u64, WUSDError>(WUSDError::ContractPaused)
        } else {
            Ok::<u64, WUSDError>(0u64)
        },
{
    if state.paused {
        return Err(WUSDError::ContractPaused);
    }
    let mut total_amount: u64 = 0;
    let n = access_keys.len();
    let mut k: usize = 0;
    while k < n
        invariant
            0 <= k <= n,
            n == access_keys@.len(),
            total_amount == 0,
        decreases n - k,
    {
        let claim = SoftStakeAccount {
            owner: *user,
            staking_pool_id: 0,
            amount: 0,
            apy: 0,
            start_time: now,
            end_time: now,
            claimable_timestamp: now,
            rewards_earned: 0,
            status: SoftStakingStatus::Active,
            access_key: access_keys[k],
            last_update_time: now,
        };
        if claim.claimable_timestamp > now {
            return Err(WUSDError::ClaimableTimestampNotReached);
        }
        if matches!(claim.status, SoftStakingStatus::Claimed) {
            return Err(WUSDError::ClaimAlreadyClaimed);
        }
        total_amount = match total_amount.checked_add(claim.amount) {
            Some(total) => total,
            None => { return Err(WUSDError::ArithmeticOverflow) },
        };
        k = k + 1;
    }
    Ok(total_amount)
}

/// Which outcome `validate_soft_stake` reaches: the record active,
/// its pool resolvable and active, the registry unpaused.
pub open spec fn validate_soft_stake_check(
    record: SoftStakeAccount,
    state: StateAccount,
) -> Result<(), WUSDError> {
    if record.status != SoftStakingStatus::Active {
        Err(WUSDError::InvalidStakingStatus)
    } else if !pools_have(state.staking_pools@, record.staking_pool_id) {
        Err(WUSDError::InvalidPoolId)
    } else if pool_with(state.staking_pools@, record.staking_pool_id).status
        != PoolStatus::Active {
        Err(WUSDError::InvalidPoolStatus)
    } else if state.paused {
        Err(WUSDError::ContractPaused)
    } else {
        Ok(())
    }
}

/// Rejects a soft-stake record that is not active, whose pool is not
/// active, or whose registry is paused.
pub fn validate_soft_stake(record: &SoftStakeAccount, state: &StateAccount) -> (r: Result<
    (),
    WUSDError,
>)
    requires
        state.wf(),
    ensures
        r == validate_soft_stake_check(*record, *state),
{
    if !matches!(record.status, SoftStakingStatus::Active) {
        return Err(WUSDError::InvalidStakingStatus);
    }
    let pool = match state.get_staking_pool(record.staking_pool_id) {
        Ok(pool) => pool,
        Err(e) => { return Err(e) },
    };
    if !matches!(pool.status, PoolStatus::Active) {
        return Err(WUSDError::InvalidPoolStatus);
    }
    if state.paused {
        return Err(WUSDError::ContractPaused);
    }
    Ok(())
}

} // verus!
