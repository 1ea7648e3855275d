//! The error taxonomy of the core: every operation either succeeds or
//! aborts with one of these values, with no partial effect.
use vstd::prelude::*;

verus! {

/// Typed failure of a core operation.
#[derive(Clone, Copy, Debug, PartialEq, Eq, Structural)]
pub enum WUSDError {
    /// The registry is paused and the operation mutates state.
    ContractPaused,
    /// A zero or out-of-range amount was supplied.
    InvalidAmount,
    /// An access-key proof did not verify.
    InvalidSignatureError,
    /// The supplied access key is the reserved all-zero value.
    InvalidAccessKey,
    /// The caller does not hold the required role.
    Unauthorized,
    /// The computed swap output is below the caller's minimum.
    SlippageExceeded,
    /// A claim found no accrued reward to pay out.
    NoRewardsToClaim,
    /// A non-positive lock or cooldown duration was supplied.
    InvalidLockDuration,
    /// The stake record is not in the state the operation needs.
    InvalidStakingStatus,
    /// An emergency withdrawal was attempted before its cooldown ended.
    EmergencyWithdrawCooldown,
    /// A normal withdrawal was attempted before the lock expired.
    StakeLocked,
    /// A token identity is not on the admission whitelist.
    TokenNotWhitelisted,
    /// A checked arithmetic step overflowed.
    MathOverflow,
    /// No staking pool carries the requested id.
    InvalidPoolId,
    /// The staking pool is not active.
    InvalidPoolStatus,
    /// The staked amount is below the pool's minimum.
    StakingAmountTooLow,
    /// The two tokens of a pair must differ.
    SameTokenAddresses,
    /// A balance is too small for the requested movement.
    InsufficientBalance,
    /// An account is not owned by the expected identity.
    InvalidOwner,
    /// A token precision exceeds the supported maximum.
    InvalidDecimals,
    /// A stored or supplied exchange rate has a zero component.
    InvalidExchangeRate,
    /// The swap output rounded down to nothing.
    InvalidOutputAmount,
    /// The reserved all-zero identity was supplied where a real one is needed.
    InvalidAddress,
    /// The treasury cannot cover the swap output.
    InsufficientTreasuryBalance,
    /// A fixed-capacity table is full and the key is new.
    NoAvailableSlot,
    /// An empty input list was supplied.
    InvalidInput,
    /// More tokens were supplied than the whitelist can hold.
    TooManyTokens,
    /// A batch whitelist update changed no entry.
    NoTokensUpdated,
    /// The normalized swap output is below one unit of the output token.
    AmountTooSmall,
    /// A reward computation overflowed.
    ArithmeticOverflow,
    /// The claim was already collected.
    ClaimAlreadyClaimed,
    /// The claim cannot be collected before its release timestamp.
    ClaimableTimestampNotReached,
    /// A multi-signature call carried no signatures.
    EmptySignatures,
    /// A multi-signature call carried the wrong number of signatures.
    InvalidNumberOfSigners,
    /// A signature was made by a key outside the owner set.
    UnauthorizedSigner,
    /// A dispatch selector matches no operation.
    InvalidSelector,
    /// No claim entry matches the requested owner and plan.
    InvalidStakingPlan,
}

} // verus!
