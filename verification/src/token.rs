//! The token-side state machines: allowances, permit nonces, role
//! authorities, the operator access registry, mint parameters and the
//! pause flag. The ledger-transfer instructions around them live with
//! the host; every admission decision they rely on is made here.
use vstd::prelude::*;

use crate::pubkey::Pubkey;
use crate::pubkey::pubkey_eq;

verus! {

/// Typed failure of a token-side operation.
#[derive(Clone, Copy, Debug, PartialEq, Eq, Structural)]
pub enum WusdError {
    ContractPaused,
    InvalidAmount,
    InvalidDecimals,
    InvalidSignature,
    InvalidNonce,
    InvalidScope,
    ExpiredPermit,
    Unauthorized,
    NotMinter,
    NotBurner,
    InsufficientBalance,
    TooManyOperators,
    OperatorNotFound,
    AccessDenied,
    InsufficientFunds,
    AccessRegistryNotInitialized,
    InvalidOwner,
    InsufficientAllowance,
    AccountAlreadyFrozen,
    AccountNotFrozen,
}

/// What an account is allowed to do: move value out, or receive it.
#[derive(Clone, Copy, Debug, PartialEq, Eq, Structural)]
pub enum AccessLevel {
    /// Move value out: transfer, burn.
    Debit,
    /// Receive value: incoming transfer, mint.
    Credit,
}

/// A spending allowance granted by `owner` to `spender`.
#[derive(Clone, Copy, Debug)]
pub struct AllowanceState {
    pub owner: Pubkey,
    pub spender: Pubkey,
    pub amount: u64,
}

impl AllowanceState {
    /// A fresh allowance of `amount` from `owner` to `spender`.
    pub fn initialize(owner: Pubkey, spender: Pubkey, amount: u64) -> (r: AllowanceState)
        ensures
            r == (AllowanceState { owner, spender, amount }),
    {
        AllowanceState { owner, spender, amount }
    }

    /// Raises the allowance by `added_value`; an overflow is reported,
    /// not saturated.
    pub fn increase_allowance(&mut self, added_value: u64) -> (r: Result<(), WusdError>)
        ensures
            old(self).amount + added_value <= u64::MAX ==> r == Ok::<(), WusdError>(())
                && *final(self) == (AllowanceState {
                amount: (old(self).amount + added_value) as u64,
                ..*old(self)
            }),
            old(self).amount + added_value > u64::MAX ==> r == Err::<(), WusdError>(
                WusdError::InvalidAmount,
            ) && *final(self) == *old(self),
    {
        match self.amount.checked_add(added_value) {
            Some(raised) => {
                self.amount = raised;
                Ok(())
            },
            None => Err(WusdError::InvalidAmount),
        }
    }

    /// Lowers the allowance by `subtracted_value`; spending more than
    /// is granted is reported.
    pub fn decrease_allowance(&mut self, subtracted_value: u64) -> (r: Result<(), WusdError>)
        ensures
            subtracted_value <= old(self).amount ==> r == Ok::<(), WusdError>(()) && *final(self)
                == (AllowanceState {
                amount: (old(self).amount - subtracted_value) as u64,
                ..*old(self)
            }),
            subtracted_value > old(self).amount ==> r == Err::<(), WusdError>(
                WusdError::InvalidAmount,
            ) && *final(self) == *old(self),
    {
        if self.amount < subtracted_value {
            return Err(WusdError::InvalidAmount);
        }
        self.amount = self.amount - subtracted_value;
        Ok(())
    }

    /// Accepts a spend of `amount` only within the granted allowance.
    pub fn validate_allowance(&self, amount: u64) -> (r: Result<(), WusdError>)
        ensures
            r == if amount <= self.amount {
                Ok::<(), WusdError>(())
            } else {
                Err::<(), WusdError>(WusdError::InvalidAmount)
            },
    {
        if self.amount >= amount {
            Ok(())
        } else {
            Err(WusdError::InvalidAmount)
        }
    }
}

/// The replay-protection nonce of an owner's signed permits.
#[derive(Clone, Copy, Debug)]
pub struct PermitState {
    pub owner: Pubkey,
    pub nonce: u64,
}

impl PermitState {
    /// A fresh permit state for `owner`, starting at nonce zero.
    pub fn initialize(owner: Pubkey) -> (r: PermitState)
        ensures
            r == (PermitState { owner, nonce: 0 }),
    {
        PermitState { owner, nonce: 0 }
    }

    /// Advances the nonce, wrapping to zero at the top of the range.
    pub fn increment_nonce(&mut self)
        ensures
            final(self).owner == old(self).owner,
            final(self).nonce == if old(self).nonce == u64::MAX {
                0u64
            } else {
                (old(self).nonce + 1) as u64
            },
    {
        self.nonce = match self.nonce.checked_add(1) {
            Some(next) => next,
            None => 0,
        };
    }

    /// Accepts exactly the expected nonce.
    pub fn validate_nonce(&self, expected_nonce: u64) -> (r: Result<(), WusdError>)
        ensures
            r == if self.nonce == expected_nonce {
                Ok::<(), WusdError>(())
            } else {
                Err::<(), WusdError>(WusdError::InvalidNonce)
            },
    {
        if self.nonce == expected_nonce {
            Ok(())
        } else {
            Err(WusdError::InvalidNonce)
        }
    }
}

/// The three privileged identities of the token: administrator,
/// minter (who is also the burner) and pauser.
#[derive(Clone, Copy, Debug)]
pub struct AuthorityState {
    pub admin: Pubkey,
    pub minter: Pubkey,
    pub pauser: Pubkey,
}

impl AuthorityState {
    /// Grants every privilege to `admin`.
    pub fn initialize(admin: Pubkey) -> (r: AuthorityState)
        ensures
            r == (AuthorityState { admin, minter: admin, pauser: admin }),
    {
        AuthorityState { admin, minter: admin, pauser: admin }
    }

    /// Whether `user` is the administrator.
    pub fn is_admin(&self, user: &Pubkey) -> (r: bool)
        ensures
            r == (self.admin == *user),
    {
        pubkey_eq(&self.admin, user)
    }

    /// Whether `user` may mint.
    pub fn is_minter(&self, user: &Pubkey) -> (r: bool)
        ensures
            r == (self.minter == *user),
    {
        pubkey_eq(&self.minter, user)
    }

    /// Whether `user` may pause.
    pub fn is_pauser(&self, user: &Pubkey) -> (r: bool)
        ensures
            r == (self.pauser == *user),
    {
        pubkey_eq(&self.pauser, user)
    }

    /// Whether `user` may burn; burning rides on the mint privilege.
    pub fn is_burner(&self, user: &Pubkey) -> (r: bool)
        ensures
            r == (self.minter == *user),
    {
        pubkey_eq(&self.minter, user)
    }
}

/// Capacity of the operator set.
pub const MAX_OPERATORS: usize = 10;

/// Some operator slot holds `user`.
pub open spec fn operators_have(operators: Seq<Pubkey>, user: Pubkey) -> bool {
    exists|i: int| 0 <= i < operators.len() && operators[i] == user
}

/// The registry of operators allowed to move value out of custody.
pub struct AccessRegistryState {
    pub authority: Pubkey,
    pub initialized: bool,
    pub operators: Vec<Pubkey>,
}

impl AccessRegistryState {
    /// The operator set is within capacity.
    pub open spec fn wf(self) -> bool {
        self.operators@.len() <= MAX_OPERATORS
    }

    /// A fresh, initialized registry with no operators, run by
    /// `authority`.
    pub fn new(authority: Pubkey) -> (r: AccessRegistryState)
        ensures
            r.wf(),
            r.authority == authority,
            r.initialized,
            r.operators@ == Seq::<Pubkey>::empty(),
    {
        AccessRegistryState { authority, initialized: true, operators: Vec::new() }
    }

    /// Admits `operator`; a full registry is reported before an
    /// already-present operator is recognized, and admitting a present
    /// operator changes nothing.
    pub fn add_operator(&mut self, operator: Pubkey) -> (r: Result<(), WusdError>)
        requires
            old(self).wf(),
        ensures
            final(self).wf(),
            old(self).operators@.len() >= MAX_OPERATORS ==> r == Err::<(), WusdError>(
                WusdError::TooManyOperators,
            ) && *final(self) == *old(self),
            old(self).operators@.len() < MAX_OPERATORS && operators_have(
                old(self).operators@,
                operator,
            ) ==> r == Ok::<(), WusdError>(()) && *final(self) == *old(self),
            old(self).operators@.len() < MAX_OPERATORS && !operators_have(
                old(self).operators@,
                operator,
            ) ==> {
                &&& r == Ok::<(), WusdError>(())
                &&& final(self).operators@ == old(self).operators@.push(operator)
                &&& final(self).authority == old(self).authority
                &&& final(self).initialized == old(self).initialized
            },
    {
        if self.operators.len() >= MAX_OPERATORS {
            return Err(WusdError::TooManyOperators);
        }
        let n = self.operators.len();
        let mut i: usize = 0;
        while i < n
            invariant
                *self == *old(self),
                old(self).wf(),
                n < MAX_OPERATORS,
                0 <= i <= n,
                n == self.operators@.len(),
                forall|j: int| 0 <= j < i ==> self.operators@[j] != operator,
            decreases n - i,
        {
            if pubkey_eq(&self.operators[i], &operator) {
                return Ok(());
            }
            i = i + 1;
        }
        self.operators.push(operator);
        Ok(())
    }

    /// Expels `operator`, closing the gap in slot order; an absent
    /// operator is reported.
    pub fn remove_operator(&mut self, operator: Pubkey) -> (r: Result<(), WusdError>)
        requires
            old(self).wf(),
        ensures
            final(self).wf(),
            !operators_have(old(self).operators@, operator) ==> r == Err::<(), WusdError>(
                WusdError::OperatorNotFound,
            ) && *final(self) == *old(self),
            operators_have(old(self).operators@, operator) ==> r == Ok::<(), WusdError>(())
                && exists|i: int|
                {
                    &&& 0 <= i < old(self).operators@.len()
                    &&& old(self).operators@[i] == operator
                    &&& final(self).operators@ == old(self).operators@.remove(i)
                },
            final(self).authority == old(self).authority,
            final(self).initialized == old(self).initialized,
    {
        let n = self.operators.len();
        let mut i: usize = 0;
        while i < n
            invariant
                *self == *old(self),
                old(self).wf(),
                0 <= i <= n,
                n == self.operators@.len(),
                forall|j: int| 0 <= j < i ==> self.operators@[j] != operator,
            decreases n - i,
        {
            if pubkey_eq(&self.operators[i], &operator) {
                self.operators.remove(i);
                return Ok(());
            }
            i = i + 1;
        }
        Err(WusdError::OperatorNotFound)
    }

    /// What `has_access` decides: credits are always allowed, the
    /// authority may do anything, and debits additionally admit the
    /// registered operators.
    pub open spec fn has_access_spec(self, user: Pubkey, level: AccessLevel) -> bool {
        ||| level == AccessLevel::Credit
        ||| user == self.authority
        ||| (level == AccessLevel::Debit && operators_have(self.operators@, user))
    }

    /// Whether `user` may act at `level`.
    pub fn has_access(&self, user: &Pubkey, level: AccessLevel) -> (r: bool)
        ensures
            r == self.has_access_spec(*user, level),
    {
        if matches!(level, AccessLevel::Credit) {
            return true;
        }
        if pubkey_eq(user, &self.authority) {
            return true;
        }
        let n = self.operators.len();
        let mut i: usize = 0;
        while i < n
            invariant
                0 <= i <= n,
                n == self.operators@.len(),
                forall|j: int| 0 <= j < i ==> self.operators@[j] != *user,
            decreases n - i,
        {
            if pubkey_eq(&self.operators[i], user) {
                return true;
            }
            i = i + 1;
        }
        false
    }
}

/// Which outcome the administrative operator admission reaches: an
/// initialized registry, the administrator's signature, an already
/// present operator admitted as a no-op, then capacity.
pub open spec fn add_operator_check(
    registry: AccessRegistryState,
    authority_state: AuthorityState,
    authority: Pubkey,
    operator: Pubkey,
) -> Result<(), WusdError> {
    if !registry.initialized {
        Err(WusdError::AccessRegistryNotInitialized)
    } else if authority != authority_state.admin {
        Err(WusdError::Unauthorized)
    } else if operators_have(registry.operators@, operator) {
        Ok(())
    } else if registry.operators@.len() >= MAX_OPERATORS {
        Err(WusdError::TooManyOperators)
    } else {
        Ok(())
    }
}

/// Admits `operator` on the administrator's behalf; a present
/// operator is admitted as a no-op before capacity is consulted.
pub fn add_operator(
    access_registry: &mut AccessRegistryState,
    authority_state: &AuthorityState,
    authority: &Pubkey,
    operator: Pubkey,
) -> (r: Result<(), WusdError>)
    requires
        old(access_registry).wf(),
    ensures
        final(access_registry).wf(),
        r == add_operator_check(*old(access_registry), *authority_state, *authority, operator),
        r is Err ==> *final(access_registry) == *old(access_registry),
        r is Ok && operators_have(old(access_registry).operators@, operator)
            ==> *final(access_registry) == *old(access_registry),
        r is Ok && !operators_have(old(access_registry).operators@, operator) ==> {
            &&& final(access_registry).operators@ == old(access_registry).operators@.push(operator)
            &&& final(access_registry).authority == old(access_registry).authority
            &&& final(access_registry).initialized == old(access_registry).initialized
        },
{
    if !access_registry.initialized {
        return Err(WusdError::AccessRegistryNotInitialized);
    }
    if !authority_state.is_admin(authority) {
        return Err(WusdError::Unauthorized);
    }
    let n = access_registry.operators.len();
    let mut i: usize = 0;
    while i < n
        invariant
            *access_registry == *old(access_registry),
            old(access_registry).wf(),
            old(access_registry).initialized,
            *authority == authority_state.admin,
            0 <= i <= n,
            n == access_registry.operators@.len(),
            forall|j: int| 0 <= j < i ==> access_registry.operators@[j] != operator,
        decreases n - i,
    {
        if pubkey_eq(&access_registry.operators[i], &operator) {
            proof {
                assert(access_registry.operators@[i as int] == operator);
                assert(operators_have(old(access_registry).operators@, operator));
            }
            return Ok(());
        }
        i = i + 1;
    }
    if access_registry.operators.len() >= MAX_OPERATORS {
        return Err(WusdError::TooManyOperators);
    }
    access_registry.operators.push(operator);
    Ok(())
}

/// Expels `operator` on the administrator's behalf.
pub fn remove_operator(
    access_registry: &mut AccessRegistryState,
    authority_state: &AuthorityState,
    authority: &Pubkey,
    operator: Pubkey,
) -> (r: Result<(), WusdError>)
    requires
        old(access_registry).wf(),
    ensures
        final(access_registry).wf(),
        !old(access_registry).initialized ==> r == Err::<(), WusdError>(
            WusdError::AccessRegistryNotInitialized,
        ) && *final(access_registry) == *old(access_registry),
        old(access_registry).initialized && *authority != authority_state.admin ==> r == Err::<
            (),
            WusdError,
        >(WusdError::Unauthorized) && *final(access_registry) == *old(access_registry),
        old(access_registry).initialized && *authority == authority_state.admin
            && !operators_have(old(access_registry).operators@, operator) ==> r == Err::<
            (),
            WusdError,
        >(WusdError::OperatorNotFound) && *final(access_registry) == *old(access_registry),
        old(access_registry).initialized && *authority == authority_state.admin && operators_have(
            old(access_registry).operators@,
            operator,
        ) ==> r == Ok::<(), WusdError>(()) && exists|i: int|
            {
                &&& 0 <= i < old(access_registry).operators@.len()
                &&& old(access_registry).operators@[i] == operator
                &&& final(access_registry).operators@ == old(access_registry).operators@.remove(i)
            },
        final(access_registry).authority == old(access_registry).authority,
        final(access_registry).initialized == old(access_registry).initialized,
{
    if !access_registry.initialized {
        return Err(WusdError::AccessRegistryNotInitialized);
    }
    if !authority_state.is_admin(authority) {
        return Err(WusdError::Unauthorized);
    }
    access_registry.remove_operator(operator)
}

/// The mint identity and precision of the token.
#[derive(Clone, Copy, Debug)]
pub struct MintState {
    pub mint: Pubkey,
    pub decimals: u8,
}

impl MintState {
    /// A mint state for `mint`; precisions beyond nine digits are
    /// rejected.
    pub fn initialize(mint: Pubkey, decimals: u8) -> (r: Result<MintState, WusdError>)
        ensures
            r == if decimals <= 9 {
                Ok::<MintState, WusdError>(MintState { mint, decimals })
            } else {
                Err::<MintState, WusdError>(WusdError::InvalidDecimals)
            },
    {
        if decimals > 9 {
            return Err(WusdError::InvalidDecimals);
        }
        Ok(MintState { mint, decimals })
    }

    /// Whether `mint` is the recorded mint identity.
    pub fn validate_mint(&self, mint: &Pubkey) -> (r: bool)
        ensures
            r == (self.mint == *mint),
    {
        pubkey_eq(&self.mint, mint)
    }

    /// Accepts only a positive amount.
    pub fn validate_amount(&self, amount: u64) -> (r: Result<(), WusdError>)
        ensures
            r == if amount > 0 {
                Ok::<(), WusdError>(())
            } else {
                Err::<(), WusdError>(WusdError::InvalidAmount)
            },
    {
        if amount > 0 {
            Ok(())
        } else {
            Err(WusdError::InvalidAmount)
        }
    }
}

/// The token's pause flag.
#[derive(Clone, Copy, Debug)]
pub struct PauseState {
    pub paused: bool,
}

impl PauseState {
    /// A fresh, unpaused flag.
    pub fn initialize() -> (r: PauseState)
        ensures
            !r.paused,
    {
        PauseState { paused: false }
    }

    /// Sets the flag.
    pub fn set_paused(&mut self, paused: bool)
        ensures
            final(self).paused == paused,
    {
        self.paused = paused;
    }

    /// Reads the flag.
    pub fn is_paused(&self) -> (r: bool)
        ensures
            r == self.paused,
    {
        self.paused
    }

    /// Fails fast when the token is paused.
    pub fn validate_not_paused(&self) -> (r: Result<(), WusdError>)
        ensures
            r == if self.paused {
                Err::<(), WusdError>(WusdError::ContractPaused)
            } else {
                Ok::<(), WusdError>(())
            },
    {
        if self.paused {
            Err(WusdError::ContractPaused)
        } else {
            Ok(())
        }
    }
}

/// Which outcome `require_has_access` reaches: pause, a positive
/// amount where one is supplied, and — where a registry is supplied —
/// its initialization and the caller's access at the needed level.
pub open spec fn access_check(
    user: Pubkey,
    is_debit: bool,
    amount: Option<u64>,
    pause_state: PauseState,
    access_registry: Option<AccessRegistryState>,
) -> Result<(), WusdError> {
    if pause_state.paused {
        Err(WusdError::ContractPaused)
    } else if amount is Some && amount->0 == 0 {
        Err(WusdError::InvalidAmount)
    } else {
        match access_registry {
            Some(registry) => {
                if !registry.initialized {
                    Err(WusdError::AccessRegistryNotInitialized)
                } else if !registry.has_access_spec(
                    user,
                    if is_debit {
                        AccessLevel::Debit
                    } else {
                        AccessLevel::Credit
                    },
                ) {
                    Err(WusdError::AccessDenied)
                } else {
                    Ok(())
                }
            },
            None => Ok(()),
        }
    }
}

/// Gate of every value movement: unpaused, a positive amount where
/// one is supplied, and the caller's access at the needed level when
/// an access registry governs the operation.
pub fn require_has_access(
    user: &Pubkey,
    is_debit: bool,
    amount: Option<u64>,
    pause_state: &PauseState,
    access_registry: Option<&AccessRegistryState>,
) -> (r: Result<(), WusdError>)
    ensures
        r == access_check(
            *user,
            is_debit,
            amount,
            *pause_state,
            match access_registry {
                Some(registry) => Some(*registry),
                None => None::<AccessRegistryState>,
            },
        ),
{
    match pause_state.validate_not_paused() {
        Ok(()) => {},
        Err(e) => { return Err(e) },
    }
    match amount {
        Some(amount) => {
            if amount == 0 {
                return Err(WusdError::InvalidAmount);
            }
        },
        None => {},
    }
    match access_registry {
        Some(registry) => {
            if !registry.initialized {
                return Err(WusdError::AccessRegistryNotInitialized);
            }
            let required_level = if is_debit {
                AccessLevel::Debit
            } else {
                AccessLevel::Credit
            };
            if !registry.has_access(user, required_level) {
                return Err(WusdError::AccessDenied);
            }
        },
        None => {},
    }
    Ok(())
}

/// The proportional transfer fee: a thousandth of the amount, rounded
/// down.
pub fn calculate_transfer_fee(amount: u64) -> (r: u64)
    ensures
        r == amount / 1000,
{
    amount / 1000
}

/// Which outcome the transfer admission reaches: a positive amount, a
/// balance covering the amount and its fee, then the sender's debit
/// gate. On success, the fee withheld.
pub open spec fn transfer_admission_check(
    from: Pubkey,
    from_balance: u64,
    amount: u64,
    pause_state: PauseState,
    access_registry: AccessRegistryState,
) -> Result<u64, WusdError> {
    let fee = (amount / 1000) as u64;
    let needed = if amount + fee > u64::MAX {
        u64::MAX
    } else {
        (amount + fee) as u64
    };
    if amount == 0 {
        Err(WusdError::InvalidAmount)
    } else if from_balance < needed {
        Err(WusdError::InsufficientFunds)
    } else {
        match access_check(from, true, Some(amount), pause_state, Some(access_registry)) {
            Err(e) => Err(e),
            Ok(_) => Ok(fee),
        }
    }
}

/// Admission decision of a transfer of `amount` out of `from`'s
/// custody: the balance must cover the amount plus the proportional
/// fee (saturated at the top of the range) and `from` must pass the
/// debit gate. On success the host moves the value; the returned fee
/// is what it withholds.
pub fn transfer(
    from: &Pubkey,
    from_balance: u64,
    amount: u64,
    pause_state: &PauseState,
    access_registry: &AccessRegistryState,
) -> (r: Result<u64, WusdError>)
    ensures
        r == transfer_admission_check(*from, from_balance, amount, *pause_state, *access_registry),
{
    if amount == 0 {
        return Err(WusdError::InvalidAmount);
    }
    let fee = calculate_transfer_fee(amount);
    let needed = match amount.checked_add(fee) {
        Some(total) => total,
        None => u64::MAX,
    };
    if from_balance < needed {
        return Err(WusdError::InsufficientFunds);
    }
    match require_has_access(from, true, Some(amount), pause_state, Some(access_registry)) {
        Ok(()) => Ok(fee),
        Err(e) => Err(e),
    }
}

/// Which outcome the delegated-transfer admission reaches: pause, an
/// unexpired permit covering the amount, and the owner's custody. On
/// success, the allowance left on the permit.
pub open spec fn transfer_from_check(
    owner: Pubkey,
    from_token_owner: Pubkey,
    permit_amount: u64,
    permit_expiration: i64,
    now: i64,
    amount: u64,
    pause_state: PauseState,
) -> Result<u64, WusdError> {
    if pause_state.paused {
        Err(WusdError::ContractPaused)
    } else if permit_expiration <= now {
        Err(WusdError::ExpiredPermit)
    } else if permit_amount < amount {
        Err(WusdError::InsufficientAllowance)
    } else if from_token_owner != owner {
        Err(WusdError::InvalidOwner)
    } else {
        Ok((permit_amount - amount) as u64)
    }
}

/// Admission decision of a transfer of `amount` under a signed
/// permit: the permit must be unexpired and cover the amount, and the
/// debited account must belong to the permit's owner. On success the
/// host moves the value and installs the returned remaining
/// allowance.
pub fn transfer_from(
    owner: &Pubkey,
    from_token_owner: &Pubkey,
    permit_amount: u64,
    permit_expiration: i64,
    now: i64,
    amount: u64,
    pause_state: &PauseState,
) -> (r: Result<u64, WusdError>)
    ensures
        r == transfer_from_check(
            *owner,
            *from_token_owner,
            permit_amount,
            permit_expiration,
            now,
            amount,
            *pause_state,
        ),
{
    match pause_state.validate_not_paused() {
        Ok(()) => {},
        Err(e) => { return Err(e) },
    }
    if permit_expiration <= now {
        return Err(WusdError::ExpiredPermit);
    }
    if permit_amount < amount {
        return Err(WusdError::InsufficientAllowance);
    }
    if !pubkey_eq(from_token_owner, owner) {
        return Err(WusdError::InvalidOwner);
    }
    Ok(permit_amount - amount)
}

/// Which outcome the mint admission reaches: a positive amount, a
/// signing minter, then the recipient's credit gate.
pub open spec fn mint_check(
    authority: Pubkey,
    authority_is_signer: bool,
    recipient: Pubkey,
    amount: u64,
    authority_state: AuthorityState,
    pause_state: PauseState,
    access_registry: AccessRegistryState,
) -> Result<(), WusdError> {
    if amount == 0 {
        Err(WusdError::InvalidAmount)
    } else if !authority_is_signer {
        Err(WusdError::Unauthorized)
    } else if authority != authority_state.minter {
        Err(WusdError::NotMinter)
    } else {
        access_check(recipient, false, Some(amount), pause_state, Some(access_registry))
    }
}

/// Admission decision of minting `amount` to `recipient`: only the
/// signing minter may, and the recipient must pass the credit gate.
pub fn mint(
    authority: &Pubkey,
    authority_is_signer: bool,
    recipient: &Pubkey,
    amount: u64,
    authority_state: &AuthorityState,
    pause_state: &PauseState,
    access_registry: &AccessRegistryState,
) -> (r: Result<(), WusdError>)
    ensures
        r == mint_check(
            *authority,
            authority_is_signer,
            *recipient,
            amount,
            *authority_state,
            *pause_state,
            *access_registry,
        ),
{
    if amount == 0 {
        return Err(WusdError::InvalidAmount);
    }
    if !authority_is_signer {
        return Err(WusdError::Unauthorized);
    }
    if !authority_state.is_minter(authority) {
        return Err(WusdError::NotMinter);
    }
    require_has_access(recipient, false, Some(amount), pause_state, Some(access_registry))
}

/// Which outcome the burn admission reaches: pause, a signing caller
/// burning from their own account, the debit gate, and a covering
/// balance.
pub open spec fn burn_check(
    authority: Pubkey,
    authority_is_signer: bool,
    token_account_owner: Pubkey,
    token_balance: u64,
    amount: u64,
    pause_state: PauseState,
    access_registry: AccessRegistryState,
) -> Result<(), WusdError> {
    if pause_state.paused {
        Err(WusdError::ContractPaused)
    } else if !authority_is_signer {
        Err(WusdError::Unauthorized)
    } else if token_account_owner != authority {
        Err(WusdError::InvalidOwner)
    } else if !access_registry.has_access_spec(authority, AccessLevel::Debit) {
        Err(WusdError::AccessDenied)
    } else if token_balance < amount {
        Err(WusdError::InsufficientBalance)
    } else {
        Ok(())
    }
}

/// Admission decision of burning `amount` from the caller's own
/// account: the caller must sign, hold the account, pass the debit
/// gate and cover the amount.
pub fn burn(
    authority: &Pubkey,
    authority_is_signer: bool,
    token_account_owner: &Pubkey,
    token_balance: u64,
    amount: u64,
    pause_state: &PauseState,
    access_registry: &AccessRegistryState,
) -> (r: Result<(), WusdError>)
    ensures
        r == burn_check(
            *authority,
            authority_is_signer,
            *token_account_owner,
            token_balance,
            amount,
            *pause_state,
            *access_registry,
        ),
{
    match pause_state.validate_not_paused() {
        Ok(()) => {},
        Err(e) => { return Err(e) },
    }
    if !authority_is_signer {
        return Err(WusdError::Unauthorized);
    }
    if !pubkey_eq(token_account_owner, authority) {
        return Err(WusdError::InvalidOwner);
    }
    if !access_registry.has_access(authority, AccessLevel::Debit) {
        return Err(WusdError::AccessDenied);
    }
    if token_balance < amount {
        return Err(WusdError::InsufficientBalance);
    }
    Ok(())
}

/// The freeze flag of a custody account.
#[derive(Clone, Copy, Debug)]
pub struct FreezeState {
    pub is_frozen: bool,
    pub frozen_time: i64,
    pub unfrozen_time: i64,
}

/// Freezes a custody account; only the administrator may, and only an
/// account that is not already frozen.
pub fn freeze_account(
    authority: &Pubkey,
    authority_state: &AuthorityState,
    freeze_state: &mut FreezeState,
    now: i64,
) -> (r: Result<(), WusdError>)
    ensures
        *authority != authority_state.admin ==> r == Err::<(), WusdError>(WusdError::Unauthorized)
            && *final(freeze_state) == *old(freeze_state),
        *authority == authority_state.admin && old(freeze_state).is_frozen ==> r == Err::<
            (),
            WusdError,
        >(WusdError::AccountAlreadyFrozen) && *final(freeze_state) == *old(freeze_state),
        *authority == authority_state.admin && !old(freeze_state).is_frozen ==> r == Ok::<
            (),
            WusdError,
        >(()) && *final(freeze_state) == (FreezeState {
            is_frozen: true,
            frozen_time: now,
            ..*old(freeze_state)
        }),
{
    if !authority_state.is_admin(authority) {
        return Err(WusdError::Unauthorized);
    }
    if freeze_state.is_frozen {
        return Err(WusdError::AccountAlreadyFrozen);
    }
    freeze_state.is_frozen = true;
    freeze_state.frozen_time = now;
    Ok(())
}

/// Unfreezes a custody account; only the administrator may, and only
/// an account that is frozen.
pub fn unfreeze_account(
    authority: &Pubkey,
    authority_state: &AuthorityState,
    freeze_state: &mut FreezeState,
    now: i64,
) -> (r: Result<(), WusdError>)
    ensures
        *authority != authority_state.admin ==> r == Err::<(), WusdError>(WusdError::Unauthorized)
            && *final(freeze_state) == *old(freeze_state),
        *authority == authority_state.admin && !old(freeze_state).is_frozen ==> r == Err::<
            (),
            WusdError,
        >(WusdError::AccountNotFrozen) && *final(freeze_state) == *old(freeze_state),
        *authority == authority_state.admin && old(freeze_state).is_frozen ==> r == Ok::<
            (),
            WusdError,
        >(()) && *final(freeze_state) == (FreezeState {
            is_frozen: false,
            unfrozen_time: now,
            ..*old(freeze_state)
        }),
{
    if !authority_state.is_admin(authority) {
        return Err(WusdError::Unauthorized);
    }
    if !freeze_state.is_frozen {
        return Err(WusdError::AccountNotFrozen);
    }
    freeze_state.is_frozen = false;
    freeze_state.unfrozen_time = now;
    Ok(())
}

/// The four-byte id of the fungible-token interface.
pub open spec fn is_erc20_interface(interface_id: [u8; 4]) -> bool {
    &&& interface_id[0] == 0x36u8
    &&& interface_id[1] == 0x37u8
    &&& interface_id[2] == 0x2bu8
    &&& interface_id[3] == 0x07u8
}

/// The four-byte id of the signed-permit interface.
pub open spec fn is_permit_interface(interface_id: [u8; 4]) -> bool {
    &&& interface_id[0] == 0x79u8
    &&& interface_id[1] == 0x65u8
    &&& interface_id[2] == 0xdbu8
    &&& interface_id[3] == 0x0bu8
}

/// Whether the token supports the interface named by `interface_id`:
/// the fungible-token and signed-permit interfaces, nothing else.
pub fn supports_interface(interface_id: [u8; 4]) -> (r: bool)
    ensures
        r == (is_erc20_interface(interface_id) || is_permit_interface(interface_id)),
{
    let erc20 = interface_id[0] == 0x36u8 && interface_id[1] == 0x37u8 && interface_id[2] == 0x2bu8
        && interface_id[3] == 0x07u8;
    let permit = interface_id[0] == 0x79u8 && interface_id[1] == 0x65u8 && interface_id[2]
        == 0xdbu8 && interface_id[3] == 0x0bu8;
    erc20 || permit
}

} // verus!
