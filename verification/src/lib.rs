//! Verified accounting core of a collateral-backed stablecoin platform:
//! time-weighted staking with reward accrual, emergency-exit penalties,
//! a decimal-normalizing token-swap pricing engine, a signature-gated
//! "soft stake" claim variant, and the registry invariants they rely on.
//!
//! Fixed-point convention: APY values, the global `reward_rate` and the
//! emergency-withdraw penalty are all fractions scaled by 1_000_000_000
//! (so an APY of 50_000_000 means 5% per year).
pub mod errors;
pub mod math;
pub mod pubkey;
pub mod softstake;
pub mod stake;
pub mod state;
pub mod swap;
pub mod token;
