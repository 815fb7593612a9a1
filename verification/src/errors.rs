//! The error taxonomy of the contract: every way a call can be rejected.
//!
//! Each variant corresponds to one guard that aborts a call before (or
//! instead of) any state mutation, so a call that returns an error leaves
//! the contract exactly as it was.

use vstd::prelude::*;

verus! {

/// Why a call on the token contract was rejected.
#[derive(Clone, Copy, Debug, PartialEq, Eq, Structural)]
pub enum TokenError {
    /// Construction was attempted while contract state already exists.
    AlreadyInitialized,
    /// The metadata record supplied at construction failed its validity check.
    InvalidMetadata,
    /// The immediate caller is not the current owner.
    NotOwner,
    /// The immediate caller is not the contract's own account.
    NotSelf,
    /// Exactly one minimal indivisible unit of value must be attached.
    OneYoctoRequired,
    /// The attached value does not cover the recipient's storage registration.
    InsufficientAttachedDeposit,
    /// The account is already registered with the ledger store.
    AlreadyRegistered,
    /// The account is not registered with the ledger store.
    NotRegistered,
    /// The account's balance is smaller than the amount to withdraw.
    InsufficientBalance,
    /// Adding the amount to an account balance would overflow.
    BalanceOverflow,
    /// Adding the amount to the total supply would overflow.
    TotalSupplyOverflow,
    /// A transfer names the same account as sender and receiver.
    SenderIsReceiver,
    /// A transfer of zero balance was requested.
    ZeroAmount,
}

} // verus!
