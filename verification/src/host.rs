//! The model of the host execution environment.
//!
//! Each call runs with a [`CallContext`] that the host supplies: who made
//! the call, which account the contract itself runs as, and how much value
//! the caller attached. A call may also dispatch an [`Action`]: a remote
//! call that the host schedules as a logically separate, later invocation
//! with its own atomic success or failure. The dispatching call never
//! observes that outcome.

use vstd::prelude::*;

use crate::metadata::FungibleTokenMetadata;

verus! {

/// The minimal indivisible unit of attached value.
pub const ONE_YOCTO: u128 = 1;

/// The attached value that covers the storage registration of one account.
pub const STORAGE_BALANCE_MIN: u128 = 1250000000000000000000;

/// What the host tells the contract about the current call.
#[derive(Clone, Copy, Debug)]
pub struct CallContext {
    /// The account that made the current call.
    pub predecessor_id: u64,
    /// The account the contract itself runs as.
    pub current_account_id: u64,
    /// The value attached to the call, in minimal indivisible units.
    pub attached_deposit: u128,
}

/// A dispatched remote call: scheduled by the host to run later as its own
/// invocation, whose outcome the dispatching call never sees.
pub enum Action {
    /// A one-way notification to the anchor contract (the owner account)
    /// describing the contract's base data.
    SyncBasedata {
        /// The account the notification is addressed to.
        receiver_id: u64,
        /// The metadata record the contract was constructed with.
        metadata: FungibleTokenMetadata,
        /// The account the premined balance is destined for.
        premined_beneficiary: u64,
        /// The premined balance.
        premined_balance: u128,
    },
    /// A deferred `ft_transfer` call addressed to the contract's own
    /// account, carrying one minimal unit of attached value: the second
    /// step of the mint sequence, moving the freshly minted balance from
    /// the contract's own account to the recipient.
    FtTransfer {
        /// The intended recipient.
        receiver_id: u64,
        /// The amount to move.
        amount: u128,
    },
}

} // verus!
