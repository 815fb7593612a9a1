//! A custodial token ledger that mirrors, on a host execution environment,
//! the balance of an asset whose authoritative supply lives on an external
//! anchor system. A single privileged owner account may mint and burn
//! balance; every other account may only transfer balance it holds.
//!
//! The host environment (caller identity, contract identity, attached
//! deposit) is modelled by an explicit [`host::CallContext`], and the
//! dispatched cross-contract calls are modelled as explicit
//! [`host::Action`] values that the surrounding host executes later,
//! each as a separate call with its own success or failure.

pub mod errors;
pub mod host;
pub mod ledger;
pub mod metadata;
pub mod ownable;
pub mod token;
pub mod laws;
