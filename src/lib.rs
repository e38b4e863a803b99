//! A transaction-signing proxy for NEAR accounts whose key is held by a
//! threshold-signature service: builds the unsigned transaction, derives the
//! digest to be signed, and turns the service's answer into a signed
//! transaction.
use vstd::prelude::*;

pub mod contract;
pub mod laws;
pub mod signature;
pub mod signer;
pub mod transaction;

verus! {

} // verus!
