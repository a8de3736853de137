//! Verified core of a suite of ledger contracts: a shared error catalogue,
//! a batch executor, payment primitives, an NFT marketplace, governance,
//! an upgrade registry, aid distribution, an oracle store, a contract
//! registry, a rebalancer and the supporting test fixtures.
//!
//! Every contract is modelled as a plain state value. Host interactions
//! (token movements) are returned as [`token::Transfer`] actions for the
//! embedding to perform; anything the host answers (cross-contract call
//! outcomes, ledger time) is taken as an argument.
use vstd::prelude::*;

pub mod errors;
pub mod auth;
pub mod bps;
pub mod token;
pub mod batch;
pub mod marketplace;
pub mod upgradeability;
pub mod governance;
pub mod aid;
pub mod payments;
pub mod payments_contract;
pub mod registry;
pub mod oracle;
pub mod rebalancer;
pub mod testkit;
pub mod fuzzing;

verus! {

/// The compact error set of the shared crate's root.
#[derive(Clone, Copy, Debug, PartialEq, Eq, Structural)]
pub enum Error {
    InvalidAmount,
    InvalidArgument,
    Uninitialised,
    Unauthorized,
}

impl Error {
    /// The stable numeric code of this error.
    pub fn code(&self) -> (c: u32)
        ensures
            c == self.spec_code(),
    {
        match self {
            Error::InvalidAmount => 1,
            Error::InvalidArgument => 2,
            Error::Uninitialised => 3,
            Error::Unauthorized => 4,
        }
    }

    pub open spec fn spec_code(&self) -> u32 {
        match self {
            Error::InvalidAmount => 1,
            Error::InvalidArgument => 2,
            Error::Uninitialised => 3,
            Error::Unauthorized => 4,
        }
    }
}

} // verus!
