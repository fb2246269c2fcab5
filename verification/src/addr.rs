//! Addresses on the host ledger: end-user accounts and deployed contract
//! instances. Equality and "is this address a given contract" are the only
//! operations the protocol needs.

use vstd::prelude::*;

verus! {

/// A 32-byte account identifier, held as four 64-bit words (least
/// significant word first).
#[derive(Clone, Copy, PartialEq, Eq, Structural, Debug)]
pub struct AccountAddress {
    pub w0: u64,
    pub w1: u64,
    pub w2: u64,
    pub w3: u64,
}

/// The address of a deployed contract instance on the host ledger.
#[derive(Clone, Copy, PartialEq, Eq, Structural, Debug)]
pub struct ContractAddress {
    pub index: u64,
    pub subindex: u64,
}

/// Identifies either an end-user account or a deployed contract instance.
#[derive(Clone, Copy, PartialEq, Eq, Structural, Debug)]
pub enum Address {
    Account(AccountAddress),
    Contract(ContractAddress),
}

impl Address {
    /// True when this address is the given contract instance.
    pub open spec fn spec_matches_contract(self, c: ContractAddress) -> bool {
        self matches Address::Contract(d) && d == c
    }

    /// True when this address is the given contract instance.
    pub fn matches_contract(&self, c: &ContractAddress) -> (r: bool)
        ensures
            r == self.spec_matches_contract(*c),
    {
        match self {
            Address::Contract(d) => *d == *c,
            Address::Account(_) => false,
        }
    }
}

} // verus!
