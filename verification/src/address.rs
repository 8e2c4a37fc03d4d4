//! Principals: the accounts and contracts that own assets and sign calls.

use vstd::prelude::*;

verus! {

/// What an address names.
#[derive(Clone, Copy, Debug, PartialEq, Eq, Structural, Hash)]
pub enum AddressKind {
    /// An account, named by its public key.
    Account,
    /// A contract, named by the hash it was deployed under.
    Contract,
}

/// A ledger address: its kind and its 256-bit key, held as two halves.
///
/// Two addresses are the same principal exactly when all three fields agree.
#[derive(Clone, Copy, Debug, PartialEq, Eq, Structural, Hash)]
pub struct Address {
    pub kind: AddressKind,
    pub hi: u128,
    pub lo: u128,
}

impl Address {
    /// The account whose key has the given halves.
    pub fn account(hi: u128, lo: u128) -> (a: Address)
        ensures
            a == (Address { kind: AddressKind::Account, hi, lo }),
    {
        Address { kind: AddressKind::Account, hi, lo }
    }

    /// The contract whose identifier has the given halves.
    pub fn contract(hi: u128, lo: u128) -> (a: Address)
        ensures
            a == (Address { kind: AddressKind::Contract, hi, lo }),
    {
        Address { kind: AddressKind::Contract, hi, lo }
    }

    /// Whether this address names a contract.
    pub fn is_contract(&self) -> (b: bool)
        ensures
            b == (self.kind == AddressKind::Contract),
    {
        self.kind == AddressKind::Contract
    }
}

} // verus!
