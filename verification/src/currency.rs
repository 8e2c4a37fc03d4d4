//! The two payment currencies and the two escrow backends.

use vstd::prelude::*;

verus! {

/// A payment currency. Each has one payment-token contract.
#[derive(Clone, Copy, Debug, PartialEq, Eq, Structural, Hash)]
pub enum Currency {
    Xlm,
    Usdc,
}

/// Where the escrowed part of a payment is held until it is settled.
#[derive(Clone, Copy, Debug, PartialEq, Eq, Structural, Hash)]
pub enum EscrowProvider {
    /// The contract that took the payment keeps it.
    Internal,
    /// The payment is forwarded to an external vault.
    TrustlessWork,
}

} // verus!
