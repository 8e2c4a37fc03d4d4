//! The calls that an engine asks its host to make on other contracts.

use vstd::prelude::*;
use crate::address::Address;

verus! {

/// One outgoing call. The host makes the calls of an operation in the order in
/// which the operation returned them; if one of them fails, the host abandons
/// the whole operation, the engine's new state included.
#[derive(Clone, Copy, Debug, PartialEq, Eq, Structural)]
pub enum Effect {
    /// `transfer(from, to, token_id)` on the asset registry `registry`.
    AssetTransfer { registry: Address, from: Address, to: Address, token_id: u64 },
    /// `transfer(from, to, amount)` on the payment token `token`.
    TokenTransfer { token: Address, from: Address, to: Address, amount: i128 },
    /// `payout_token(caller, token, to, amount)` on the escrow vault `vault`.
    VaultPayout { vault: Address, caller: Address, token: Address, to: Address, amount: i128 },
}

} // verus!
