//! Verified state machines for the Shimeji on-ledger marketplace: listings,
//! commission escrow, asset swaps, auctions, the asset registry and the escrow
//! vault.
//!
//! Every engine in this crate is a plain value. An operation takes the caller
//! whose signature the host has already verified, changes the engine's state and
//! hands back the calls that the host must now make on other contracts. An
//! operation that fails leaves the state as it was.

pub mod address;
pub mod auction;
pub mod commission;
pub mod currency;
pub mod custody;
pub mod effect;
pub mod error;
pub mod escrow_vault;
pub mod marketplace;
pub mod nft;
pub mod seller_locks;
pub mod text;
