//! The records that the auction house keeps, and the calls it asks for.

use vstd::prelude::*;
use crate::address::Address;
use crate::currency::{Currency, EscrowProvider};
use crate::effect::Effect;

verus! {

/// What the oracle reports for an asset: its price, scaled by 10^14, and when
/// it was taken.
#[derive(Clone, Copy, Debug, PartialEq, Eq, Structural)]
pub struct OraclePriceData {
    pub price: i128,
    pub timestamp: u64,
}

/// What the auction house is told when it is initialized, and what the admin
/// has configured since.
#[derive(Clone, Copy, Debug, PartialEq, Eq, Structural)]
pub struct AuctionConfig {
    pub admin: Address,
    pub nft_contract: Address,
    pub usdc_token: Address,
    pub xlm_token: Address,
    pub escrow_provider: EscrowProvider,
    pub trustless_escrow_xlm: Address,
    pub trustless_escrow_usdc: Address,
    /// The price oracle, once the admin has named one.
    pub oracle: Option<Address>,
}

impl AuctionConfig {
    /// The payment-token contract of `currency`.
    pub open spec fn spec_token(self, currency: Currency) -> Address {
        match currency {
            Currency::Xlm => self.xlm_token,
            Currency::Usdc => self.usdc_token,
        }
    }

    /// The payment-token contract of `currency`.
    #[verifier::when_used_as_spec(spec_token)]
    pub fn token(self, currency: Currency) -> (token: Address)
        ensures
            token == self.spec_token(currency),
    {
        match currency {
            Currency::Xlm => self.xlm_token,
            Currency::Usdc => self.usdc_token,
        }
    }

    /// The vault that takes proceeds in `currency` under the external escrow
    /// backend.
    pub open spec fn spec_trustless_destination(self, currency: Currency) -> Address {
        match currency {
            Currency::Xlm => self.trustless_escrow_xlm,
            Currency::Usdc => self.trustless_escrow_usdc,
        }
    }

    /// The vault that takes proceeds in `currency` under the external escrow
    /// backend.
    #[verifier::when_used_as_spec(spec_trustless_destination)]
    pub fn trustless_destination(self, currency: Currency) -> (vault: Address)
        ensures
            vault == self.spec_trustless_destination(currency),
    {
        match currency {
            Currency::Xlm => self.trustless_escrow_xlm,
            Currency::Usdc => self.trustless_escrow_usdc,
        }
    }
}

/// One auction.
#[derive(Debug, PartialEq, Eq)]
pub struct AuctionInfo {
    /// The metadata reference of the auctioned asset when the auction began.
    pub token_uri: String,
    /// Whether an existing asset is auctioned, held in custody meanwhile;
    /// otherwise the asset is minted for the winner.
    pub is_item_auction: bool,
    pub seller: Address,
    pub token_id: u64,
    pub start_time: u64,
    pub end_time: u64,
    pub starting_price: i128,
    /// The currency of the starting price.
    pub currency: Currency,
    pub finalized: bool,
    /// The escrow backend chosen when the auction began.
    pub escrow_provider: EscrowProvider,
    /// Whether the winning bid has left the auction house.
    pub escrow_settled: bool,
}

/// An auction as contracts see it.
pub struct AuctionInfoView {
    pub token_uri: Seq<char>,
    pub is_item_auction: bool,
    pub seller: Address,
    pub token_id: u64,
    pub start_time: u64,
    pub end_time: u64,
    pub starting_price: i128,
    pub currency: Currency,
    pub finalized: bool,
    pub escrow_provider: EscrowProvider,
    pub escrow_settled: bool,
}

impl View for AuctionInfo {
    type V = AuctionInfoView;

    open spec fn view(&self) -> AuctionInfoView {
        AuctionInfoView {
            token_uri: self.token_uri@,
            is_item_auction: self.is_item_auction,
            seller: self.seller,
            token_id: self.token_id,
            start_time: self.start_time,
            end_time: self.end_time,
            starting_price: self.starting_price,
            currency: self.currency,
            finalized: self.finalized,
            escrow_provider: self.escrow_provider,
            escrow_settled: self.escrow_settled,
        }
    }
}

impl Clone for AuctionInfo {
    fn clone(&self) -> (copy: AuctionInfo)
        ensures
            copy@ == self@,
    {
        AuctionInfo {
            token_uri: self.token_uri.clone(),
            is_item_auction: self.is_item_auction,
            seller: self.seller,
            token_id: self.token_id,
            start_time: self.start_time,
            end_time: self.end_time,
            starting_price: self.starting_price,
            currency: self.currency,
            finalized: self.finalized,
            escrow_provider: self.escrow_provider,
            escrow_settled: self.escrow_settled,
        }
    }
}

/// A bid: who offers how much, in which currency.
#[derive(Clone, Copy, Debug, PartialEq, Eq, Structural)]
pub struct BidInfo {
    pub bidder: Address,
    pub amount: i128,
    pub currency: Currency,
}

/// An auction with the highest bid made on it so far, if any.
#[derive(Debug, PartialEq, Eq)]
pub struct AuctionEntry {
    pub info: AuctionInfo,
    pub highest_bid: Option<BidInfo>,
}

/// An auction and its highest bid as contracts see them.
pub struct AuctionEntryView {
    pub info: AuctionInfoView,
    pub highest_bid: Option<BidInfo>,
}

impl View for AuctionEntry {
    type V = AuctionEntryView;

    open spec fn view(&self) -> AuctionEntryView {
        AuctionEntryView { info: self.info@, highest_bid: self.highest_bid }
    }
}

impl Clone for AuctionEntry {
    fn clone(&self) -> (copy: AuctionEntry)
        ensures
            copy@ == self@,
    {
        AuctionEntry { info: self.info.clone(), highest_bid: self.highest_bid }
    }
}

/// The views of a run of auctions, in order.
pub open spec fn entry_views(entries: Seq<AuctionEntry>) -> Seq<AuctionEntryView> {
    Seq::new(entries.len(), |i: int| entries[i]@)
}

/// A call that the auction house asks its host to make.
#[derive(Debug, PartialEq, Eq)]
pub enum AuctionCall {
    /// A transfer of an asset or of funds.
    Plain(Effect),
    /// `mint(to, token_uri)` on the asset registry `registry`.
    Mint { registry: Address, to: Address, token_uri: String },
}

/// A call as contracts see it.
pub enum AuctionCallView {
    Plain(Effect),
    Mint { registry: Address, to: Address, token_uri: Seq<char> },
}

impl View for AuctionCall {
    type V = AuctionCallView;

    open spec fn view(&self) -> AuctionCallView {
        match self {
            AuctionCall::Plain(effect) => AuctionCallView::Plain(*effect),
            AuctionCall::Mint { registry, to, token_uri } => AuctionCallView::Mint {
                registry: *registry,
                to: *to,
                token_uri: token_uri@,
            },
        }
    }
}

impl Clone for AuctionCall {
    fn clone(&self) -> (copy: AuctionCall)
        ensures
            copy@ == self@,
    {
        match self {
            AuctionCall::Plain(effect) => AuctionCall::Plain(*effect),
            AuctionCall::Mint { registry, to, token_uri } => AuctionCall::Mint {
                registry: *registry,
                to: *to,
                token_uri: token_uri.clone(),
            },
        }
    }
}

/// The views of a run of calls, in order.
pub open spec fn call_views(calls: Seq<AuctionCall>) -> Seq<AuctionCallView> {
    Seq::new(calls.len(), |i: int| calls[i]@)
}

} // verus!
