//! The records that the marketplace keeps, and the configuration it runs under.

use vstd::prelude::*;
use crate::address::Address;
use crate::currency::{Currency, EscrowProvider};

verus! {

/// The stages of a commission order.
///
/// `Accepted` leads to `Delivered`; `Delivered` leads to `Completed`, or back to
/// `Accepted` when the buyer asks for a revision; `Accepted` and `Delivered` both
/// lead to `Refunded`. `Completed` and `Refunded` are final.
#[derive(Clone, Copy, Debug, PartialEq, Eq, Structural, Hash)]
pub enum CommissionOrderStatus {
    Accepted,
    Delivered,
    Completed,
    Refunded,
}

impl CommissionOrderStatus {
    /// Whether the order still awaits delivery, approval or a refund.
    pub open spec fn spec_is_open(self) -> bool {
        self == CommissionOrderStatus::Accepted || self == CommissionOrderStatus::Delivered
    }

    /// Whether the order still awaits delivery, approval or a refund.
    #[verifier::when_used_as_spec(spec_is_open)]
    pub fn is_open(self) -> (open: bool)
        ensures
            open == self.spec_is_open(),
    {
        match self {
            CommissionOrderStatus::Accepted | CommissionOrderStatus::Delivered => true,
            CommissionOrderStatus::Completed | CommissionOrderStatus::Refunded => false,
        }
    }

    /// Whether the order has reached a final stage.
    pub open spec fn spec_is_terminal(self) -> bool {
        self == CommissionOrderStatus::Completed || self == CommissionOrderStatus::Refunded
    }

    /// Whether the order has reached a final stage.
    #[verifier::when_used_as_spec(spec_is_terminal)]
    pub fn is_terminal(self) -> (done: bool)
        ensures
            done == self.spec_is_terminal(),
    {
        !self.is_open()
    }
}

/// What the marketplace is told when it is initialized, and the escrow backend
/// that the admin has chosen since.
#[derive(Clone, Copy, Debug, PartialEq, Eq, Structural)]
pub struct MarketConfig {
    pub admin: Address,
    pub nft_contract: Address,
    pub usdc_token: Address,
    pub xlm_token: Address,
    pub escrow_provider: EscrowProvider,
    pub trustless_escrow_xlm: Address,
    pub trustless_escrow_usdc: Address,
}

impl MarketConfig {
    /// The payment-token contract of `currency`.
    pub open spec fn spec_token(self, currency: Currency) -> Address {
        match currency {
            Currency::Xlm => self.xlm_token,
            Currency::Usdc => self.usdc_token,
        }
    }

    /// The payment-token contract of `currency`.
    #[verifier::when_used_as_spec(spec_token)]
    pub fn token(self, currency: Currency) -> (token: Address)
        ensures
            token == self.spec_token(currency),
    {
        match currency {
            Currency::Xlm => self.xlm_token,
            Currency::Usdc => self.usdc_token,
        }
    }

    /// The vault that takes escrow in `currency` when the external backend is
    /// chosen.
    pub open spec fn spec_trustless_destination(self, currency: Currency) -> Address {
        match currency {
            Currency::Xlm => self.trustless_escrow_xlm,
            Currency::Usdc => self.trustless_escrow_usdc,
        }
    }

    /// The vault that takes escrow in `currency` when the external backend is
    /// chosen.
    #[verifier::when_used_as_spec(spec_trustless_destination)]
    pub fn trustless_destination(self, currency: Currency) -> (vault: Address)
        ensures
            vault == self.spec_trustless_destination(currency),
    {
        match currency {
            Currency::Xlm => self.trustless_escrow_xlm,
            Currency::Usdc => self.trustless_escrow_usdc,
        }
    }
}

/// A seller's offer of one asset at a posted price in each currency.
#[derive(Clone, Copy, Debug, PartialEq, Eq, Structural)]
pub struct ListingInfo {
    pub seller: Address,
    pub token_id: u64,
    pub price_xlm: i128,
    pub price_usdc: i128,
    pub xlm_usdc_rate: i128,
    pub commission_eta_days: u64,
    pub is_commission_egg: bool,
    pub active: bool,
}

impl ListingInfo {
    /// The posted price in `currency`.
    pub open spec fn spec_price(self, currency: Currency) -> i128 {
        match currency {
            Currency::Xlm => self.price_xlm,
            Currency::Usdc => self.price_usdc,
        }
    }

    /// The posted price in `currency`.
    #[verifier::when_used_as_spec(spec_price)]
    pub fn price(self, currency: Currency) -> (price: i128)
        ensures
            price == self.spec_price(currency),
    {
        match currency {
            Currency::Xlm => self.price_xlm,
            Currency::Usdc => self.price_usdc,
        }
    }
}

/// An open offer to exchange one asset for whatever a bidder proposes.
#[derive(Debug, PartialEq, Eq)]
pub struct SwapListing {
    pub creator: Address,
    pub offered_token_id: u64,
    pub intention: String,
    pub active: bool,
}

/// A swap listing as contracts see it.
pub struct SwapListingView {
    pub creator: Address,
    pub offered_token_id: u64,
    pub intention: Seq<char>,
    pub active: bool,
}

impl View for SwapListing {
    type V = SwapListingView;

    open spec fn view(&self) -> SwapListingView {
        SwapListingView {
            creator: self.creator,
            offered_token_id: self.offered_token_id,
            intention: self.intention@,
            active: self.active,
        }
    }
}

impl Clone for SwapListing {
    fn clone(&self) -> (copy: SwapListing)
        ensures
            copy@ == self@,
    {
        SwapListing {
            creator: self.creator,
            offered_token_id: self.offered_token_id,
            intention: self.intention.clone(),
            active: self.active,
        }
    }
}

/// One bidder's asset, offered against a swap listing.
#[derive(Clone, Copy, Debug, PartialEq, Eq, Structural)]
pub struct SwapBid {
    pub listing_id: u64,
    pub bidder: Address,
    pub bidder_token_id: u64,
    pub active: bool,
}

/// The agreement that a commission purchase creates between buyer and seller.
#[derive(Debug, PartialEq, Eq)]
pub struct CommissionOrder {
    pub buyer: Address,
    pub seller: Address,
    pub listing_id: u64,
    pub token_id: u64,
    pub currency: Currency,
    pub amount_paid: i128,
    pub upfront_paid_to_seller: i128,
    pub escrow_remaining: i128,
    pub escrow_provider: EscrowProvider,
    pub escrow_holder: Address,
    pub commission_eta_days: u64,
    pub intention: String,
    pub reference_image_url: String,
    pub latest_revision_intention: String,
    pub latest_revision_ref_url: String,
    pub revision_request_count: u64,
    pub max_revision_requests: u64,
    pub metadata_uri_at_purchase: String,
    pub last_delivered_metadata_uri: String,
    pub status: CommissionOrderStatus,
    pub created_at: u64,
    pub delivered_at: u64,
    pub resolved_at: u64,
}

/// A commission order as contracts see it.
pub struct CommissionOrderView {
    pub buyer: Address,
    pub seller: Address,
    pub listing_id: u64,
    pub token_id: u64,
    pub currency: Currency,
    pub amount_paid: i128,
    pub upfront_paid_to_seller: i128,
    pub escrow_remaining: i128,
    pub escrow_provider: EscrowProvider,
    pub escrow_holder: Address,
    pub commission_eta_days: u64,
    pub intention: Seq<char>,
    pub reference_image_url: Seq<char>,
    pub latest_revision_intention: Seq<char>,
    pub latest_revision_ref_url: Seq<char>,
    pub revision_request_count: u64,
    pub max_revision_requests: u64,
    pub metadata_uri_at_purchase: Seq<char>,
    pub last_delivered_metadata_uri: Seq<char>,
    pub status: CommissionOrderStatus,
    pub created_at: u64,
    pub delivered_at: u64,
    pub resolved_at: u64,
}

impl View for CommissionOrder {
    type V = CommissionOrderView;

    open spec fn view(&self) -> CommissionOrderView {
        CommissionOrderView {
            buyer: self.buyer,
            seller: self.seller,
            listing_id: self.listing_id,
            token_id: self.token_id,
            currency: self.currency,
            amount_paid: self.amount_paid,
            upfront_paid_to_seller: self.upfront_paid_to_seller,
            escrow_remaining: self.escrow_remaining,
            escrow_provider: self.escrow_provider,
            escrow_holder: self.escrow_holder,
            commission_eta_days: self.commission_eta_days,
            intention: self.intention@,
            reference_image_url: self.reference_image_url@,
            latest_revision_intention: self.latest_revision_intention@,
            latest_revision_ref_url: self.latest_revision_ref_url@,
            revision_request_count: self.revision_request_count,
            max_revision_requests: self.max_revision_requests,
            metadata_uri_at_purchase: self.metadata_uri_at_purchase@,
            last_delivered_metadata_uri: self.last_delivered_metadata_uri@,
            status: self.status,
            created_at: self.created_at,
            delivered_at: self.delivered_at,
            resolved_at: self.resolved_at,
        }
    }
}

impl Clone for CommissionOrder {
    fn clone(&self) -> (copy: CommissionOrder)
        ensures
            copy@ == self@,
    {
        CommissionOrder {
            buyer: self.buyer,
            seller: self.seller,
            listing_id: self.listing_id,
            token_id: self.token_id,
            currency: self.currency,
            amount_paid: self.amount_paid,
            upfront_paid_to_seller: self.upfront_paid_to_seller,
            escrow_remaining: self.escrow_remaining,
            escrow_provider: self.escrow_provider,
            escrow_holder: self.escrow_holder,
            commission_eta_days: self.commission_eta_days,
            intention: self.intention.clone(),
            reference_image_url: self.reference_image_url.clone(),
            latest_revision_intention: self.latest_revision_intention.clone(),
            latest_revision_ref_url: self.latest_revision_ref_url.clone(),
            revision_request_count: self.revision_request_count,
            max_revision_requests: self.max_revision_requests,
            metadata_uri_at_purchase: self.metadata_uri_at_purchase.clone(),
            last_delivered_metadata_uri: self.last_delivered_metadata_uri.clone(),
            status: self.status,
            created_at: self.created_at,
            delivered_at: self.delivered_at,
            resolved_at: self.resolved_at,
        }
    }
}

impl CommissionOrderView {
    /// Whether an accepted order has a delivery on record. It has one exactly
    /// once a revision was asked for, since a revision is asked of a delivery.
    /// What the delivered reference holds plays no part: an empty reference
    /// that was delivered is on record like any other.
    pub open spec fn has_delivery_on_record(self) -> bool {
        self.revision_request_count > 0
    }

    /// The metadata reference that the next delivery of an accepted order must
    /// differ from: that of the last delivery once one is on record, that
    /// taken at purchase until then.
    pub open spec fn delivery_baseline(self) -> Seq<char> {
        if self.has_delivery_on_record() {
            self.last_delivered_metadata_uri
        } else {
            self.metadata_uri_at_purchase
        }
    }
}

/// The views of a run of swap listings, in order.
pub open spec fn swap_listing_views(listings: Seq<SwapListing>) -> Seq<SwapListingView> {
    Seq::new(listings.len(), |i: int| listings[i]@)
}

/// The views of a run of commission orders, in order.
pub open spec fn order_views(orders: Seq<CommissionOrder>) -> Seq<CommissionOrderView> {
    Seq::new(orders.len(), |i: int| orders[i]@)
}

} // verus!
