//! How the marketplace's records may change in one operation.

use vstd::prelude::*;
use crate::marketplace::records::{
    CommissionOrderStatus, CommissionOrderView, ListingInfo, SwapBid, SwapListingView,
};
use crate::marketplace::state::MarketState;

verus! {

/// Whether an order may pass from the stage `prev` to the stage `next` in one
/// operation, or stay where it is.
pub open spec fn status_step(prev: CommissionOrderStatus, next: CommissionOrderStatus) -> bool {
    ||| next == prev
    ||| prev == CommissionOrderStatus::Accepted && next == CommissionOrderStatus::Delivered
    ||| prev == CommissionOrderStatus::Delivered && next == CommissionOrderStatus::Accepted
    ||| prev == CommissionOrderStatus::Delivered && next == CommissionOrderStatus::Completed
    ||| prev.is_open() && next == CommissionOrderStatus::Refunded
}

/// Whether a listing may change from `prev` to `next`: not at all, or from
/// active to closed.
pub open spec fn listing_step(prev: ListingInfo, next: ListingInfo) -> bool {
    next == prev || (prev.active && next == ListingInfo { active: false, ..prev })
}

/// Whether a swap listing may change from `prev` to `next`: not at all, or
/// from active to closed.
pub open spec fn swap_listing_step(prev: SwapListingView, next: SwapListingView) -> bool {
    next == prev || (prev.active && next == SwapListingView { active: false, ..prev })
}

/// Whether a swap bid may change from `prev` to `next`: not at all, or from
/// active to withdrawn.
pub open spec fn swap_bid_step(prev: SwapBid, next: SwapBid) -> bool {
    next == prev || (prev.active && next == SwapBid { active: false, ..prev })
}

/// Whether an order may change from `prev` to `next`. What was fixed at
/// purchase stays: the parties, the asset, the payment and its split, the
/// escrow backend and holder, the texts of the purchase. The stage follows the
/// state machine. The escrow stays as it is until the order ends, and is zero
/// from then on. An order that has ended changes no more.
pub open spec fn order_step(prev: CommissionOrderView, next: CommissionOrderView) -> bool {
    &&& next.buyer == prev.buyer
    &&& next.seller == prev.seller
    &&& next.listing_id == prev.listing_id
    &&& next.token_id == prev.token_id
    &&& next.currency == prev.currency
    &&& next.amount_paid == prev.amount_paid
    &&& next.upfront_paid_to_seller == prev.upfront_paid_to_seller
    &&& next.escrow_provider == prev.escrow_provider
    &&& next.escrow_holder == prev.escrow_holder
    &&& next.commission_eta_days == prev.commission_eta_days
    &&& next.intention == prev.intention
    &&& next.reference_image_url == prev.reference_image_url
    &&& next.max_revision_requests == prev.max_revision_requests
    &&& next.metadata_uri_at_purchase == prev.metadata_uri_at_purchase
    &&& next.created_at == prev.created_at
    &&& next.revision_request_count >= prev.revision_request_count
    &&& status_step(prev.status, next.status)
    &&& if next.status.is_open() {
        next.escrow_remaining == prev.escrow_remaining
    } else {
        next.escrow_remaining == 0 || next == prev
    }
    &&& prev.status.is_terminal() ==> next == prev
}

impl MarketState {
    /// Whether one operation can lead from `self` to `next`: no record is
    /// lost, and each record that `self` holds has changed only as its kind
    /// allows. The marketplace's address, admin, registry and payment tokens
    /// stay as they are.
    pub open spec fn steps_to(self, next: MarketState) -> bool {
        &&& next.contract == self.contract
        &&& self.config is Some ==> {
            &&& next.config is Some
            &&& next.config->0.admin == self.config->0.admin
            &&& next.config->0.nft_contract == self.config->0.nft_contract
            &&& next.config->0.xlm_token == self.config->0.xlm_token
            &&& next.config->0.usdc_token == self.config->0.usdc_token
        }
        &&& self.listings.len() <= next.listings.len()
        &&& self.swap_listings.len() <= next.swap_listings.len()
        &&& self.swap_bids.len() <= next.swap_bids.len()
        &&& self.orders.len() <= next.orders.len()
        &&& forall|i: int|
            0 <= i < self.listings.len() ==> listing_step(
                self.listings[i],
                #[trigger] next.listings[i],
            )
        &&& forall|i: int|
            0 <= i < self.swap_listings.len() ==> swap_listing_step(
                self.swap_listings[i],
                #[trigger] next.swap_listings[i],
            )
        &&& forall|i: int|
            0 <= i < self.swap_bids.len() ==> swap_bid_step(
                self.swap_bids[i],
                #[trigger] next.swap_bids[i],
            )
        &&& forall|i: int|
            0 <= i < self.orders.len() ==> order_step(self.orders[i], #[trigger] next.orders[i])
    }
}

} // verus!
