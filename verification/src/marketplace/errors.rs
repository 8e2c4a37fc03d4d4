//! Why a marketplace operation failed.

use vstd::prelude::*;
use crate::error::ErrorKind;

verus! {

/// Each way in which a marketplace operation can fail.
#[derive(Clone, Copy, Debug, PartialEq, Eq, Structural, Hash)]
pub enum MarketplaceError {
    AlreadyInitialized,
    NotInitialized,
    NotAdmin,
    SwapIntentionEmpty,
    SwapIntentionTooLong,
    CommissionIntentionEmpty,
    CommissionIntentionTooLong,
    ReferenceImageUrlTooLong,
    EtaDaysNotPositive,
    EtaDaysTooLarge,
    CommissionAmountNotPositive,
    SellerHasActiveCommissionListing,
    SellerHasPendingCommissionOrder,
    PriceXlmNotPositive,
    PriceUsdcNotPositive,
    ListingNotFound,
    ListingNotActive,
    UseBuyCommissionXlm,
    UseBuyCommissionUsdc,
    ListingNotCommissionEgg,
    NotListingSeller,
    OrderNotFound,
    NotOrderSeller,
    OrderNotAccepted,
    MetadataNotUpdated,
    NotOrderBuyerForRevision,
    OrderNotAwaitingReview,
    MaxRevisionsReached,
    NotOrderBuyerForApproval,
    OrderNotDelivered,
    NotOrderSellerForTimeout,
    DeliveryTimestampMissing,
    TimeoutNotReached,
    UnauthorizedRefundCaller,
    OrderNotRefundable,
    SwapListingNotFound,
    SwapListingNotActive,
    CreatorCannotBid,
    SelfSwap,
    NotSwapCreatorForAccept,
    SwapBidNotFound,
    SwapBidNotActive,
    SwapBidWrongListing,
    NotSwapCreatorForCancel,
    NotBidder,
}

impl MarketplaceError {
    /// The class of this failure.
    pub open spec fn spec_kind(self) -> ErrorKind {
        match self {
            MarketplaceError::AlreadyInitialized => ErrorKind::AlreadyInitialized,
            MarketplaceError::ListingNotFound
            | MarketplaceError::OrderNotFound
            | MarketplaceError::SwapListingNotFound
            | MarketplaceError::SwapBidNotFound => ErrorKind::NotFound,
            MarketplaceError::SellerHasActiveCommissionListing
            | MarketplaceError::SellerHasPendingCommissionOrder => ErrorKind::Conflict,
            MarketplaceError::NotAdmin
            | MarketplaceError::NotListingSeller
            | MarketplaceError::NotOrderSeller
            | MarketplaceError::NotOrderBuyerForRevision
            | MarketplaceError::NotOrderBuyerForApproval
            | MarketplaceError::NotOrderSellerForTimeout
            | MarketplaceError::UnauthorizedRefundCaller
            | MarketplaceError::NotSwapCreatorForAccept
            | MarketplaceError::NotSwapCreatorForCancel
            | MarketplaceError::NotBidder => ErrorKind::Unauthorized,
            MarketplaceError::SwapIntentionEmpty
            | MarketplaceError::SwapIntentionTooLong
            | MarketplaceError::CommissionIntentionEmpty
            | MarketplaceError::CommissionIntentionTooLong
            | MarketplaceError::ReferenceImageUrlTooLong
            | MarketplaceError::EtaDaysNotPositive
            | MarketplaceError::EtaDaysTooLarge
            | MarketplaceError::CommissionAmountNotPositive
            | MarketplaceError::PriceXlmNotPositive
            | MarketplaceError::PriceUsdcNotPositive
            | MarketplaceError::CreatorCannotBid
            | MarketplaceError::SelfSwap => ErrorKind::Validation,
            MarketplaceError::NotInitialized
            | MarketplaceError::ListingNotActive
            | MarketplaceError::UseBuyCommissionXlm
            | MarketplaceError::UseBuyCommissionUsdc
            | MarketplaceError::ListingNotCommissionEgg
            | MarketplaceError::OrderNotAccepted
            | MarketplaceError::MetadataNotUpdated
            | MarketplaceError::OrderNotAwaitingReview
            | MarketplaceError::MaxRevisionsReached
            | MarketplaceError::OrderNotDelivered
            | MarketplaceError::DeliveryTimestampMissing
            | MarketplaceError::TimeoutNotReached
            | MarketplaceError::OrderNotRefundable
            | MarketplaceError::SwapListingNotActive
            | MarketplaceError::SwapBidNotActive
            | MarketplaceError::SwapBidWrongListing => ErrorKind::InvalidState,
        }
    }

    /// The class of this failure.
    #[verifier::when_used_as_spec(spec_kind)]
    pub fn kind(self) -> (k: ErrorKind)
        ensures
            k == self.spec_kind(),
    {
        match self {
            MarketplaceError::AlreadyInitialized => ErrorKind::AlreadyInitialized,
            MarketplaceError::ListingNotFound
            | MarketplaceError::OrderNotFound
            | MarketplaceError::SwapListingNotFound
            | MarketplaceError::SwapBidNotFound => ErrorKind::NotFound,
            MarketplaceError::SellerHasActiveCommissionListing
            | MarketplaceError::SellerHasPendingCommissionOrder => ErrorKind::Conflict,
            MarketplaceError::NotAdmin
            | MarketplaceError::NotListingSeller
            | MarketplaceError::NotOrderSeller
            | MarketplaceError::NotOrderBuyerForRevision
            | MarketplaceError::NotOrderBuyerForApproval
            | MarketplaceError::NotOrderSellerForTimeout
            | MarketplaceError::UnauthorizedRefundCaller
            | MarketplaceError::NotSwapCreatorForAccept
            | MarketplaceError::NotSwapCreatorForCancel
            | MarketplaceError::NotBidder => ErrorKind::Unauthorized,
            MarketplaceError::SwapIntentionEmpty
            | MarketplaceError::SwapIntentionTooLong
            | MarketplaceError::CommissionIntentionEmpty
            | MarketplaceError::CommissionIntentionTooLong
            | MarketplaceError::ReferenceImageUrlTooLong
            | MarketplaceError::EtaDaysNotPositive
            | MarketplaceError::EtaDaysTooLarge
            | MarketplaceError::CommissionAmountNotPositive
            | MarketplaceError::PriceXlmNotPositive
            | MarketplaceError::PriceUsdcNotPositive
            | MarketplaceError::CreatorCannotBid
            | MarketplaceError::SelfSwap => ErrorKind::Validation,
            _ => ErrorKind::InvalidState,
        }
    }

    /// The stable text by which callers recognise this failure.
    pub open spec fn spec_message(self) -> Seq<char> {
        match self {
            MarketplaceError::AlreadyInitialized => "already initialized"@,
            MarketplaceError::NotInitialized => "not initialized"@,
            MarketplaceError::NotAdmin => "only the admin can configure escrow"@,
            MarketplaceError::SwapIntentionEmpty => "intention cannot be empty"@,
            MarketplaceError::SwapIntentionTooLong => "intention too long"@,
            MarketplaceError::CommissionIntentionEmpty => "commission intention cannot be empty"@,
            MarketplaceError::CommissionIntentionTooLong => "commission intention too long"@,
            MarketplaceError::ReferenceImageUrlTooLong => "reference image url too long"@,
            MarketplaceError::EtaDaysNotPositive => "commission_eta_days must be positive"@,
            MarketplaceError::EtaDaysTooLarge => "commission_eta_days too large"@,
            MarketplaceError::CommissionAmountNotPositive => "commission amount must be positive"@,
            MarketplaceError::SellerHasActiveCommissionListing =>
                "seller already has an active commission egg listing"@,
            MarketplaceError::SellerHasPendingCommissionOrder =>
                "seller has a pending commission order"@,
            MarketplaceError::PriceXlmNotPositive => "price_xlm must be positive"@,
            MarketplaceError::PriceUsdcNotPositive => "price_usdc must be positive"@,
            MarketplaceError::ListingNotFound => "listing does not exist"@,
            MarketplaceError::ListingNotActive => "listing is not active"@,
            MarketplaceError::UseBuyCommissionXlm =>
                "use buy_commission_xlm for commission listings"@,
            MarketplaceError::UseBuyCommissionUsdc =>
                "use buy_commission_usdc for commission listings"@,
            MarketplaceError::ListingNotCommissionEgg => "listing is not a commission egg"@,
            MarketplaceError::NotListingSeller => "only the seller can cancel this listing"@,
            MarketplaceError::OrderNotFound => "commission order does not exist"@,
            MarketplaceError::NotOrderSeller => "only seller can mark commission delivered"@,
            MarketplaceError::OrderNotAccepted => "commission is not in accepted state"@,
            MarketplaceError::MetadataNotUpdated =>
                "update nft metadata before marking commission delivered"@,
            MarketplaceError::NotOrderBuyerForRevision =>
                "only buyer can request commission changes"@,
            MarketplaceError::OrderNotAwaitingReview =>
                "commission order is not awaiting buyer review"@,
            MarketplaceError::MaxRevisionsReached => "maximum revision requests reached"@,
            MarketplaceError::NotOrderBuyerForApproval =>
                "only buyer can approve commission delivery"@,
            MarketplaceError::OrderNotDelivered => "commission order is not delivered"@,
            MarketplaceError::NotOrderSellerForTimeout =>
                "only seller can claim commission timeout"@,
            MarketplaceError::DeliveryTimestampMissing =>
                "commission delivery timestamp missing"@,
            MarketplaceError::TimeoutNotReached => "commission timeout not reached yet"@,
            MarketplaceError::UnauthorizedRefundCaller => "unauthorized refund caller"@,
            MarketplaceError::OrderNotRefundable => "commission order cannot be refunded"@,
            MarketplaceError::SwapListingNotFound => "swap listing does not exist"@,
            MarketplaceError::SwapListingNotActive => "swap listing is not active"@,
            MarketplaceError::CreatorCannotBid => "creator cannot bid on own swap listing"@,
            MarketplaceError::SelfSwap => "cannot swap a token with itself"@,
            MarketplaceError::NotSwapCreatorForAccept => "only the creator can accept swap bids"@,
            MarketplaceError::SwapBidNotFound => "swap bid does not exist"@,
            MarketplaceError::SwapBidNotActive => "swap bid is not active"@,
            MarketplaceError::SwapBidWrongListing => "swap bid does not belong to this listing"@,
            MarketplaceError::NotSwapCreatorForCancel =>
                "only the creator can cancel this swap listing"@,
            MarketplaceError::NotBidder => "only the bidder can cancel this swap bid"@,
        }
    }

    /// The stable text by which callers recognise this failure.
    pub fn message(self) -> (text: &'static str)
        ensures
            text@ == self.spec_message(),
    {
        match self {
            MarketplaceError::AlreadyInitialized => "already initialized",
            MarketplaceError::NotInitialized => "not initialized",
            MarketplaceError::NotAdmin => "only the admin can configure escrow",
            MarketplaceError::SwapIntentionEmpty => "intention cannot be empty",
            MarketplaceError::SwapIntentionTooLong => "intention too long",
            MarketplaceError::CommissionIntentionEmpty => "commission intention cannot be empty",
            MarketplaceError::CommissionIntentionTooLong => "commission intention too long",
            MarketplaceError::ReferenceImageUrlTooLong => "reference image url too long",
            MarketplaceError::EtaDaysNotPositive => "commission_eta_days must be positive",
            MarketplaceError::EtaDaysTooLarge => "commission_eta_days too large",
            MarketplaceError::CommissionAmountNotPositive => "commission amount must be positive",
            MarketplaceError::SellerHasActiveCommissionListing =>
                "seller already has an active commission egg listing",
            MarketplaceError::SellerHasPendingCommissionOrder =>
                "seller has a pending commission order",
            MarketplaceError::PriceXlmNotPositive => "price_xlm must be positive",
            MarketplaceError::PriceUsdcNotPositive => "price_usdc must be positive",
            MarketplaceError::ListingNotFound => "listing does not exist",
            MarketplaceError::ListingNotActive => "listing is not active",
            MarketplaceError::UseBuyCommissionXlm =>
                "use buy_commission_xlm for commission listings",
            MarketplaceError::UseBuyCommissionUsdc =>
                "use buy_commission_usdc for commission listings",
            MarketplaceError::ListingNotCommissionEgg => "listing is not a commission egg",
            MarketplaceError::NotListingSeller => "only the seller can cancel this listing",
            MarketplaceError::OrderNotFound => "commission order does not exist",
            MarketplaceError::NotOrderSeller => "only seller can mark commission delivered",
            MarketplaceError::OrderNotAccepted => "commission is not in accepted state",
            MarketplaceError::MetadataNotUpdated =>
                "update nft metadata before marking commission delivered",
            MarketplaceError::NotOrderBuyerForRevision =>
                "only buyer can request commission changes",
            MarketplaceError::OrderNotAwaitingReview =>
                "commission order is not awaiting buyer review",
            MarketplaceError::MaxRevisionsReached => "maximum revision requests reached",
            MarketplaceError::NotOrderBuyerForApproval =>
                "only buyer can approve commission delivery",
            MarketplaceError::OrderNotDelivered => "commission order is not delivered",
            MarketplaceError::NotOrderSellerForTimeout =>
                "only seller can claim commission timeout",
            MarketplaceError::DeliveryTimestampMissing =>
                "commission delivery timestamp missing",
            MarketplaceError::TimeoutNotReached => "commission timeout not reached yet",
            MarketplaceError::UnauthorizedRefundCaller => "unauthorized refund caller",
            MarketplaceError::OrderNotRefundable => "commission order cannot be refunded",
            MarketplaceError::SwapListingNotFound => "swap listing does not exist",
            MarketplaceError::SwapListingNotActive => "swap listing is not active",
            MarketplaceError::CreatorCannotBid => "creator cannot bid on own swap listing",
            MarketplaceError::SelfSwap => "cannot swap a token with itself",
            MarketplaceError::NotSwapCreatorForAccept => "only the creator can accept swap bids",
            MarketplaceError::SwapBidNotFound => "swap bid does not exist",
            MarketplaceError::SwapBidNotActive => "swap bid is not active",
            MarketplaceError::SwapBidWrongListing => "swap bid does not belong to this listing",
            MarketplaceError::NotSwapCreatorForCancel =>
                "only the creator can cancel this swap listing",
            MarketplaceError::NotBidder => "only the bidder can cancel this swap bid",
        }
    }
}

} // verus!
