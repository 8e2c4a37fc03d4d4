//! The marketplace: fixed-price and commission listings, the commission order
//! state machine with its escrow, and asset-for-asset swaps.

pub mod accounts;
pub mod commission;
pub mod errors;
pub mod escrow;
pub mod history;
pub mod laws;
pub mod listing;
pub mod records;
pub mod state;
pub mod swap;
pub mod validation;

pub use errors::MarketplaceError;
pub use records::{
    CommissionOrder, CommissionOrderStatus, CommissionOrderView, ListingInfo, MarketConfig,
    SwapBid, SwapListing, SwapListingView,
};
pub use state::{MarketState, ShimejiMarketplace};
