//! Timed auctions of assets: bids in either currency, compared through an
//! oracle's price where the currencies differ, and settlement once the time is
//! up.

pub mod engine;
pub mod errors;
pub mod pricing;
pub mod records;

pub use engine::{AuctionState, ShimejiAuction};
pub use errors::AuctionError;
pub use records::{
    AuctionCall, AuctionCallView, AuctionConfig, AuctionEntry, AuctionEntryView, AuctionInfo,
    AuctionInfoView, BidInfo, OraclePriceData,
};
