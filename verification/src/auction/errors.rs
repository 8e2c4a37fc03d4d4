//! Why an auction operation failed.

use vstd::prelude::*;
use crate::error::ErrorKind;

verus! {

/// Each way in which an auction operation can fail.
#[derive(Clone, Copy, Debug, PartialEq, Eq, Structural, Hash)]
pub enum AuctionError {
    AlreadyInitialized,
    NotInitialized,
    NotAdmin,
    DurationTooShort,
    DurationTooLong,
    SellerNotOwner,
    EndTimeOverflow,
    AuctionNotFound,
    AuctionEnded,
    AlreadyFinalized,
    BidBelowMinimum,
    OracleNotConfigured,
    ArithmeticOverflow,
    BidIncrementTooSmall,
    NotEndedYet,
    NoBids,
}

impl AuctionError {
    /// The class of this failure.
    pub open spec fn spec_kind(self) -> ErrorKind {
        match self {
            AuctionError::AlreadyInitialized => ErrorKind::AlreadyInitialized,
            AuctionError::AuctionNotFound | AuctionError::NoBids => ErrorKind::NotFound,
            AuctionError::NotAdmin | AuctionError::SellerNotOwner => ErrorKind::Unauthorized,
            AuctionError::DurationTooShort
            | AuctionError::DurationTooLong
            | AuctionError::EndTimeOverflow
            | AuctionError::BidBelowMinimum
            | AuctionError::ArithmeticOverflow
            | AuctionError::BidIncrementTooSmall => ErrorKind::Validation,
            AuctionError::NotInitialized
            | AuctionError::AuctionEnded
            | AuctionError::AlreadyFinalized
            | AuctionError::OracleNotConfigured
            | AuctionError::NotEndedYet => ErrorKind::InvalidState,
        }
    }

    /// The class of this failure.
    #[verifier::when_used_as_spec(spec_kind)]
    pub fn kind(self) -> (k: ErrorKind)
        ensures
            k == self.spec_kind(),
    {
        match self {
            AuctionError::AlreadyInitialized => ErrorKind::AlreadyInitialized,
            AuctionError::AuctionNotFound | AuctionError::NoBids => ErrorKind::NotFound,
            AuctionError::NotAdmin | AuctionError::SellerNotOwner => ErrorKind::Unauthorized,
            AuctionError::DurationTooShort
            | AuctionError::DurationTooLong
            | AuctionError::EndTimeOverflow
            | AuctionError::BidBelowMinimum
            | AuctionError::ArithmeticOverflow
            | AuctionError::BidIncrementTooSmall => ErrorKind::Validation,
            AuctionError::NotInitialized
            | AuctionError::AuctionEnded
            | AuctionError::AlreadyFinalized
            | AuctionError::OracleNotConfigured
            | AuctionError::NotEndedYet => ErrorKind::InvalidState,
        }
    }

    /// The stable text by which callers recognise this failure.
    pub open spec fn spec_message(self) -> Seq<char> {
        match self {
            AuctionError::AlreadyInitialized => "already initialized"@,
            AuctionError::NotInitialized => "not initialized"@,
            AuctionError::NotAdmin => "only the admin can do this"@,
            AuctionError::DurationTooShort => "auction duration too short"@,
            AuctionError::DurationTooLong => "auction duration too long"@,
            AuctionError::SellerNotOwner => "seller does not own token"@,
            AuctionError::EndTimeOverflow => "auction end time out of range"@,
            AuctionError::AuctionNotFound => "auction does not exist"@,
            AuctionError::AuctionEnded => "auction has ended"@,
            AuctionError::AlreadyFinalized => "auction already finalized"@,
            AuctionError::BidBelowMinimum => "bid below minimum starting price"@,
            AuctionError::OracleNotConfigured =>
                "oracle not configured for cross-currency comparison"@,
            AuctionError::ArithmeticOverflow => "amount out of range"@,
            AuctionError::BidIncrementTooSmall =>
                "bid must be at least 5% higher than current highest"@,
            AuctionError::NotEndedYet => "auction has not ended yet"@,
            AuctionError::NoBids => "no bids for this auction"@,
        }
    }

    /// The stable text by which callers recognise this failure.
    pub fn message(self) -> (text: &'static str)
        ensures
            text@ == self.spec_message(),
    {
        match self {
            AuctionError::AlreadyInitialized => "already initialized",
            AuctionError::NotInitialized => "not initialized",
            AuctionError::NotAdmin => "only the admin can do this",
            AuctionError::DurationTooShort => "auction duration too short",
            AuctionError::DurationTooLong => "auction duration too long",
            AuctionError::SellerNotOwner => "seller does not own token",
            AuctionError::EndTimeOverflow => "auction end time out of range",
            AuctionError::AuctionNotFound => "auction does not exist",
            AuctionError::AuctionEnded => "auction has ended",
            AuctionError::AlreadyFinalized => "auction already finalized",
            AuctionError::BidBelowMinimum => "bid below minimum starting price",
            AuctionError::OracleNotConfigured =>
                "oracle not configured for cross-currency comparison",
            AuctionError::ArithmeticOverflow => "amount out of range",
            AuctionError::BidIncrementTooSmall =>
                "bid must be at least 5% higher than current highest",
            AuctionError::NotEndedYet => "auction has not ended yet",
            AuctionError::NoBids => "no bids for this auction",
        }
    }
}

} // verus!
