//! The checks on texts, prices and durations that several operations share.

use vstd::prelude::*;
use crate::marketplace::errors::MarketplaceError;
use crate::marketplace::state::{
    ShimejiMarketplace, MAX_COMMISSION_INTENTION_LEN, MAX_COMMISSION_TURNAROUND_DAYS,
    MAX_REFERENCE_IMAGE_URL_LEN, MAX_SWAP_INTENTION_LEN,
};
use crate::text::{byte_len, byte_length, is_blank};

verus! {

/// The first of two checks that fails, if either does.
pub open spec fn first_error(
    first: Option<MarketplaceError>,
    second: Option<MarketplaceError>,
) -> Option<MarketplaceError> {
    if first is Some {
        first
    } else {
        second
    }
}

/// What a check that found `error` returns.
pub open spec fn checked(error: Option<MarketplaceError>) -> Result<(), MarketplaceError> {
    match error {
        Some(e) => Err(e),
        None => Ok(()),
    }
}

/// Why `intention` cannot stand on a swap listing, if so: it is empty, or
/// longer than 280 bytes.
pub open spec fn swap_intention_error(intention: Seq<char>) -> Option<MarketplaceError> {
    if intention.len() == 0 {
        Some(MarketplaceError::SwapIntentionEmpty)
    } else if byte_len(intention) > MAX_SWAP_INTENTION_LEN {
        Some(MarketplaceError::SwapIntentionTooLong)
    } else {
        None
    }
}

/// Why a commission request cannot carry these texts, if so: the intention is
/// empty or longer than 500 bytes, or the reference link is longer than 512.
pub open spec fn commission_payload_error(
    intention: Seq<char>,
    reference_image_url: Seq<char>,
) -> Option<MarketplaceError> {
    if intention.len() == 0 {
        Some(MarketplaceError::CommissionIntentionEmpty)
    } else if byte_len(intention) > MAX_COMMISSION_INTENTION_LEN {
        Some(MarketplaceError::CommissionIntentionTooLong)
    } else if byte_len(reference_image_url) > MAX_REFERENCE_IMAGE_URL_LEN {
        Some(MarketplaceError::ReferenceImageUrlTooLong)
    } else {
        None
    }
}

/// Why a commission listing cannot promise this turnaround, if so: it is zero,
/// or more than 365 days.
pub open spec fn eta_days_error(commission_eta_days: u64) -> Option<MarketplaceError> {
    if commission_eta_days == 0 {
        Some(MarketplaceError::EtaDaysNotPositive)
    } else if commission_eta_days > MAX_COMMISSION_TURNAROUND_DAYS {
        Some(MarketplaceError::EtaDaysTooLarge)
    } else {
        None
    }
}

/// Why these prices cannot be posted, if so: one of them is not positive.
pub open spec fn price_error(price_xlm: i128, price_usdc: i128) -> Option<MarketplaceError> {
    if price_xlm <= 0 {
        Some(MarketplaceError::PriceXlmNotPositive)
    } else if price_usdc <= 0 {
        Some(MarketplaceError::PriceUsdcNotPositive)
    } else {
        None
    }
}

impl ShimejiMarketplace {
    /// Accepts an intention for a swap listing: not empty, at most 280 bytes.
    pub fn validate_swap_intention(intention: &String) -> (ok: Result<(), MarketplaceError>)
        ensures
            ok == checked(swap_intention_error(intention@)),
    {
        if is_blank(intention) {
            return Err(MarketplaceError::SwapIntentionEmpty);
        }
        if byte_length(intention) > MAX_SWAP_INTENTION_LEN {
            return Err(MarketplaceError::SwapIntentionTooLong);
        }
        Ok(())
    }

    /// Accepts the texts of a commission purchase or of a revision request: an
    /// intention that is not empty and at most 500 bytes, and a reference link
    /// of at most 512 bytes, which may be empty.
    pub fn validate_commission_payload(intention: &String, reference_image_url: &String) -> (ok:
        Result<(), MarketplaceError>)
        ensures
            ok == checked(commission_payload_error(intention@, reference_image_url@)),
    {
        if is_blank(intention) {
            return Err(MarketplaceError::CommissionIntentionEmpty);
        }
        if byte_length(intention) > MAX_COMMISSION_INTENTION_LEN {
            return Err(MarketplaceError::CommissionIntentionTooLong);
        }
        if byte_length(reference_image_url) > MAX_REFERENCE_IMAGE_URL_LEN {
            return Err(MarketplaceError::ReferenceImageUrlTooLong);
        }
        Ok(())
    }

    /// Accepts a turnaround of 1 to 365 days.
    pub fn validate_commission_eta_days(commission_eta_days: u64) -> (ok: Result<
        (),
        MarketplaceError,
    >)
        ensures
            ok == checked(eta_days_error(commission_eta_days)),
    {
        if commission_eta_days == 0 {
            return Err(MarketplaceError::EtaDaysNotPositive);
        }
        if commission_eta_days > MAX_COMMISSION_TURNAROUND_DAYS {
            return Err(MarketplaceError::EtaDaysTooLarge);
        }
        Ok(())
    }

    /// Accepts a pair of prices that are both positive.
    pub fn validate_prices(price_xlm: i128, price_usdc: i128) -> (ok: Result<
        (),
        MarketplaceError,
    >)
        ensures
            ok == checked(price_error(price_xlm, price_usdc)),
    {
        if price_xlm <= 0 {
            return Err(MarketplaceError::PriceXlmNotPositive);
        }
        if price_usdc <= 0 {
            return Err(MarketplaceError::PriceUsdcNotPositive);
        }
        Ok(())
    }
}

} // verus!
