//! Comparing amounts across currencies, and the least bid that outbids
//! another.

use vstd::prelude::*;
use crate::auction::errors::AuctionError;
use crate::auction::records::OraclePriceData;
use crate::currency::Currency;

verus! {

/// The shortest auction: one hour, in seconds.
pub const MIN_AUCTION_DURATION: u64 = 3_600;

/// The longest auction: thirty days, in seconds.
pub const MAX_AUCTION_DURATION: u64 = 2_592_000;

/// By how much a bid must exceed the bid it outbids, in hundredths of a
/// percent of that bid: five percent.
pub const MIN_INCREMENT_BPS: i128 = 500;

/// The scale of token amounts and of exchange rates: seven decimals.
pub const TOKEN_SCALE: i128 = 10_000_000;

/// The quotient of `a` by a positive `b`, rounded toward zero.
pub open spec fn trunc_div(a: int, b: int) -> int {
    if a >= 0 {
        a / b
    } else {
        -((-a) / b)
    }
}

/// Whether `n` can be held in an `i128`.
pub open spec fn fits_i128(n: int) -> bool {
    i128::MIN <= n <= i128::MAX
}

/// Why an auction cannot run for `duration_seconds`, if so: that is less than
/// an hour, or more than thirty days.
pub open spec fn duration_error(duration_seconds: u64) -> Option<AuctionError> {
    if duration_seconds < MIN_AUCTION_DURATION {
        Some(AuctionError::DurationTooShort)
    } else if duration_seconds > MAX_AUCTION_DURATION {
        Some(AuctionError::DurationTooLong)
    } else {
        None
    }
}

/// The price of one XLM in USDC at the scale of token amounts, from the
/// oracle's report at its own, finer scale.
pub open spec fn rate_of(report: OraclePriceData) -> i128 {
    trunc_div(report.price as int, TOKEN_SCALE as int) as i128
}

/// The worth of `amount` of `currency` in USDC at `rate`, the price of one XLM
/// in USDC. USDC needs no rate. XLM needs one, and its worth must fit.
pub open spec fn normalized(amount: i128, currency: Currency, rate: Option<i128>) -> Result<
    i128,
    AuctionError,
> {
    match currency {
        Currency::Usdc => Ok(amount),
        Currency::Xlm => match rate {
            None => Err(AuctionError::OracleNotConfigured),
            Some(r) => if fits_i128(amount * r) {
                Ok(trunc_div(amount * r, TOKEN_SCALE as int) as i128)
            } else {
                Err(AuctionError::ArithmeticOverflow)
            },
        },
    }
}

/// The least amount that outbids `current` in the same currency: `current`
/// and five percent of it, rounded toward zero.
pub open spec fn min_outbid(current: i128) -> Result<i128, AuctionError> {
    if !fits_i128(current * MIN_INCREMENT_BPS) {
        Err(AuctionError::ArithmeticOverflow)
    } else {
        let required = current + trunc_div(current * MIN_INCREMENT_BPS, 10_000);
        if fits_i128(required) {
            Ok(required as i128)
        } else {
            Err(AuctionError::ArithmeticOverflow)
        }
    }
}

/// Why a bid of `amount` in `currency` does not reach `floor` in
/// `floor_currency`, if so. Amounts in one currency are compared as they are;
/// amounts in two are both taken to USDC at `rate` first.
pub open spec fn floor_error(
    amount: i128,
    currency: Currency,
    floor: i128,
    floor_currency: Currency,
    rate: Option<i128>,
) -> Option<AuctionError> {
    if currency == floor_currency {
        if amount < floor {
            Some(AuctionError::BidBelowMinimum)
        } else {
            None
        }
    } else {
        match normalized(amount, currency, rate) {
            Err(e) => Some(e),
            Ok(bid_usdc) => match normalized(floor, floor_currency, rate) {
                Err(e) => Some(e),
                Ok(floor_usdc) => if bid_usdc < floor_usdc {
                    Some(AuctionError::BidBelowMinimum)
                } else {
                    None
                },
            },
        }
    }
}

/// Why a bid of `amount` in `currency` does not outbid `current` in
/// `current_currency`, if so. It must exceed it by five percent: of the amount
/// itself in one currency, of its worth in USDC across two.
pub open spec fn outbid_error(
    amount: i128,
    currency: Currency,
    current: i128,
    current_currency: Currency,
    rate: Option<i128>,
) -> Option<AuctionError> {
    if currency == current_currency {
        match min_outbid(current) {
            Err(e) => Some(e),
            Ok(required) => if amount < required {
                Some(AuctionError::BidIncrementTooSmall)
            } else {
                None
            },
        }
    } else {
        match normalized(amount, currency, rate) {
            Err(e) => Some(e),
            Ok(bid_usdc) => match normalized(current, current_currency, rate) {
                Err(e) => Some(e),
                Ok(current_usdc) => match min_outbid(current_usdc) {
                    Err(e) => Some(e),
                    Ok(required) => if bid_usdc < required {
                        Some(AuctionError::BidIncrementTooSmall)
                    } else {
                        None
                    },
                },
            },
        }
    }
}

/// What a check that found `error` returns.
pub open spec fn auction_checked(error: Option<AuctionError>) -> Result<(), AuctionError> {
    match error {
        Some(e) => Err(e),
        None => Ok(()),
    }
}

/// The price of one XLM in USDC at the scale of token amounts.
pub fn rate_from_report(report: OraclePriceData) -> (rate: i128)
    ensures
        rate == rate_of(report),
{
    report.price / TOKEN_SCALE
}

/// The worth of `amount` of `currency` in USDC at `rate`.
///
/// Fails with `OracleNotConfigured` for XLM without a rate, and with
/// `ArithmeticOverflow` where the product of amount and rate does not fit.
pub fn normalize_to_usdc(amount: i128, currency: Currency, rate: Option<i128>) -> (worth: Result<
    i128,
    AuctionError,
>)
    ensures
        worth == normalized(amount, currency, rate),
{
    match currency {
        Currency::Usdc => Ok(amount),
        Currency::Xlm => {
            let rate = match rate {
                Some(rate) => rate,
                None => {
                    return Err(AuctionError::OracleNotConfigured);
                },
            };
            match amount.checked_mul(rate) {
                Some(product) => Ok(product / TOKEN_SCALE),
                None => Err(AuctionError::ArithmeticOverflow),
            }
        },
    }
}

/// The least amount that outbids `current` in the same currency.
///
/// Fails with `ArithmeticOverflow` where it does not fit.
pub fn min_outbid_amount(current: i128) -> (required: Result<i128, AuctionError>)
    ensures
        required == min_outbid(current),
{
    let scaled = match current.checked_mul(MIN_INCREMENT_BPS) {
        Some(scaled) => scaled,
        None => {
            return Err(AuctionError::ArithmeticOverflow);
        },
    };
    match current.checked_add(scaled / 10_000) {
        Some(required) => Ok(required),
        None => Err(AuctionError::ArithmeticOverflow),
    }
}

/// Passes if a bid of `amount` in `currency` reaches `floor` in
/// `floor_currency`.
pub fn check_floor(
    amount: i128,
    currency: Currency,
    floor: i128,
    floor_currency: Currency,
    rate: Option<i128>,
) -> (ok: Result<(), AuctionError>)
    ensures
        ok == auction_checked(floor_error(amount, currency, floor, floor_currency, rate)),
{
    if currency == floor_currency {
        if amount < floor {
            return Err(AuctionError::BidBelowMinimum);
        }
        return Ok(());
    }
    let bid_usdc = match normalize_to_usdc(amount, currency, rate) {
        Ok(worth) => worth,
        Err(e) => {
            return Err(e);
        },
    };
    let floor_usdc = match normalize_to_usdc(floor, floor_currency, rate) {
        Ok(worth) => worth,
        Err(e) => {
            return Err(e);
        },
    };
    if bid_usdc < floor_usdc {
        return Err(AuctionError::BidBelowMinimum);
    }
    Ok(())
}

/// Passes if a bid of `amount` in `currency` outbids `current` in
/// `current_currency`.
pub fn check_outbid(
    amount: i128,
    currency: Currency,
    current: i128,
    current_currency: Currency,
    rate: Option<i128>,
) -> (ok: Result<(), AuctionError>)
    ensures
        ok == auction_checked(outbid_error(amount, currency, current, current_currency, rate)),
{
    if currency == current_currency {
        let required = match min_outbid_amount(current) {
            Ok(required) => required,
            Err(e) => {
                return Err(e);
            },
        };
        if amount < required {
            return Err(AuctionError::BidIncrementTooSmall);
        }
        return Ok(());
    }
    let bid_usdc = match normalize_to_usdc(amount, currency, rate) {
        Ok(worth) => worth,
        Err(e) => {
            return Err(e);
        },
    };
    let current_usdc = match normalize_to_usdc(current, current_currency, rate) {
        Ok(worth) => worth,
        Err(e) => {
            return Err(e);
        },
    };
    let required = match min_outbid_amount(current_usdc) {
        Ok(required) => required,
        Err(e) => {
            return Err(e);
        },
    };
    if bid_usdc < required {
        return Err(AuctionError::BidIncrementTooSmall);
    }
    Ok(())
}

} // verus!
