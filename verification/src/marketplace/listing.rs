//! Listings and custody: posting an asset for sale, buying it at the posted
//! price, and taking it back.

use vstd::prelude::*;
use crate::address::Address;
use crate::currency::Currency;
use crate::effect::Effect;
use crate::marketplace::errors::MarketplaceError;
use crate::marketplace::records::{ListingInfo, MarketConfig};
use crate::marketplace::state::{MarketState, ShimejiMarketplace};
use crate::marketplace::validation::{checked, eta_days_error, first_error, price_error};

verus! {

/// The registry call that moves the asset `token_id` from `from` to `to`.
pub open spec fn asset_transfer(
    config: MarketConfig,
    from: Address,
    to: Address,
    token_id: u64,
) -> Effect {
    Effect::AssetTransfer { registry: config.nft_contract, from, to, token_id }
}

/// The listing that a seller posts: active from the start.
pub open spec fn new_listing(
    seller: Address,
    token_id: u64,
    price_xlm: i128,
    price_usdc: i128,
    xlm_usdc_rate: i128,
    commission_eta_days: u64,
    is_commission_egg: bool,
) -> ListingInfo {
    ListingInfo {
        seller,
        token_id,
        price_xlm,
        price_usdc,
        xlm_usdc_rate,
        commission_eta_days,
        is_commission_egg,
        active: true,
    }
}

impl MarketState {
    /// The call that takes the asset `token_id` from `owner` into the
    /// marketplace's custody.
    pub open spec fn custody_in(self, owner: Address, token_id: u64) -> Effect {
        asset_transfer(self.config->0, owner, self.contract, token_id)
    }

    /// The call that hands the asset `token_id` from the marketplace's custody
    /// to `to`.
    pub open spec fn custody_out(self, to: Address, token_id: u64) -> Effect {
        asset_transfer(self.config->0, self.contract, to, token_id)
    }

    /// The state with one more listing.
    pub open spec fn with_listing(self, listing: ListingInfo) -> MarketState {
        MarketState { listings: self.listings.push(listing), ..self }
    }

    /// The state with the listing `listing_id` no longer active.
    pub open spec fn with_listing_closed(self, listing_id: u64) -> MarketState {
        MarketState {
            listings: self.listings.update(
                listing_id as int,
                ListingInfo { active: false, ..self.listings[listing_id as int] },
            ),
            ..self
        }
    }

    /// Why a plain listing cannot be posted, if so.
    pub open spec fn list_for_sale_error(self, price_xlm: i128, price_usdc: i128) -> Option<
        MarketplaceError,
    > {
        first_error(
            price_error(price_xlm, price_usdc),
            if self.config is None {
                Some(MarketplaceError::NotInitialized)
            } else {
                None
            },
        )
    }

    /// Why `seller` cannot take the commission-listing lock, if so: they hold
    /// it already, or they hold the open-order lock.
    pub open spec fn slot_error(self, seller: Address) -> Option<MarketplaceError> {
        if self.listing_locks.contains_key(seller) {
            Some(MarketplaceError::SellerHasActiveCommissionListing)
        } else if self.order_locks.contains_key(seller) {
            Some(MarketplaceError::SellerHasPendingCommissionOrder)
        } else {
            None
        }
    }

    /// Why a commission listing cannot be posted, if so.
    pub open spec fn list_commission_egg_error(
        self,
        seller: Address,
        price_xlm: i128,
        price_usdc: i128,
        commission_eta_days: u64,
    ) -> Option<MarketplaceError> {
        first_error(
            self.slot_error(seller),
            first_error(
                eta_days_error(commission_eta_days),
                self.list_for_sale_error(price_xlm, price_usdc),
            ),
        )
    }

    /// Why the listing `listing_id` cannot be bought on the plain path in
    /// `currency`, if so.
    pub open spec fn buy_error(self, listing_id: u64, currency: Currency) -> Option<
        MarketplaceError,
    > {
        if listing_id >= self.listings.len() {
            Some(MarketplaceError::ListingNotFound)
        } else if !self.listings[listing_id as int].active {
            Some(MarketplaceError::ListingNotActive)
        } else if self.listings[listing_id as int].is_commission_egg {
            Some(
                match currency {
                    Currency::Xlm => MarketplaceError::UseBuyCommissionXlm,
                    Currency::Usdc => MarketplaceError::UseBuyCommissionUsdc,
                },
            )
        } else if self.config is None {
            Some(MarketplaceError::NotInitialized)
        } else {
            None
        }
    }

    /// The calls of a plain purchase: the posted price goes from the buyer
    /// straight to the seller, then the asset leaves custody for the buyer.
    pub open spec fn buy_effects(self, buyer: Address, listing_id: u64, currency: Currency) -> Seq<
        Effect,
    > {
        let listing = self.listings[listing_id as int];
        seq![
            Effect::TokenTransfer {
                token: self.config->0.spec_token(currency),
                from: buyer,
                to: listing.seller,
                amount: listing.spec_price(currency),
            },
            self.custody_out(buyer, listing.token_id),
        ]
    }

    /// Why `seller` cannot cancel the listing `listing_id`, if so.
    pub open spec fn cancel_listing_error(self, seller: Address, listing_id: u64) -> Option<
        MarketplaceError,
    > {
        if listing_id >= self.listings.len() {
            Some(MarketplaceError::ListingNotFound)
        } else if self.listings[listing_id as int].seller != seller {
            Some(MarketplaceError::NotListingSeller)
        } else if !self.listings[listing_id as int].active {
            Some(MarketplaceError::ListingNotActive)
        } else if self.config is None {
            Some(MarketplaceError::NotInitialized)
        } else {
            None
        }
    }

    /// The state after the listing `listing_id` is cancelled: it is closed, and
    /// if it was a commission listing its seller's lock is released.
    pub open spec fn cancel_listing_next(self, listing_id: u64) -> MarketState {
        let listing = self.listings[listing_id as int];
        let closed = self.with_listing_closed(listing_id);
        if listing.is_commission_egg {
            MarketState { listing_locks: self.listing_locks.remove(listing.seller), ..closed }
        } else {
            closed
        }
    }
}

impl ShimejiMarketplace {
    /// Adds to `effects` the registry call that moves `token_id` from `from`
    /// to `to`.
    pub fn nft_transfer(
        effects: &mut Vec<Effect>,
        config: MarketConfig,
        from: Address,
        to: Address,
        token_id: u64,
    )
        ensures
            final(effects)@ == old(effects)@.push(asset_transfer(config, from, to, token_id)),
    {
        effects.push(Effect::AssetTransfer { registry: config.nft_contract, from, to, token_id });
    }

    /// Passes if `seller` holds neither the commission-listing lock nor the
    /// open-order lock.
    pub fn ensure_commission_egg_slot_available(&self, seller: Address) -> (ok: Result<
        (),
        MarketplaceError,
    >)
        ensures
            ok == checked(self@.slot_error(seller)),
    {
        if self.listing_locks.contains(seller) {
            return Err(MarketplaceError::SellerHasActiveCommissionListing);
        }
        if self.order_locks.contains(seller) {
            return Err(MarketplaceError::SellerHasPendingCommissionOrder);
        }
        Ok(())
    }

    /// Releases `seller`'s commission-listing lock.
    pub(crate) fn clear_active_commission_egg_listing(&mut self, seller: Address)
        ensures
            final(self)@ == (MarketState {
                listing_locks: old(self)@.listing_locks.remove(seller),
                ..old(self)@
            }),
    {
        self.listing_locks.remove(seller);
    }

    /// Releases `seller`'s open-order lock.
    pub(crate) fn clear_seller_open_commission_order(&mut self, seller: Address)
        ensures
            final(self)@ == (MarketState {
                order_locks: old(self)@.order_locks.remove(seller),
                ..old(self)@
            }),
    {
        self.order_locks.remove(seller);
    }

    /// Posts `token_id` for sale at a fixed price in each currency. The asset
    /// goes into the marketplace's custody. Returns the new listing's
    /// identifier and the calls to make.
    ///
    /// Fails if a price is not positive.
    pub fn list_for_sale(
        &mut self,
        seller: Address,
        token_id: u64,
        price_xlm: i128,
        price_usdc: i128,
        xlm_usdc_rate: i128,
    ) -> (listed: Result<(u64, Vec<Effect>), MarketplaceError>)
        ensures
            match listed {
                Ok((listing_id, effects)) => {
                    &&& old(self)@.list_for_sale_error(price_xlm, price_usdc) is None
                    &&& listing_id == old(self)@.listings.len()
                    &&& effects@ == seq![old(self)@.custody_in(seller, token_id)]
                    &&& final(self)@ == old(self)@.with_listing(
                        new_listing(seller, token_id, price_xlm, price_usdc, xlm_usdc_rate, 0, false),
                    )
                },
                Err(e) => {
                    &&& old(self)@.list_for_sale_error(price_xlm, price_usdc) == Some(e)
                    &&& final(self)@ == old(self)@
                },
            },
            old(self)@.wf() ==> final(self)@.wf(),
            old(self)@.steps_to(final(self)@),
    {
        match Self::validate_prices(price_xlm, price_usdc) {
            Err(e) => {
                return Err(e);
            },
            Ok(()) => {},
        }
        let config = match self.config {
            Some(config) => config,
            None => {
                return Err(MarketplaceError::NotInitialized);
            },
        };
        let mut effects: Vec<Effect> = Vec::new();
        Self::nft_transfer(&mut effects, config, seller, self.contract, token_id);
        let listing_id: u64 = self.listings.len() as u64;
        self.listings.push(
            ListingInfo {
                seller,
                token_id,
                price_xlm,
                price_usdc,
                xlm_usdc_rate,
                commission_eta_days: 0,
                is_commission_egg: false,
                active: true,
            },
        );
        proof {
            assert(effects@ =~= seq![old(self)@.custody_in(seller, token_id)]);
        }
        Ok((listing_id, effects))
    }

    /// Posts `token_id` as a commission listing: whoever buys it orders a work
    /// from the seller, to be delivered within `commission_eta_days`. The asset
    /// goes into custody and the seller takes the commission-listing lock.
    ///
    /// Fails with a conflict if the seller has an active commission listing or
    /// an open commission order; then if the turnaround is not 1 to 365 days;
    /// then if a price is not positive.
    pub fn list_commission_egg(
        &mut self,
        seller: Address,
        token_id: u64,
        price_xlm: i128,
        price_usdc: i128,
        xlm_usdc_rate: i128,
        commission_eta_days: u64,
    ) -> (listed: Result<(u64, Vec<Effect>), MarketplaceError>)
        ensures
            match listed {
                Ok((listing_id, effects)) => {
                    &&& old(self)@.list_commission_egg_error(
                        seller,
                        price_xlm,
                        price_usdc,
                        commission_eta_days,
                    ) is None
                    &&& listing_id == old(self)@.listings.len()
                    &&& effects@ == seq![old(self)@.custody_in(seller, token_id)]
                    &&& final(self)@ == (MarketState {
                        listing_locks: old(self)@.listing_locks.insert(seller, listing_id),
                        ..old(self)@.with_listing(
                            new_listing(
                                seller,
                                token_id,
                                price_xlm,
                                price_usdc,
                                xlm_usdc_rate,
                                commission_eta_days,
                                true,
                            ),
                        )
                    })
                },
                Err(e) => {
                    &&& old(self)@.list_commission_egg_error(
                        seller,
                        price_xlm,
                        price_usdc,
                        commission_eta_days,
                    ) == Some(e)
                    &&& final(self)@ == old(self)@
                },
            },
            old(self)@.wf() ==> final(self)@.wf(),
            old(self)@.steps_to(final(self)@),
    {
        match self.ensure_commission_egg_slot_available(seller) {
            Err(e) => {
                return Err(e);
            },
            Ok(()) => {},
        }
        match Self::validate_commission_eta_days(commission_eta_days) {
            Err(e) => {
                return Err(e);
            },
            Ok(()) => {},
        }
        match Self::validate_prices(price_xlm, price_usdc) {
            Err(e) => {
                return Err(e);
            },
            Ok(()) => {},
        }
        let config = match self.config {
            Some(config) => config,
            None => {
                return Err(MarketplaceError::NotInitialized);
            },
        };
        let mut effects: Vec<Effect> = Vec::new();
        Self::nft_transfer(&mut effects, config, seller, self.contract, token_id);
        let listing_id: u64 = self.listings.len() as u64;
        self.listings.push(
            ListingInfo {
                seller,
                token_id,
                price_xlm,
                price_usdc,
                xlm_usdc_rate,
                commission_eta_days,
                is_commission_egg: true,
                active: true,
            },
        );
        self.listing_locks.insert(seller, listing_id);
        proof {
            assert(effects@ =~= seq![old(self)@.custody_in(seller, token_id)]);
        }
        Ok((listing_id, effects))
    }

    /// Buys the plain listing `listing_id` in `currency`: the buyer pays the
    /// posted price straight to the seller and gets the asset, and the listing
    /// is closed.
    ///
    /// Fails, moving nothing, if the listing is unknown, is closed, or is a
    /// commission listing.
    pub fn buy(&mut self, buyer: Address, listing_id: u64, currency: Currency) -> (bought: Result<
        Vec<Effect>,
        MarketplaceError,
    >)
        ensures
            match bought {
                Ok(effects) => {
                    &&& old(self)@.buy_error(listing_id, currency) is None
                    &&& effects@ == old(self)@.buy_effects(buyer, listing_id, currency)
                    &&& final(self)@ == old(self)@.with_listing_closed(listing_id)
                },
                Err(e) => {
                    &&& old(self)@.buy_error(listing_id, currency) == Some(e)
                    &&& final(self)@ == old(self)@
                },
            },
            old(self)@.wf() ==> final(self)@.wf(),
            old(self)@.steps_to(final(self)@),
    {
        if listing_id >= self.listings.len() as u64 {
            return Err(MarketplaceError::ListingNotFound);
        }
        let index: usize = listing_id as usize;
        let listing = self.listings[index];
        if !listing.active {
            return Err(MarketplaceError::ListingNotActive);
        }
        if listing.is_commission_egg {
            return Err(
                match currency {
                    Currency::Xlm => MarketplaceError::UseBuyCommissionXlm,
                    Currency::Usdc => MarketplaceError::UseBuyCommissionUsdc,
                },
            );
        }
        let config = match self.config {
            Some(config) => config,
            None => {
                return Err(MarketplaceError::NotInitialized);
            },
        };
        let mut effects: Vec<Effect> = Vec::new();
        effects.push(
            Effect::TokenTransfer {
                token: config.token(currency),
                from: buyer,
                to: listing.seller,
                amount: listing.price(currency),
            },
        );
        Self::nft_transfer(&mut effects, config, self.contract, buyer, listing.token_id);
        self.listings[index].active = false;
        proof {
            assert(effects@ =~= old(self)@.buy_effects(buyer, listing_id, currency));
            assert(self@.listings =~= old(self)@.with_listing_closed(listing_id).listings);
        }
        Ok(effects)
    }

    /// Buys the plain listing `listing_id` for its XLM price.
    pub fn buy_xlm(&mut self, buyer: Address, listing_id: u64) -> (bought: Result<
        Vec<Effect>,
        MarketplaceError,
    >)
        ensures
            match bought {
                Ok(effects) => {
                    &&& old(self)@.buy_error(listing_id, Currency::Xlm) is None
                    &&& effects@ == old(self)@.buy_effects(buyer, listing_id, Currency::Xlm)
                    &&& final(self)@ == old(self)@.with_listing_closed(listing_id)
                },
                Err(e) => {
                    &&& old(self)@.buy_error(listing_id, Currency::Xlm) == Some(e)
                    &&& final(self)@ == old(self)@
                },
            },
            old(self)@.wf() ==> final(self)@.wf(),
            old(self)@.steps_to(final(self)@),
    {
        self.buy(buyer, listing_id, Currency::Xlm)
    }

    /// Buys the plain listing `listing_id` for its USDC price.
    pub fn buy_usdc(&mut self, buyer: Address, listing_id: u64) -> (bought: Result<
        Vec<Effect>,
        MarketplaceError,
    >)
        ensures
            match bought {
                Ok(effects) => {
                    &&& old(self)@.buy_error(listing_id, Currency::Usdc) is None
                    &&& effects@ == old(self)@.buy_effects(buyer, listing_id, Currency::Usdc)
                    &&& final(self)@ == old(self)@.with_listing_closed(listing_id)
                },
                Err(e) => {
                    &&& old(self)@.buy_error(listing_id, Currency::Usdc) == Some(e)
                    &&& final(self)@ == old(self)@
                },
            },
            old(self)@.wf() ==> final(self)@.wf(),
            old(self)@.steps_to(final(self)@),
    {
        self.buy(buyer, listing_id, Currency::Usdc)
    }

    /// Cancels the listing `listing_id`: the asset returns to the seller, the
    /// listing is closed, and a commission listing's lock is released. No funds
    /// move.
    ///
    /// Fails if the listing is unknown, if the caller is not its seller, or if
    /// it is closed already.
    pub fn cancel_listing(&mut self, seller: Address, listing_id: u64) -> (cancelled: Result<
        Vec<Effect>,
        MarketplaceError,
    >)
        ensures
            match cancelled {
                Ok(effects) => {
                    &&& old(self)@.cancel_listing_error(seller, listing_id) is None
                    &&& effects@ == seq![
                        old(self)@.custody_out(
                            seller,
                            old(self)@.listings[listing_id as int].token_id,
                        ),
                    ]
                    &&& final(self)@ == old(self)@.cancel_listing_next(listing_id)
                },
                Err(e) => {
                    &&& old(self)@.cancel_listing_error(seller, listing_id) == Some(e)
                    &&& final(self)@ == old(self)@
                },
            },
            old(self)@.wf() ==> final(self)@.wf(),
            old(self)@.steps_to(final(self)@),
    {
        if listing_id >= self.listings.len() as u64 {
            return Err(MarketplaceError::ListingNotFound);
        }
        let index: usize = listing_id as usize;
        let listing = self.listings[index];
        if listing.seller != seller {
            return Err(MarketplaceError::NotListingSeller);
        }
        if !listing.active {
            return Err(MarketplaceError::ListingNotActive);
        }
        let config = match self.config {
            Some(config) => config,
            None => {
                return Err(MarketplaceError::NotInitialized);
            },
        };
        let mut effects: Vec<Effect> = Vec::new();
        Self::nft_transfer(&mut effects, config, self.contract, seller, listing.token_id);
        if listing.is_commission_egg {
            self.clear_active_commission_egg_listing(listing.seller);
        }
        self.listings[index].active = false;
        proof {
            assert(effects@ =~= seq![old(self)@.custody_out(seller, listing.token_id)]);
            assert(self@.listings =~= old(self)@.cancel_listing_next(listing_id).listings);
        }
        Ok(effects)
    }
}

} // verus!
