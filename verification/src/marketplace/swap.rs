//! The swap matching engine: open listings that take competing
//! asset-for-asset bids, acceptance of one bid with the refund of all others,
//! and cancellation.

use vstd::prelude::*;
use crate::address::Address;
use crate::effect::Effect;
use crate::marketplace::errors::MarketplaceError;
use crate::marketplace::listing::asset_transfer;
use crate::marketplace::records::{MarketConfig, SwapBid, SwapListing, SwapListingView};
use crate::marketplace::state::{MarketState, ShimejiMarketplace};
use crate::marketplace::validation::{first_error, swap_intention_error};

verus! {

/// Whether the bid with identifier `bid_id` gets its asset back when the swap
/// listing `listing_id` closes: it is active, it stands against that listing,
/// and it is not the bid `except` that the closing spares.
pub open spec fn refundable(bid: SwapBid, bid_id: int, listing_id: u64, except: Option<u64>) -> bool {
    &&& bid.active
    &&& bid.listing_id == listing_id
    &&& !(except is Some && except->0 == bid_id)
}

/// The bid, no longer active.
pub open spec fn withdrawn(bid: SwapBid) -> SwapBid {
    SwapBid { active: false, ..bid }
}

impl MarketState {
    /// The calls that return their assets to the refundable bidders among the
    /// first `n` bids, in the order of the bids' identifiers.
    pub open spec fn refund_effects_upto(
        self,
        config: MarketConfig,
        listing_id: u64,
        except: Option<u64>,
        n: int,
    ) -> Seq<Effect>
        decreases n,
    {
        if n <= 0 {
            Seq::empty()
        } else {
            let earlier = self.refund_effects_upto(config, listing_id, except, n - 1);
            let bid = self.swap_bids[n - 1];
            if refundable(bid, n - 1, listing_id, except) {
                earlier.push(asset_transfer(config, self.contract, bid.bidder, bid.bidder_token_id))
            } else {
                earlier
            }
        }
    }

    /// The calls that return their assets to all refundable bidders.
    pub open spec fn refund_effects(
        self,
        config: MarketConfig,
        listing_id: u64,
        except: Option<u64>,
    ) -> Seq<Effect> {
        self.refund_effects_upto(config, listing_id, except, self.swap_bids.len() as int)
    }

    /// The bids after every refundable one was withdrawn.
    pub open spec fn bids_after_refund(self, listing_id: u64, except: Option<u64>) -> Seq<SwapBid> {
        Seq::new(
            self.swap_bids.len(),
            |i: int|
                if refundable(self.swap_bids[i], i, listing_id, except) {
                    withdrawn(self.swap_bids[i])
                } else {
                    self.swap_bids[i]
                },
        )
    }

    /// The state after the swap listing `listing_id` closed: it is no longer
    /// active, and neither is any bid that stands against it.
    pub open spec fn with_swap_listing_closed(self, listing_id: u64) -> MarketState {
        MarketState {
            swap_listings: self.swap_listings.update(
                listing_id as int,
                SwapListingView { active: false, ..self.swap_listings[listing_id as int] },
            ),
            swap_bids: Seq::new(
                self.swap_bids.len(),
                |i: int|
                    if self.swap_bids[i].listing_id == listing_id {
                        withdrawn(self.swap_bids[i])
                    } else {
                        self.swap_bids[i]
                    },
            ),
            ..self
        }
    }

    /// Why a swap listing with this intention cannot be created, if so.
    pub open spec fn create_swap_listing_error(self, intention: Seq<char>) -> Option<
        MarketplaceError,
    > {
        first_error(
            swap_intention_error(intention),
            if self.config is None {
                Some(MarketplaceError::NotInitialized)
            } else {
                None
            },
        )
    }

    /// Why `bidder` cannot offer `bidder_token_id` against the swap listing
    /// `listing_id`, if so.
    pub open spec fn place_swap_bid_error(
        self,
        bidder: Address,
        listing_id: u64,
        bidder_token_id: u64,
    ) -> Option<MarketplaceError> {
        if listing_id >= self.swap_listings.len() {
            Some(MarketplaceError::SwapListingNotFound)
        } else if !self.swap_listings[listing_id as int].active {
            Some(MarketplaceError::SwapListingNotActive)
        } else if self.swap_listings[listing_id as int].creator == bidder {
            Some(MarketplaceError::CreatorCannotBid)
        } else if self.swap_listings[listing_id as int].offered_token_id == bidder_token_id {
            Some(MarketplaceError::SelfSwap)
        } else if self.config is None {
            Some(MarketplaceError::NotInitialized)
        } else {
            None
        }
    }

    /// Why `creator` cannot accept the bid `bid_id` on the swap listing
    /// `listing_id`, if so.
    pub open spec fn accept_swap_bid_error(
        self,
        creator: Address,
        listing_id: u64,
        bid_id: u64,
    ) -> Option<MarketplaceError> {
        if listing_id >= self.swap_listings.len() {
            Some(MarketplaceError::SwapListingNotFound)
        } else if !self.swap_listings[listing_id as int].active {
            Some(MarketplaceError::SwapListingNotActive)
        } else if self.swap_listings[listing_id as int].creator != creator {
            Some(MarketplaceError::NotSwapCreatorForAccept)
        } else if bid_id >= self.swap_bids.len() {
            Some(MarketplaceError::SwapBidNotFound)
        } else if !self.swap_bids[bid_id as int].active {
            Some(MarketplaceError::SwapBidNotActive)
        } else if self.swap_bids[bid_id as int].listing_id != listing_id {
            Some(MarketplaceError::SwapBidWrongListing)
        } else if self.config is None {
            Some(MarketplaceError::NotInitialized)
        } else {
            None
        }
    }

    /// The calls of an acceptance: the offered asset to the bidder, the bid's
    /// asset to the creator, then every other active bid's asset back to its
    /// bidder.
    pub open spec fn accept_swap_bid_effects(self, listing_id: u64, bid_id: u64) -> Seq<Effect> {
        let listing = self.swap_listings[listing_id as int];
        let bid = self.swap_bids[bid_id as int];
        seq![
            self.custody_out(bid.bidder, listing.offered_token_id),
            self.custody_out(listing.creator, bid.bidder_token_id),
        ] + self.refund_effects(self.config->0, listing_id, Some(bid_id))
    }

    /// Why `creator` cannot cancel the swap listing `listing_id`, if so.
    pub open spec fn cancel_swap_listing_error(self, creator: Address, listing_id: u64) -> Option<
        MarketplaceError,
    > {
        if listing_id >= self.swap_listings.len() {
            Some(MarketplaceError::SwapListingNotFound)
        } else if self.swap_listings[listing_id as int].creator != creator {
            Some(MarketplaceError::NotSwapCreatorForCancel)
        } else if !self.swap_listings[listing_id as int].active {
            Some(MarketplaceError::SwapListingNotActive)
        } else if self.config is None {
            Some(MarketplaceError::NotInitialized)
        } else {
            None
        }
    }

    /// The calls of a cancellation: the offered asset back to the creator, then
    /// every active bid's asset back to its bidder.
    pub open spec fn cancel_swap_listing_effects(self, listing_id: u64) -> Seq<Effect> {
        let listing = self.swap_listings[listing_id as int];
        seq![self.custody_out(listing.creator, listing.offered_token_id)] + self.refund_effects(
            self.config->0,
            listing_id,
            None,
        )
    }

    /// Why `bidder` cannot withdraw the bid `bid_id`, if so.
    pub open spec fn cancel_swap_bid_error(self, bidder: Address, bid_id: u64) -> Option<
        MarketplaceError,
    > {
        if bid_id >= self.swap_bids.len() {
            Some(MarketplaceError::SwapBidNotFound)
        } else if self.swap_bids[bid_id as int].bidder != bidder {
            Some(MarketplaceError::NotBidder)
        } else if !self.swap_bids[bid_id as int].active {
            Some(MarketplaceError::SwapBidNotActive)
        } else if self.config is None {
            Some(MarketplaceError::NotInitialized)
        } else {
            None
        }
    }
}

impl ShimejiMarketplace {
    /// The identifier that the next swap listing will get.
    pub fn next_swap_listing_id(&self) -> (id: u64)
        ensures
            id == self@.swap_listings.len(),
    {
        self.swap_listings.len() as u64
    }

    /// The identifier that the next swap bid will get.
    pub fn next_swap_bid_id(&self) -> (id: u64)
        ensures
            id == self@.swap_bids.len(),
    {
        self.swap_bids.len() as u64
    }

    /// Withdraws every active bid on the swap listing `listing_id` but the bid
    /// `except_bid_id`, and adds to `effects`, in the order of the bids'
    /// identifiers, the calls that return their assets.
    pub(crate) fn refund_active_swap_bids_for_listing(
        &mut self,
        effects: &mut Vec<Effect>,
        config: MarketConfig,
        listing_id: u64,
        except_bid_id: Option<u64>,
    )
        ensures
            final(effects)@ == old(effects)@ + old(self)@.refund_effects(
                config,
                listing_id,
                except_bid_id,
            ),
            final(self)@ == (MarketState {
                swap_bids: old(self)@.bids_after_refund(listing_id, except_bid_id),
                ..old(self)@
            }),
    {
        let total: usize = self.swap_bids.len();
        let mut i: usize = 0;
        proof {
            assert(effects@ =~= old(effects)@ + Seq::<Effect>::empty());
        }
        while i < total
            invariant
                i <= total,
                total == self.swap_bids.len(),
                total == old(self).swap_bids.len(),
                self.contract == old(self).contract,
                self.config == old(self).config,
                self.listings == old(self).listings,
                self.swap_listings == old(self).swap_listings,
                self.orders == old(self).orders,
                self.listing_locks == old(self).listing_locks,
                self.order_locks == old(self).order_locks,
                effects@ == old(effects)@ + old(self)@.refund_effects_upto(
                    config,
                    listing_id,
                    except_bid_id,
                    i as int,
                ),
                forall|j: int|
                    0 <= j < i ==> #[trigger] self.swap_bids@[j] == old(self)@.bids_after_refund(
                        listing_id,
                        except_bid_id,
                    )[j],
                forall|j: int| i <= j < total ==> #[trigger] self.swap_bids@[j] == old(self).swap_bids@[j],
            decreases total - i,
        {
            let bid = self.swap_bids[i];
            let spared = match except_bid_id {
                Some(skip_id) => skip_id == i as u64,
                None => false,
            };
            if !spared && bid.active && bid.listing_id == listing_id {
                Self::nft_transfer(effects, config, self.contract, bid.bidder, bid.bidder_token_id);
                self.swap_bids[i].active = false;
                proof {
                    assert(effects@ =~= old(effects)@ + old(self)@.refund_effects_upto(
                        config,
                        listing_id,
                        except_bid_id,
                        i + 1,
                    ));
                }
            }
            i = i + 1;
        }
        proof {
            assert(self@.swap_bids =~= old(self)@.bids_after_refund(listing_id, except_bid_id));
        }
    }

    /// Opens a swap listing: `creator` offers `offered_token_id`, which goes
    /// into custody, and says in `intention` what they look for. Returns the
    /// listing's identifier and the call to make.
    ///
    /// Fails if the intention is empty or longer than 280 bytes.
    pub fn create_swap_listing(
        &mut self,
        creator: Address,
        offered_token_id: u64,
        intention: String,
    ) -> (created: Result<(u64, Vec<Effect>), MarketplaceError>)
        ensures
            match created {
                Ok((listing_id, effects)) => {
                    &&& old(self)@.create_swap_listing_error(intention@) is None
                    &&& listing_id == old(self)@.swap_listings.len()
                    &&& effects@ == seq![old(self)@.custody_in(creator, offered_token_id)]
                    &&& final(self)@ == (MarketState {
                        swap_listings: old(self)@.swap_listings.push(
                            SwapListingView {
                                creator,
                                offered_token_id,
                                intention: intention@,
                                active: true,
                            },
                        ),
                        ..old(self)@
                    })
                },
                Err(e) => {
                    &&& old(self)@.create_swap_listing_error(intention@) == Some(e)
                    &&& final(self)@ == old(self)@
                },
            },
            old(self)@.wf() ==> final(self)@.wf(),
            old(self)@.steps_to(final(self)@),
    {
        match Self::validate_swap_intention(&intention) {
            Err(e) => {
                return Err(e);
            },
            Ok(()) => {},
        }
        let config = match self.config {
            Some(config) => config,
            None => {
                return Err(MarketplaceError::NotInitialized);
            },
        };
        let mut effects: Vec<Effect> = Vec::new();
        Self::nft_transfer(&mut effects, config, creator, self.contract, offered_token_id);
        let listing_id = self.next_swap_listing_id();
        let listing = SwapListing { creator, offered_token_id, intention, active: true };
        let ghost created = listing@;
        self.swap_listings.push(listing);
        proof {
            assert(effects@ =~= seq![old(self)@.custody_in(creator, offered_token_id)]);
            assert(self@.swap_listings =~= old(self)@.swap_listings.push(created));
        }
        Ok((listing_id, effects))
    }

    /// Places a bid: `bidder` offers `bidder_token_id`, which goes into
    /// custody, against the swap listing `listing_id`. Returns the bid's
    /// identifier and the call to make.
    ///
    /// Fails if the listing is unknown or closed, if the bidder is its
    /// creator, or if the bidder offers the very asset that is listed.
    pub fn place_swap_bid(&mut self, bidder: Address, listing_id: u64, bidder_token_id: u64) -> (placed:
        Result<(u64, Vec<Effect>), MarketplaceError>)
        ensures
            match placed {
                Ok((bid_id, effects)) => {
                    &&& old(self)@.place_swap_bid_error(bidder, listing_id, bidder_token_id) is None
                    &&& bid_id == old(self)@.swap_bids.len()
                    &&& effects@ == seq![old(self)@.custody_in(bidder, bidder_token_id)]
                    &&& final(self)@ == (MarketState {
                        swap_bids: old(self)@.swap_bids.push(
                            SwapBid { listing_id, bidder, bidder_token_id, active: true },
                        ),
                        ..old(self)@
                    })
                },
                Err(e) => {
                    &&& old(self)@.place_swap_bid_error(bidder, listing_id, bidder_token_id) == Some(
                        e,
                    )
                    &&& final(self)@ == old(self)@
                },
            },
            old(self)@.wf() ==> final(self)@.wf(),
            old(self)@.steps_to(final(self)@),
    {
        if listing_id >= self.swap_listings.len() as u64 {
            return Err(MarketplaceError::SwapListingNotFound);
        }
        let index: usize = listing_id as usize;
        if !self.swap_listings[index].active {
            return Err(MarketplaceError::SwapListingNotActive);
        }
        if self.swap_listings[index].creator == bidder {
            return Err(MarketplaceError::CreatorCannotBid);
        }
        if self.swap_listings[index].offered_token_id == bidder_token_id {
            return Err(MarketplaceError::SelfSwap);
        }
        let config = match self.config {
            Some(config) => config,
            None => {
                return Err(MarketplaceError::NotInitialized);
            },
        };
        let mut effects: Vec<Effect> = Vec::new();
        Self::nft_transfer(&mut effects, config, bidder, self.contract, bidder_token_id);
        let bid_id = self.next_swap_bid_id();
        self.swap_bids.push(SwapBid { listing_id, bidder, bidder_token_id, active: true });
        proof {
            assert(effects@ =~= seq![old(self)@.custody_in(bidder, bidder_token_id)]);
        }
        Ok((bid_id, effects))
    }

    /// Accepts the bid `bid_id` on the swap listing `listing_id`. The two
    /// assets change hands, the listing and the bid are closed, and every other
    /// active bid on the listing is withdrawn and its asset returned, all in
    /// this one operation.
    ///
    /// Fails, changing nothing, if the listing is unknown or closed, if the
    /// caller is not its creator, or if the bid is unknown, not active, or
    /// stands against another listing.
    pub fn accept_swap_bid(&mut self, creator: Address, listing_id: u64, bid_id: u64) -> (accepted:
        Result<Vec<Effect>, MarketplaceError>)
        ensures
            match accepted {
                Ok(effects) => {
                    &&& old(self)@.accept_swap_bid_error(creator, listing_id, bid_id) is None
                    &&& effects@ == old(self)@.accept_swap_bid_effects(listing_id, bid_id)
                    &&& final(self)@ == old(self)@.with_swap_listing_closed(listing_id)
                },
                Err(e) => {
                    &&& old(self)@.accept_swap_bid_error(creator, listing_id, bid_id) == Some(e)
                    &&& final(self)@ == old(self)@
                },
            },
            old(self)@.wf() ==> final(self)@.wf(),
            old(self)@.steps_to(final(self)@),
    {
        if listing_id >= self.swap_listings.len() as u64 {
            return Err(MarketplaceError::SwapListingNotFound);
        }
        let index: usize = listing_id as usize;
        if !self.swap_listings[index].active {
            return Err(MarketplaceError::SwapListingNotActive);
        }
        let listing_creator = self.swap_listings[index].creator;
        if listing_creator != creator {
            return Err(MarketplaceError::NotSwapCreatorForAccept);
        }
        if bid_id >= self.swap_bids.len() as u64 {
            return Err(MarketplaceError::SwapBidNotFound);
        }
        let bid_index: usize = bid_id as usize;
        let bid = self.swap_bids[bid_index];
        if !bid.active {
            return Err(MarketplaceError::SwapBidNotActive);
        }
        if bid.listing_id != listing_id {
            return Err(MarketplaceError::SwapBidWrongListing);
        }
        let config = match self.config {
            Some(config) => config,
            None => {
                return Err(MarketplaceError::NotInitialized);
            },
        };
        let offered_token_id: u64 = self.swap_listings[index].offered_token_id;
        let mut effects: Vec<Effect> = Vec::new();
        Self::nft_transfer(&mut effects, config, self.contract, bid.bidder, offered_token_id);
        Self::nft_transfer(&mut effects, config, self.contract, listing_creator, bid.bidder_token_id);
        self.refund_active_swap_bids_for_listing(&mut effects, config, listing_id, Some(bid_id));
        self.swap_listings[index].active = false;
        self.swap_bids[bid_index].active = false;
        proof {
            let next = old(self)@.with_swap_listing_closed(listing_id);
            assert(effects@ =~= old(self)@.accept_swap_bid_effects(listing_id, bid_id));
            assert(self@.swap_listings =~= next.swap_listings);
            assert(self@.swap_bids =~= next.swap_bids);
        }
        Ok(effects)
    }

    /// Cancels the swap listing `listing_id`: the offered asset returns to the
    /// creator, the listing is closed, and every active bid on it is withdrawn
    /// and its asset returned.
    ///
    /// Fails if the listing is unknown, if the caller is not its creator, or if
    /// it is closed already.
    pub fn cancel_swap_listing(&mut self, creator: Address, listing_id: u64) -> (cancelled: Result<
        Vec<Effect>,
        MarketplaceError,
    >)
        ensures
            match cancelled {
                Ok(effects) => {
                    &&& old(self)@.cancel_swap_listing_error(creator, listing_id) is None
                    &&& effects@ == old(self)@.cancel_swap_listing_effects(listing_id)
                    &&& final(self)@ == old(self)@.with_swap_listing_closed(listing_id)
                },
                Err(e) => {
                    &&& old(self)@.cancel_swap_listing_error(creator, listing_id) == Some(e)
                    &&& final(self)@ == old(self)@
                },
            },
            old(self)@.wf() ==> final(self)@.wf(),
            old(self)@.steps_to(final(self)@),
    {
        if listing_id >= self.swap_listings.len() as u64 {
            return Err(MarketplaceError::SwapListingNotFound);
        }
        let index: usize = listing_id as usize;
        if self.swap_listings[index].creator != creator {
            return Err(MarketplaceError::NotSwapCreatorForCancel);
        }
        if !self.swap_listings[index].active {
            return Err(MarketplaceError::SwapListingNotActive);
        }
        let config = match self.config {
            Some(config) => config,
            None => {
                return Err(MarketplaceError::NotInitialized);
            },
        };
        let offered_token_id: u64 = self.swap_listings[index].offered_token_id;
        let mut effects: Vec<Effect> = Vec::new();
        Self::nft_transfer(&mut effects, config, self.contract, creator, offered_token_id);
        self.refund_active_swap_bids_for_listing(&mut effects, config, listing_id, None);
        self.swap_listings[index].active = false;
        proof {
            let next = old(self)@.with_swap_listing_closed(listing_id);
            assert(effects@ =~= old(self)@.cancel_swap_listing_effects(listing_id));
            assert(self@.swap_listings =~= next.swap_listings);
            assert(self@.swap_bids =~= next.swap_bids);
        }
        Ok(effects)
    }

    /// Withdraws the bid `bid_id`: its asset returns to the bidder. The listing
    /// it stood against is not touched, whatever its state.
    ///
    /// Fails if the bid is unknown, if the caller is not its bidder, or if it
    /// is not active.
    pub fn cancel_swap_bid(&mut self, bidder: Address, bid_id: u64) -> (cancelled: Result<
        Vec<Effect>,
        MarketplaceError,
    >)
        ensures
            match cancelled {
                Ok(effects) => {
                    &&& old(self)@.cancel_swap_bid_error(bidder, bid_id) is None
                    &&& effects@ == seq![
                        old(self)@.custody_out(
                            bidder,
                            old(self)@.swap_bids[bid_id as int].bidder_token_id,
                        ),
                    ]
                    &&& final(self)@ == (MarketState {
                        swap_bids: old(self)@.swap_bids.update(
                            bid_id as int,
                            withdrawn(old(self)@.swap_bids[bid_id as int]),
                        ),
                        ..old(self)@
                    })
                },
                Err(e) => {
                    &&& old(self)@.cancel_swap_bid_error(bidder, bid_id) == Some(e)
                    &&& final(self)@ == old(self)@
                },
            },
            old(self)@.wf() ==> final(self)@.wf(),
            old(self)@.steps_to(final(self)@),
    {
        if bid_id >= self.swap_bids.len() as u64 {
            return Err(MarketplaceError::SwapBidNotFound);
        }
        let index: usize = bid_id as usize;
        let bid = self.swap_bids[index];
        if bid.bidder != bidder {
            return Err(MarketplaceError::NotBidder);
        }
        if !bid.active {
            return Err(MarketplaceError::SwapBidNotActive);
        }
        let config = match self.config {
            Some(config) => config,
            None => {
                return Err(MarketplaceError::NotInitialized);
            },
        };
        let mut effects: Vec<Effect> = Vec::new();
        Self::nft_transfer(&mut effects, config, self.contract, bidder, bid.bidder_token_id);
        self.swap_bids[index].active = false;
        proof {
            assert(effects@ =~= seq![old(self)@.custody_out(bidder, bid.bidder_token_id)]);
            assert(self@.swap_bids =~= old(self)@.swap_bids.update(
                bid_id as int,
                withdrawn(old(self)@.swap_bids[bid_id as int]),
            ));
        }
        Ok(effects)
    }
}

} // verus!
