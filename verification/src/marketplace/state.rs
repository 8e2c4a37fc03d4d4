//! The marketplace's state, what holds of it between operations, and the
//! operations that set it up and read it.

use vstd::prelude::*;
use crate::address::Address;
use crate::currency::{Currency, EscrowProvider};
use crate::marketplace::errors::MarketplaceError;
use crate::marketplace::records::{
    order_views, swap_listing_views, CommissionOrder, CommissionOrderStatus,
    CommissionOrderView, ListingInfo, MarketConfig, SwapBid, SwapListing, SwapListingView,
};
use crate::seller_locks::SellerLocks;
use crate::text::byte_len;

verus! {

/// The longest intention, in bytes, that a swap listing may carry.
pub const MAX_SWAP_INTENTION_LEN: usize = 280;

/// The longest intention, in bytes, that a commission purchase or a revision
/// request may carry.
pub const MAX_COMMISSION_INTENTION_LEN: usize = 500;

/// The longest reference-image link, in bytes.
pub const MAX_REFERENCE_IMAGE_URL_LEN: usize = 512;

/// The longest turnaround, in days, that a commission listing may promise.
pub const MAX_COMMISSION_TURNAROUND_DAYS: u64 = 365;

/// How many revisions a buyer may ask for on one order.
pub const MAX_COMMISSION_REVISION_REQUESTS: u64 = 3;

/// How long after a delivery the seller must wait before claiming the escrow
/// without the buyer's approval: seven days, in seconds.
pub const COMMISSION_AUTO_RELEASE_AFTER_DELIVERY_SECS: u64 = 604_800;

/// The marketplace as contracts see it.
///
/// Records are never removed. A record's identifier is its position in its
/// table, so the length of a table is also the next identifier to be given out.
pub struct MarketState {
    /// The marketplace's own address: it holds assets and funds in custody.
    pub contract: Address,
    /// `None` until the marketplace is initialized.
    pub config: Option<MarketConfig>,
    pub listings: Seq<ListingInfo>,
    pub swap_listings: Seq<SwapListingView>,
    pub swap_bids: Seq<SwapBid>,
    pub orders: Seq<CommissionOrderView>,
    /// For each seller with an active commission listing, that listing.
    pub listing_locks: Map<Address, u64>,
    /// For each seller with an open commission order, that order.
    pub order_locks: Map<Address, u64>,
}

/// What holds of every listing.
pub open spec fn listing_wf(listing: ListingInfo) -> bool {
    &&& listing.price_xlm > 0
    &&& listing.price_usdc > 0
    &&& if listing.is_commission_egg {
        0 < listing.commission_eta_days <= MAX_COMMISSION_TURNAROUND_DAYS
    } else {
        listing.commission_eta_days == 0
    }
}

/// What holds of every swap listing.
pub open spec fn swap_listing_wf(listing: SwapListingView) -> bool {
    0 < listing.intention.len() && byte_len(listing.intention) <= MAX_SWAP_INTENTION_LEN
}

/// What holds of every commission order held by the marketplace at `contract`.
pub open spec fn order_wf(order: CommissionOrderView, contract: Address) -> bool {
    &&& order.amount_paid > 0
    &&& order.upfront_paid_to_seller == order.amount_paid / 2
    &&& order.status.is_open() ==> order.upfront_paid_to_seller + order.escrow_remaining
        == order.amount_paid
    &&& order.status.is_terminal() ==> order.escrow_remaining == 0
    &&& order.max_revision_requests == MAX_COMMISSION_REVISION_REQUESTS
    &&& order.revision_request_count <= order.max_revision_requests
    &&& order.status == CommissionOrderStatus::Accepted ==> order.delivered_at == 0
    &&& order.status == CommissionOrderStatus::Accepted && order.revision_request_count == 0
        ==> order.last_delivered_metadata_uri.len() == 0
    &&& order.status.is_open() ==> order.resolved_at == 0
    &&& order.escrow_provider == EscrowProvider::Internal ==> order.escrow_holder == contract
    &&& 0 < order.commission_eta_days <= MAX_COMMISSION_TURNAROUND_DAYS
    &&& 0 < order.intention.len()
    &&& byte_len(order.intention) <= MAX_COMMISSION_INTENTION_LEN
    &&& byte_len(order.reference_image_url) <= MAX_REFERENCE_IMAGE_URL_LEN
    &&& byte_len(order.latest_revision_intention) <= MAX_COMMISSION_INTENTION_LEN
    &&& byte_len(order.latest_revision_ref_url) <= MAX_REFERENCE_IMAGE_URL_LEN
}

impl MarketState {
    /// Every listing and every swap listing is sound in itself.
    pub open spec fn listings_wf(self) -> bool {
        &&& forall|i: int|
            0 <= i < self.listings.len() ==> listing_wf(#[trigger] self.listings[i])
        &&& forall|i: int|
            0 <= i < self.swap_listings.len() ==> swap_listing_wf(#[trigger] self.swap_listings[i])
    }

    /// Every order is sound in itself and was bought from a commission listing
    /// that is closed since.
    pub open spec fn orders_wf(self) -> bool {
        forall|i: int|
            0 <= i < self.orders.len() ==> {
                let order = #[trigger] self.orders[i];
                &&& order_wf(order, self.contract)
                &&& order.listing_id < self.listings.len()
                &&& !self.listings[order.listing_id as int].active
                &&& self.listings[order.listing_id as int].is_commission_egg
                &&& self.listings[order.listing_id as int].seller == order.seller
                &&& self.listings[order.listing_id as int].token_id == order.token_id
                &&& self.listings[order.listing_id as int].spec_price(order.currency)
                    == order.amount_paid
            }
    }

    /// A seller holds the listing lock exactly while one commission listing of
    /// theirs is active, and the lock names that listing.
    pub open spec fn listing_locks_wf(self) -> bool {
        &&& forall|i: int|
            0 <= i < self.listings.len() && (#[trigger] self.listings[i]).active
                && self.listings[i].is_commission_egg ==> {
                &&& self.listing_locks.contains_key(self.listings[i].seller)
                &&& self.listing_locks[self.listings[i].seller] == i
            }
        &&& forall|seller: Address| #[trigger]
            self.listing_locks.contains_key(seller) ==> {
                let id = self.listing_locks[seller];
                &&& id < self.listings.len()
                &&& self.listings[id as int].active
                &&& self.listings[id as int].is_commission_egg
                &&& self.listings[id as int].seller == seller
            }
    }

    /// A seller holds the order lock exactly while one commission order of
    /// theirs is open, and the lock names that order.
    pub open spec fn order_locks_wf(self) -> bool {
        &&& forall|i: int|
            0 <= i < self.orders.len() && (#[trigger] self.orders[i]).status.is_open() ==> {
                &&& self.order_locks.contains_key(self.orders[i].seller)
                &&& self.order_locks[self.orders[i].seller] == i
            }
        &&& forall|seller: Address| #[trigger]
            self.order_locks.contains_key(seller) ==> {
                let id = self.order_locks[seller];
                &&& id < self.orders.len()
                &&& self.orders[id as int].status.is_open()
                &&& self.orders[id as int].seller == seller
            }
    }

    /// No seller holds both locks at once.
    pub open spec fn locks_disjoint(self) -> bool {
        forall|seller: Address|
            !(#[trigger] self.listing_locks.contains_key(seller) && self.order_locks.contains_key(
                seller,
            ))
    }

    /// Every active bid stands against an active swap listing of somebody else,
    /// and offers another asset than the listing does.
    pub open spec fn swap_bids_wf(self) -> bool {
        forall|b: int|
            0 <= b < self.swap_bids.len() && (#[trigger] self.swap_bids[b]).active ==> {
                let bid = self.swap_bids[b];
                &&& bid.listing_id < self.swap_listings.len()
                &&& self.swap_listings[bid.listing_id as int].active
                &&& self.swap_listings[bid.listing_id as int].creator != bid.bidder
                &&& self.swap_listings[bid.listing_id as int].offered_token_id
                    != bid.bidder_token_id
            }
    }

    /// Before initialization the marketplace holds nothing.
    pub open spec fn empty_until_initialized(self) -> bool {
        self.config is None ==> {
            &&& self.listings.len() == 0
            &&& self.swap_listings.len() == 0
            &&& self.swap_bids.len() == 0
            &&& self.orders.len() == 0
        }
    }

    /// What holds of the marketplace between any two operations, from the
    /// moment it is created.
    pub open spec fn wf(self) -> bool {
        &&& self.listings_wf()
        &&& self.orders_wf()
        &&& self.listing_locks_wf()
        &&& self.order_locks_wf()
        &&& self.locks_disjoint()
        &&& self.swap_bids_wf()
        &&& self.empty_until_initialized()
    }

    /// The fresh marketplace at `contract`.
    pub open spec fn fresh(contract: Address) -> MarketState {
        MarketState {
            contract,
            config: None,
            listings: Seq::empty(),
            swap_listings: Seq::empty(),
            swap_bids: Seq::empty(),
            orders: Seq::empty(),
            listing_locks: Map::empty(),
            order_locks: Map::empty(),
        }
    }

    /// The configuration that `initialize` installs.
    pub open spec fn initial_config(
        admin: Address,
        nft_contract: Address,
        usdc_token: Address,
        xlm_token: Address,
    ) -> MarketConfig {
        MarketConfig {
            admin,
            nft_contract,
            usdc_token,
            xlm_token,
            escrow_provider: EscrowProvider::Internal,
            trustless_escrow_xlm: admin,
            trustless_escrow_usdc: admin,
        }
    }

    /// Why `caller` may not change the escrow configuration, if so.
    pub open spec fn admin_error(self, caller: Address) -> Option<MarketplaceError> {
        if self.config is None {
            Some(MarketplaceError::NotInitialized)
        } else if self.config->0.admin != caller {
            Some(MarketplaceError::NotAdmin)
        } else {
            None
        }
    }

    /// The state with the escrow backend and the two vaults replaced.
    pub open spec fn with_escrow(
        self,
        provider: EscrowProvider,
        xlm_destination: Address,
        usdc_destination: Address,
    ) -> MarketState {
        MarketState {
            config: Some(
                MarketConfig {
                    escrow_provider: provider,
                    trustless_escrow_xlm: xlm_destination,
                    trustless_escrow_usdc: usdc_destination,
                    ..self.config->0
                },
            ),
            ..self
        }
    }

    /// The escrow backend that a purchase made now would use.
    pub open spec fn current_escrow_provider(self) -> EscrowProvider {
        match self.config {
            Some(config) => config.escrow_provider,
            None => EscrowProvider::Internal,
        }
    }
}

/// The marketplace engine.
///
/// It holds every record it has ever created. Each operation names the caller
/// whose signature the host has verified; operations that need the ledger's
/// clock or the asset registry's data take them as arguments.
///
/// The fields are open so that a host can store the engine and restore it.
/// `wf` holds of every state that the operations lead to from `new`.
#[derive(Debug)]
pub struct ShimejiMarketplace {
    pub contract: Address,
    pub config: Option<MarketConfig>,
    pub listings: Vec<ListingInfo>,
    pub swap_listings: Vec<SwapListing>,
    pub swap_bids: Vec<SwapBid>,
    pub orders: Vec<CommissionOrder>,
    pub listing_locks: SellerLocks,
    pub order_locks: SellerLocks,
}

impl View for ShimejiMarketplace {
    type V = MarketState;

    open spec fn view(&self) -> MarketState {
        MarketState {
            contract: self.contract,
            config: self.config,
            listings: self.listings@,
            swap_listings: swap_listing_views(self.swap_listings@),
            swap_bids: self.swap_bids@,
            orders: order_views(self.orders@),
            listing_locks: self.listing_locks@,
            order_locks: self.order_locks@,
        }
    }
}

impl ShimejiMarketplace {
    /// The marketplace deployed at `contract`, not yet initialized.
    pub fn new(contract: Address) -> (market: ShimejiMarketplace)
        ensures
            market@ == MarketState::fresh(contract),
            market@.wf(),
    {
        let market = ShimejiMarketplace {
            contract,
            config: None,
            listings: Vec::new(),
            swap_listings: Vec::new(),
            swap_bids: Vec::new(),
            orders: Vec::new(),
            listing_locks: SellerLocks::new(),
            order_locks: SellerLocks::new(),
        };
        proof {
            assert(market@.swap_listings =~= Seq::empty());
            assert(market@.orders =~= Seq::empty());
            assert(market@.listings =~= Seq::empty());
            assert(market@.swap_bids =~= Seq::empty());
        }
        market
    }

    /// Sets the admin, the asset registry and the two payment tokens. The
    /// escrow backend starts as the internal one, and both vault addresses
    /// start as the admin.
    ///
    /// Fails with `AlreadyInitialized` on every call but the first.
    pub fn initialize(
        &mut self,
        admin: Address,
        nft_contract: Address,
        usdc_token: Address,
        xlm_token: Address,
    ) -> (done: Result<(), MarketplaceError>)
        ensures
            match done {
                Ok(()) => {
                    &&& old(self)@.config is None
                    &&& final(self)@ == (MarketState {
                        config: Some(
                            MarketState::initial_config(admin, nft_contract, usdc_token, xlm_token),
                        ),
                        ..old(self)@
                    })
                },
                Err(e) => {
                    &&& old(self)@.config is Some
                    &&& e == MarketplaceError::AlreadyInitialized
                    &&& final(self)@ == old(self)@
                },
            },
            old(self)@.wf() ==> final(self)@.wf(),
            old(self)@.steps_to(final(self)@),
    {
        if self.config.is_some() {
            return Err(MarketplaceError::AlreadyInitialized);
        }
        self.config = Some(
            MarketConfig {
                admin,
                nft_contract,
                usdc_token,
                xlm_token,
                escrow_provider: EscrowProvider::Internal,
                trustless_escrow_xlm: admin,
                trustless_escrow_usdc: admin,
            },
        );
        Ok(())
    }

    /// The admin, once `caller` is known to be the admin.
    ///
    /// Fails with `NotInitialized` before initialization and with `NotAdmin`
    /// for any other caller.
    pub fn require_admin(&self, caller: Address) -> (admin: Result<Address, MarketplaceError>)
        ensures
            match admin {
                Ok(a) => self@.admin_error(caller) is None && a == caller,
                Err(e) => self@.admin_error(caller) == Some(e),
            },
    {
        match self.config {
            None => Err(MarketplaceError::NotInitialized),
            Some(config) => {
                if config.admin != caller {
                    Err(MarketplaceError::NotAdmin)
                } else {
                    Ok(config.admin)
                }
            },
        }
    }

    /// Makes the marketplace itself hold the escrow of orders created from now
    /// on. Only the admin may do this. Existing orders are not touched.
    pub fn configure_internal_escrow(&mut self, caller: Address) -> (done: Result<
        (),
        MarketplaceError,
    >)
        ensures
            match done {
                Ok(()) => {
                    &&& old(self)@.admin_error(caller) is None
                    &&& final(self)@ == old(self)@.with_escrow(
                        EscrowProvider::Internal,
                        old(self)@.config->0.trustless_escrow_xlm,
                        old(self)@.config->0.trustless_escrow_usdc,
                    )
                },
                Err(e) => old(self)@.admin_error(caller) == Some(e) && final(self)@ == old(self)@,
            },
            old(self)@.wf() ==> final(self)@.wf(),
            old(self)@.steps_to(final(self)@),
    {
        match self.require_admin(caller) {
            Err(e) => Err(e),
            Ok(_) => {
                let config = self.config.unwrap();
                self.config = Some(
                    MarketConfig { escrow_provider: EscrowProvider::Internal, ..config },
                );
                Ok(())
            },
        }
    }

    /// Makes the given vaults hold the escrow of orders created from now on,
    /// one vault for each currency. Only the admin may do this. Existing orders
    /// are not touched.
    pub fn configure_trustless_escrow(
        &mut self,
        caller: Address,
        xlm_destination: Address,
        usdc_destination: Address,
    ) -> (done: Result<(), MarketplaceError>)
        ensures
            match done {
                Ok(()) => {
                    &&& old(self)@.admin_error(caller) is None
                    &&& final(self)@ == old(self)@.with_escrow(
                        EscrowProvider::TrustlessWork,
                        xlm_destination,
                        usdc_destination,
                    )
                },
                Err(e) => old(self)@.admin_error(caller) == Some(e) && final(self)@ == old(self)@,
            },
            old(self)@.wf() ==> final(self)@.wf(),
            old(self)@.steps_to(final(self)@),
    {
        match self.require_admin(caller) {
            Err(e) => Err(e),
            Ok(_) => {
                let config = self.config.unwrap();
                self.config = Some(
                    MarketConfig {
                        escrow_provider: EscrowProvider::TrustlessWork,
                        trustless_escrow_xlm: xlm_destination,
                        trustless_escrow_usdc: usdc_destination,
                        ..config
                    },
                );
                Ok(())
            },
        }
    }

    /// The escrow backend that a purchase made now would use: the internal one
    /// until the admin chooses otherwise.
    pub fn current_escrow_provider(&self) -> (provider: EscrowProvider)
        ensures
            provider == self@.current_escrow_provider(),
    {
        match self.config {
            Some(config) => config.escrow_provider,
            None => EscrowProvider::Internal,
        }
    }

    /// The escrow backend that a purchase made now would use.
    pub fn get_escrow_provider(&self) -> (provider: EscrowProvider)
        ensures
            provider == self@.current_escrow_provider(),
    {
        self.current_escrow_provider()
    }

    /// The vault configured for `currency`.
    pub fn trustless_escrow_destination(&self, currency: Currency) -> (vault: Result<
        Address,
        MarketplaceError,
    >)
        ensures
            match vault {
                Ok(v) => self@.config is Some && v == self@.config->0.spec_trustless_destination(
                    currency,
                ),
                Err(e) => self@.config is None && e == MarketplaceError::NotInitialized,
            },
    {
        match self.config {
            Some(config) => Ok(config.trustless_destination(currency)),
            None => Err(MarketplaceError::NotInitialized),
        }
    }

    /// The vaults configured for XLM and for USDC, in that order.
    pub fn get_trustless_escrow_dests(&self) -> (vaults: Result<
        (Address, Address),
        MarketplaceError,
    >)
        ensures
            match vaults {
                Ok((xlm, usdc)) => {
                    &&& self@.config is Some
                    &&& xlm == self@.config->0.trustless_escrow_xlm
                    &&& usdc == self@.config->0.trustless_escrow_usdc
                },
                Err(e) => self@.config is None && e == MarketplaceError::NotInitialized,
            },
    {
        match self.config {
            Some(config) => Ok((config.trustless_escrow_xlm, config.trustless_escrow_usdc)),
            None => Err(MarketplaceError::NotInitialized),
        }
    }

    /// The asset registry that holds the traded assets.
    pub fn nft_contract(&self) -> (registry: Result<Address, MarketplaceError>)
        ensures
            match registry {
                Ok(r) => self@.config is Some && r == self@.config->0.nft_contract,
                Err(e) => self@.config is None && e == MarketplaceError::NotInitialized,
            },
    {
        match self.config {
            Some(config) => Ok(config.nft_contract),
            None => Err(MarketplaceError::NotInitialized),
        }
    }

    /// The payment-token contract of `currency`.
    pub fn token_address_for_currency(&self, currency: Currency) -> (token: Result<
        Address,
        MarketplaceError,
    >)
        ensures
            match token {
                Ok(t) => self@.config is Some && t == self@.config->0.spec_token(currency),
                Err(e) => self@.config is None && e == MarketplaceError::NotInitialized,
            },
    {
        match self.config {
            Some(config) => Ok(config.token(currency)),
            None => Err(MarketplaceError::NotInitialized),
        }
    }

    /// The listing with the given identifier.
    pub fn get_listing(&self, listing_id: u64) -> (listing: Result<ListingInfo, MarketplaceError>)
        ensures
            match listing {
                Ok(l) => listing_id < self@.listings.len() && l == self@.listings[listing_id as int],
                Err(e) => listing_id >= self@.listings.len() && e
                    == MarketplaceError::ListingNotFound,
            },
    {
        if listing_id < self.listings.len() as u64 {
            Ok(self.listings[listing_id as usize])
        } else {
            Err(MarketplaceError::ListingNotFound)
        }
    }

    /// The swap listing with the given identifier.
    pub fn get_swap_listing(&self, listing_id: u64) -> (listing: Result<
        SwapListing,
        MarketplaceError,
    >)
        ensures
            match listing {
                Ok(l) => listing_id < self@.swap_listings.len() && l@
                    == self@.swap_listings[listing_id as int],
                Err(e) => listing_id >= self@.swap_listings.len() && e
                    == MarketplaceError::SwapListingNotFound,
            },
    {
        if listing_id < self.swap_listings.len() as u64 {
            Ok(self.swap_listings[listing_id as usize].clone())
        } else {
            Err(MarketplaceError::SwapListingNotFound)
        }
    }

    /// The swap bid with the given identifier.
    pub fn get_swap_bid(&self, bid_id: u64) -> (bid: Result<SwapBid, MarketplaceError>)
        ensures
            match bid {
                Ok(b) => bid_id < self@.swap_bids.len() && b == self@.swap_bids[bid_id as int],
                Err(e) => bid_id >= self@.swap_bids.len() && e
                    == MarketplaceError::SwapBidNotFound,
            },
    {
        if bid_id < self.swap_bids.len() as u64 {
            Ok(self.swap_bids[bid_id as usize])
        } else {
            Err(MarketplaceError::SwapBidNotFound)
        }
    }

    /// The commission order with the given identifier.
    pub fn get_commission_order(&self, order_id: u64) -> (order: Result<
        CommissionOrder,
        MarketplaceError,
    >)
        ensures
            match order {
                Ok(o) => order_id < self@.orders.len() && o@ == self@.orders[order_id as int],
                Err(e) => order_id >= self@.orders.len() && e == MarketplaceError::OrderNotFound,
            },
    {
        if order_id < self.orders.len() as u64 {
            Ok(self.orders[order_id as usize].clone())
        } else {
            Err(MarketplaceError::OrderNotFound)
        }
    }

    /// How many listings were ever created.
    pub fn total_listings(&self) -> (n: u64)
        ensures
            n == self@.listings.len(),
    {
        self.listings.len() as u64
    }

    /// How many swap listings were ever created; also the identifier that the
    /// next one will get.
    pub fn total_swap_listings(&self) -> (n: u64)
        ensures
            n == self@.swap_listings.len(),
    {
        self.swap_listings.len() as u64
    }

    /// How many swap bids were ever placed; also the identifier that the next
    /// one will get.
    pub fn total_swap_bids(&self) -> (n: u64)
        ensures
            n == self@.swap_bids.len(),
    {
        self.swap_bids.len() as u64
    }

    /// How many commission orders were ever created.
    pub fn total_commission_orders(&self) -> (n: u64)
        ensures
            n == self@.orders.len(),
    {
        self.orders.len() as u64
    }
}

} // verus!
