//! The commission order engine: purchase with a split payment, delivery
//! against a change of the asset's metadata, bounded revisions, approval,
//! the seller's claim once the buyer has stayed silent, and refunds.

use vstd::prelude::*;
use crate::address::Address;
use crate::currency::{Currency, EscrowProvider};
use crate::effect::Effect;
use crate::marketplace::errors::MarketplaceError;
use crate::marketplace::escrow::{currency_transfer, escrow_share, upfront_share};
use crate::marketplace::records::{
    order_views, CommissionOrder, CommissionOrderStatus, CommissionOrderView, ListingInfo,
};
use crate::marketplace::state::{
    MarketState, ShimejiMarketplace, COMMISSION_AUTO_RELEASE_AFTER_DELIVERY_SECS,
    MAX_COMMISSION_REVISION_REQUESTS,
};
use crate::marketplace::validation::{commission_payload_error, first_error};

verus! {

/// The order that a commission purchase creates: accepted, with no revision
/// asked and nothing delivered yet.
pub open spec fn new_order(
    listing_id: u64,
    listing: ListingInfo,
    buyer: Address,
    currency: Currency,
    amount_paid: i128,
    upfront_paid_to_seller: i128,
    escrow_remaining: i128,
    escrow_provider: EscrowProvider,
    escrow_holder: Address,
    intention: Seq<char>,
    reference_image_url: Seq<char>,
    metadata_uri: Seq<char>,
    now: u64,
) -> CommissionOrderView {
    CommissionOrderView {
        buyer,
        seller: listing.seller,
        listing_id,
        token_id: listing.token_id,
        currency,
        amount_paid,
        upfront_paid_to_seller,
        escrow_remaining,
        escrow_provider,
        escrow_holder,
        commission_eta_days: listing.commission_eta_days,
        intention,
        reference_image_url,
        latest_revision_intention: Seq::empty(),
        latest_revision_ref_url: Seq::empty(),
        revision_request_count: 0,
        max_revision_requests: MAX_COMMISSION_REVISION_REQUESTS,
        metadata_uri_at_purchase: metadata_uri,
        last_delivered_metadata_uri: Seq::empty(),
        status: CommissionOrderStatus::Accepted,
        created_at: now,
        delivered_at: 0,
        resolved_at: 0,
    }
}

impl CommissionOrderView {
    /// The order after a delivery at `now` with the metadata reference `uri`.
    pub open spec fn delivered(self, uri: Seq<char>, now: u64) -> CommissionOrderView {
        CommissionOrderView {
            status: CommissionOrderStatus::Delivered,
            last_delivered_metadata_uri: uri,
            delivered_at: now,
            ..self
        }
    }

    /// The order after the buyer asked for one more revision: accepted again,
    /// with no delivery on record.
    pub open spec fn revised(
        self,
        intention: Seq<char>,
        reference_image_url: Seq<char>,
    ) -> CommissionOrderView {
        CommissionOrderView {
            revision_request_count: (self.revision_request_count + 1) as u64,
            latest_revision_intention: intention,
            latest_revision_ref_url: reference_image_url,
            status: CommissionOrderStatus::Accepted,
            delivered_at: 0,
            ..self
        }
    }

    /// The order after its escrow was paid out at `now` and it ended in
    /// `status`.
    pub open spec fn resolved(self, status: CommissionOrderStatus, now: u64) -> CommissionOrderView {
        CommissionOrderView { escrow_remaining: 0, status, resolved_at: now, ..self }
    }

    /// Whether, at `now`, seven days have passed since the last delivery.
    pub open spec fn release_window_over(self, now: u64) -> bool {
        now >= self.delivered_at + COMMISSION_AUTO_RELEASE_AFTER_DELIVERY_SECS
    }
}

impl MarketState {
    /// The state with one more order, whose seller takes the open-order lock.
    pub open spec fn with_order(self, order: CommissionOrderView) -> MarketState {
        MarketState {
            orders: self.orders.push(order),
            order_locks: self.order_locks.insert(order.seller, self.orders.len() as u64),
            ..self
        }
    }

    /// The state with the order `order_id` replaced.
    pub open spec fn with_order_set(self, order_id: u64, order: CommissionOrderView) -> MarketState {
        MarketState { orders: self.orders.update(order_id as int, order), ..self }
    }

    /// The state after the order `order_id` ended in `status` at `now`: its
    /// escrow is spent and its seller's open-order lock is released.
    pub open spec fn with_order_resolved(
        self,
        order_id: u64,
        status: CommissionOrderStatus,
        now: u64,
    ) -> MarketState {
        let order = self.orders[order_id as int];
        MarketState {
            orders: self.orders.update(order_id as int, order.resolved(status, now)),
            order_locks: self.order_locks.remove(order.seller),
            ..self
        }
    }

    /// Why the listing `listing_id` cannot be bought as a commission in
    /// `currency` with these texts, if so.
    pub open spec fn buy_commission_error(
        self,
        listing_id: u64,
        currency: Currency,
        intention: Seq<char>,
        reference_image_url: Seq<char>,
    ) -> Option<MarketplaceError> {
        first_error(
            commission_payload_error(intention, reference_image_url),
            if listing_id >= self.listings.len() {
                Some(MarketplaceError::ListingNotFound)
            } else if !self.listings[listing_id as int].active {
                Some(MarketplaceError::ListingNotActive)
            } else if !self.listings[listing_id as int].is_commission_egg {
                Some(MarketplaceError::ListingNotCommissionEgg)
            } else if self.config is None {
                Some(MarketplaceError::NotInitialized)
            } else if self.listings[listing_id as int].spec_price(currency) <= 0 {
                Some(MarketplaceError::CommissionAmountNotPositive)
            } else {
                None
            },
        )
    }

    /// The calls of a commission purchase, in order: the whole price from the
    /// buyer into custody; the upfront share on to the seller; the escrowed
    /// share on to the vault, under the external backend; the asset to the
    /// buyer.
    pub open spec fn buy_commission_effects(
        self,
        buyer: Address,
        listing_id: u64,
        currency: Currency,
    ) -> Seq<Effect> {
        let listing = self.listings[listing_id as int];
        let amount = listing.spec_price(currency);
        seq![
            Effect::TokenTransfer {
                token: self.config->0.spec_token(currency),
                from: buyer,
                to: self.contract,
                amount,
            },
        ] + currency_transfer(
            self.config->0,
            currency,
            self.contract,
            listing.seller,
            upfront_share(amount),
        ) + self.routing_effects(currency, escrow_share(amount)) + seq![
            self.custody_out(buyer, listing.token_id),
        ]
    }

    /// The order that buying the listing `listing_id` as a commission creates.
    pub open spec fn purchased_order(
        self,
        buyer: Address,
        listing_id: u64,
        currency: Currency,
        intention: Seq<char>,
        reference_image_url: Seq<char>,
        metadata_uri: Seq<char>,
        now: u64,
    ) -> CommissionOrderView {
        let listing = self.listings[listing_id as int];
        let amount = listing.spec_price(currency);
        let routed = self.routed_escrow(currency, escrow_share(amount));
        new_order(
            listing_id,
            listing,
            buyer,
            currency,
            amount,
            upfront_share(amount),
            escrow_share(amount),
            routed.0,
            routed.1,
            intention,
            reference_image_url,
            metadata_uri,
            now,
        )
    }

    /// The state after a commission purchase: the order exists and its seller
    /// holds the open-order lock; the listing is closed and the seller's
    /// commission-listing lock is released.
    pub open spec fn buy_commission_next(
        self,
        buyer: Address,
        listing_id: u64,
        currency: Currency,
        intention: Seq<char>,
        reference_image_url: Seq<char>,
        metadata_uri: Seq<char>,
        now: u64,
    ) -> MarketState {
        let order = self.purchased_order(
            buyer,
            listing_id,
            currency,
            intention,
            reference_image_url,
            metadata_uri,
            now,
        );
        let placed = self.with_order(order).with_listing_closed(listing_id);
        MarketState { listing_locks: self.listing_locks.remove(order.seller), ..placed }
    }

    /// Why `seller` cannot mark the order `order_id` delivered while the
    /// asset's metadata reference is `current_uri`, if so.
    pub open spec fn mark_delivered_error(
        self,
        seller: Address,
        order_id: u64,
        current_uri: Seq<char>,
    ) -> Option<MarketplaceError> {
        if order_id >= self.orders.len() {
            Some(MarketplaceError::OrderNotFound)
        } else if self.orders[order_id as int].seller != seller {
            Some(MarketplaceError::NotOrderSeller)
        } else if self.orders[order_id as int].status != CommissionOrderStatus::Accepted {
            Some(MarketplaceError::OrderNotAccepted)
        } else if self.config is None {
            Some(MarketplaceError::NotInitialized)
        } else if current_uri == self.orders[order_id as int].delivery_baseline() {
            Some(MarketplaceError::MetadataNotUpdated)
        } else {
            None
        }
    }

    /// Why `buyer` cannot ask for a revision of the order `order_id` with these
    /// texts, if so.
    pub open spec fn request_revision_error(
        self,
        buyer: Address,
        order_id: u64,
        intention: Seq<char>,
        reference_image_url: Seq<char>,
    ) -> Option<MarketplaceError> {
        first_error(
            commission_payload_error(intention, reference_image_url),
            if order_id >= self.orders.len() {
                Some(MarketplaceError::OrderNotFound)
            } else if self.orders[order_id as int].buyer != buyer {
                Some(MarketplaceError::NotOrderBuyerForRevision)
            } else if self.orders[order_id as int].status != CommissionOrderStatus::Delivered {
                Some(MarketplaceError::OrderNotAwaitingReview)
            } else if self.orders[order_id as int].revision_request_count
                >= self.orders[order_id as int].max_revision_requests {
                Some(MarketplaceError::MaxRevisionsReached)
            } else {
                None
            },
        )
    }

    /// Why `buyer` cannot approve the delivery of the order `order_id`, if so.
    pub open spec fn approve_delivery_error(self, buyer: Address, order_id: u64) -> Option<
        MarketplaceError,
    > {
        if order_id >= self.orders.len() {
            Some(MarketplaceError::OrderNotFound)
        } else if self.orders[order_id as int].buyer != buyer {
            Some(MarketplaceError::NotOrderBuyerForApproval)
        } else if self.orders[order_id as int].status != CommissionOrderStatus::Delivered {
            Some(MarketplaceError::OrderNotDelivered)
        } else {
            self.settlement_error(self.orders[order_id as int].escrow_remaining)
        }
    }

    /// Why `seller` cannot claim the escrow of the order `order_id` at `now`,
    /// if so.
    pub open spec fn claim_timeout_error(self, seller: Address, order_id: u64, now: u64) -> Option<
        MarketplaceError,
    > {
        if order_id >= self.orders.len() {
            Some(MarketplaceError::OrderNotFound)
        } else if self.orders[order_id as int].seller != seller {
            Some(MarketplaceError::NotOrderSellerForTimeout)
        } else if self.orders[order_id as int].status != CommissionOrderStatus::Delivered {
            Some(MarketplaceError::OrderNotDelivered)
        } else if self.orders[order_id as int].delivered_at == 0 {
            Some(MarketplaceError::DeliveryTimestampMissing)
        } else if !self.orders[order_id as int].release_window_over(now) {
            Some(MarketplaceError::TimeoutNotReached)
        } else {
            self.settlement_error(self.orders[order_id as int].escrow_remaining)
        }
    }

    /// Why `caller` cannot have the order `order_id` refunded, if so.
    pub open spec fn refund_error(self, caller: Address, order_id: u64) -> Option<
        MarketplaceError,
    > {
        if order_id >= self.orders.len() {
            Some(MarketplaceError::OrderNotFound)
        } else if self.config is None {
            Some(MarketplaceError::NotInitialized)
        } else if caller != self.orders[order_id as int].buyer && caller
            != self.orders[order_id as int].seller && caller != self.config->0.admin {
            Some(MarketplaceError::UnauthorizedRefundCaller)
        } else if !self.orders[order_id as int].status.is_open() {
            Some(MarketplaceError::OrderNotRefundable)
        } else {
            None
        }
    }

    /// The calls that pay the whole remaining escrow of the order `order_id`
    /// to `recipient`.
    pub open spec fn payout_effects(self, order_id: u64, recipient: Address) -> Seq<Effect> {
        let order = self.orders[order_id as int];
        self.settlement_effects(order, recipient, order.escrow_remaining)
    }
}

impl ShimejiMarketplace {
    /// Records a new order for the buyer of `listing`, accepted at `now`, and
    /// gives the listing's seller the open-order lock. Returns the order's
    /// identifier.
    pub(crate) fn create_commission_order_record(
        &mut self,
        listing_id: u64,
        listing: ListingInfo,
        buyer: Address,
        currency: Currency,
        amount_paid: i128,
        upfront_paid_to_seller: i128,
        escrow_remaining: i128,
        escrow_provider: EscrowProvider,
        escrow_holder: Address,
        intention: String,
        reference_image_url: String,
        metadata_uri: String,
        now: u64,
    ) -> (order_id: u64)
        ensures
            order_id == old(self)@.orders.len(),
            final(self)@ == old(self)@.with_order(
                new_order(
                    listing_id,
                    listing,
                    buyer,
                    currency,
                    amount_paid,
                    upfront_paid_to_seller,
                    escrow_remaining,
                    escrow_provider,
                    escrow_holder,
                    intention@,
                    reference_image_url@,
                    metadata_uri@,
                    now,
                ),
            ),
    {
        let order_id: u64 = self.orders.len() as u64;
        let order = CommissionOrder {
            buyer,
            seller: listing.seller,
            listing_id,
            token_id: listing.token_id,
            currency,
            amount_paid,
            upfront_paid_to_seller,
            escrow_remaining,
            escrow_provider,
            escrow_holder,
            commission_eta_days: listing.commission_eta_days,
            intention,
            reference_image_url,
            latest_revision_intention: String::new(),
            latest_revision_ref_url: String::new(),
            revision_request_count: 0,
            max_revision_requests: MAX_COMMISSION_REVISION_REQUESTS,
            metadata_uri_at_purchase: metadata_uri,
            last_delivered_metadata_uri: String::new(),
            status: CommissionOrderStatus::Accepted,
            created_at: now,
            delivered_at: 0,
            resolved_at: 0,
        };
        let ghost recorded = order@;
        self.orders.push(order);
        self.order_locks.insert(listing.seller, order_id);
        proof {
            assert(order_views(self.orders@) =~= order_views(old(self).orders@).push(recorded));
        }
        order_id
    }

    /// Buys the commission listing `listing_id` in `currency`.
    ///
    /// The buyer pays the posted price into custody. Half of it, rounded down,
    /// goes to the seller at once; the rest is escrowed with the backend
    /// configured at this moment, which the order records for good. The buyer
    /// gets the asset, whose metadata reference at this moment, `metadata_uri`,
    /// is kept on the order. The listing is closed; the seller's
    /// commission-listing lock becomes an open-order lock. Returns the order's
    /// identifier and the calls to make.
    ///
    /// Fails if the texts are not acceptable, if the listing is unknown or
    /// closed, or if it is not a commission listing.
    pub fn buy_commission(
        &mut self,
        buyer: Address,
        listing_id: u64,
        currency: Currency,
        intention: String,
        reference_image_url: String,
        metadata_uri: String,
        now: u64,
    ) -> (bought: Result<(u64, Vec<Effect>), MarketplaceError>)
        ensures
            match bought {
                Ok((order_id, effects)) => {
                    &&& old(self)@.buy_commission_error(
                        listing_id,
                        currency,
                        intention@,
                        reference_image_url@,
                    ) is None
                    &&& order_id == old(self)@.orders.len()
                    &&& effects@ == old(self)@.buy_commission_effects(buyer, listing_id, currency)
                    &&& final(self)@ == old(self)@.buy_commission_next(
                        buyer,
                        listing_id,
                        currency,
                        intention@,
                        reference_image_url@,
                        metadata_uri@,
                        now,
                    )
                },
                Err(e) => {
                    &&& old(self)@.buy_commission_error(
                        listing_id,
                        currency,
                        intention@,
                        reference_image_url@,
                    ) == Some(e)
                    &&& final(self)@ == old(self)@
                },
            },
            old(self)@.wf() ==> final(self)@.wf(),
            old(self)@.steps_to(final(self)@),
    {
        match Self::validate_commission_payload(&intention, &reference_image_url) {
            Err(e) => {
                return Err(e);
            },
            Ok(()) => {},
        }
        if listing_id >= self.listings.len() as u64 {
            return Err(MarketplaceError::ListingNotFound);
        }
        let index: usize = listing_id as usize;
        let listing = self.listings[index];
        if !listing.active {
            return Err(MarketplaceError::ListingNotActive);
        }
        if !listing.is_commission_egg {
            return Err(MarketplaceError::ListingNotCommissionEgg);
        }
        let config = match self.config {
            Some(config) => config,
            None => {
                return Err(MarketplaceError::NotInitialized);
            },
        };
        let amount_paid: i128 = listing.price(currency);
        let (upfront_paid_to_seller, escrow_remaining) = match Self::split_commission_payment(
            amount_paid,
        ) {
            Ok(shares) => shares,
            Err(e) => {
                return Err(e);
            },
        };
        let mut effects: Vec<Effect> = Vec::new();
        effects.push(
            Effect::TokenTransfer {
                token: config.token(currency),
                from: buyer,
                to: self.contract,
                amount: amount_paid,
            },
        );
        Self::transfer_currency(
            &mut effects,
            config,
            currency,
            self.contract,
            listing.seller,
            upfront_paid_to_seller,
        );
        let (escrow_provider, escrow_holder) = self.route_commission_escrow_after_purchase(
            &mut effects,
            currency,
            escrow_remaining,
        );
        Self::nft_transfer(&mut effects, config, self.contract, buyer, listing.token_id);
        let ghost wanted = intention@;
        let ghost reference = reference_image_url@;
        let ghost snapshot = metadata_uri@;
        let order_id = self.create_commission_order_record(
            listing_id,
            listing,
            buyer,
            currency,
            amount_paid,
            upfront_paid_to_seller,
            escrow_remaining,
            escrow_provider,
            escrow_holder,
            intention,
            reference_image_url,
            metadata_uri,
            now,
        );
        self.listings[index].active = false;
        self.clear_active_commission_egg_listing(listing.seller);
        proof {
            let next = old(self)@.buy_commission_next(
                buyer,
                listing_id,
                currency,
                wanted,
                reference,
                snapshot,
                now,
            );
            assert(effects@ =~= old(self)@.buy_commission_effects(buyer, listing_id, currency));
            assert(self@.listings =~= next.listings);
            assert(self@.orders =~= next.orders);
            assert(self@.order_locks =~= next.order_locks);
            assert(self@.listing_locks =~= next.listing_locks);
        }
        Ok((order_id, effects))
    }

    /// Buys the commission listing `listing_id` for its XLM price.
    pub fn buy_commission_xlm(
        &mut self,
        buyer: Address,
        listing_id: u64,
        intention: String,
        reference_image_url: String,
        metadata_uri: String,
        now: u64,
    ) -> (bought: Result<(u64, Vec<Effect>), MarketplaceError>)
        ensures
            match bought {
                Ok((order_id, effects)) => {
                    &&& old(self)@.buy_commission_error(
                        listing_id,
                        Currency::Xlm,
                        intention@,
                        reference_image_url@,
                    ) is None
                    &&& order_id == old(self)@.orders.len()
                    &&& effects@ == old(self)@.buy_commission_effects(
                        buyer,
                        listing_id,
                        Currency::Xlm,
                    )
                    &&& final(self)@ == old(self)@.buy_commission_next(
                        buyer,
                        listing_id,
                        Currency::Xlm,
                        intention@,
                        reference_image_url@,
                        metadata_uri@,
                        now,
                    )
                },
                Err(e) => {
                    &&& old(self)@.buy_commission_error(
                        listing_id,
                        Currency::Xlm,
                        intention@,
                        reference_image_url@,
                    ) == Some(e)
                    &&& final(self)@ == old(self)@
                },
            },
            old(self)@.wf() ==> final(self)@.wf(),
            old(self)@.steps_to(final(self)@),
    {
        self.buy_commission(
            buyer,
            listing_id,
            Currency::Xlm,
            intention,
            reference_image_url,
            metadata_uri,
            now,
        )
    }

    /// Buys the commission listing `listing_id` for its USDC price.
    pub fn buy_commission_usdc(
        &mut self,
        buyer: Address,
        listing_id: u64,
        intention: String,
        reference_image_url: String,
        metadata_uri: String,
        now: u64,
    ) -> (bought: Result<(u64, Vec<Effect>), MarketplaceError>)
        ensures
            match bought {
                Ok((order_id, effects)) => {
                    &&& old(self)@.buy_commission_error(
                        listing_id,
                        Currency::Usdc,
                        intention@,
                        reference_image_url@,
                    ) is None
                    &&& order_id == old(self)@.orders.len()
                    &&& effects@ == old(self)@.buy_commission_effects(
                        buyer,
                        listing_id,
                        Currency::Usdc,
                    )
                    &&& final(self)@ == old(self)@.buy_commission_next(
                        buyer,
                        listing_id,
                        Currency::Usdc,
                        intention@,
                        reference_image_url@,
                        metadata_uri@,
                        now,
                    )
                },
                Err(e) => {
                    &&& old(self)@.buy_commission_error(
                        listing_id,
                        Currency::Usdc,
                        intention@,
                        reference_image_url@,
                    ) == Some(e)
                    &&& final(self)@ == old(self)@
                },
            },
            old(self)@.wf() ==> final(self)@.wf(),
            old(self)@.steps_to(final(self)@),
    {
        self.buy_commission(
            buyer,
            listing_id,
            Currency::Usdc,
            intention,
            reference_image_url,
            metadata_uri,
            now,
        )
    }

    /// Marks the order `order_id` delivered at `now`. `current_uri` is the
    /// asset's metadata reference at this moment. Once a delivery is on record,
    /// which is so exactly after a revision was asked for, it must differ from
    /// the reference of the last delivery, whatever that holds, even nothing;
    /// until then it must differ from the one kept at purchase. It becomes the
    /// reference of the last delivery.
    ///
    /// Fails if the order is unknown, if the caller is not its seller, if it is
    /// not in the accepted stage, or if the metadata reference has not changed.
    pub fn mark_commission_delivered(
        &mut self,
        seller: Address,
        order_id: u64,
        current_uri: String,
        now: u64,
    ) -> (done: Result<(), MarketplaceError>)
        ensures
            match done {
                Ok(()) => {
                    &&& old(self)@.mark_delivered_error(seller, order_id, current_uri@) is None
                    &&& final(self)@ == old(self)@.with_order_set(
                        order_id,
                        old(self)@.orders[order_id as int].delivered(current_uri@, now),
                    )
                },
                Err(e) => {
                    &&& old(self)@.mark_delivered_error(seller, order_id, current_uri@) == Some(e)
                    &&& final(self)@ == old(self)@
                },
            },
            old(self)@.wf() ==> final(self)@.wf(),
            old(self)@.steps_to(final(self)@),
    {
        if order_id >= self.orders.len() as u64 {
            return Err(MarketplaceError::OrderNotFound);
        }
        let index: usize = order_id as usize;
        if self.orders[index].seller != seller {
            return Err(MarketplaceError::NotOrderSeller);
        }
        if self.orders[index].status != CommissionOrderStatus::Accepted {
            return Err(MarketplaceError::OrderNotAccepted);
        }
        if self.config.is_none() {
            return Err(MarketplaceError::NotInitialized);
        }
        let unchanged = if self.orders[index].revision_request_count > 0 {
            current_uri == self.orders[index].last_delivered_metadata_uri
        } else {
            current_uri == self.orders[index].metadata_uri_at_purchase
        };
        if unchanged {
            return Err(MarketplaceError::MetadataNotUpdated);
        }
        let ghost delivered = current_uri@;
        self.orders[index].status = CommissionOrderStatus::Delivered;
        self.orders[index].last_delivered_metadata_uri = current_uri;
        self.orders[index].delivered_at = now;
        proof {
            assert(self@.orders =~= old(self)@.orders.update(
                order_id as int,
                old(self)@.orders[order_id as int].delivered(delivered, now),
            ));
        }
        Ok(())
    }

    /// Asks for a revision of the delivered order `order_id`: the order goes
    /// back to the accepted stage with no delivery on record, so the seller
    /// must change the metadata and deliver again. At most three revisions can
    /// be asked for on one order.
    ///
    /// Fails if the texts are not acceptable, if the order is unknown, if the
    /// caller is not its buyer, if it is not in the delivered stage, or if the
    /// revisions are used up.
    pub fn request_commission_revision(
        &mut self,
        buyer: Address,
        order_id: u64,
        intention: String,
        reference_image_url: String,
    ) -> (done: Result<(), MarketplaceError>)
        ensures
            match done {
                Ok(()) => {
                    &&& old(self)@.request_revision_error(
                        buyer,
                        order_id,
                        intention@,
                        reference_image_url@,
                    ) is None
                    &&& final(self)@ == old(self)@.with_order_set(
                        order_id,
                        old(self)@.orders[order_id as int].revised(
                            intention@,
                            reference_image_url@,
                        ),
                    )
                },
                Err(e) => {
                    &&& old(self)@.request_revision_error(
                        buyer,
                        order_id,
                        intention@,
                        reference_image_url@,
                    ) == Some(e)
                    &&& final(self)@ == old(self)@
                },
            },
            old(self)@.wf() ==> final(self)@.wf(),
            old(self)@.steps_to(final(self)@),
    {
        match Self::validate_commission_payload(&intention, &reference_image_url) {
            Err(e) => {
                return Err(e);
            },
            Ok(()) => {},
        }
        if order_id >= self.orders.len() as u64 {
            return Err(MarketplaceError::OrderNotFound);
        }
        let index: usize = order_id as usize;
        if self.orders[index].buyer != buyer {
            return Err(MarketplaceError::NotOrderBuyerForRevision);
        }
        if self.orders[index].status != CommissionOrderStatus::Delivered {
            return Err(MarketplaceError::OrderNotAwaitingReview);
        }
        let asked: u64 = self.orders[index].revision_request_count;
        if asked >= self.orders[index].max_revision_requests {
            return Err(MarketplaceError::MaxRevisionsReached);
        }
        let ghost wanted = intention@;
        let ghost reference = reference_image_url@;
        self.orders[index].revision_request_count = asked + 1;
        self.orders[index].latest_revision_intention = intention;
        self.orders[index].latest_revision_ref_url = reference_image_url;
        self.orders[index].status = CommissionOrderStatus::Accepted;
        self.orders[index].delivered_at = 0;
        proof {
            assert(self@.orders =~= old(self)@.orders.update(
                order_id as int,
                old(self)@.orders[order_id as int].revised(wanted, reference),
            ));
        }
        Ok(())
    }

    /// Pays the whole remaining escrow of the order at `index` to `recipient`
    /// and ends the order in `status` at `now`, releasing its seller's
    /// open-order lock.
    fn resolve_order(
        &mut self,
        index: usize,
        recipient: Address,
        status: CommissionOrderStatus,
        now: u64,
    ) -> (resolved: Result<Vec<Effect>, MarketplaceError>)
        requires
            index < old(self).orders.len(),
            old(self).orders.len() <= u64::MAX,
        ensures
            match resolved {
                Ok(effects) => {
                    &&& old(self)@.settlement_error(
                        old(self)@.orders[index as int].escrow_remaining,
                    ) is None
                    &&& effects@ == old(self)@.payout_effects(index as u64, recipient)
                    &&& final(self)@ == old(self)@.with_order_resolved(index as u64, status, now)
                },
                Err(e) => {
                    &&& old(self)@.settlement_error(
                        old(self)@.orders[index as int].escrow_remaining,
                    ) == Some(e)
                    &&& final(self)@ == old(self)@
                },
            },
    {
        let mut effects: Vec<Effect> = Vec::new();
        let seller = self.orders[index].seller;
        let amount: i128 = self.orders[index].escrow_remaining;
        match self.settle_commission_escrow_to(&mut effects, &self.orders[index], recipient, amount) {
            Err(e) => {
                return Err(e);
            },
            Ok(()) => {},
        }
        self.orders[index].escrow_remaining = 0;
        self.orders[index].status = status;
        self.orders[index].resolved_at = now;
        self.clear_seller_open_commission_order(seller);
        proof {
            assert(effects@ =~= old(self)@.payout_effects(index as u64, recipient));
            assert(self@.orders =~= old(self)@.with_order_resolved(index as u64, status, now).orders);
        }
        Ok(effects)
    }

    /// Approves the delivery of the order `order_id`: the remaining escrow is
    /// paid to the seller and the order is completed at `now`.
    ///
    /// Fails if the order is unknown, if the caller is not its buyer, or if it
    /// is not in the delivered stage.
    pub fn approve_commission_delivery(&mut self, buyer: Address, order_id: u64, now: u64) -> (done:
        Result<Vec<Effect>, MarketplaceError>)
        ensures
            match done {
                Ok(effects) => {
                    &&& old(self)@.approve_delivery_error(buyer, order_id) is None
                    &&& effects@ == old(self)@.payout_effects(
                        order_id,
                        old(self)@.orders[order_id as int].seller,
                    )
                    &&& final(self)@ == old(self)@.with_order_resolved(
                        order_id,
                        CommissionOrderStatus::Completed,
                        now,
                    )
                },
                Err(e) => {
                    &&& old(self)@.approve_delivery_error(buyer, order_id) == Some(e)
                    &&& final(self)@ == old(self)@
                },
            },
            old(self)@.wf() ==> final(self)@.wf(),
            old(self)@.steps_to(final(self)@),
    {
        if order_id >= self.orders.len() as u64 {
            return Err(MarketplaceError::OrderNotFound);
        }
        let index: usize = order_id as usize;
        if self.orders[index].buyer != buyer {
            return Err(MarketplaceError::NotOrderBuyerForApproval);
        }
        if self.orders[index].status != CommissionOrderStatus::Delivered {
            return Err(MarketplaceError::OrderNotDelivered);
        }
        let seller = self.orders[index].seller;
        self.resolve_order(index, seller, CommissionOrderStatus::Completed, now)
    }

    /// Claims the escrow of the delivered order `order_id` for the seller once
    /// the buyer has let seven days pass since the delivery: the same outcome
    /// as an approval. Nothing happens by itself when the window ends; the
    /// seller has to make this call.
    ///
    /// Fails if the order is unknown, if the caller is not its seller, if it is
    /// not in the delivered stage, if the time of delivery is zero, or if `now`
    /// is earlier than seven days after the delivery.
    pub fn claim_commission_timeout(&mut self, seller: Address, order_id: u64, now: u64) -> (done:
        Result<Vec<Effect>, MarketplaceError>)
        ensures
            match done {
                Ok(effects) => {
                    &&& old(self)@.claim_timeout_error(seller, order_id, now) is None
                    &&& effects@ == old(self)@.payout_effects(order_id, seller)
                    &&& final(self)@ == old(self)@.with_order_resolved(
                        order_id,
                        CommissionOrderStatus::Completed,
                        now,
                    )
                },
                Err(e) => {
                    &&& old(self)@.claim_timeout_error(seller, order_id, now) == Some(e)
                    &&& final(self)@ == old(self)@
                },
            },
            old(self)@.wf() ==> final(self)@.wf(),
            old(self)@.steps_to(final(self)@),
    {
        if order_id >= self.orders.len() as u64 {
            return Err(MarketplaceError::OrderNotFound);
        }
        let index: usize = order_id as usize;
        if self.orders[index].seller != seller {
            return Err(MarketplaceError::NotOrderSellerForTimeout);
        }
        if self.orders[index].status != CommissionOrderStatus::Delivered {
            return Err(MarketplaceError::OrderNotDelivered);
        }
        let delivered_at: u64 = self.orders[index].delivered_at;
        if delivered_at == 0 {
            return Err(MarketplaceError::DeliveryTimestampMissing);
        }
        if now < delivered_at || now - delivered_at < COMMISSION_AUTO_RELEASE_AFTER_DELIVERY_SECS {
            return Err(MarketplaceError::TimeoutNotReached);
        }
        self.resolve_order(index, seller, CommissionOrderStatus::Completed, now)
    }

    /// Refunds the open order `order_id`: the remaining escrow returns to the
    /// buyer and the order ends as refunded at `now`. The share that the seller
    /// got at purchase stays with the seller.
    ///
    /// Fails if the order is unknown, if the caller is neither its buyer, its
    /// seller nor the admin, or if the order has ended already.
    pub fn refund_commission_order(&mut self, caller: Address, order_id: u64, now: u64) -> (done:
        Result<Vec<Effect>, MarketplaceError>)
        ensures
            match done {
                Ok(effects) => {
                    &&& old(self)@.refund_error(caller, order_id) is None
                    &&& effects@ == old(self)@.payout_effects(
                        order_id,
                        old(self)@.orders[order_id as int].buyer,
                    )
                    &&& final(self)@ == old(self)@.with_order_resolved(
                        order_id,
                        CommissionOrderStatus::Refunded,
                        now,
                    )
                },
                Err(e) => {
                    &&& old(self)@.refund_error(caller, order_id) == Some(e)
                    &&& final(self)@ == old(self)@
                },
            },
            old(self)@.wf() ==> final(self)@.wf(),
            old(self)@.steps_to(final(self)@),
    {
        if order_id >= self.orders.len() as u64 {
            return Err(MarketplaceError::OrderNotFound);
        }
        let index: usize = order_id as usize;
        let config = match self.config {
            Some(config) => config,
            None => {
                return Err(MarketplaceError::NotInitialized);
            },
        };
        let buyer = self.orders[index].buyer;
        if caller != buyer && caller != self.orders[index].seller && caller != config.admin {
            return Err(MarketplaceError::UnauthorizedRefundCaller);
        }
        if !self.orders[index].status.is_open() {
            return Err(MarketplaceError::OrderNotRefundable);
        }
        self.resolve_order(index, buyer, CommissionOrderStatus::Refunded, now)
    }
}

} // verus!
