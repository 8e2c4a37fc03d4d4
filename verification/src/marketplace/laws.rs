//! What follows from the operations' contracts, stated and proved once.

use vstd::prelude::*;
use crate::address::Address;
use crate::currency::{Currency, EscrowProvider};
use crate::marketplace::errors::MarketplaceError;
use crate::marketplace::escrow::{escrow_share, upfront_share};
use crate::marketplace::listing::asset_transfer;
use crate::marketplace::records::{CommissionOrderStatus, MarketConfig};
use crate::marketplace::state::{MarketState, MAX_COMMISSION_REVISION_REQUESTS};
use crate::marketplace::swap::refundable;

verus! {

/// The two shares of a commission payment add up to the payment, and the
/// escrowed share is the upfront share or one unit more.
pub proof fn lemma_split_is_whole(amount_paid: i128)
    requires
        amount_paid > 0,
    ensures
        upfront_share(amount_paid) + escrow_share(amount_paid) == amount_paid,
        upfront_share(amount_paid) <= escrow_share(amount_paid) <= upfront_share(amount_paid) + 1,
        escrow_share(amount_paid) > 0,
{
}

/// The order that a commission purchase creates holds the whole posted price,
/// split without remainder into what the seller got at once and what is in
/// escrow.
pub proof fn lemma_purchase_splits_the_whole_payment(
    state: MarketState,
    buyer: Address,
    listing_id: u64,
    currency: Currency,
    intention: Seq<char>,
    reference_image_url: Seq<char>,
    metadata_uri: Seq<char>,
    now: u64,
)
    requires
        state.buy_commission_error(listing_id, currency, intention, reference_image_url) is None,
    ensures
        ({
            let next = state.buy_commission_next(
                buyer,
                listing_id,
                currency,
                intention,
                reference_image_url,
                metadata_uri,
                now,
            );
            let order = next.orders[state.orders.len() as int];
            &&& next.orders.len() == state.orders.len() + 1
            &&& order.amount_paid == state.listings[listing_id as int].spec_price(currency)
            &&& order.upfront_paid_to_seller + order.escrow_remaining == order.amount_paid
            &&& order.status == CommissionOrderStatus::Accepted
        }),
{
}

/// An order that has ended holds no escrow.
pub proof fn lemma_ended_orders_hold_no_escrow(state: MarketState, order_id: u64)
    requires
        state.wf(),
        order_id < state.orders.len(),
        state.orders[order_id as int].status.is_terminal(),
    ensures
        state.orders[order_id as int].escrow_remaining == 0,
{
}

/// Ending an order, by approval, by the seller's claim or by a refund, leaves
/// it without escrow.
pub proof fn lemma_resolution_empties_escrow(
    state: MarketState,
    order_id: u64,
    status: CommissionOrderStatus,
    now: u64,
)
    requires
        order_id < state.orders.len(),
    ensures
        state.with_order_resolved(order_id, status, now).orders[order_id as int].escrow_remaining
            == 0,
        state.with_order_resolved(order_id, status, now).orders[order_id as int].status == status,
{
}

/// No seller has two active commission listings at once.
pub proof fn lemma_one_active_commission_listing_per_seller(state: MarketState, first: u64, second: u64)
    requires
        state.wf(),
        first < state.listings.len(),
        second < state.listings.len(),
        state.listings[first as int].active && state.listings[first as int].is_commission_egg,
        state.listings[second as int].active && state.listings[second as int].is_commission_egg,
        state.listings[first as int].seller == state.listings[second as int].seller,
    ensures
        first == second,
{
}

/// No seller has two open commission orders at once.
pub proof fn lemma_one_open_order_per_seller(state: MarketState, first: u64, second: u64)
    requires
        state.wf(),
        first < state.orders.len(),
        second < state.orders.len(),
        state.orders[first as int].status.is_open(),
        state.orders[second as int].status.is_open(),
        state.orders[first as int].seller == state.orders[second as int].seller,
    ensures
        first == second,
{
}

/// No seller has an active commission listing and an open commission order at
/// once.
pub proof fn lemma_listing_and_order_exclude_each_other(
    state: MarketState,
    listing_id: u64,
    order_id: u64,
)
    requires
        state.wf(),
        listing_id < state.listings.len(),
        order_id < state.orders.len(),
        state.listings[listing_id as int].active,
        state.listings[listing_id as int].is_commission_egg,
        state.orders[order_id as int].status.is_open(),
    ensures
        state.listings[listing_id as int].seller != state.orders[order_id as int].seller,
{
    let seller = state.listings[listing_id as int].seller;
    assert(state.listing_locks.contains_key(seller));
}

/// While a seller's commission listing is active, every attempt of theirs to
/// post another fails with a conflict, whatever else they offer.
pub proof fn lemma_second_commission_listing_conflicts(
    state: MarketState,
    listing_id: u64,
    price_xlm: i128,
    price_usdc: i128,
    commission_eta_days: u64,
)
    requires
        state.wf(),
        listing_id < state.listings.len(),
        state.listings[listing_id as int].active,
        state.listings[listing_id as int].is_commission_egg,
    ensures
        state.list_commission_egg_error(
            state.listings[listing_id as int].seller,
            price_xlm,
            price_usdc,
            commission_eta_days,
        ) == Some(MarketplaceError::SellerHasActiveCommissionListing),
{
}

/// While a seller's commission order is open, every attempt of theirs to post
/// a commission listing fails with a conflict.
pub proof fn lemma_listing_during_open_order_conflicts(
    state: MarketState,
    order_id: u64,
    price_xlm: i128,
    price_usdc: i128,
    commission_eta_days: u64,
)
    requires
        state.wf(),
        order_id < state.orders.len(),
        state.orders[order_id as int].status.is_open(),
    ensures
        state.list_commission_egg_error(
            state.orders[order_id as int].seller,
            price_xlm,
            price_usdc,
            commission_eta_days,
        ) == Some(MarketplaceError::SellerHasPendingCommissionOrder),
{
    let seller = state.orders[order_id as int].seller;
    assert(state.order_locks.contains_key(seller));
}

/// A seller with neither an active commission listing nor an open commission
/// order meets no conflict.
pub proof fn lemma_free_seller_meets_no_conflict(state: MarketState, seller: Address)
    requires
        state.wf(),
        forall|i: int|
            0 <= i < state.listings.len() && (#[trigger] state.listings[i]).seller == seller ==> !(
            state.listings[i].active && state.listings[i].is_commission_egg),
        forall|i: int|
            0 <= i < state.orders.len() && (#[trigger] state.orders[i]).seller == seller
                ==> state.orders[i].status.is_terminal(),
    ensures
        state.slot_error(seller) is None,
{
    if state.listing_locks.contains_key(seller) {
        let id = state.listing_locks[seller];
        assert(state.listings[id as int].seller == seller);
    }
    if state.order_locks.contains_key(seller) {
        let id = state.order_locks[seller];
        assert(state.orders[id as int].seller == seller);
    }
}

/// Once a seller's order has ended, the seller is free to post a commission
/// listing again.
pub proof fn lemma_resolution_frees_the_seller(
    state: MarketState,
    order_id: u64,
    status: CommissionOrderStatus,
    now: u64,
)
    requires
        state.wf(),
        order_id < state.orders.len(),
        state.orders[order_id as int].status.is_open(),
    ensures
        state.with_order_resolved(order_id, status, now).slot_error(
            state.orders[order_id as int].seller,
        ) is None,
{
    let seller = state.orders[order_id as int].seller;
    assert(state.order_locks.contains_key(seller));
}

/// Once a seller's commission listing is cancelled, the seller is free to
/// post another.
pub proof fn lemma_cancellation_frees_the_seller(state: MarketState, listing_id: u64)
    requires
        state.wf(),
        listing_id < state.listings.len(),
        state.listings[listing_id as int].active,
        state.listings[listing_id as int].is_commission_egg,
    ensures
        state.cancel_listing_next(listing_id).slot_error(state.listings[listing_id as int].seller)
            is None,
{
    let seller = state.listings[listing_id as int].seller;
    assert(state.listing_locks.contains_key(seller));
}

/// A delivery succeeds exactly for the seller of an accepted order whose
/// asset's metadata reference differs from the baseline: from the reference of
/// the last delivery once one is on record, from the one kept at purchase until
/// then. Where only the reference stands against the delivery, that is the
/// reason given.
pub proof fn lemma_delivery_needs_new_metadata(
    state: MarketState,
    seller: Address,
    order_id: u64,
    current_uri: Seq<char>,
)
    requires
        order_id < state.orders.len(),
    ensures
        state.mark_delivered_error(seller, order_id, current_uri) is None <==> {
            &&& state.orders[order_id as int].seller == seller
            &&& state.orders[order_id as int].status == CommissionOrderStatus::Accepted
            &&& state.config is Some
            &&& current_uri != state.orders[order_id as int].delivery_baseline()
        },
        state.orders[order_id as int].seller == seller && state.orders[order_id as int].status
            == CommissionOrderStatus::Accepted && state.config is Some && current_uri
            == state.orders[order_id as int].delivery_baseline()
            ==> state.mark_delivered_error(seller, order_id, current_uri) == Some(
            MarketplaceError::MetadataNotUpdated,
        ),
{
}

/// Until the first delivery the baseline is the reference kept at purchase;
/// no order that the operations lead to holds a delivered reference before.
pub proof fn lemma_first_delivery_is_held_against_the_purchase(state: MarketState, order_id: u64)
    requires
        state.wf(),
        order_id < state.orders.len(),
        state.orders[order_id as int].status == CommissionOrderStatus::Accepted,
        state.orders[order_id as int].revision_request_count == 0,
    ensures
        state.orders[order_id as int].delivery_baseline()
            == state.orders[order_id as int].metadata_uri_at_purchase,
        state.orders[order_id as int].last_delivered_metadata_uri.len() == 0,
{
}

/// After a delivery and a request for revision, a second delivery with the
/// reference that was delivered is refused, whatever that reference holds; an
/// empty one is no exception.
pub proof fn lemma_same_reference_is_not_delivered_twice(
    state: MarketState,
    seller: Address,
    buyer: Address,
    order_id: u64,
    current_uri: Seq<char>,
    delivered_at: u64,
    intention: Seq<char>,
    reference_image_url: Seq<char>,
)
    requires
        state.mark_delivered_error(seller, order_id, current_uri) is None,
        state.with_order_set(
            order_id,
            state.orders[order_id as int].delivered(current_uri, delivered_at),
        ).request_revision_error(buyer, order_id, intention, reference_image_url) is None,
    ensures
        ({
            let delivered = state.with_order_set(
                order_id,
                state.orders[order_id as int].delivered(current_uri, delivered_at),
            );
            let revised = delivered.with_order_set(
                order_id,
                delivered.orders[order_id as int].revised(intention, reference_image_url),
            );
            &&& revised.orders[order_id as int].has_delivery_on_record()
            &&& revised.orders[order_id as int].delivery_baseline() == current_uri
            &&& revised.mark_delivered_error(seller, order_id, current_uri) == Some(
                MarketplaceError::MetadataNotUpdated,
            )
        }),
{
}

/// No order has had more than three revisions asked for, and on an order that
/// has had three, a further request is refused.
pub proof fn lemma_revisions_are_bounded(
    state: MarketState,
    buyer: Address,
    order_id: u64,
    intention: Seq<char>,
    reference_image_url: Seq<char>,
)
    requires
        state.wf(),
        order_id < state.orders.len(),
    ensures
        state.orders[order_id as int].revision_request_count <= MAX_COMMISSION_REVISION_REQUESTS,
        state.orders[order_id as int].revision_request_count == MAX_COMMISSION_REVISION_REQUESTS
            ==> state.request_revision_error(buyer, order_id, intention, reference_image_url)
            is Some,
{
}

/// Changing the escrow configuration changes no order, and neither whether an
/// order can be settled nor by which calls: an order settles by the backend and
/// from the holder that it recorded when it was created.
pub proof fn lemma_escrow_configuration_spares_orders(
    state: MarketState,
    provider: EscrowProvider,
    xlm_destination: Address,
    usdc_destination: Address,
    order_id: u64,
    caller: Address,
    recipient: Address,
    now: u64,
)
    requires
        state.config is Some,
        order_id < state.orders.len(),
    ensures
        ({
            let changed = state.with_escrow(provider, xlm_destination, usdc_destination);
            &&& changed.orders == state.orders
            &&& changed.payout_effects(order_id, recipient) == state.payout_effects(
                order_id,
                recipient,
            )
            &&& changed.approve_delivery_error(caller, order_id) == state.approve_delivery_error(
                caller,
                order_id,
            )
            &&& changed.claim_timeout_error(caller, order_id, now) == state.claim_timeout_error(
                caller,
                order_id,
                now,
            )
            &&& changed.refund_error(caller, order_id) == state.refund_error(caller, order_id)
        }),
{
}

/// Every active bid stands against an active swap listing.
pub proof fn lemma_active_bids_stand_on_active_listings(state: MarketState, bid_id: u64)
    requires
        state.wf(),
        bid_id < state.swap_bids.len(),
        state.swap_bids[bid_id as int].active,
    ensures
        state.swap_bids[bid_id as int].listing_id < state.swap_listings.len(),
        state.swap_listings[state.swap_bids[bid_id as int].listing_id as int].active,
{
}

/// Closing a swap listing, by acceptance or by cancellation, leaves the
/// listing closed, no bid on it active, and every other bid as it was.
pub proof fn lemma_closing_withdraws_every_bid(state: MarketState, listing_id: u64, bid_id: u64)
    requires
        listing_id < state.swap_listings.len(),
        bid_id < state.swap_bids.len(),
    ensures
        ({
            let closed = state.with_swap_listing_closed(listing_id);
            &&& !closed.swap_listings[listing_id as int].active
            &&& closed.swap_bids.len() == state.swap_bids.len()
            &&& state.swap_bids[bid_id as int].listing_id == listing_id
                ==> !closed.swap_bids[bid_id as int].active
            &&& state.swap_bids[bid_id as int].listing_id != listing_id
                ==> closed.swap_bids[bid_id as int] == state.swap_bids[bid_id as int]
        }),
{
}

/// A closed swap listing takes no bid and no bid on it can be accepted, so at
/// most one bid on a listing is ever accepted.
pub proof fn lemma_closed_swap_listing_is_final(
    state: MarketState,
    caller: Address,
    listing_id: u64,
    bid_id: u64,
    token_id: u64,
)
    requires
        listing_id < state.swap_listings.len(),
        !state.swap_listings[listing_id as int].active,
    ensures
        state.accept_swap_bid_error(caller, listing_id, bid_id) == Some(
            MarketplaceError::SwapListingNotActive,
        ),
        state.place_swap_bid_error(caller, listing_id, token_id) == Some(
            MarketplaceError::SwapListingNotActive,
        ),
        state.cancel_swap_listing_error(caller, listing_id) is Some,
{
}

/// Among the first `n` bids, every refundable one has its asset returned.
pub proof fn lemma_refunds_reach_every_bidder(
    state: MarketState,
    config: MarketConfig,
    listing_id: u64,
    except: Option<u64>,
    n: int,
    bid_id: int,
)
    requires
        0 <= bid_id < n <= state.swap_bids.len(),
        refundable(state.swap_bids[bid_id], bid_id, listing_id, except),
    ensures
        state.refund_effects_upto(config, listing_id, except, n).contains(
            asset_transfer(
                config,
                state.contract,
                state.swap_bids[bid_id].bidder,
                state.swap_bids[bid_id].bidder_token_id,
            ),
        ),
    decreases n,
{
    let effects = state.refund_effects_upto(config, listing_id, except, n);
    let earlier = state.refund_effects_upto(config, listing_id, except, n - 1);
    if bid_id == n - 1 {
        assert(effects == earlier.push(effects.last()));
        assert(effects[effects.len() - 1] == effects.last());
    } else {
        lemma_refunds_reach_every_bidder(state, config, listing_id, except, n - 1, bid_id);
        let wanted = asset_transfer(
            config,
            state.contract,
            state.swap_bids[bid_id].bidder,
            state.swap_bids[bid_id].bidder_token_id,
        );
        let at = choose|k: int| 0 <= k < earlier.len() && earlier[k] == wanted;
        assert(effects[at] == wanted);
    }
}

/// Among the first `n` bids, nothing is returned but the assets of refundable
/// bids: each call returns the asset of one of them to its bidder.
pub proof fn lemma_refunds_reach_only_bidders(
    state: MarketState,
    config: MarketConfig,
    listing_id: u64,
    except: Option<u64>,
    n: int,
    k: int,
)
    requires
        0 <= n <= state.swap_bids.len(),
        0 <= k < state.refund_effects_upto(config, listing_id, except, n).len(),
    ensures
        exists|bid_id: int|
            0 <= bid_id < n && refundable(
                #[trigger] state.swap_bids[bid_id],
                bid_id,
                listing_id,
                except,
            ) && state.refund_effects_upto(config, listing_id, except, n)[k] == asset_transfer(
                config,
                state.contract,
                state.swap_bids[bid_id].bidder,
                state.swap_bids[bid_id].bidder_token_id,
            ),
    decreases n,
{
    let effects = state.refund_effects_upto(config, listing_id, except, n);
    let earlier = state.refund_effects_upto(config, listing_id, except, n - 1);
    if k < earlier.len() {
        lemma_refunds_reach_only_bidders(state, config, listing_id, except, n - 1, k);
        let bid_id = choose|bid_id: int|
            0 <= bid_id < n - 1 && refundable(
                #[trigger] state.swap_bids[bid_id],
                bid_id,
                listing_id,
                except,
            ) && earlier[k] == asset_transfer(
                config,
                state.contract,
                state.swap_bids[bid_id].bidder,
                state.swap_bids[bid_id].bidder_token_id,
            );
        assert(refundable(state.swap_bids[bid_id], bid_id, listing_id, except));
    } else {
        assert(refundable(state.swap_bids[n - 1], n - 1, listing_id, except));
    }
}

/// An acceptance exchanges the two assets first, and returns the asset of
/// every other active bid on the listing to its bidder.
pub proof fn lemma_acceptance_exchanges_and_refunds(
    state: MarketState,
    creator: Address,
    listing_id: u64,
    bid_id: u64,
    other: u64,
)
    requires
        state.accept_swap_bid_error(creator, listing_id, bid_id) is None,
        other < state.swap_bids.len(),
        other != bid_id,
        state.swap_bids[other as int].active,
        state.swap_bids[other as int].listing_id == listing_id,
    ensures
        ({
            let effects = state.accept_swap_bid_effects(listing_id, bid_id);
            let listing = state.swap_listings[listing_id as int];
            let bid = state.swap_bids[bid_id as int];
            let loser = state.swap_bids[other as int];
            &&& effects[0] == state.custody_out(bid.bidder, listing.offered_token_id)
            &&& effects[1] == state.custody_out(creator, bid.bidder_token_id)
            &&& effects.contains(state.custody_out(loser.bidder, loser.bidder_token_id))
        }),
{
    let config = state.config->0;
    let refunds = state.refund_effects(config, listing_id, Some(bid_id));
    let loser = state.swap_bids[other as int];
    lemma_refunds_reach_every_bidder(
        state,
        config,
        listing_id,
        Some(bid_id),
        state.swap_bids.len() as int,
        other as int,
    );
    let wanted = state.custody_out(loser.bidder, loser.bidder_token_id);
    let at = choose|k: int| 0 <= k < refunds.len() && refunds[k] == wanted;
    let effects = state.accept_swap_bid_effects(listing_id, bid_id);
    assert(effects[at + 2] == wanted);
}

} // verus!
