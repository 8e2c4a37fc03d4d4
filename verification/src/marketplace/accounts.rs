//! Accounting: what the marketplace's calls add to and take from its own
//! funds, and why that is always the change of the escrow it holds itself.

use vstd::prelude::*;
use crate::address::Address;
use crate::currency::{Currency, EscrowProvider};
use crate::effect::Effect;
use crate::marketplace::escrow::{currency_transfer, escrow_share, upfront_share};
use crate::marketplace::records::{CommissionOrderStatus, CommissionOrderView, MarketConfig};
use crate::marketplace::state::MarketState;

verus! {

/// What the call `effect` adds to the funds that `holder` has in the payment
/// token `token`: the amount for a transfer to the holder, its negative for a
/// transfer from the holder, nothing for any other call.
pub open spec fn flow(effect: Effect, token: Address, holder: Address) -> int {
    match effect {
        Effect::TokenTransfer { token: moved, from, to, amount } => if moved != token {
            0
        } else {
            (if to == holder {
                amount as int
            } else {
                0
            }) - (if from == holder {
                amount as int
            } else {
                0
            })
        },
        _ => 0,
    }
}

/// What the calls `effects` together add to the funds that `holder` has in the
/// payment token `token`.
pub open spec fn net_flow(effects: Seq<Effect>, token: Address, holder: Address) -> int
    decreases effects.len(),
{
    if effects.len() == 0 {
        0
    } else {
        net_flow(effects.drop_last(), token, holder) + flow(effects.last(), token, holder)
    }
}

/// The escrow in `currency` that the marketplace itself holds for `order`:
/// what remains of it where the order's escrow is internal, nothing where a
/// vault holds it.
pub open spec fn held_for(order: CommissionOrderView, currency: Currency) -> int {
    if order.escrow_provider == EscrowProvider::Internal && order.currency == currency {
        order.escrow_remaining as int
    } else {
        0
    }
}

/// The escrow in `currency` that the marketplace itself holds for the first
/// `n` of `orders`.
pub open spec fn held_upto(orders: Seq<CommissionOrderView>, currency: Currency, n: int) -> int
    decreases n,
{
    if n <= 0 {
        0
    } else {
        held_upto(orders, currency, n - 1) + held_for(orders[n - 1], currency)
    }
}

impl MarketState {
    /// The escrow in `currency` that the marketplace itself holds for all its
    /// orders.
    pub open spec fn escrow_held(self, currency: Currency) -> int {
        held_upto(self.orders, currency, self.orders.len() as int)
    }
}

/// Whether the two currencies have two payment tokens.
pub open spec fn tokens_differ(config: MarketConfig) -> bool {
    config.xlm_token != config.usdc_token
}

/// The flow of one call alone.
pub proof fn lemma_net_flow_one(effect: Effect, token: Address, holder: Address)
    ensures
        net_flow(seq![effect], token, holder) == flow(effect, token, holder),
{
    let one = seq![effect];
    assert(one.drop_last() =~= Seq::<Effect>::empty());
    assert(one.last() == effect);
    assert(net_flow(one.drop_last(), token, holder) == 0);
}

/// The flow of one run of calls after another is the sum of their flows.
pub proof fn lemma_net_flow_both(
    first: Seq<Effect>,
    second: Seq<Effect>,
    token: Address,
    holder: Address,
)
    ensures
        net_flow(first + second, token, holder) == net_flow(first, token, holder) + net_flow(
            second,
            token,
            holder,
        ),
    decreases second.len(),
{
    if second.len() == 0 {
        assert(first + second =~= first);
    } else {
        assert((first + second).drop_last() =~= first + second.drop_last());
        assert((first + second).last() == second.last());
        lemma_net_flow_both(first, second.drop_last(), token, holder);
    }
}

/// Calls that move assets only add nothing to anybody's funds.
pub proof fn lemma_asset_transfers_move_no_funds(
    effects: Seq<Effect>,
    token: Address,
    holder: Address,
)
    requires
        forall|k: int| 0 <= k < effects.len() ==> (#[trigger] effects[k]) is AssetTransfer,
    ensures
        net_flow(effects, token, holder) == 0,
    decreases effects.len(),
{
    if effects.len() > 0 {
        assert forall|k: int| 0 <= k < effects.drop_last().len() implies (
        #[trigger] effects.drop_last()[k]) is AssetTransfer by {
            assert(effects.drop_last()[k] == effects[k]);
        }
        lemma_asset_transfers_move_no_funds(effects.drop_last(), token, holder);
        assert(effects.last() == effects[effects.len() - 1]);
    }
}

/// The flow of a payment that is made only where there is something to pay.
pub proof fn lemma_currency_transfer_flow(
    config: MarketConfig,
    currency: Currency,
    from: Address,
    to: Address,
    amount: i128,
    token: Address,
    holder: Address,
)
    ensures
        net_flow(currency_transfer(config, currency, from, to, amount), token, holder) == if amount
            <= 0 {
            0
        } else {
            flow(
                Effect::TokenTransfer { token: config.spec_token(currency), from, to, amount },
                token,
                holder,
            )
        },
{
    if amount > 0 {
        lemma_net_flow_one(
            Effect::TokenTransfer { token: config.spec_token(currency), from, to, amount },
            token,
            holder,
        );
    }
}

/// What is held for the first `n` orders does not depend on the orders that
/// follow them.
pub proof fn lemma_held_upto_looks_at_its_orders_only(
    orders: Seq<CommissionOrderView>,
    others: Seq<CommissionOrderView>,
    currency: Currency,
    n: int,
)
    requires
        0 <= n <= orders.len(),
        n <= others.len(),
        forall|i: int| 0 <= i < n ==> held_for(#[trigger] orders[i], currency) == held_for(
            others[i],
            currency,
        ),
    ensures
        held_upto(orders, currency, n) == held_upto(others, currency, n),
    decreases n,
{
    if n > 0 {
        lemma_held_upto_looks_at_its_orders_only(orders, others, currency, n - 1);
    }
}

/// Replacing one order changes what is held by the difference between the new
/// order and the old.
pub proof fn lemma_held_after_update(
    orders: Seq<CommissionOrderView>,
    currency: Currency,
    index: int,
    order: CommissionOrderView,
    n: int,
)
    requires
        0 <= index < orders.len(),
        0 <= n <= orders.len(),
    ensures
        held_upto(orders.update(index, order), currency, n) == held_upto(orders, currency, n) + if index
            < n {
            held_for(order, currency) - held_for(orders[index], currency)
        } else {
            0
        },
    decreases n,
{
    if n > 0 {
        lemma_held_after_update(orders, currency, index, order, n - 1);
    }
}

/// A commission purchase adds to the marketplace's funds exactly the escrow
/// that it now holds itself: the whole escrowed share under the internal
/// backend, nothing under the external one. This holds in each currency, as
/// long as the marketplace itself is neither the buyer, the seller nor the
/// vault.
pub proof fn lemma_purchase_takes_in_the_escrow(
    market: MarketState,
    buyer: Address,
    listing_id: u64,
    currency: Currency,
    intention: Seq<char>,
    reference_image_url: Seq<char>,
    metadata_uri: Seq<char>,
    now: u64,
    counted: Currency,
)
    requires
        market.buy_commission_error(listing_id, currency, intention, reference_image_url)
            is None,
        tokens_differ(market.config->0),
        buyer != market.contract,
        market.listings[listing_id as int].seller != market.contract,
        market.config->0.spec_trustless_destination(currency) != market.contract,
    ensures
        net_flow(
            market.buy_commission_effects(buyer, listing_id, currency),
            market.config->0.spec_token(counted),
            market.contract,
        ) == market.buy_commission_next(
            buyer,
            listing_id,
            currency,
            intention,
            reference_image_url,
            metadata_uri,
            now,
        ).escrow_held(counted) - market.escrow_held(counted),
{
    let config = market.config->0;
    let token = config.spec_token(counted);
    let me = market.contract;
    let listing = market.listings[listing_id as int];
    let amount = listing.spec_price(currency);
    let pay_in = Effect::TokenTransfer {
        token: config.spec_token(currency),
        from: buyer,
        to: me,
        amount,
    };
    let upfront = currency_transfer(config, currency, me, listing.seller, upfront_share(amount));
    let routing = market.routing_effects(currency, escrow_share(amount));
    let hand_over = market.custody_out(buyer, listing.token_id);
    let effects = market.buy_commission_effects(buyer, listing_id, currency);
    assert(effects == seq![pay_in] + upfront + routing + seq![hand_over]);
    lemma_net_flow_both(seq![pay_in] + upfront + routing, seq![hand_over], token, me);
    lemma_net_flow_both(seq![pay_in] + upfront, routing, token, me);
    lemma_net_flow_both(seq![pay_in], upfront, token, me);
    lemma_net_flow_one(pay_in, token, me);
    lemma_net_flow_one(hand_over, token, me);
    lemma_currency_transfer_flow(
        config,
        currency,
        me,
        listing.seller,
        upfront_share(amount),
        token,
        me,
    );
    lemma_currency_transfer_flow(
        config,
        currency,
        me,
        config.spec_trustless_destination(currency),
        escrow_share(amount),
        token,
        me,
    );
    let next = market.buy_commission_next(
        buyer,
        listing_id,
        currency,
        intention,
        reference_image_url,
        metadata_uri,
        now,
    );
    let order = market.purchased_order(
        buyer,
        listing_id,
        currency,
        intention,
        reference_image_url,
        metadata_uri,
        now,
    );
    let n = market.orders.len() as int;
    assert(next.orders =~= market.orders.push(order));
    assert(next.orders[n] == order);
    lemma_held_upto_looks_at_its_orders_only(next.orders, market.orders, counted, n);
}

/// Ending an open order, by approval, by the seller's claim or by a refund,
/// takes from the marketplace's funds exactly the escrow that it held for the
/// order itself: all of it where the order's escrow is internal, nothing where
/// a vault holds it. This holds in each currency, as long as the recipient is
/// not the marketplace itself.
pub proof fn lemma_settlement_pays_out_the_escrow(
    market: MarketState,
    order_id: u64,
    recipient: Address,
    status: CommissionOrderStatus,
    now: u64,
    counted: Currency,
)
    requires
        market.wf(),
        order_id < market.orders.len(),
        market.orders[order_id as int].status.is_open(),
        tokens_differ(market.config->0),
        recipient != market.contract,
    ensures
        market.orders[order_id as int].escrow_remaining > 0,
        net_flow(
            market.payout_effects(order_id, recipient),
            market.config->0.spec_token(counted),
            market.contract,
        ) == market.with_order_resolved(order_id, status, now).escrow_held(counted)
            - market.escrow_held(counted),
{
    let config = market.config->0;
    let token = config.spec_token(counted);
    let me = market.contract;
    let order = market.orders[order_id as int];
    let effects = market.payout_effects(order_id, recipient);
    lemma_currency_transfer_flow(
        config,
        order.currency,
        me,
        recipient,
        order.escrow_remaining,
        token,
        me,
    );
    if order.escrow_provider == EscrowProvider::TrustlessWork {
        lemma_net_flow_one(effects[0], token, me);
        assert(effects =~= seq![effects[0]]);
    }
    lemma_held_after_update(
        market.orders,
        counted,
        order_id as int,
        order.resolved(status, now),
        market.orders.len() as int,
    );
}

/// An operation that makes no payment and leaves the escrow of every order as
/// it is leaves the marketplace's funds and the escrow it holds as they are.
/// That is so for listings, cancellations, deliveries, revision requests, all
/// swap operations and the configuration of escrow.
pub proof fn lemma_escrow_held_follows_the_orders(
    market: MarketState,
    next: MarketState,
    counted: Currency,
)
    requires
        next.orders.len() == market.orders.len(),
        forall|i: int|
            0 <= i < market.orders.len() ==> held_for(#[trigger] next.orders[i], counted)
                == held_for(market.orders[i], counted),
    ensures
        next.escrow_held(counted) == market.escrow_held(counted),
{
    lemma_held_upto_looks_at_its_orders_only(
        next.orders,
        market.orders,
        counted,
        market.orders.len() as int,
    );
}

/// A plain purchase pays the seller the posted price directly: nothing passes
/// through the marketplace's funds, as long as the marketplace itself is
/// neither the buyer nor the seller.
pub proof fn lemma_plain_purchase_bypasses_the_marketplace(
    market: MarketState,
    buyer: Address,
    listing_id: u64,
    currency: Currency,
    token: Address,
)
    requires
        market.buy_error(listing_id, currency) is None,
        buyer != market.contract,
        market.listings[listing_id as int].seller != market.contract,
        buyer != market.listings[listing_id as int].seller,
    ensures
        net_flow(market.buy_effects(buyer, listing_id, currency), token, market.contract) == 0,
        net_flow(
            market.buy_effects(buyer, listing_id, currency),
            market.config->0.spec_token(currency),
            market.listings[listing_id as int].seller,
        ) == market.listings[listing_id as int].spec_price(currency),
        net_flow(
            market.buy_effects(buyer, listing_id, currency),
            market.config->0.spec_token(currency),
            buyer,
        ) == -market.listings[listing_id as int].spec_price(currency),
{
    let effects = market.buy_effects(buyer, listing_id, currency);
    let seller = market.listings[listing_id as int].seller;
    assert(effects =~= seq![effects[0]] + seq![effects[1]]);
    lemma_net_flow_both(seq![effects[0]], seq![effects[1]], token, market.contract);
    lemma_net_flow_one(effects[0], token, market.contract);
    lemma_net_flow_one(effects[1], token, market.contract);
    let paid = market.config->0.spec_token(currency);
    lemma_net_flow_both(seq![effects[0]], seq![effects[1]], paid, seller);
    lemma_net_flow_one(effects[0], paid, seller);
    lemma_net_flow_one(effects[1], paid, seller);
    lemma_net_flow_both(seq![effects[0]], seq![effects[1]], paid, buyer);
    lemma_net_flow_one(effects[0], paid, buyer);
    lemma_net_flow_one(effects[1], paid, buyer);
}

} // verus!
