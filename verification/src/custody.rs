//! Custody: what the marketplace's calls do to the asset registry, and why the
//! asset of every active listing, swap listing and bid is held by the
//! marketplace and by nothing else.

use vstd::prelude::*;
use crate::address::Address;
use crate::effect::Effect;
use crate::currency::Currency;
use crate::marketplace::records::{ListingInfo, SwapBid, SwapListingView};
use crate::marketplace::state::MarketState;
use crate::marketplace::swap::{refundable, withdrawn};
use crate::nft::{NftState, TokenView};

verus! {

/// Whether `holder` owns the token `token_id` in `registry`.
pub open spec fn holds(registry: NftState, holder: Address, token_id: u64) -> bool {
    token_id < registry.tokens.len() && registry.tokens[token_id as int].owner == holder
}

/// The registry deployed at `at` after the host made the call `effect` on
/// behalf of the marketplace: a transfer on this registry moves the token if
/// the sender owns it and fails otherwise; no other call touches the registry.
pub open spec fn registry_step(registry: NftState, at: Address, effect: Effect) -> Option<NftState> {
    match effect {
        Effect::AssetTransfer { registry: called, from, to, token_id } => if called != at {
            Some(registry)
        } else if registry.transfer_error(from, token_id) is None {
            Some(
                registry.with_token_set(
                    token_id,
                    TokenView { owner: to, ..registry.tokens[token_id as int] },
                ),
            )
        } else {
            None
        },
        _ => Some(registry),
    }
}

/// The registry deployed at `at` after the host made the calls `effects` in
/// order, or `None` if one of them failed.
pub open spec fn registry_after(registry: NftState, at: Address, effects: Seq<Effect>) -> Option<
    NftState,
>
    decreases effects.len(),
{
    if effects.len() == 0 {
        Some(registry)
    } else {
        match registry_after(registry, at, effects.drop_last()) {
            Some(earlier) => registry_step(earlier, at, effects.last()),
            None => None,
        }
    }
}

/// Whether `next` differs from `registry` at most in who owns which token.
pub open spec fn same_but_owners(registry: NftState, next: NftState) -> bool {
    &&& next.admin == registry.admin
    &&& next.minter == registry.minter
    &&& next.metadata_updater == registry.metadata_updater
    &&& next.tokens.len() == registry.tokens.len()
    &&& forall|t: int|
        0 <= t < registry.tokens.len() ==> (#[trigger] next.tokens[t]) == (TokenView {
            owner: next.tokens[t].owner,
            ..registry.tokens[t]
        })
}

impl MarketState {
    /// The marketplace holds the asset of every active listing, swap listing
    /// and bid.
    pub open spec fn holds_what_it_lists(self, registry: NftState) -> bool {
        &&& forall|i: int|
            0 <= i < self.listings.len() && (#[trigger] self.listings[i]).active ==> holds(
                registry,
                self.contract,
                self.listings[i].token_id,
            )
        &&& forall|i: int|
            0 <= i < self.swap_listings.len() && (#[trigger] self.swap_listings[i]).active
                ==> holds(registry, self.contract, self.swap_listings[i].offered_token_id)
        &&& forall|i: int|
            0 <= i < self.swap_bids.len() && (#[trigger] self.swap_bids[i]).active ==> holds(
                registry,
                self.contract,
                self.swap_bids[i].bidder_token_id,
            )
    }

    /// No asset stands in two active records at once.
    pub open spec fn lists_nothing_twice(self) -> bool {
        &&& forall|i: int, j: int|
            0 <= i < j < self.listings.len() && (#[trigger] self.listings[i]).active && (
            #[trigger] self.listings[j]).active ==> self.listings[i].token_id
                != self.listings[j].token_id
        &&& forall|i: int, j: int|
            0 <= i < j < self.swap_listings.len() && (#[trigger] self.swap_listings[i]).active && (
            #[trigger] self.swap_listings[j]).active ==> self.swap_listings[i].offered_token_id
                != self.swap_listings[j].offered_token_id
        &&& forall|i: int, j: int|
            0 <= i < j < self.swap_bids.len() && (#[trigger] self.swap_bids[i]).active && (
            #[trigger] self.swap_bids[j]).active ==> self.swap_bids[i].bidder_token_id
                != self.swap_bids[j].bidder_token_id
        &&& forall|i: int, j: int|
            0 <= i < self.listings.len() && 0 <= j < self.swap_listings.len() && (
            #[trigger] self.listings[i]).active && (#[trigger] self.swap_listings[j]).active
                ==> self.listings[i].token_id != self.swap_listings[j].offered_token_id
        &&& forall|i: int, j: int|
            0 <= i < self.listings.len() && 0 <= j < self.swap_bids.len() && (
            #[trigger] self.listings[i]).active && (#[trigger] self.swap_bids[j]).active
                ==> self.listings[i].token_id != self.swap_bids[j].bidder_token_id
        &&& forall|i: int, j: int|
            0 <= i < self.swap_listings.len() && 0 <= j < self.swap_bids.len() && (
            #[trigger] self.swap_listings[i]).active && (#[trigger] self.swap_bids[j]).active
                ==> self.swap_listings[i].offered_token_id != self.swap_bids[j].bidder_token_id
    }

    /// The marketplace has exclusive custody: it holds the asset of every
    /// active record in the registry `registry`, deployed where the
    /// marketplace expects its registry, and no asset stands in two of them.
    pub open spec fn has_custody(self, registry: NftState) -> bool {
        &&& self.holds_what_it_lists(registry)
        &&& self.lists_nothing_twice()
    }
}

/// Making one run of calls after another is making them all in order.
pub proof fn lemma_registry_after_both(
    registry: NftState,
    at: Address,
    first: Seq<Effect>,
    second: Seq<Effect>,
)
    ensures
        registry_after(registry, at, first + second) == match registry_after(registry, at, first) {
            Some(between) => registry_after(between, at, second),
            None => None,
        },
    decreases second.len(),
{
    if second.len() == 0 {
        assert(first + second =~= first);
    } else {
        assert((first + second).drop_last() =~= first + second.drop_last());
        assert((first + second).last() == second.last());
        lemma_registry_after_both(registry, at, first, second.drop_last());
    }
}

/// One call alone.
pub proof fn lemma_registry_after_one(registry: NftState, at: Address, effect: Effect)
    ensures
        registry_after(registry, at, seq![effect]) == registry_step(registry, at, effect),
{
    let one = seq![effect];
    assert(one.drop_last() =~= Seq::<Effect>::empty());
    assert(one.last() == effect);
    assert(registry_after(registry, at, one.drop_last()) == Some(registry));
}

/// One more call at the end.
pub proof fn lemma_registry_after_push(
    registry: NftState,
    at: Address,
    effects: Seq<Effect>,
    effect: Effect,
)
    ensures
        registry_after(registry, at, effects.push(effect)) == match registry_after(
            registry,
            at,
            effects,
        ) {
            Some(earlier) => registry_step(earlier, at, effect),
            None => None,
        },
{
    assert(effects.push(effect).drop_last() =~= effects);
    assert(effects.push(effect).last() == effect);
}

/// Two calls in a row.
pub proof fn lemma_registry_after_two(registry: NftState, at: Address, first: Effect, second: Effect)
    ensures
        registry_after(registry, at, seq![first, second]) == match registry_step(
            registry,
            at,
            first,
        ) {
            Some(between) => registry_step(between, at, second),
            None => None,
        },
{
    lemma_registry_after_one(registry, at, first);
    assert(seq![first, second] =~= seq![first].push(second));
    lemma_registry_after_push(registry, at, seq![first], second);
}

/// Whether none of `effects` is a transfer of an asset.
pub open spec fn moves_no_asset(effects: Seq<Effect>) -> bool {
    forall|k: int| 0 <= k < effects.len() ==> !((#[trigger] effects[k]) is AssetTransfer)
}

/// Calls that move no asset leave the registry as it is.
pub proof fn lemma_registry_ignores_payments(registry: NftState, at: Address, effects: Seq<Effect>)
    requires
        moves_no_asset(effects),
    ensures
        registry_after(registry, at, effects) == Some(registry),
    decreases effects.len(),
{
    if effects.len() > 0 {
        assert forall|k: int| 0 <= k < effects.drop_last().len() implies !((
        #[trigger] effects.drop_last()[k]) is AssetTransfer) by {
            assert(effects.drop_last()[k] == effects[k]);
        }
        lemma_registry_ignores_payments(registry, at, effects.drop_last());
        assert(effects.last() == effects[effects.len() - 1]);
    }
}

/// Custody is a matter of the listings, the swap listings and the bids alone:
/// what changes the orders, the locks or the configuration does not touch it.
pub proof fn lemma_custody_looks_at_assets_only(
    market: MarketState,
    next: MarketState,
    registry: NftState,
)
    requires
        market.has_custody(registry),
        next.contract == market.contract,
        next.listings == market.listings,
        next.swap_listings == market.swap_listings,
        next.swap_bids == market.swap_bids,
    ensures
        next.has_custody(registry),
{
}

/// Whatever others do with their own tokens on the registry leaves the
/// marketplace's custody intact: nobody but the owner hands a token over.
pub proof fn lemma_foreign_transfers_keep_custody(
    market: MarketState,
    registry: NftState,
    from: Address,
    to: Address,
    token_id: u64,
)
    requires
        market.has_custody(registry),
        from != market.contract,
        registry.transfer_error(from, token_id) is None,
    ensures
        market.has_custody(
            registry.with_token_set(
                token_id,
                TokenView { owner: to, ..registry.tokens[token_id as int] },
            ),
        ),
{
}

/// A new listing of any seller but the marketplace itself takes its asset
/// into custody. The transfer from the seller succeeds only if the seller owns
/// the asset, so the asset stands in no other active record.
pub proof fn lemma_listing_takes_custody(
    market: MarketState,
    registry: NftState,
    listing: ListingInfo,
)
    requires
        market.has_custody(registry),
        market.config is Some,
        listing.active,
        listing.seller != market.contract,
        registry_step(
            registry,
            market.config->0.nft_contract,
            market.custody_in(listing.seller, listing.token_id),
        ) is Some,
    ensures
        registry_after(
            registry,
            market.config->0.nft_contract,
            seq![market.custody_in(listing.seller, listing.token_id)],
        ) == registry_step(
            registry,
            market.config->0.nft_contract,
            market.custody_in(listing.seller, listing.token_id),
        ),
        market.with_listing(listing).has_custody(
            registry_step(
                registry,
                market.config->0.nft_contract,
                market.custody_in(listing.seller, listing.token_id),
            )->0,
        ),
{
    let at = market.config->0.nft_contract;
    let effect = market.custody_in(listing.seller, listing.token_id);
    lemma_registry_after_one(registry, at, effect);
    let next = market.with_listing(listing);
    let after = registry_step(registry, at, effect)->0;
    assert(registry.tokens[listing.token_id as int].owner == listing.seller);
    let n = market.listings.len() as int;
    assert forall|i: int| 0 <= i < next.listings.len() && (#[trigger] next.listings[i]).active
        implies holds(after, next.contract, next.listings[i].token_id) by {
        if i < n {
            assert(market.listings[i].active);
        }
    }
    assert forall|i: int, j: int|
        0 <= i < j < next.listings.len() && (#[trigger] next.listings[i]).active && (
        #[trigger] next.listings[j]).active implies next.listings[i].token_id
        != next.listings[j].token_id by {
        assert(market.listings[i].active);
        if j < n {
            assert(market.listings[j].active);
        }
    }
    assert forall|i: int, j: int|
        0 <= i < next.listings.len() && 0 <= j < next.swap_listings.len() && (
        #[trigger] next.listings[i]).active && (#[trigger] next.swap_listings[j]).active
        implies next.listings[i].token_id != next.swap_listings[j].offered_token_id by {
        assert(market.swap_listings[j].active);
        if i < n {
            assert(market.listings[i].active);
        }
    }
    assert forall|i: int, j: int|
        0 <= i < next.listings.len() && 0 <= j < next.swap_bids.len() && (
        #[trigger] next.listings[i]).active && (#[trigger] next.swap_bids[j]).active
        implies next.listings[i].token_id != next.swap_bids[j].bidder_token_id by {
        assert(market.swap_bids[j].active);
        if i < n {
            assert(market.listings[i].active);
        }
    }
}

/// Closing a listing hands its asset out of custody, to the buyer or back to
/// the seller, and the call that does so succeeds.
pub proof fn lemma_closing_a_listing_releases_its_asset(
    market: MarketState,
    registry: NftState,
    listing_id: u64,
    to: Address,
)
    requires
        market.has_custody(registry),
        market.config is Some,
        listing_id < market.listings.len(),
        market.listings[listing_id as int].active,
    ensures
        registry_step(
            registry,
            market.config->0.nft_contract,
            market.custody_out(to, market.listings[listing_id as int].token_id),
        ) is Some,
        market.with_listing_closed(listing_id).has_custody(
            registry_step(
                registry,
                market.config->0.nft_contract,
                market.custody_out(to, market.listings[listing_id as int].token_id),
            )->0,
        ),
{
    let at = market.config->0.nft_contract;
    let listing = market.listings[listing_id as int];
    let next = market.with_listing_closed(listing_id);
    let after = registry_step(registry, at, market.custody_out(to, listing.token_id))->0;
    assert forall|i: int| 0 <= i < next.listings.len() && (#[trigger] next.listings[i]).active
        implies holds(after, next.contract, next.listings[i].token_id) by {
        assert(market.listings[i].active);
        if i < listing_id {
            assert(market.listings[i].token_id != market.listings[listing_id as int].token_id);
        } else {
            assert(market.listings[listing_id as int].token_id != market.listings[i].token_id);
        }
    }
    assert forall|i: int|
        0 <= i < next.swap_listings.len() && (#[trigger] next.swap_listings[i]).active
        implies holds(after, next.contract, next.swap_listings[i].offered_token_id) by {
        assert(market.swap_listings[i].active);
        assert(market.listings[listing_id as int].token_id
            != market.swap_listings[i].offered_token_id);
    }
    assert forall|i: int| 0 <= i < next.swap_bids.len() && (#[trigger] next.swap_bids[i]).active
        implies holds(after, next.contract, next.swap_bids[i].bidder_token_id) by {
        assert(market.swap_bids[i].active);
        assert(market.listings[listing_id as int].token_id != market.swap_bids[i].bidder_token_id);
    }
    assert forall|i: int, j: int|
        0 <= i < j < next.listings.len() && (#[trigger] next.listings[i]).active && (
        #[trigger] next.listings[j]).active implies next.listings[i].token_id
        != next.listings[j].token_id by {
        assert(market.listings[i].active && market.listings[j].active);
    }
    assert forall|i: int, j: int|
        0 <= i < next.listings.len() && 0 <= j < next.swap_listings.len() && (
        #[trigger] next.listings[i]).active && (#[trigger] next.swap_listings[j]).active
        implies next.listings[i].token_id != next.swap_listings[j].offered_token_id by {
        assert(market.listings[i].active && market.swap_listings[j].active);
    }
    assert forall|i: int, j: int|
        0 <= i < next.listings.len() && 0 <= j < next.swap_bids.len() && (
        #[trigger] next.listings[i]).active && (#[trigger] next.swap_bids[j]).active
        implies next.listings[i].token_id != next.swap_bids[j].bidder_token_id by {
        assert(market.listings[i].active && market.swap_bids[j].active);
    }
}

/// A plain listing, once posted and its asset handed in, is in custody like
/// all the others.
pub proof fn lemma_list_for_sale_keeps_custody(
    market: MarketState,
    registry: NftState,
    seller: Address,
    token_id: u64,
    price_xlm: i128,
    price_usdc: i128,
    xlm_usdc_rate: i128,
)
    requires
        market.has_custody(registry),
        market.list_for_sale_error(price_xlm, price_usdc) is None,
        seller != market.contract,
        registry_after(
            registry,
            market.config->0.nft_contract,
            seq![market.custody_in(seller, token_id)],
        ) is Some,
    ensures
        market.with_listing(
            crate::marketplace::listing::new_listing(
                seller,
                token_id,
                price_xlm,
                price_usdc,
                xlm_usdc_rate,
                0,
                false,
            ),
        ).has_custody(
            registry_after(
                registry,
                market.config->0.nft_contract,
                seq![market.custody_in(seller, token_id)],
            )->0,
        ),
{
    let listing = crate::marketplace::listing::new_listing(
        seller,
        token_id,
        price_xlm,
        price_usdc,
        xlm_usdc_rate,
        0,
        false,
    );
    lemma_registry_after_one(
        registry,
        market.config->0.nft_contract,
        market.custody_in(seller, token_id),
    );
    lemma_listing_takes_custody(market, registry, listing);
}

/// A commission listing, once posted and its asset handed in, is in custody
/// like all the others.
pub proof fn lemma_list_commission_egg_keeps_custody(
    market: MarketState,
    registry: NftState,
    seller: Address,
    token_id: u64,
    price_xlm: i128,
    price_usdc: i128,
    xlm_usdc_rate: i128,
    commission_eta_days: u64,
)
    requires
        market.has_custody(registry),
        market.list_commission_egg_error(seller, price_xlm, price_usdc, commission_eta_days)
            is None,
        seller != market.contract,
        registry_after(
            registry,
            market.config->0.nft_contract,
            seq![market.custody_in(seller, token_id)],
        ) is Some,
    ensures
        (MarketState {
            listing_locks: market.listing_locks.insert(seller, market.listings.len() as u64),
            ..market.with_listing(
                crate::marketplace::listing::new_listing(
                    seller,
                    token_id,
                    price_xlm,
                    price_usdc,
                    xlm_usdc_rate,
                    commission_eta_days,
                    true,
                ),
            )
        }).has_custody(
            registry_after(
                registry,
                market.config->0.nft_contract,
                seq![market.custody_in(seller, token_id)],
            )->0,
        ),
{
    let listing = crate::marketplace::listing::new_listing(
        seller,
        token_id,
        price_xlm,
        price_usdc,
        xlm_usdc_rate,
        commission_eta_days,
        true,
    );
    let at = market.config->0.nft_contract;
    lemma_registry_after_one(registry, at, market.custody_in(seller, token_id));
    lemma_listing_takes_custody(market, registry, listing);
    let listed = market.with_listing(listing);
    let after = registry_after(registry, at, seq![market.custody_in(seller, token_id)])->0;
    lemma_custody_looks_at_assets_only(
        listed,
        MarketState {
            listing_locks: market.listing_locks.insert(seller, market.listings.len() as u64),
            ..listed
        },
        after,
    );
}

/// The calls of a plain purchase succeed on the registry, and leave every
/// other asset in custody.
pub proof fn lemma_buy_keeps_custody(
    market: MarketState,
    registry: NftState,
    buyer: Address,
    listing_id: u64,
    currency: Currency,
)
    requires
        market.has_custody(registry),
        market.buy_error(listing_id, currency) is None,
    ensures
        registry_after(
            registry,
            market.config->0.nft_contract,
            market.buy_effects(buyer, listing_id, currency),
        ) is Some,
        market.with_listing_closed(listing_id).has_custody(
            registry_after(
                registry,
                market.config->0.nft_contract,
                market.buy_effects(buyer, listing_id, currency),
            )->0,
        ),
{
    let at = market.config->0.nft_contract;
    let effects = market.buy_effects(buyer, listing_id, currency);
    lemma_registry_after_two(registry, at, effects[0], effects[1]);
    assert(effects =~= seq![effects[0], effects[1]]);
    lemma_closing_a_listing_releases_its_asset(market, registry, listing_id, buyer);
}

/// The calls of a commission purchase succeed on the registry, and leave
/// every other asset in custody.
pub proof fn lemma_buy_commission_keeps_custody(
    market: MarketState,
    registry: NftState,
    buyer: Address,
    listing_id: u64,
    currency: Currency,
    intention: Seq<char>,
    reference_image_url: Seq<char>,
    metadata_uri: Seq<char>,
    now: u64,
)
    requires
        market.has_custody(registry),
        market.buy_commission_error(listing_id, currency, intention, reference_image_url)
            is None,
    ensures
        registry_after(
            registry,
            market.config->0.nft_contract,
            market.buy_commission_effects(buyer, listing_id, currency),
        ) is Some,
        market.buy_commission_next(
            buyer,
            listing_id,
            currency,
            intention,
            reference_image_url,
            metadata_uri,
            now,
        ).has_custody(
            registry_after(
                registry,
                market.config->0.nft_contract,
                market.buy_commission_effects(buyer, listing_id, currency),
            )->0,
        ),
{
    let at = market.config->0.nft_contract;
    let effects = market.buy_commission_effects(buyer, listing_id, currency);
    let listing = market.listings[listing_id as int];
    let hand_over = market.custody_out(buyer, listing.token_id);
    let payments = effects.drop_last();
    assert(effects.last() == hand_over);
    assert(effects =~= payments + seq![hand_over]);
    assert(moves_no_asset(payments));
    lemma_registry_ignores_payments(registry, at, payments);
    lemma_registry_after_both(registry, at, payments, seq![hand_over]);
    lemma_registry_after_one(registry, at, hand_over);
    lemma_closing_a_listing_releases_its_asset(market, registry, listing_id, buyer);
    let next = market.buy_commission_next(
        buyer,
        listing_id,
        currency,
        intention,
        reference_image_url,
        metadata_uri,
        now,
    );
    assert(next.listings =~= market.with_listing_closed(listing_id).listings);
    lemma_custody_looks_at_assets_only(
        market.with_listing_closed(listing_id),
        next,
        registry_step(registry, at, hand_over)->0,
    );
}

/// The call of a cancellation succeeds on the registry, and leaves every
/// other asset in custody.
pub proof fn lemma_cancel_listing_keeps_custody(
    market: MarketState,
    registry: NftState,
    seller: Address,
    listing_id: u64,
)
    requires
        market.has_custody(registry),
        market.cancel_listing_error(seller, listing_id) is None,
    ensures
        registry_after(
            registry,
            market.config->0.nft_contract,
            seq![market.custody_out(seller, market.listings[listing_id as int].token_id)],
        ) is Some,
        market.cancel_listing_next(listing_id).has_custody(
            registry_after(
                registry,
                market.config->0.nft_contract,
                seq![market.custody_out(seller, market.listings[listing_id as int].token_id)],
            )->0,
        ),
{
    let at = market.config->0.nft_contract;
    let hand_back = market.custody_out(seller, market.listings[listing_id as int].token_id);
    lemma_registry_after_one(registry, at, hand_back);
    lemma_closing_a_listing_releases_its_asset(market, registry, listing_id, seller);
    lemma_custody_looks_at_assets_only(
        market.with_listing_closed(listing_id),
        market.cancel_listing_next(listing_id),
        registry_step(registry, at, hand_back)->0,
    );
}

/// A new swap listing takes the offered asset into custody.
pub proof fn lemma_create_swap_listing_keeps_custody(
    market: MarketState,
    registry: NftState,
    creator: Address,
    offered_token_id: u64,
    intention: Seq<char>,
)
    requires
        market.has_custody(registry),
        market.create_swap_listing_error(intention) is None,
        creator != market.contract,
        registry_after(
            registry,
            market.config->0.nft_contract,
            seq![market.custody_in(creator, offered_token_id)],
        ) is Some,
    ensures
        (MarketState {
            swap_listings: market.swap_listings.push(
                SwapListingView { creator, offered_token_id, intention, active: true },
            ),
            ..market
        }).has_custody(
            registry_after(
                registry,
                market.config->0.nft_contract,
                seq![market.custody_in(creator, offered_token_id)],
            )->0,
        ),
{
    let at = market.config->0.nft_contract;
    let effect = market.custody_in(creator, offered_token_id);
    lemma_registry_after_one(registry, at, effect);
    let next = MarketState {
        swap_listings: market.swap_listings.push(
            SwapListingView { creator, offered_token_id, intention, active: true },
        ),
        ..market
    };
    let after = registry_step(registry, at, effect)->0;
    assert(registry.tokens[offered_token_id as int].owner == creator);
    let n = market.swap_listings.len() as int;
    assert forall|i: int|
        0 <= i < next.swap_listings.len() && (#[trigger] next.swap_listings[i]).active
        implies holds(after, next.contract, next.swap_listings[i].offered_token_id) by {
        if i < n {
            assert(market.swap_listings[i].active);
        }
    }
    assert forall|i: int| 0 <= i < next.listings.len() && (#[trigger] next.listings[i]).active
        implies holds(after, next.contract, next.listings[i].token_id) by {
        assert(market.listings[i].active);
    }
    assert forall|i: int| 0 <= i < next.swap_bids.len() && (#[trigger] next.swap_bids[i]).active
        implies holds(after, next.contract, next.swap_bids[i].bidder_token_id) by {
        assert(market.swap_bids[i].active);
    }
    assert forall|i: int, j: int|
        0 <= i < j < next.swap_listings.len() && (#[trigger] next.swap_listings[i]).active && (
        #[trigger] next.swap_listings[j]).active implies next.swap_listings[i].offered_token_id
        != next.swap_listings[j].offered_token_id by {
        assert(market.swap_listings[i].active);
        if j < n {
            assert(market.swap_listings[j].active);
        }
    }
    assert forall|i: int, j: int|
        0 <= i < next.listings.len() && 0 <= j < next.swap_listings.len() && (
        #[trigger] next.listings[i]).active && (#[trigger] next.swap_listings[j]).active
        implies next.listings[i].token_id != next.swap_listings[j].offered_token_id by {
        assert(market.listings[i].active);
        if j < n {
            assert(market.swap_listings[j].active);
        }
    }
    assert forall|i: int, j: int|
        0 <= i < next.swap_listings.len() && 0 <= j < next.swap_bids.len() && (
        #[trigger] next.swap_listings[i]).active && (#[trigger] next.swap_bids[j]).active
        implies next.swap_listings[i].offered_token_id != next.swap_bids[j].bidder_token_id by {
        assert(market.swap_bids[j].active);
        if i < n {
            assert(market.swap_listings[i].active);
        }
    }
}

/// A new bid takes the bidder's asset into custody.
pub proof fn lemma_place_swap_bid_keeps_custody(
    market: MarketState,
    registry: NftState,
    bidder: Address,
    listing_id: u64,
    bidder_token_id: u64,
)
    requires
        market.has_custody(registry),
        market.place_swap_bid_error(bidder, listing_id, bidder_token_id) is None,
        bidder != market.contract,
        registry_after(
            registry,
            market.config->0.nft_contract,
            seq![market.custody_in(bidder, bidder_token_id)],
        ) is Some,
    ensures
        (MarketState {
            swap_bids: market.swap_bids.push(
                SwapBid { listing_id, bidder, bidder_token_id, active: true },
            ),
            ..market
        }).has_custody(
            registry_after(
                registry,
                market.config->0.nft_contract,
                seq![market.custody_in(bidder, bidder_token_id)],
            )->0,
        ),
{
    let at = market.config->0.nft_contract;
    let effect = market.custody_in(bidder, bidder_token_id);
    lemma_registry_after_one(registry, at, effect);
    let next = MarketState {
        swap_bids: market.swap_bids.push(
            SwapBid { listing_id, bidder, bidder_token_id, active: true },
        ),
        ..market
    };
    let after = registry_step(registry, at, effect)->0;
    assert(registry.tokens[bidder_token_id as int].owner == bidder);
    let n = market.swap_bids.len() as int;
    assert forall|i: int| 0 <= i < next.swap_bids.len() && (#[trigger] next.swap_bids[i]).active
        implies holds(after, next.contract, next.swap_bids[i].bidder_token_id) by {
        if i < n {
            assert(market.swap_bids[i].active);
        }
    }
    assert forall|i: int| 0 <= i < next.listings.len() && (#[trigger] next.listings[i]).active
        implies holds(after, next.contract, next.listings[i].token_id) by {
        assert(market.listings[i].active);
    }
    assert forall|i: int|
        0 <= i < next.swap_listings.len() && (#[trigger] next.swap_listings[i]).active
        implies holds(after, next.contract, next.swap_listings[i].offered_token_id) by {
        assert(market.swap_listings[i].active);
    }
    assert forall|i: int, j: int|
        0 <= i < j < next.swap_bids.len() && (#[trigger] next.swap_bids[i]).active && (
        #[trigger] next.swap_bids[j]).active implies next.swap_bids[i].bidder_token_id
        != next.swap_bids[j].bidder_token_id by {
        assert(market.swap_bids[i].active);
        if j < n {
            assert(market.swap_bids[j].active);
        }
    }
    assert forall|i: int, j: int|
        0 <= i < next.listings.len() && 0 <= j < next.swap_bids.len() && (
        #[trigger] next.listings[i]).active && (#[trigger] next.swap_bids[j]).active
        implies next.listings[i].token_id != next.swap_bids[j].bidder_token_id by {
        assert(market.listings[i].active);
        if j < n {
            assert(market.swap_bids[j].active);
        }
    }
    assert forall|i: int, j: int|
        0 <= i < next.swap_listings.len() && 0 <= j < next.swap_bids.len() && (
        #[trigger] next.swap_listings[i]).active && (#[trigger] next.swap_bids[j]).active
        implies next.swap_listings[i].offered_token_id != next.swap_bids[j].bidder_token_id by {
        assert(market.swap_listings[i].active);
        if j < n {
            assert(market.swap_bids[j].active);
        }
    }
}

/// Withdrawing a bid hands its asset back, and the call that does so
/// succeeds.
pub proof fn lemma_cancel_swap_bid_keeps_custody(
    market: MarketState,
    registry: NftState,
    bidder: Address,
    bid_id: u64,
)
    requires
        market.has_custody(registry),
        market.cancel_swap_bid_error(bidder, bid_id) is None,
    ensures
        registry_after(
            registry,
            market.config->0.nft_contract,
            seq![market.custody_out(bidder, market.swap_bids[bid_id as int].bidder_token_id)],
        ) is Some,
        (MarketState {
            swap_bids: market.swap_bids.update(
                bid_id as int,
                withdrawn(market.swap_bids[bid_id as int]),
            ),
            ..market
        }).has_custody(
            registry_after(
                registry,
                market.config->0.nft_contract,
                seq![market.custody_out(bidder, market.swap_bids[bid_id as int].bidder_token_id)],
            )->0,
        ),
{
    let at = market.config->0.nft_contract;
    let token_id = market.swap_bids[bid_id as int].bidder_token_id;
    let effect = market.custody_out(bidder, token_id);
    lemma_registry_after_one(registry, at, effect);
    let next = MarketState {
        swap_bids: market.swap_bids.update(
            bid_id as int,
            withdrawn(market.swap_bids[bid_id as int]),
        ),
        ..market
    };
    let after = registry_step(registry, at, effect)->0;
    assert forall|i: int| 0 <= i < next.swap_bids.len() && (#[trigger] next.swap_bids[i]).active
        implies holds(after, next.contract, next.swap_bids[i].bidder_token_id) by {
        assert(market.swap_bids[i].active);
        if i < bid_id {
            assert(market.swap_bids[i].bidder_token_id
                != market.swap_bids[bid_id as int].bidder_token_id);
        } else {
            assert(market.swap_bids[bid_id as int].bidder_token_id
                != market.swap_bids[i].bidder_token_id);
        }
    }
    assert forall|i: int| 0 <= i < next.listings.len() && (#[trigger] next.listings[i]).active
        implies holds(after, next.contract, next.listings[i].token_id) by {
        assert(market.listings[i].active);
        assert(market.listings[i].token_id != market.swap_bids[bid_id as int].bidder_token_id);
    }
    assert forall|i: int|
        0 <= i < next.swap_listings.len() && (#[trigger] next.swap_listings[i]).active
        implies holds(after, next.contract, next.swap_listings[i].offered_token_id) by {
        assert(market.swap_listings[i].active);
        assert(market.swap_listings[i].offered_token_id
            != market.swap_bids[bid_id as int].bidder_token_id);
    }
    assert forall|i: int, j: int|
        0 <= i < j < next.swap_bids.len() && (#[trigger] next.swap_bids[i]).active && (
        #[trigger] next.swap_bids[j]).active implies next.swap_bids[i].bidder_token_id
        != next.swap_bids[j].bidder_token_id by {
        assert(market.swap_bids[i].active && market.swap_bids[j].active);
    }
    assert forall|i: int, j: int|
        0 <= i < next.listings.len() && 0 <= j < next.swap_bids.len() && (
        #[trigger] next.listings[i]).active && (#[trigger] next.swap_bids[j]).active
        implies next.listings[i].token_id != next.swap_bids[j].bidder_token_id by {
        assert(market.listings[i].active && market.swap_bids[j].active);
    }
    assert forall|i: int, j: int|
        0 <= i < next.swap_listings.len() && 0 <= j < next.swap_bids.len() && (
        #[trigger] next.swap_listings[i]).active && (#[trigger] next.swap_bids[j]).active
        implies next.swap_listings[i].offered_token_id != next.swap_bids[j].bidder_token_id by {
        assert(market.swap_listings[i].active && market.swap_bids[j].active);
    }
}

/// Whether one of the first `n` bids is refundable and offers the token
/// `token_id`.
pub open spec fn refunded_upto(
    market: MarketState,
    listing_id: u64,
    except: Option<u64>,
    n: int,
    token_id: int,
) -> bool {
    exists|j: int|
        0 <= j < n && refundable(#[trigger] market.swap_bids[j], j, listing_id, except)
            && market.swap_bids[j].bidder_token_id == token_id
}

/// The refunds of the first `n` bids succeed on a registry in which the
/// marketplace holds the asset of every refundable bid, and they move no other
/// asset.
pub proof fn lemma_refunds_succeed(
    market: MarketState,
    registry: NftState,
    listing_id: u64,
    except: Option<u64>,
    n: int,
)
    requires
        market.config is Some,
        0 <= n <= market.swap_bids.len(),
        market.lists_nothing_twice(),
        forall|j: int|
            0 <= j < market.swap_bids.len() && refundable(
                #[trigger] market.swap_bids[j],
                j,
                listing_id,
                except,
            ) ==> holds(registry, market.contract, market.swap_bids[j].bidder_token_id),
    ensures
        registry_after(
            registry,
            market.config->0.nft_contract,
            market.refund_effects_upto(market.config->0, listing_id, except, n),
        ) is Some,
        ({
            let after = registry_after(
                registry,
                market.config->0.nft_contract,
                market.refund_effects_upto(market.config->0, listing_id, except, n),
            )->0;
            &&& same_but_owners(registry, after)
            &&& forall|t: int|
                0 <= t < registry.tokens.len() && !refunded_upto(market, listing_id, except, n, t)
                    ==> (#[trigger] after.tokens[t]).owner == registry.tokens[t].owner
        }),
    decreases n,
{
    let at = market.config->0.nft_contract;
    let config = market.config->0;
    if n > 0 {
        lemma_refunds_succeed(market, registry, listing_id, except, n - 1);
        let earlier = market.refund_effects_upto(config, listing_id, except, n - 1);
        let before = registry_after(registry, at, earlier)->0;
        let bid = market.swap_bids[n - 1];
        if refundable(bid, n - 1, listing_id, except) {
            let token = bid.bidder_token_id;
            let effect = crate::marketplace::listing::asset_transfer(
                config,
                market.contract,
                bid.bidder,
                token,
            );
            lemma_registry_after_push(registry, at, earlier, effect);
            assert forall|j: int|
                0 <= j < n - 1 && refundable(
                    #[trigger] market.swap_bids[j],
                    j,
                    listing_id,
                    except,
                ) implies market.swap_bids[j].bidder_token_id != token by {
                assert(market.swap_bids[j].active && market.swap_bids[n - 1].active);
            }
            assert(!refunded_upto(market, listing_id, except, n - 1, token as int));
            assert(before.tokens[token as int].owner == market.contract);
            let after = registry_step(before, at, effect)->0;
            assert forall|t: int|
                0 <= t < registry.tokens.len() && !refunded_upto(
                    market,
                    listing_id,
                    except,
                    n,
                    t,
                ) implies (#[trigger] after.tokens[t]).owner == registry.tokens[t].owner by {
                assert(t != token) by {
                    if t == token {
                        assert(refundable(market.swap_bids[n - 1], n - 1, listing_id, except));
                    }
                }
                assert(!refunded_upto(market, listing_id, except, n - 1, t)) by {
                    if refunded_upto(market, listing_id, except, n - 1, t) {
                        let j = choose|j: int|
                            0 <= j < n - 1 && refundable(
                                #[trigger] market.swap_bids[j],
                                j,
                                listing_id,
                                except,
                            ) && market.swap_bids[j].bidder_token_id == t;
                        assert(refundable(market.swap_bids[j], j, listing_id, except));
                    }
                }
                assert(before.tokens[t].owner == registry.tokens[t].owner);
            }
        } else {
            assert forall|t: int|
                0 <= t < registry.tokens.len() && !refunded_upto(
                    market,
                    listing_id,
                    except,
                    n,
                    t,
                ) implies (#[trigger] before.tokens[t]).owner == registry.tokens[t].owner by {
                assert(!refunded_upto(market, listing_id, except, n - 1, t)) by {
                    if refunded_upto(market, listing_id, except, n - 1, t) {
                        let j = choose|j: int|
                            0 <= j < n - 1 && refundable(
                                #[trigger] market.swap_bids[j],
                                j,
                                listing_id,
                                except,
                            ) && market.swap_bids[j].bidder_token_id == t;
                        assert(refundable(market.swap_bids[j], j, listing_id, except));
                    }
                }
            }
        }
    }
}

/// Once the offered asset of a swap listing, and the asset of the bid that is
/// spared, have left custody, the refunds of all other bids succeed, and what
/// remains active is in custody.
proof fn lemma_swap_closing_keeps_custody(
    market: MarketState,
    registry: NftState,
    moved: NftState,
    listing_id: u64,
    except: Option<u64>,
)
    requires
        market.has_custody(registry),
        market.config is Some,
        listing_id < market.swap_listings.len(),
        market.swap_listings[listing_id as int].active,
        except is Some ==> {
            &&& except->0 < market.swap_bids.len()
            &&& market.swap_bids[except->0 as int].active
            &&& market.swap_bids[except->0 as int].listing_id == listing_id
        },
        same_but_owners(registry, moved),
        forall|t: int|
            0 <= t < registry.tokens.len() && t
                != market.swap_listings[listing_id as int].offered_token_id && !(except is Some
                && t == market.swap_bids[except->0 as int].bidder_token_id) ==> (
            #[trigger] moved.tokens[t]).owner == registry.tokens[t].owner,
    ensures
        registry_after(
            moved,
            market.config->0.nft_contract,
            market.refund_effects(market.config->0, listing_id, except),
        ) is Some,
        market.with_swap_listing_closed(listing_id).has_custody(
            registry_after(
                moved,
                market.config->0.nft_contract,
                market.refund_effects(market.config->0, listing_id, except),
            )->0,
        ),
{
    let at = market.config->0.nft_contract;
    let total = market.swap_bids.len() as int;
    let offered = market.swap_listings[listing_id as int].offered_token_id;
    assert forall|j: int|
        0 <= j < total && refundable(
            #[trigger] market.swap_bids[j],
            j,
            listing_id,
            except,
        ) implies holds(moved, market.contract, market.swap_bids[j].bidder_token_id) by {
        let token = market.swap_bids[j].bidder_token_id;
        assert(market.swap_bids[j].active);
        assert(holds(registry, market.contract, token));
        assert(token != offered);
        if except is Some {
            let spared = except->0 as int;
            assert(market.swap_bids[spared].active);
            if j < spared {
                assert(token != market.swap_bids[spared].bidder_token_id);
            } else {
                assert(market.swap_bids[spared].bidder_token_id != token);
            }
        }
        assert(moved.tokens[token as int].owner == registry.tokens[token as int].owner);
    }
    lemma_refunds_succeed(market, moved, listing_id, except, total);
    let after = registry_after(
        moved,
        at,
        market.refund_effects(market.config->0, listing_id, except),
    )->0;
    let next = market.with_swap_listing_closed(listing_id);

    assert forall|i: int| 0 <= i < next.listings.len() && (#[trigger] next.listings[i]).active
        implies holds(after, next.contract, next.listings[i].token_id) by {
        let token = market.listings[i].token_id;
        assert(market.listings[i].active);
        assert(token != offered);
        if except is Some {
            assert(market.swap_bids[except->0 as int].active);
            assert(token != market.swap_bids[except->0 as int].bidder_token_id);
        }
        assert(!refunded_upto(market, listing_id, except, total, token as int)) by {
            if refunded_upto(market, listing_id, except, total, token as int) {
                let j = choose|j: int|
                    0 <= j < total && refundable(
                        #[trigger] market.swap_bids[j],
                        j,
                        listing_id,
                        except,
                    ) && market.swap_bids[j].bidder_token_id == token;
                assert(market.swap_bids[j].active);
            }
        }
        assert(after.tokens[token as int].owner == moved.tokens[token as int].owner);
    }
    assert forall|i: int|
        0 <= i < next.swap_listings.len() && (#[trigger] next.swap_listings[i]).active
        implies holds(after, next.contract, next.swap_listings[i].offered_token_id) by {
        let token = market.swap_listings[i].offered_token_id;
        assert(market.swap_listings[i].active);
        assert(i != listing_id);
        if i < listing_id {
            assert(token != offered);
        } else {
            assert(offered != token);
        }
        if except is Some {
            assert(market.swap_bids[except->0 as int].active);
            assert(token != market.swap_bids[except->0 as int].bidder_token_id);
        }
        assert(!refunded_upto(market, listing_id, except, total, token as int)) by {
            if refunded_upto(market, listing_id, except, total, token as int) {
                let j = choose|j: int|
                    0 <= j < total && refundable(
                        #[trigger] market.swap_bids[j],
                        j,
                        listing_id,
                        except,
                    ) && market.swap_bids[j].bidder_token_id == token;
                assert(market.swap_bids[j].active);
            }
        }
        assert(after.tokens[token as int].owner == moved.tokens[token as int].owner);
    }
    assert forall|i: int| 0 <= i < next.swap_bids.len() && (#[trigger] next.swap_bids[i]).active
        implies holds(after, next.contract, next.swap_bids[i].bidder_token_id) by {
        let token = market.swap_bids[i].bidder_token_id;
        assert(market.swap_bids[i].active);
        assert(market.swap_bids[i].listing_id != listing_id);
        assert(offered != token);
        if except is Some {
            let spared = except->0 as int;
            assert(market.swap_bids[spared].active);
            if i < spared {
                assert(token != market.swap_bids[spared].bidder_token_id);
            } else {
                assert(market.swap_bids[spared].bidder_token_id != token);
            }
        }
        assert(!refunded_upto(market, listing_id, except, total, token as int)) by {
            if refunded_upto(market, listing_id, except, total, token as int) {
                let j = choose|j: int|
                    0 <= j < total && refundable(
                        #[trigger] market.swap_bids[j],
                        j,
                        listing_id,
                        except,
                    ) && market.swap_bids[j].bidder_token_id == token;
                assert(market.swap_bids[j].active);
                if i < j {
                    assert(market.swap_bids[i].bidder_token_id
                        != market.swap_bids[j].bidder_token_id);
                } else {
                    assert(market.swap_bids[j].bidder_token_id
                        != market.swap_bids[i].bidder_token_id);
                }
            }
        }
        assert(after.tokens[token as int].owner == moved.tokens[token as int].owner);
    }
    assert forall|i: int, j: int|
        0 <= i < j < next.swap_listings.len() && (#[trigger] next.swap_listings[i]).active && (
        #[trigger] next.swap_listings[j]).active implies next.swap_listings[i].offered_token_id
        != next.swap_listings[j].offered_token_id by {
        assert(market.swap_listings[i].active && market.swap_listings[j].active);
    }
    assert forall|i: int, j: int|
        0 <= i < j < next.swap_bids.len() && (#[trigger] next.swap_bids[i]).active && (
        #[trigger] next.swap_bids[j]).active implies next.swap_bids[i].bidder_token_id
        != next.swap_bids[j].bidder_token_id by {
        assert(market.swap_bids[i].active && market.swap_bids[j].active);
    }
    assert forall|i: int, j: int|
        0 <= i < next.listings.len() && 0 <= j < next.swap_listings.len() && (
        #[trigger] next.listings[i]).active && (#[trigger] next.swap_listings[j]).active
        implies next.listings[i].token_id != next.swap_listings[j].offered_token_id by {
        assert(market.listings[i].active && market.swap_listings[j].active);
    }
    assert forall|i: int, j: int|
        0 <= i < next.listings.len() && 0 <= j < next.swap_bids.len() && (
        #[trigger] next.listings[i]).active && (#[trigger] next.swap_bids[j]).active
        implies next.listings[i].token_id != next.swap_bids[j].bidder_token_id by {
        assert(market.listings[i].active && market.swap_bids[j].active);
    }
    assert forall|i: int, j: int|
        0 <= i < next.swap_listings.len() && 0 <= j < next.swap_bids.len() && (
        #[trigger] next.swap_listings[i]).active && (#[trigger] next.swap_bids[j]).active
        implies next.swap_listings[i].offered_token_id != next.swap_bids[j].bidder_token_id by {
        assert(market.swap_listings[i].active && market.swap_bids[j].active);
    }
}

/// All calls of an acceptance succeed on the registry: the two assets change
/// hands, every other bidder gets their asset back, and what remains active is
/// in custody.
pub proof fn lemma_accept_swap_bid_keeps_custody(
    market: MarketState,
    registry: NftState,
    creator: Address,
    listing_id: u64,
    bid_id: u64,
)
    requires
        market.has_custody(registry),
        market.accept_swap_bid_error(creator, listing_id, bid_id) is None,
    ensures
        registry_after(
            registry,
            market.config->0.nft_contract,
            market.accept_swap_bid_effects(listing_id, bid_id),
        ) is Some,
        market.with_swap_listing_closed(listing_id).has_custody(
            registry_after(
                registry,
                market.config->0.nft_contract,
                market.accept_swap_bid_effects(listing_id, bid_id),
            )->0,
        ),
{
    let at = market.config->0.nft_contract;
    let listing = market.swap_listings[listing_id as int];
    let bid = market.swap_bids[bid_id as int];
    let first = market.custody_out(bid.bidder, listing.offered_token_id);
    let second = market.custody_out(listing.creator, bid.bidder_token_id);
    let refunds = market.refund_effects(market.config->0, listing_id, Some(bid_id));
    assert(market.swap_listings[listing_id as int].active && market.swap_bids[bid_id as int].active);
    assert(listing.offered_token_id != bid.bidder_token_id);
    let between = registry_step(registry, at, first)->0;
    let moved = registry_step(between, at, second)->0;
    lemma_registry_after_two(registry, at, first, second);
    lemma_registry_after_both(registry, at, seq![first, second], refunds);
    lemma_swap_closing_keeps_custody(market, registry, moved, listing_id, Some(bid_id));
}

/// All calls of a cancellation of a swap listing succeed on the registry: the
/// offered asset returns to the creator, every bidder gets their asset back,
/// and what remains active is in custody.
pub proof fn lemma_cancel_swap_listing_keeps_custody(
    market: MarketState,
    registry: NftState,
    creator: Address,
    listing_id: u64,
)
    requires
        market.has_custody(registry),
        market.cancel_swap_listing_error(creator, listing_id) is None,
    ensures
        registry_after(
            registry,
            market.config->0.nft_contract,
            market.cancel_swap_listing_effects(listing_id),
        ) is Some,
        market.with_swap_listing_closed(listing_id).has_custody(
            registry_after(
                registry,
                market.config->0.nft_contract,
                market.cancel_swap_listing_effects(listing_id),
            )->0,
        ),
{
    let at = market.config->0.nft_contract;
    let listing = market.swap_listings[listing_id as int];
    let first = market.custody_out(listing.creator, listing.offered_token_id);
    let refunds = market.refund_effects(market.config->0, listing_id, None);
    assert(market.swap_listings[listing_id as int].active);
    let moved = registry_step(registry, at, first)->0;
    lemma_registry_after_one(registry, at, first);
    lemma_registry_after_both(registry, at, seq![first], refunds);
    lemma_swap_closing_keeps_custody(market, registry, moved, listing_id, None);
}

} // verus!
