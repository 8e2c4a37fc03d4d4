use shimeji_contracts::address::Address;
use shimeji_contracts::currency::{Currency, EscrowProvider};
use shimeji_contracts::effect::Effect;
use shimeji_contracts::error::ErrorKind;
use shimeji_contracts::escrow_vault::ShimejiEscrowVault;
use shimeji_contracts::marketplace::state::COMMISSION_AUTO_RELEASE_AFTER_DELIVERY_SECS;
use shimeji_contracts::marketplace::{
    CommissionOrderStatus, MarketplaceError, ShimejiMarketplace, SwapBid,
};
use shimeji_contracts::nft::ShimejiNft;
use std::collections::HashMap;

const ADMIN: Address = Address { kind: shimeji_contracts::address::AddressKind::Account, hi: 0, lo: 1 };
const XLM: Address = Address { kind: shimeji_contracts::address::AddressKind::Contract, hi: 1, lo: 1 };
const USDC: Address = Address { kind: shimeji_contracts::address::AddressKind::Contract, hi: 1, lo: 2 };
const REGISTRY: Address =
    Address { kind: shimeji_contracts::address::AddressKind::Contract, hi: 1, lo: 3 };
const MARKET: Address = Address { kind: shimeji_contracts::address::AddressKind::Contract, hi: 1, lo: 4 };
const VAULT: Address = Address { kind: shimeji_contracts::address::AddressKind::Contract, hi: 1, lo: 5 };

fn person(n: u128) -> Address {
    Address::account(7, n)
}

/// The marketplace with a registry, token balances and a vault around it.
struct World {
    now: u64,
    market: ShimejiMarketplace,
    registry: ShimejiNft,
    vault: ShimejiEscrowVault,
    balances: HashMap<(Address, Address), i128>,
}

impl World {
    fn new() -> World {
        let mut registry = ShimejiNft::new();
        registry.initialize(ADMIN).unwrap();
        let mut market = ShimejiMarketplace::new(MARKET);
        market.initialize(ADMIN, REGISTRY, USDC, XLM).unwrap();
        let mut vault = ShimejiEscrowVault::new(VAULT);
        vault.initialize(ADMIN).unwrap();
        vault.set_operator(ADMIN, MARKET).unwrap();
        World { now: 0, market, registry, vault, balances: HashMap::new() }
    }

    fn fund(&mut self, token: Address, to: Address, amount: i128) {
        *self.balances.entry((token, to)).or_insert(0) += amount;
    }

    fn balance(&self, token: Address, who: Address) -> i128 {
        *self.balances.get(&(token, who)).unwrap_or(&0)
    }

    fn owner(&self, token_id: u64) -> Address {
        self.registry.owner_of(token_id).unwrap()
    }

    fn mint(&mut self, owner: Address) -> u64 {
        self.registry.mint(ADMIN, owner, "ipfs://shimeji/egg.json".to_string()).unwrap()
    }

    fn set_uri(&mut self, token_id: u64, uri: &str) {
        self.registry.update_token_uri(ADMIN, token_id, uri.to_string()).unwrap();
    }

    fn apply(&mut self, effects: &[Effect]) {
        for effect in effects {
            match *effect {
                Effect::AssetTransfer { registry, from, to, token_id } => {
                    assert_eq!(registry, REGISTRY);
                    self.registry.transfer(from, to, token_id).unwrap();
                }
                Effect::TokenTransfer { token, from, to, amount } => {
                    assert!(amount > 0);
                    assert!(self.balance(token, from) >= amount);
                    *self.balances.entry((token, from)).or_insert(0) -= amount;
                    *self.balances.entry((token, to)).or_insert(0) += amount;
                }
                Effect::VaultPayout { vault, caller, token, to, amount } => {
                    assert_eq!(vault, VAULT);
                    let payout = self.vault.payout_token(caller, token, to, amount).unwrap();
                    self.apply(&[payout]);
                }
            }
        }
    }

    fn list_egg(&mut self, seller: Address, token_id: u64, price: i128) -> u64 {
        let (id, effects) =
            self.market.list_commission_egg(seller, token_id, price, price, 1_000_000, 7).unwrap();
        self.apply(&effects);
        id
    }

    fn buy_egg(&mut self, buyer: Address, listing_id: u64, currency: Currency) -> u64 {
        let token_id = self.market.get_listing(listing_id).unwrap().token_id;
        let uri = self.registry.token_uri(token_id).unwrap();
        let (id, effects) = self
            .market
            .buy_commission(
                buyer,
                listing_id,
                currency,
                "a fox with a lantern".to_string(),
                String::new(),
                uri,
                self.now,
            )
            .unwrap();
        self.apply(&effects);
        id
    }

    fn deliver(&mut self, seller: Address, order_id: u64) -> Result<(), MarketplaceError> {
        let token_id = self.market.get_commission_order(order_id).unwrap().token_id;
        let uri = self.registry.token_uri(token_id).unwrap();
        self.market.mark_commission_delivered(seller, order_id, uri, self.now)
    }

    /// A world with one open order of 1000 units in XLM, paid by `buyer` to
    /// `seller`.
    fn with_order(seller: Address, buyer: Address) -> (World, u64, u64) {
        let mut w = World::new();
        let token = w.mint(seller);
        let listing = w.list_egg(seller, token, 1000);
        w.fund(XLM, buyer, 1000);
        w.now = 50;
        let order = w.buy_egg(buyer, listing, Currency::Xlm);
        (w, token, order)
    }
}

// ── Scenarios ─────────────────────────────────────────────────────────────

#[test]
fn commission_of_1000_pays_half_at_once_and_the_rest_on_approval() {
    let seller = person(1);
    let buyer = person(2);
    let (mut w, token, order) = World::with_order(seller, buyer);

    assert_eq!(w.balance(XLM, seller), 500);
    assert_eq!(w.balance(XLM, MARKET), 500);
    assert_eq!(w.balance(XLM, buyer), 0);
    assert_eq!(w.owner(token), buyer);

    w.set_uri(token, "ipfs://shimeji/final.json");
    w.deliver(seller, order).unwrap();
    let effects = w.market.approve_commission_delivery(buyer, order, 60).unwrap();
    assert_eq!(
        effects,
        vec![Effect::TokenTransfer { token: XLM, from: MARKET, to: seller, amount: 500 }]
    );
    w.apply(&effects);

    assert_eq!(w.balance(XLM, seller), 1000);
    assert_eq!(w.balance(XLM, MARKET), 0);
    let done = w.market.get_commission_order(order).unwrap();
    assert_eq!(done.escrow_remaining, 0);
    assert_eq!(done.status, CommissionOrderStatus::Completed);
    assert_eq!(done.resolved_at, 60);
    assert_eq!(done.upfront_paid_to_seller, 500);
    assert_eq!(done.amount_paid, 1000);
}

#[test]
fn three_revisions_are_granted_and_the_fourth_is_refused() {
    let seller = person(1);
    let buyer = person(2);
    let (mut w, token, order) = World::with_order(seller, buyer);

    for round in 1..=3u64 {
        w.now = 100 * round;
        w.set_uri(token, &format!("ipfs://shimeji/draft-{}.json", round));
        w.deliver(seller, order).unwrap();
        let delivered = w.market.get_commission_order(order).unwrap();
        assert_eq!(delivered.status, CommissionOrderStatus::Delivered);
        assert_eq!(delivered.delivered_at, 100 * round);

        w.market
            .request_commission_revision(
                buyer,
                order,
                format!("change {}", round),
                format!("https://example.com/{}.png", round),
            )
            .unwrap();
        let revised = w.market.get_commission_order(order).unwrap();
        assert_eq!(revised.status, CommissionOrderStatus::Accepted);
        assert_eq!(revised.delivered_at, 0);
        assert_eq!(revised.revision_request_count, round);
        assert_eq!(revised.latest_revision_intention, format!("change {}", round));
        assert_eq!(revised.latest_revision_ref_url, format!("https://example.com/{}.png", round));
        assert_eq!(revised.escrow_remaining, 500);
    }

    w.now = 400;
    w.set_uri(token, "ipfs://shimeji/draft-4.json");
    w.deliver(seller, order).unwrap();
    let refused = w
        .market
        .request_commission_revision(buyer, order, "once more".to_string(), String::new())
        .unwrap_err();
    assert_eq!(refused, MarketplaceError::MaxRevisionsReached);
    assert_eq!(refused.kind(), ErrorKind::InvalidState);
    let order_now = w.market.get_commission_order(order).unwrap();
    assert_eq!(order_now.status, CommissionOrderStatus::Delivered);
    assert_eq!(order_now.revision_request_count, 3);
    assert_eq!(order_now.max_revision_requests, 3);
}

#[test]
fn timeout_claim_fails_one_second_early_and_succeeds_on_time() {
    let seller = person(1);
    let buyer = person(2);
    let (mut w, token, order) = World::with_order(seller, buyer);

    w.now = 1_000;
    w.set_uri(token, "ipfs://shimeji/final.json");
    w.deliver(seller, order).unwrap();

    let on_time = 1_000 + COMMISSION_AUTO_RELEASE_AFTER_DELIVERY_SECS;
    assert_eq!(COMMISSION_AUTO_RELEASE_AFTER_DELIVERY_SECS, 7 * 24 * 60 * 60);
    assert_eq!(
        w.market.claim_commission_timeout(seller, order, on_time - 1),
        Err(MarketplaceError::TimeoutNotReached)
    );
    assert_eq!(w.market.get_commission_order(order).unwrap().status, CommissionOrderStatus::Delivered);
    assert_eq!(w.balance(XLM, seller), 500);

    let effects = w.market.claim_commission_timeout(seller, order, on_time).unwrap();
    w.apply(&effects);
    assert_eq!(w.balance(XLM, seller), 1000);
    let done = w.market.get_commission_order(order).unwrap();
    assert_eq!(done.status, CommissionOrderStatus::Completed);
    assert_eq!(done.escrow_remaining, 0);
    assert_eq!(done.resolved_at, on_time);
}

#[test]
fn accepting_one_bid_exchanges_assets_and_returns_the_other_bid() {
    let mut w = World::new();
    let creator = person(1);
    let bidder_y = person(2);
    let bidder_z = person(3);
    let x = w.mint(creator);
    let y = w.mint(bidder_y);
    let z = w.mint(bidder_z);

    let (listing, effects) =
        w.market.create_swap_listing(creator, x, "anything neon".to_string()).unwrap();
    w.apply(&effects);
    let (bid_y, effects) = w.market.place_swap_bid(bidder_y, listing, y).unwrap();
    w.apply(&effects);
    let (bid_z, effects) = w.market.place_swap_bid(bidder_z, listing, z).unwrap();
    w.apply(&effects);
    assert_eq!(w.owner(x), MARKET);
    assert_eq!(w.owner(y), MARKET);
    assert_eq!(w.owner(z), MARKET);

    let effects = w.market.accept_swap_bid(creator, listing, bid_y).unwrap();
    assert_eq!(
        effects,
        vec![
            Effect::AssetTransfer { registry: REGISTRY, from: MARKET, to: bidder_y, token_id: x },
            Effect::AssetTransfer { registry: REGISTRY, from: MARKET, to: creator, token_id: y },
            Effect::AssetTransfer { registry: REGISTRY, from: MARKET, to: bidder_z, token_id: z },
        ]
    );
    w.apply(&effects);

    assert_eq!(w.owner(x), bidder_y);
    assert_eq!(w.owner(y), creator);
    assert_eq!(w.owner(z), bidder_z);
    assert!(!w.market.get_swap_listing(listing).unwrap().active);
    assert!(!w.market.get_swap_bid(bid_y).unwrap().active);
    assert!(!w.market.get_swap_bid(bid_z).unwrap().active);
    assert_eq!(
        w.market.cancel_swap_bid(bidder_z, bid_z),
        Err(MarketplaceError::SwapBidNotActive)
    );
}

#[test]
fn plain_purchase_of_a_commission_listing_moves_nothing() {
    let mut w = World::new();
    let seller = person(1);
    let buyer = person(2);
    let token = w.mint(seller);
    let listing = w.list_egg(seller, token, 1000);
    w.fund(XLM, buyer, 1000);
    w.fund(USDC, buyer, 1000);

    let refused = w.market.buy(buyer, listing, Currency::Xlm).unwrap_err();
    assert_eq!(refused, MarketplaceError::UseBuyCommissionXlm);
    assert_eq!(refused.kind(), ErrorKind::InvalidState);
    assert_eq!(
        w.market.buy_usdc(buyer, listing),
        Err(MarketplaceError::UseBuyCommissionUsdc)
    );

    assert!(w.market.get_listing(listing).unwrap().active);
    assert_eq!(w.owner(token), MARKET);
    assert_eq!(w.balance(XLM, buyer), 1000);
    assert_eq!(w.balance(USDC, buyer), 1000);
    assert_eq!(w.balance(XLM, seller), 0);
    assert_eq!(w.market.total_commission_orders(), 0);
}

// ── The split ─────────────────────────────────────────────────────────────

#[test]
fn split_gives_the_odd_unit_to_escrow() {
    assert_eq!(ShimejiMarketplace::split_commission_payment(1000), Ok((500, 500)));
    assert_eq!(ShimejiMarketplace::split_commission_payment(1001), Ok((500, 501)));
    assert_eq!(ShimejiMarketplace::split_commission_payment(1), Ok((0, 1)));
    assert_eq!(ShimejiMarketplace::split_commission_payment(2), Ok((1, 1)));
    assert_eq!(
        ShimejiMarketplace::split_commission_payment(i128::MAX),
        Ok((i128::MAX / 2, i128::MAX / 2 + 1))
    );
    assert_eq!(
        ShimejiMarketplace::split_commission_payment(0),
        Err(MarketplaceError::CommissionAmountNotPositive)
    );
    assert_eq!(
        ShimejiMarketplace::split_commission_payment(-4),
        Err(MarketplaceError::CommissionAmountNotPositive)
    );
}

#[test]
fn order_of_an_odd_price_holds_the_whole_payment() {
    let mut w = World::new();
    let seller = person(1);
    let buyer = person(2);
    let token = w.mint(seller);
    let listing = w.list_egg(seller, token, 1001);
    w.fund(USDC, buyer, 1001);
    let order = w.buy_egg(buyer, listing, Currency::Usdc);
    let order = w.market.get_commission_order(order).unwrap();
    assert_eq!(order.currency, Currency::Usdc);
    assert_eq!(order.upfront_paid_to_seller, 500);
    assert_eq!(order.escrow_remaining, 501);
    assert_eq!(order.upfront_paid_to_seller + order.escrow_remaining, order.amount_paid);
    assert_eq!(w.balance(USDC, seller), 500);
    assert_eq!(w.balance(USDC, MARKET), 501);
}

#[test]
fn purchase_for_one_unit_pays_nothing_upfront() {
    let mut w = World::new();
    let seller = person(1);
    let buyer = person(2);
    let token = w.mint(seller);
    let listing = w.list_egg(seller, token, 1);
    w.fund(XLM, buyer, 1);
    let uri = w.registry.token_uri(token).unwrap();
    let (order, effects) = w
        .market
        .buy_commission_xlm(buyer, listing, "tiny".to_string(), String::new(), uri, 5)
        .unwrap();
    assert_eq!(
        effects,
        vec![
            Effect::TokenTransfer { token: XLM, from: buyer, to: MARKET, amount: 1 },
            Effect::AssetTransfer { registry: REGISTRY, from: MARKET, to: buyer, token_id: token },
        ]
    );
    let order = w.market.get_commission_order(order).unwrap();
    assert_eq!(order.upfront_paid_to_seller, 0);
    assert_eq!(order.escrow_remaining, 1);
    assert_eq!(order.created_at, 5);
    assert_eq!(order.metadata_uri_at_purchase, "ipfs://shimeji/egg.json");
    assert_eq!(order.last_delivered_metadata_uri, "");
}

#[test]
fn purchase_effects_come_in_order() {
    let mut w = World::new();
    let seller = person(1);
    let buyer = person(2);
    let token = w.mint(seller);
    let listing = w.list_egg(seller, token, 1000);
    w.market.configure_trustless_escrow(ADMIN, VAULT, person(9)).unwrap();
    let (_, effects) = w
        .market
        .buy_commission_xlm(buyer, listing, "order".to_string(), String::new(), String::new(), 0)
        .unwrap();
    assert_eq!(
        effects,
        vec![
            Effect::TokenTransfer { token: XLM, from: buyer, to: MARKET, amount: 1000 },
            Effect::TokenTransfer { token: XLM, from: MARKET, to: seller, amount: 500 },
            Effect::TokenTransfer { token: XLM, from: MARKET, to: VAULT, amount: 500 },
            Effect::AssetTransfer { registry: REGISTRY, from: MARKET, to: buyer, token_id: token },
        ]
    );
}

// ── Locks ─────────────────────────────────────────────────────────────────

#[test]
fn seller_is_locked_until_the_listing_or_the_order_ends() {
    let mut w = World::new();
    let seller = person(1);
    let buyer = person(2);
    let other = person(3);
    let a = w.mint(seller);
    let b = w.mint(seller);
    let c = w.mint(other);

    let first = w.list_egg(seller, a, 1000);
    let conflict = w.market.list_commission_egg(seller, b, 10, 10, 1, 7).unwrap_err();
    assert_eq!(conflict, MarketplaceError::SellerHasActiveCommissionListing);
    assert_eq!(conflict.kind(), ErrorKind::Conflict);
    // another seller is not held back, and plain listings are not either
    w.list_egg(other, c, 1000);
    let (plain, effects) = w.market.list_for_sale(seller, b, 10, 10, 1).unwrap();
    w.apply(&effects);
    let effects = w.market.cancel_listing(seller, plain).unwrap();
    w.apply(&effects);

    // cancelling frees the seller
    let effects = w.market.cancel_listing(seller, first).unwrap();
    w.apply(&effects);
    let second = w.list_egg(seller, a, 1000);

    // a purchase turns the listing lock into an order lock
    w.fund(XLM, buyer, 1000);
    let order = w.buy_egg(buyer, second, Currency::Xlm);
    let conflict = w.market.list_commission_egg(seller, b, 10, 10, 1, 7).unwrap_err();
    assert_eq!(conflict, MarketplaceError::SellerHasPendingCommissionOrder);
    assert_eq!(conflict.kind(), ErrorKind::Conflict);

    // also while delivered
    w.set_uri(a, "ipfs://shimeji/final.json");
    w.deliver(seller, order).unwrap();
    assert_eq!(
        w.market.list_commission_egg(seller, b, 10, 10, 1, 7),
        Err(MarketplaceError::SellerHasPendingCommissionOrder)
    );

    // the end of the order frees the seller
    let effects = w.market.approve_commission_delivery(buyer, order, 9).unwrap();
    w.apply(&effects);
    w.list_egg(seller, b, 10);
}

// ── Delivery ──────────────────────────────────────────────────────────────

#[test]
fn delivery_needs_metadata_that_differs_from_the_baseline() {
    let seller = person(1);
    let buyer = person(2);
    let (mut w, token, order) = World::with_order(seller, buyer);

    // nothing changed since the purchase
    assert_eq!(w.deliver(seller, order), Err(MarketplaceError::MetadataNotUpdated));
    assert_eq!(w.market.get_commission_order(order).unwrap().status, CommissionOrderStatus::Accepted);

    w.set_uri(token, "ipfs://shimeji/draft.json");
    w.now = 77;
    assert_eq!(w.deliver(seller, order), Ok(()));
    let delivered = w.market.get_commission_order(order).unwrap();
    assert_eq!(delivered.last_delivered_metadata_uri, "ipfs://shimeji/draft.json");
    assert_eq!(delivered.delivered_at, 77);

    // after a revision the last delivery is the baseline
    w.market
        .request_commission_revision(buyer, order, "brighter".to_string(), String::new())
        .unwrap();
    assert_eq!(w.deliver(seller, order), Err(MarketplaceError::MetadataNotUpdated));
    // going back to the reference of the purchase counts as a change
    w.set_uri(token, "ipfs://shimeji/egg.json");
    assert_eq!(w.deliver(seller, order), Ok(()));
}

#[test]
fn an_empty_reference_that_was_delivered_is_the_baseline_too() {
    let seller = person(1);
    let buyer = person(2);
    let (mut w, _token, order) = World::with_order(seller, buyer);
    assert_eq!(
        w.market.get_commission_order(order).unwrap().metadata_uri_at_purchase,
        "ipfs://shimeji/egg.json"
    );

    // the first delivery finds the reference empty: that differs from the purchase
    assert_eq!(w.market.mark_commission_delivered(seller, order, String::new(), 60), Ok(()));
    let delivered = w.market.get_commission_order(order).unwrap();
    assert_eq!(delivered.status, CommissionOrderStatus::Delivered);
    assert_eq!(delivered.last_delivered_metadata_uri, "");
    w.market
        .request_commission_revision(buyer, order, "not empty, please".to_string(), String::new())
        .unwrap();

    // the second delivery finds it empty still: nothing has changed since the first
    let refused = w.market.mark_commission_delivered(seller, order, String::new(), 70).unwrap_err();
    assert_eq!(refused, MarketplaceError::MetadataNotUpdated);
    assert_eq!(refused.message(), "update nft metadata before marking commission delivered");
    assert_eq!(refused.kind(), ErrorKind::InvalidState);
    let kept = w.market.get_commission_order(order).unwrap();
    assert_eq!(kept.status, CommissionOrderStatus::Accepted);
    assert_eq!(kept.delivered_at, 0);
    assert_eq!(kept.revision_request_count, 1);

    // the reference of the purchase differs from the empty one that was delivered
    assert_eq!(
        w.market.mark_commission_delivered(seller, order, "ipfs://shimeji/egg.json".to_string(), 80),
        Ok(())
    );
    let again = w.market.get_commission_order(order).unwrap();
    assert_eq!(again.last_delivered_metadata_uri, "ipfs://shimeji/egg.json");
    assert_eq!(again.delivered_at, 80);
}

#[test]
fn unchanged_empty_reference_is_not_delivered_twice() {
    let seller = person(1);
    let buyer = person(2);
    let (mut w, _token, order) = World::with_order(seller, buyer);
    w.market.mark_commission_delivered(seller, order, String::new(), 60).unwrap();
    w.market
        .request_commission_revision(buyer, order, "once more".to_string(), String::new())
        .unwrap();
    let refused = w.market.mark_commission_delivered(seller, order, String::new(), 70).unwrap_err();
    assert_eq!(refused.message(), "update nft metadata before marking commission delivered");

    // a reference in between makes the empty one new again
    w.market
        .mark_commission_delivered(seller, order, "ipfs://shimeji/draft.json".to_string(), 80)
        .unwrap();
    w.market
        .request_commission_revision(buyer, order, "and again".to_string(), String::new())
        .unwrap();
    assert_eq!(w.market.mark_commission_delivered(seller, order, String::new(), 90), Ok(()));
    assert_eq!(w.market.get_commission_order(order).unwrap().last_delivered_metadata_uri, "");
}

#[test]
fn an_order_bought_at_an_empty_reference_needs_a_reference_to_be_delivered() {
    let mut w = World::new();
    let seller = person(1);
    let buyer = person(2);
    let token = w.mint(seller);
    let listing = w.list_egg(seller, token, 1000);
    let (order, _) = w
        .market
        .buy_commission_xlm(buyer, listing, "a fox".to_string(), String::new(), String::new(), 5)
        .unwrap();
    assert_eq!(
        w.market.mark_commission_delivered(seller, order, String::new(), 6),
        Err(MarketplaceError::MetadataNotUpdated)
    );
    assert_eq!(
        w.market.mark_commission_delivered(seller, order, "ipfs://shimeji/final.json".to_string(), 6),
        Ok(())
    );
}

#[test]
fn delivery_is_for_the_seller_of_an_accepted_order() {
    let seller = person(1);
    let buyer = person(2);
    let (mut w, token, order) = World::with_order(seller, buyer);
    w.set_uri(token, "ipfs://shimeji/draft.json");

    assert_eq!(w.deliver(buyer, order), Err(MarketplaceError::NotOrderSeller));
    assert_eq!(
        w.market.mark_commission_delivered(seller, 5, "ipfs://x".to_string(), 1),
        Err(MarketplaceError::OrderNotFound)
    );
    w.deliver(seller, order).unwrap();
    w.set_uri(token, "ipfs://shimeji/draft-2.json");
    assert_eq!(w.deliver(seller, order), Err(MarketplaceError::OrderNotAccepted));
}

// ── Escrow routing ────────────────────────────────────────────────────────

#[test]
fn order_settles_by_the_backend_it_was_created_under() {
    // created under the internal backend, settled after a switch to the vault
    let seller = person(1);
    let buyer = person(2);
    let (mut w, token, order) = World::with_order(seller, buyer);
    w.market.configure_trustless_escrow(ADMIN, VAULT, VAULT).unwrap();
    assert_eq!(w.market.get_escrow_provider(), EscrowProvider::TrustlessWork);
    let kept = w.market.get_commission_order(order).unwrap();
    assert_eq!(kept.escrow_provider, EscrowProvider::Internal);
    assert_eq!(kept.escrow_holder, MARKET);
    w.set_uri(token, "ipfs://shimeji/final.json");
    w.deliver(seller, order).unwrap();
    let effects = w.market.approve_commission_delivery(buyer, order, 60).unwrap();
    assert_eq!(
        effects,
        vec![Effect::TokenTransfer { token: XLM, from: MARKET, to: seller, amount: 500 }]
    );

    // created under the vault, settled after a switch back and to other vaults
    let mut w = World::new();
    w.market.configure_trustless_escrow(ADMIN, VAULT, VAULT).unwrap();
    let token = w.mint(seller);
    let listing = w.list_egg(seller, token, 1000);
    w.fund(XLM, buyer, 1000);
    let order = w.buy_egg(buyer, listing, Currency::Xlm);
    assert_eq!(w.balance(XLM, VAULT), 500);
    w.market.configure_trustless_escrow(ADMIN, person(8), person(9)).unwrap();
    w.market.configure_internal_escrow(ADMIN).unwrap();
    assert_eq!(w.market.get_escrow_provider(), EscrowProvider::Internal);
    assert_eq!(w.market.get_trustless_escrow_dests(), Ok((person(8), person(9))));
    let kept = w.market.get_commission_order(order).unwrap();
    assert_eq!(kept.escrow_provider, EscrowProvider::TrustlessWork);
    assert_eq!(kept.escrow_holder, VAULT);
    let effects = w.market.refund_commission_order(buyer, order, 9).unwrap();
    assert_eq!(
        effects,
        vec![Effect::VaultPayout { vault: VAULT, caller: MARKET, token: XLM, to: buyer, amount: 500 }]
    );
    w.apply(&effects);
    assert_eq!(w.balance(XLM, VAULT), 0);
    assert_eq!(w.balance(XLM, buyer), 500);
    assert_eq!(w.balance(XLM, seller), 500);
}

#[test]
fn routing_follows_the_configuration_of_the_moment() {
    let mut w = World::new();
    let mut effects = Vec::new();
    assert_eq!(
        w.market.route_commission_escrow_after_purchase(&mut effects, Currency::Usdc, 40),
        (EscrowProvider::Internal, MARKET)
    );
    assert!(effects.is_empty());

    w.market.configure_trustless_escrow(ADMIN, person(8), person(9)).unwrap();
    assert_eq!(
        w.market.route_commission_escrow_after_purchase(&mut effects, Currency::Usdc, 40),
        (EscrowProvider::TrustlessWork, person(9))
    );
    assert_eq!(
        effects,
        vec![Effect::TokenTransfer { token: USDC, from: MARKET, to: person(9), amount: 40 }]
    );
    assert_eq!(w.market.trustless_escrow_destination(Currency::Xlm), Ok(person(8)));
    assert_eq!(w.market.token_address_for_currency(Currency::Usdc), Ok(USDC));
    assert_eq!(w.market.nft_contract(), Ok(REGISTRY));

    // nothing to escrow: nothing moves, and the marketplace is the holder
    let mut effects = Vec::new();
    assert_eq!(
        w.market.route_commission_escrow_after_purchase(&mut effects, Currency::Xlm, 0),
        (EscrowProvider::Internal, MARKET)
    );
    assert!(effects.is_empty());
}

#[test]
fn only_the_admin_configures_escrow() {
    let mut w = World::new();
    assert_eq!(w.market.configure_internal_escrow(person(1)), Err(MarketplaceError::NotAdmin));
    assert_eq!(
        w.market.configure_trustless_escrow(person(1), VAULT, VAULT),
        Err(MarketplaceError::NotAdmin)
    );
    assert_eq!(MarketplaceError::NotAdmin.kind(), ErrorKind::Unauthorized);
    assert_eq!(w.market.get_escrow_provider(), EscrowProvider::Internal);
    assert_eq!(w.market.get_trustless_escrow_dests(), Ok((ADMIN, ADMIN)));
    assert_eq!(w.market.require_admin(ADMIN), Ok(ADMIN));
}

// ── Refunds ───────────────────────────────────────────────────────────────

#[test]
fn refund_returns_the_escrow_and_keeps_the_upfront_share() {
    for caller in [person(1), person(2), ADMIN] {
        let seller = person(1);
        let buyer = person(2);
        let (mut w, _token, order) = World::with_order(seller, buyer);
        let effects = w.market.refund_commission_order(caller, order, 70).unwrap();
        w.apply(&effects);
        assert_eq!(w.balance(XLM, buyer), 500);
        assert_eq!(w.balance(XLM, seller), 500);
        assert_eq!(w.balance(XLM, MARKET), 0);
        let ended = w.market.get_commission_order(order).unwrap();
        assert_eq!(ended.status, CommissionOrderStatus::Refunded);
        assert_eq!(ended.escrow_remaining, 0);
        assert_eq!(ended.resolved_at, 70);
        assert_eq!(ended.upfront_paid_to_seller, 500);
    }
}

#[test]
fn refund_is_refused_to_strangers_and_on_ended_orders() {
    let seller = person(1);
    let buyer = person(2);
    let (mut w, token, order) = World::with_order(seller, buyer);
    let refused = w.market.refund_commission_order(person(3), order, 70).unwrap_err();
    assert_eq!(refused, MarketplaceError::UnauthorizedRefundCaller);
    assert_eq!(refused.kind(), ErrorKind::Unauthorized);
    assert_eq!(
        w.market.refund_commission_order(buyer, 4, 70),
        Err(MarketplaceError::OrderNotFound)
    );

    // a delivered order can still be refunded
    w.set_uri(token, "ipfs://shimeji/final.json");
    w.deliver(seller, order).unwrap();
    let effects = w.market.refund_commission_order(buyer, order, 70).unwrap();
    w.apply(&effects);
    assert_eq!(
        w.market.refund_commission_order(buyer, order, 71),
        Err(MarketplaceError::OrderNotRefundable)
    );
    assert_eq!(
        w.market.approve_commission_delivery(buyer, order, 71),
        Err(MarketplaceError::OrderNotDelivered)
    );
    assert_eq!(
        w.market.claim_commission_timeout(seller, order, u64::MAX),
        Err(MarketplaceError::OrderNotDelivered)
    );
}

// ── Every refusal ─────────────────────────────────────────────────────────

#[test]
fn nothing_works_before_initialization() {
    let mut m = ShimejiMarketplace::new(MARKET);
    assert_eq!(m.get_escrow_provider(), EscrowProvider::Internal);
    assert_eq!(m.total_listings(), 0);
    assert_eq!(m.total_swap_listings(), 0);
    assert_eq!(m.total_swap_bids(), 0);
    assert_eq!(m.total_commission_orders(), 0);
    assert_eq!(m.list_for_sale(person(1), 0, 1, 1, 1), Err(MarketplaceError::NotInitialized));
    assert_eq!(
        m.list_commission_egg(person(1), 0, 1, 1, 1, 1),
        Err(MarketplaceError::NotInitialized)
    );
    assert_eq!(
        m.create_swap_listing(person(1), 0, "x".to_string()),
        Err(MarketplaceError::NotInitialized)
    );
    assert_eq!(m.configure_internal_escrow(person(1)), Err(MarketplaceError::NotInitialized));
    assert_eq!(m.get_trustless_escrow_dests(), Err(MarketplaceError::NotInitialized));
    assert_eq!(m.nft_contract(), Err(MarketplaceError::NotInitialized));
    assert_eq!(MarketplaceError::NotInitialized.kind(), ErrorKind::InvalidState);
    assert_eq!(m.initialize(ADMIN, REGISTRY, USDC, XLM), Ok(()));
    let again = m.initialize(person(1), REGISTRY, USDC, XLM).unwrap_err();
    assert_eq!(again, MarketplaceError::AlreadyInitialized);
    assert_eq!(again.kind(), ErrorKind::AlreadyInitialized);
    assert_eq!(m.require_admin(person(1)), Err(MarketplaceError::NotAdmin));
}

#[test]
fn listings_check_prices_and_turnaround() {
    let mut w = World::new();
    let s = person(1);
    assert_eq!(w.market.list_for_sale(s, 0, 0, 5, 1), Err(MarketplaceError::PriceXlmNotPositive));
    assert_eq!(w.market.list_for_sale(s, 0, 5, -1, 1), Err(MarketplaceError::PriceUsdcNotPositive));
    assert_eq!(w.market.list_for_sale(s, 0, 0, 0, 1), Err(MarketplaceError::PriceXlmNotPositive));
    assert_eq!(
        w.market.list_commission_egg(s, 0, 5, 5, 1, 0),
        Err(MarketplaceError::EtaDaysNotPositive)
    );
    assert_eq!(
        w.market.list_commission_egg(s, 0, 5, 5, 1, 366),
        Err(MarketplaceError::EtaDaysTooLarge)
    );
    // the turnaround is checked before the prices
    assert_eq!(
        w.market.list_commission_egg(s, 0, 0, 0, 1, 0),
        Err(MarketplaceError::EtaDaysNotPositive)
    );
    assert_eq!(
        w.market.list_commission_egg(s, 0, 0, 5, 1, 365),
        Err(MarketplaceError::PriceXlmNotPositive)
    );
    assert_eq!(ShimejiMarketplace::validate_commission_eta_days(1), Ok(()));
    assert_eq!(ShimejiMarketplace::validate_commission_eta_days(365), Ok(()));
    assert_eq!(
        ShimejiMarketplace::validate_commission_eta_days(0),
        Err(MarketplaceError::EtaDaysNotPositive)
    );
    assert_eq!(
        ShimejiMarketplace::validate_commission_eta_days(366),
        Err(MarketplaceError::EtaDaysTooLarge)
    );
    assert_eq!(ShimejiMarketplace::validate_prices(1, 1), Ok(()));
    assert_eq!(MarketplaceError::EtaDaysTooLarge.kind(), ErrorKind::Validation);
    assert_eq!(w.market.total_listings(), 0);

    let token = w.mint(s);
    let (id, effects) = w.market.list_commission_egg(s, token, 5, 6, 7, 365).unwrap();
    assert_eq!(
        effects,
        vec![Effect::AssetTransfer { registry: REGISTRY, from: s, to: MARKET, token_id: token }]
    );
    let listing = w.market.get_listing(id).unwrap();
    assert_eq!(listing.seller, s);
    assert_eq!(listing.token_id, token);
    assert_eq!((listing.price_xlm, listing.price_usdc, listing.xlm_usdc_rate), (5, 6, 7));
    assert_eq!(listing.commission_eta_days, 365);
    assert!(listing.is_commission_egg && listing.active);
    assert_eq!(listing.price(Currency::Usdc), 6);
}

#[test]
fn texts_are_measured_in_bytes() {
    let ok = "a".repeat(280);
    let long = "a".repeat(281);
    assert_eq!(ShimejiMarketplace::validate_swap_intention(&ok), Ok(()));
    assert_eq!(
        ShimejiMarketplace::validate_swap_intention(&long),
        Err(MarketplaceError::SwapIntentionTooLong)
    );
    assert_eq!(
        ShimejiMarketplace::validate_swap_intention(&String::new()),
        Err(MarketplaceError::SwapIntentionEmpty)
    );
    // 141 letters of two bytes each are 282 bytes
    let accented = "é".repeat(141);
    assert_eq!(accented.chars().count(), 141);
    assert_eq!(
        ShimejiMarketplace::validate_swap_intention(&accented),
        Err(MarketplaceError::SwapIntentionTooLong)
    );
    assert_eq!(ShimejiMarketplace::validate_swap_intention(&"é".repeat(140)), Ok(()));

    let i500 = "b".repeat(500);
    let i501 = "b".repeat(501);
    let r512 = "c".repeat(512);
    let r513 = "c".repeat(513);
    assert_eq!(ShimejiMarketplace::validate_commission_payload(&i500, &r512), Ok(()));
    assert_eq!(ShimejiMarketplace::validate_commission_payload(&i500, &String::new()), Ok(()));
    assert_eq!(
        ShimejiMarketplace::validate_commission_payload(&i501, &r512),
        Err(MarketplaceError::CommissionIntentionTooLong)
    );
    assert_eq!(
        ShimejiMarketplace::validate_commission_payload(&i500, &r513),
        Err(MarketplaceError::ReferenceImageUrlTooLong)
    );
    assert_eq!(
        ShimejiMarketplace::validate_commission_payload(&String::new(), &r513),
        Err(MarketplaceError::CommissionIntentionEmpty)
    );
}

#[test]
fn commission_purchase_checks_texts_then_listing() {
    let mut w = World::new();
    let seller = person(1);
    let buyer = person(2);
    let egg = w.mint(seller);
    let plain = w.mint(seller);
    let egg_listing = w.list_egg(seller, egg, 1000);
    let (plain_listing, effects) = w.market.list_for_sale(seller, plain, 10, 10, 1).unwrap();
    w.apply(&effects);

    let buy = |w: &mut World, listing: u64, intention: &str| {
        w.market.buy_commission_usdc(
            buyer,
            listing,
            intention.to_string(),
            String::new(),
            "ipfs://shimeji/egg.json".to_string(),
            0,
        )
    };
    assert_eq!(buy(&mut w, 99, ""), Err(MarketplaceError::CommissionIntentionEmpty));
    assert_eq!(buy(&mut w, 99, "x"), Err(MarketplaceError::ListingNotFound));
    assert_eq!(MarketplaceError::ListingNotFound.kind(), ErrorKind::NotFound);
    assert_eq!(buy(&mut w, plain_listing, "x"), Err(MarketplaceError::ListingNotCommissionEgg));
    let effects = w.market.cancel_listing(seller, egg_listing).unwrap();
    w.apply(&effects);
    assert_eq!(buy(&mut w, egg_listing, "x"), Err(MarketplaceError::ListingNotActive));
    assert_eq!(w.market.total_commission_orders(), 0);

    assert_eq!(w.market.buy_xlm(buyer, 99), Err(MarketplaceError::ListingNotFound));
    assert_eq!(w.market.get_listing(99), Err(MarketplaceError::ListingNotFound));
    assert_eq!(w.market.get_commission_order(0), Err(MarketplaceError::OrderNotFound));
}

#[test]
fn cancelling_a_listing_is_for_its_seller_while_it_is_active() {
    let mut w = World::new();
    let seller = person(1);
    let token = w.mint(seller);
    let (listing, effects) = w.market.list_for_sale(seller, token, 10, 20, 1).unwrap();
    w.apply(&effects);
    assert_eq!(w.market.cancel_listing(person(2), listing), Err(MarketplaceError::NotListingSeller));
    assert_eq!(w.market.cancel_listing(seller, 3), Err(MarketplaceError::ListingNotFound));
    let effects = w.market.cancel_listing(seller, listing).unwrap();
    assert_eq!(
        effects,
        vec![Effect::AssetTransfer { registry: REGISTRY, from: MARKET, to: seller, token_id: token }]
    );
    assert_eq!(w.market.cancel_listing(seller, listing), Err(MarketplaceError::ListingNotActive));
}

#[test]
fn plain_purchase_pays_the_seller_directly() {
    let mut w = World::new();
    let seller = person(1);
    let buyer = person(2);
    let token = w.mint(seller);
    let (listing, effects) = w.market.list_for_sale(seller, token, 10, 20, 1).unwrap();
    w.apply(&effects);
    let effects = w.market.buy(buyer, listing, Currency::Usdc).unwrap();
    assert_eq!(
        effects,
        vec![
            Effect::TokenTransfer { token: USDC, from: buyer, to: seller, amount: 20 },
            Effect::AssetTransfer { registry: REGISTRY, from: MARKET, to: buyer, token_id: token },
        ]
    );
    assert!(!w.market.get_listing(listing).unwrap().active);
}

#[test]
fn revision_and_approval_are_for_the_buyer_of_a_delivered_order() {
    let seller = person(1);
    let buyer = person(2);
    let (mut w, token, order) = World::with_order(seller, buyer);
    let ask = |w: &mut World, who: Address, id: u64, text: &str| {
        w.market.request_commission_revision(who, id, text.to_string(), String::new())
    };
    assert_eq!(ask(&mut w, buyer, order, ""), Err(MarketplaceError::CommissionIntentionEmpty));
    assert_eq!(ask(&mut w, buyer, 9, "x"), Err(MarketplaceError::OrderNotFound));
    assert_eq!(ask(&mut w, seller, order, "x"), Err(MarketplaceError::NotOrderBuyerForRevision));
    assert_eq!(ask(&mut w, buyer, order, "x"), Err(MarketplaceError::OrderNotAwaitingReview));

    assert_eq!(
        w.market.approve_commission_delivery(buyer, 9, 1),
        Err(MarketplaceError::OrderNotFound)
    );
    assert_eq!(
        w.market.approve_commission_delivery(seller, order, 1),
        Err(MarketplaceError::NotOrderBuyerForApproval)
    );
    assert_eq!(
        w.market.approve_commission_delivery(buyer, order, 1),
        Err(MarketplaceError::OrderNotDelivered)
    );
    assert_eq!(
        w.market.claim_commission_timeout(seller, 9, 1),
        Err(MarketplaceError::OrderNotFound)
    );
    assert_eq!(
        w.market.claim_commission_timeout(buyer, order, 1),
        Err(MarketplaceError::NotOrderSellerForTimeout)
    );
    assert_eq!(
        w.market.claim_commission_timeout(seller, order, 1),
        Err(MarketplaceError::OrderNotDelivered)
    );

    // a delivery stamped with time zero cannot be claimed
    w.now = 0;
    w.set_uri(token, "ipfs://shimeji/final.json");
    w.deliver(seller, order).unwrap();
    assert_eq!(
        w.market.claim_commission_timeout(seller, order, u64::MAX),
        Err(MarketplaceError::DeliveryTimestampMissing)
    );
}

#[test]
fn claim_near_the_end_of_time_does_not_wrap() {
    let seller = person(1);
    let buyer = person(2);
    let (mut w, token, order) = World::with_order(seller, buyer);
    w.now = u64::MAX - 10;
    w.set_uri(token, "ipfs://shimeji/final.json");
    w.deliver(seller, order).unwrap();
    assert_eq!(
        w.market.claim_commission_timeout(seller, order, u64::MAX),
        Err(MarketplaceError::TimeoutNotReached)
    );
    assert_eq!(
        w.market.claim_commission_timeout(seller, order, 5),
        Err(MarketplaceError::TimeoutNotReached)
    );
}

#[test]
fn swap_bids_are_checked_against_their_listing() {
    let mut w = World::new();
    let creator = person(1);
    let bidder = person(2);
    let x = w.mint(creator);
    let x2 = w.mint(creator);
    let y = w.mint(bidder);
    let (first, effects) = w.market.create_swap_listing(creator, x, "one".to_string()).unwrap();
    w.apply(&effects);
    let (second, effects) = w.market.create_swap_listing(creator, x2, "two".to_string()).unwrap();
    w.apply(&effects);
    assert_eq!((first, second), (0, 1));
    assert_eq!(w.market.next_swap_listing_id(), 2);
    assert_eq!(w.market.total_swap_listings(), 2);

    assert_eq!(w.market.place_swap_bid(bidder, 7, y), Err(MarketplaceError::SwapListingNotFound));
    let own = w.market.place_swap_bid(creator, first, y).unwrap_err();
    assert_eq!(own, MarketplaceError::CreatorCannotBid);
    assert_eq!(own.kind(), ErrorKind::Validation);
    assert_eq!(w.market.place_swap_bid(bidder, first, x), Err(MarketplaceError::SelfSwap));
    let (bid, effects) = w.market.place_swap_bid(bidder, first, y).unwrap();
    w.apply(&effects);
    assert_eq!(bid, 0);
    assert_eq!(w.market.next_swap_bid_id(), 1);
    assert_eq!(
        w.market.get_swap_bid(bid),
        Ok(SwapBid { listing_id: first, bidder, bidder_token_id: y, active: true })
    );

    assert_eq!(
        w.market.accept_swap_bid(creator, 7, bid),
        Err(MarketplaceError::SwapListingNotFound)
    );
    assert_eq!(
        w.market.accept_swap_bid(bidder, first, bid),
        Err(MarketplaceError::NotSwapCreatorForAccept)
    );
    assert_eq!(
        w.market.accept_swap_bid(creator, first, 5),
        Err(MarketplaceError::SwapBidNotFound)
    );
    assert_eq!(
        w.market.accept_swap_bid(creator, second, bid),
        Err(MarketplaceError::SwapBidWrongListing)
    );
    assert_eq!(
        w.market.cancel_swap_listing(bidder, first),
        Err(MarketplaceError::NotSwapCreatorForCancel)
    );
    assert_eq!(
        w.market.cancel_swap_listing(creator, 7),
        Err(MarketplaceError::SwapListingNotFound)
    );
    assert_eq!(w.market.cancel_swap_bid(creator, bid), Err(MarketplaceError::NotBidder));
    assert_eq!(w.market.cancel_swap_bid(bidder, 4), Err(MarketplaceError::SwapBidNotFound));
    assert_eq!(w.market.get_swap_bid(4), Err(MarketplaceError::SwapBidNotFound));
    assert_eq!(w.market.get_swap_listing(4), Err(MarketplaceError::SwapListingNotFound));

    // a withdrawn bid cannot be accepted, and the listing stays open
    let effects = w.market.cancel_swap_bid(bidder, bid).unwrap();
    assert_eq!(
        effects,
        vec![Effect::AssetTransfer { registry: REGISTRY, from: MARKET, to: bidder, token_id: y }]
    );
    w.apply(&effects);
    assert_eq!(
        w.market.accept_swap_bid(creator, first, bid),
        Err(MarketplaceError::SwapBidNotActive)
    );
    assert!(w.market.get_swap_listing(first).unwrap().active);

    // a closed listing takes no bids and cannot be closed again
    let effects = w.market.cancel_swap_listing(creator, first).unwrap();
    assert_eq!(
        effects,
        vec![Effect::AssetTransfer { registry: REGISTRY, from: MARKET, to: creator, token_id: x }]
    );
    w.apply(&effects);
    assert_eq!(
        w.market.place_swap_bid(bidder, first, y),
        Err(MarketplaceError::SwapListingNotActive)
    );
    assert_eq!(
        w.market.cancel_swap_listing(creator, first),
        Err(MarketplaceError::SwapListingNotActive)
    );
    assert_eq!(
        w.market.accept_swap_bid(creator, first, bid),
        Err(MarketplaceError::SwapListingNotActive)
    );
}

#[test]
fn closing_a_swap_listing_spares_the_bids_on_other_listings() {
    let mut w = World::new();
    let creator = person(1);
    let a = w.mint(creator);
    let b = w.mint(creator);
    let (first, fx) = w.market.create_swap_listing(creator, a, "one".to_string()).unwrap();
    w.apply(&fx);
    let (second, fx) = w.market.create_swap_listing(creator, b, "two".to_string()).unwrap();
    w.apply(&fx);
    let mut bids = Vec::new();
    for n in 0..6u64 {
        let bidder = person(10 + n as u128);
        let token = w.mint(bidder);
        let listing = if n % 2 == 0 { first } else { second };
        let (bid, fx) = w.market.place_swap_bid(bidder, listing, token).unwrap();
        w.apply(&fx);
        bids.push((bid, bidder, token, listing));
    }
    // one bid on the first listing is withdrawn beforehand
    let fx = w.market.cancel_swap_bid(bids[2].1, bids[2].0).unwrap();
    w.apply(&fx);

    let fx = w.market.accept_swap_bid(creator, first, bids[0].0).unwrap();
    assert_eq!(fx.len(), 3);
    w.apply(&fx);
    for (bid, bidder, token, listing) in bids {
        let record = w.market.get_swap_bid(bid).unwrap();
        if listing == first {
            assert!(!record.active);
            if bid == 0 {
                assert_eq!(w.owner(token), creator);
            } else {
                assert_eq!(w.owner(token), bidder);
            }
        } else {
            assert!(record.active);
            assert_eq!(w.owner(token), MARKET);
        }
    }
    assert_eq!(w.owner(a), person(10));
    assert!(w.market.get_swap_listing(second).unwrap().active);
}

#[test]
fn every_failure_has_its_own_text() {
    let all = [
        MarketplaceError::AlreadyInitialized,
        MarketplaceError::NotInitialized,
        MarketplaceError::NotAdmin,
        MarketplaceError::SwapIntentionEmpty,
        MarketplaceError::SwapIntentionTooLong,
        MarketplaceError::CommissionIntentionEmpty,
        MarketplaceError::CommissionIntentionTooLong,
        MarketplaceError::ReferenceImageUrlTooLong,
        MarketplaceError::EtaDaysNotPositive,
        MarketplaceError::EtaDaysTooLarge,
        MarketplaceError::CommissionAmountNotPositive,
        MarketplaceError::SellerHasActiveCommissionListing,
        MarketplaceError::SellerHasPendingCommissionOrder,
        MarketplaceError::PriceXlmNotPositive,
        MarketplaceError::PriceUsdcNotPositive,
        MarketplaceError::ListingNotFound,
        MarketplaceError::ListingNotActive,
        MarketplaceError::UseBuyCommissionXlm,
        MarketplaceError::UseBuyCommissionUsdc,
        MarketplaceError::ListingNotCommissionEgg,
        MarketplaceError::NotListingSeller,
        MarketplaceError::OrderNotFound,
        MarketplaceError::NotOrderSeller,
        MarketplaceError::OrderNotAccepted,
        MarketplaceError::MetadataNotUpdated,
        MarketplaceError::NotOrderBuyerForRevision,
        MarketplaceError::OrderNotAwaitingReview,
        MarketplaceError::MaxRevisionsReached,
        MarketplaceError::NotOrderBuyerForApproval,
        MarketplaceError::OrderNotDelivered,
        MarketplaceError::NotOrderSellerForTimeout,
        MarketplaceError::DeliveryTimestampMissing,
        MarketplaceError::TimeoutNotReached,
        MarketplaceError::UnauthorizedRefundCaller,
        MarketplaceError::OrderNotRefundable,
        MarketplaceError::SwapListingNotFound,
        MarketplaceError::SwapListingNotActive,
        MarketplaceError::CreatorCannotBid,
        MarketplaceError::SelfSwap,
        MarketplaceError::NotSwapCreatorForAccept,
        MarketplaceError::SwapBidNotFound,
        MarketplaceError::SwapBidNotActive,
        MarketplaceError::SwapBidWrongListing,
        MarketplaceError::NotSwapCreatorForCancel,
        MarketplaceError::NotBidder,
    ];
    for (i, a) in all.iter().enumerate() {
        assert!(!a.message().is_empty());
        for b in all.iter().skip(i + 1) {
            assert_ne!(a.message(), b.message());
        }
    }
    assert_eq!(MarketplaceError::ListingNotActive.message(), "listing is not active");
    assert_eq!(MarketplaceError::OrderNotFound.kind(), ErrorKind::NotFound);
    assert_eq!(MarketplaceError::SwapBidNotActive.kind(), ErrorKind::InvalidState);
    assert_eq!(MarketplaceError::NotBidder.kind(), ErrorKind::Unauthorized);
}
