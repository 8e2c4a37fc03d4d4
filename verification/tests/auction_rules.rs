use shimeji_contracts::address::Address;
use shimeji_contracts::auction::pricing::{
    check_floor, check_outbid, min_outbid_amount, normalize_to_usdc, rate_from_report,
    MAX_AUCTION_DURATION, MIN_AUCTION_DURATION,
};
use shimeji_contracts::auction::{
    AuctionCall, AuctionEntry, AuctionError, AuctionInfo, BidInfo, OraclePriceData, ShimejiAuction,
};
use shimeji_contracts::currency::{Currency, EscrowProvider};
use shimeji_contracts::effect::Effect;
use shimeji_contracts::error::ErrorKind;

const ADMIN: Address = Address { kind: shimeji_contracts::address::AddressKind::Account, hi: 0, lo: 1 };
const XLM: Address = Address { kind: shimeji_contracts::address::AddressKind::Contract, hi: 1, lo: 1 };
const USDC: Address = Address { kind: shimeji_contracts::address::AddressKind::Contract, hi: 1, lo: 2 };
const REGISTRY: Address =
    Address { kind: shimeji_contracts::address::AddressKind::Contract, hi: 1, lo: 3 };
const HOUSE: Address = Address { kind: shimeji_contracts::address::AddressKind::Contract, hi: 1, lo: 4 };
const ORACLE: Address = Address { kind: shimeji_contracts::address::AddressKind::Contract, hi: 1, lo: 5 };

fn person(n: u128) -> Address {
    Address::account(7, n)
}

fn house() -> ShimejiAuction {
    let mut house = ShimejiAuction::new(HOUSE);
    house.initialize(ADMIN, REGISTRY, USDC, XLM).unwrap();
    house
}

fn begin(house: &mut ShimejiAuction, seller: Address, price: i128, currency: Currency) -> u64 {
    let (id, _) = house
        .create_item_auction(seller, 3, price, currency, 3_600, seller, "ipfs://item".to_string(), 1_000)
        .unwrap();
    id
}

/// Ten cents per XLM, at the oracle's scale.
fn dime() -> Option<OraclePriceData> {
    Some(OraclePriceData { price: 10_000_000_000_000, timestamp: 0 })
}

#[test]
fn durations_run_from_an_hour_to_thirty_days() {
    assert_eq!(MIN_AUCTION_DURATION, 60 * 60);
    assert_eq!(MAX_AUCTION_DURATION, 30 * 24 * 60 * 60);
    assert_eq!(ShimejiAuction::validate_auction_duration(3_600), Ok(()));
    assert_eq!(ShimejiAuction::validate_auction_duration(2_592_000), Ok(()));
    let short = ShimejiAuction::validate_auction_duration(3_599).unwrap_err();
    assert_eq!(short, AuctionError::DurationTooShort);
    assert_eq!(short.message(), "auction duration too short");
    assert_eq!(short.kind(), ErrorKind::Validation);
    let long = ShimejiAuction::validate_auction_duration(2_592_001).unwrap_err();
    assert_eq!(long, AuctionError::DurationTooLong);
    assert_eq!(long.message(), "auction duration too long");
    assert_eq!(
        ShimejiAuction::validate_auction_duration(0),
        Err(AuctionError::DurationTooShort)
    );
}

#[test]
fn rates_and_worths_round_toward_zero() {
    assert_eq!(rate_from_report(OraclePriceData { price: 10_000_000_000_000, timestamp: 0 }), 1_000_000);
    assert_eq!(rate_from_report(OraclePriceData { price: 19_999_999, timestamp: 0 }), 1);
    assert_eq!(rate_from_report(OraclePriceData { price: 9_999_999, timestamp: 0 }), 0);
    assert_eq!(rate_from_report(OraclePriceData { price: -19_999_999, timestamp: 0 }), -1);
    assert_eq!(rate_from_report(OraclePriceData { price: -9_999_999, timestamp: 0 }), 0);

    assert_eq!(normalize_to_usdc(77, Currency::Usdc, None), Ok(77));
    assert_eq!(normalize_to_usdc(500_0000000, Currency::Xlm, Some(1_000_000)), Ok(50_0000000));
    assert_eq!(normalize_to_usdc(19, Currency::Xlm, Some(1_000_000)), Ok(1));
    assert_eq!(normalize_to_usdc(-19, Currency::Xlm, Some(1_000_000)), Ok(-1));
    assert_eq!(normalize_to_usdc(9, Currency::Xlm, Some(1_000_000)), Ok(0));
    assert_eq!(
        normalize_to_usdc(1, Currency::Xlm, None),
        Err(AuctionError::OracleNotConfigured)
    );
    assert_eq!(
        normalize_to_usdc(i128::MAX, Currency::Xlm, Some(2)),
        Err(AuctionError::ArithmeticOverflow)
    );
    assert_eq!(normalize_to_usdc(i128::MAX, Currency::Xlm, Some(1)), Ok(i128::MAX / 10_000_000));
}

#[test]
fn outbidding_takes_five_percent() {
    assert_eq!(min_outbid_amount(600_0000000), Ok(630_0000000));
    assert_eq!(min_outbid_amount(100), Ok(105));
    assert_eq!(min_outbid_amount(19), Ok(19));
    assert_eq!(min_outbid_amount(20), Ok(21));
    assert_eq!(min_outbid_amount(0), Ok(0));
    assert_eq!(min_outbid_amount(-100), Ok(-105));
    assert_eq!(min_outbid_amount(-19), Ok(-19));
    assert_eq!(min_outbid_amount(i128::MAX / 500 + 1), Err(AuctionError::ArithmeticOverflow));
    assert_eq!(min_outbid_amount(i128::MAX), Err(AuctionError::ArithmeticOverflow));

    assert_eq!(check_outbid(630, Currency::Xlm, 600, Currency::Xlm, None), Ok(()));
    assert_eq!(
        check_outbid(629, Currency::Xlm, 600, Currency::Xlm, None),
        Err(AuctionError::BidIncrementTooSmall)
    );
    // 600 XLM are worth 60 USDC, so 63 USDC outbid them and 62.9999999 do not
    let rate = Some(1_000_000);
    assert_eq!(check_outbid(63_0000000, Currency::Usdc, 600_0000000, Currency::Xlm, rate), Ok(()));
    assert_eq!(
        check_outbid(62_9999999, Currency::Usdc, 600_0000000, Currency::Xlm, rate),
        Err(AuctionError::BidIncrementTooSmall)
    );
    assert_eq!(
        check_outbid(63_0000000, Currency::Usdc, 600_0000000, Currency::Xlm, None),
        Err(AuctionError::OracleNotConfigured)
    );
    assert_eq!(
        check_outbid(1, Currency::Usdc, i128::MAX, Currency::Xlm, Some(3)),
        Err(AuctionError::ArithmeticOverflow)
    );
}

#[test]
fn floors_compare_worths_across_currencies() {
    assert_eq!(check_floor(500, Currency::Xlm, 500, Currency::Xlm, None), Ok(()));
    assert_eq!(
        check_floor(499, Currency::Xlm, 500, Currency::Xlm, None),
        Err(AuctionError::BidBelowMinimum)
    );
    let rate = Some(1_000_000);
    assert_eq!(check_floor(50_0000000, Currency::Usdc, 500_0000000, Currency::Xlm, rate), Ok(()));
    assert_eq!(
        check_floor(49_9999999, Currency::Usdc, 500_0000000, Currency::Xlm, rate),
        Err(AuctionError::BidBelowMinimum)
    );
    assert_eq!(check_floor(500_0000000, Currency::Xlm, 50_0000000, Currency::Usdc, rate), Ok(()));
    assert_eq!(
        check_floor(499_9999990, Currency::Xlm, 50_0000000, Currency::Usdc, rate),
        Err(AuctionError::BidBelowMinimum)
    );
    assert_eq!(
        check_floor(1, Currency::Xlm, 1, Currency::Usdc, None),
        Err(AuctionError::OracleNotConfigured)
    );
}

#[test]
fn configuration_is_for_the_admin() {
    let mut fresh = ShimejiAuction::new(HOUSE);
    assert_eq!(fresh.get_escrow_provider(), EscrowProvider::Internal);
    assert_eq!(fresh.configure_oracle(ADMIN, ORACLE), Err(AuctionError::NotInitialized));
    assert_eq!(fresh.get_trustless_escrow_dests(), Err(AuctionError::NotInitialized));
    assert_eq!(fresh.nft_contract(), Err(AuctionError::NotInitialized));
    assert_eq!(fresh.withdraw_xlm(ADMIN, 5), Err(AuctionError::NotInitialized));
    assert_eq!(fresh.get_xlm_usdc_rate(dime()), None);
    assert_eq!(
        fresh.create_item_auction(ADMIN, 0, 1, Currency::Xlm, 3_600, ADMIN, String::new(), 0),
        Err(AuctionError::NotInitialized)
    );

    let mut house = house();
    assert_eq!(house.nft_contract(), Ok(REGISTRY));
    assert_eq!(house.get_trustless_escrow_dests(), Ok((ADMIN, ADMIN)));
    assert_eq!(house.configure_oracle(person(1), ORACLE), Err(AuctionError::NotAdmin));
    assert_eq!(house.configure_internal_escrow(person(1)), Err(AuctionError::NotAdmin));
    assert_eq!(
        house.configure_trustless_escrow(person(1), person(2), person(3)),
        Err(AuctionError::NotAdmin)
    );
    assert_eq!(AuctionError::NotAdmin.kind(), ErrorKind::Unauthorized);
    assert_eq!(house.get_xlm_usdc_rate(dime()), None);
    house.configure_oracle(ADMIN, ORACLE).unwrap();
    assert_eq!(house.get_xlm_usdc_rate(dime()), Some(1_000_000));
    assert_eq!(house.get_xlm_usdc_rate(None), None);
    house.configure_trustless_escrow(ADMIN, person(2), person(3)).unwrap();
    assert_eq!(house.get_escrow_provider(), EscrowProvider::TrustlessWork);
    assert_eq!(house.trustless_escrow_destination(Currency::Usdc), Ok(person(3)));
    house.configure_internal_escrow(ADMIN).unwrap();
    assert_eq!(house.current_escrow_provider(), EscrowProvider::Internal);
    assert_eq!(house.get_trustless_escrow_dests(), Ok((person(2), person(3))));
    assert_eq!(house.require_admin(ADMIN).unwrap().oracle, Some(ORACLE));
}

#[test]
fn withdrawals_go_to_the_admin() {
    let house = house();
    assert_eq!(
        house.withdraw_xlm(ADMIN, 40),
        Ok(Effect::TokenTransfer { token: XLM, from: HOUSE, to: ADMIN, amount: 40 })
    );
    assert_eq!(
        house.withdraw_usdc(ADMIN, 41),
        Ok(Effect::TokenTransfer { token: USDC, from: HOUSE, to: ADMIN, amount: 41 })
    );
    assert_eq!(house.withdraw_usdc(person(1), 41), Err(AuctionError::NotAdmin));
}

#[test]
fn auctions_begin_with_the_owner_and_a_valid_end() {
    let mut house = house();
    let seller = person(1);
    let begin = |house: &mut ShimejiAuction, duration: u64, owner: Address, now: u64| {
        house.create_item_auction(
            seller,
            3,
            -5,
            Currency::Usdc,
            duration,
            owner,
            "ipfs://item".to_string(),
            now,
        )
    };
    assert_eq!(begin(&mut house, 10, person(2), 0), Err(AuctionError::DurationTooShort));
    assert_eq!(begin(&mut house, 3_600, person(2), 0), Err(AuctionError::SellerNotOwner));
    assert_eq!(begin(&mut house, 3_600, seller, u64::MAX - 3_599), Err(AuctionError::EndTimeOverflow));
    assert_eq!(house.total_auctions(), 0);
    assert_eq!(house.get_auction(0), Err(AuctionError::AuctionNotFound));
    assert_eq!(house.get_highest_bid(0), Err(AuctionError::NoBids));

    house.configure_trustless_escrow(ADMIN, person(8), person(9)).unwrap();
    let (id, effects) = begin(&mut house, 3_600, seller, u64::MAX - 3_600).unwrap();
    assert_eq!(id, 0);
    assert_eq!(
        effects,
        vec![Effect::AssetTransfer { registry: REGISTRY, from: seller, to: HOUSE, token_id: 3 }]
    );
    assert_eq!(
        house.get_auction(0),
        Ok(AuctionInfo {
            token_uri: "ipfs://item".to_string(),
            is_item_auction: true,
            seller,
            token_id: 3,
            start_time: u64::MAX - 3_600,
            end_time: u64::MAX,
            starting_price: -5,
            currency: Currency::Usdc,
            finalized: false,
            escrow_provider: EscrowProvider::TrustlessWork,
            escrow_settled: false,
        })
    );
    assert_eq!(house.get_highest_bid(0), Err(AuctionError::NoBids));
    assert_eq!(AuctionError::NoBids.message(), "no bids for this auction");
}

#[test]
fn bids_are_compared_and_the_outbid_refunded() {
    let mut house = house();
    house.configure_oracle(ADMIN, ORACLE).unwrap();
    let seller = person(1);
    let id = begin(&mut house, seller, 500_0000000, Currency::Xlm);
    assert!(!house.compares_across_currencies(id, Currency::Xlm));
    assert!(house.compares_across_currencies(id, Currency::Usdc));
    assert!(!house.compares_across_currencies(9, Currency::Usdc));

    let first = house.place_bid(id, person(2), 600_0000000, Currency::Xlm, None, 1_000).unwrap();
    assert_eq!(
        first,
        vec![Effect::TokenTransfer { token: XLM, from: person(2), to: HOUSE, amount: 600_0000000 }]
    );
    // without a report the worths cannot be compared
    assert_eq!(
        house.bid_usdc(id, person(3), 70_0000000, None, 1_001),
        Err(AuctionError::OracleNotConfigured)
    );
    assert_eq!(
        house.bid_usdc(id, person(3), 62_0000000, dime(), 1_001),
        Err(AuctionError::BidIncrementTooSmall)
    );
    let second = house.bid_usdc(id, person(3), 63_0000000, dime(), 4_600).unwrap();
    assert_eq!(
        second,
        vec![
            Effect::TokenTransfer { token: XLM, from: HOUSE, to: person(2), amount: 600_0000000 },
            Effect::TokenTransfer { token: USDC, from: person(3), to: HOUSE, amount: 63_0000000 },
        ]
    );
    assert_eq!(
        house.get_highest_bid(id),
        Ok(BidInfo { bidder: person(3), amount: 63_0000000, currency: Currency::Usdc })
    );
    assert!(house.compares_across_currencies(id, Currency::Xlm));
    assert!(house.compares_across_currencies(id, Currency::Usdc));
    // the end itself is still in time, the second after is not
    assert_eq!(
        house.bid_xlm(id, person(4), 700_0000000, dime(), 4_601),
        Err(AuctionError::AuctionEnded)
    );
}

#[test]
fn finalizing_settles_once_after_the_end() {
    let mut house = house();
    let seller = person(1);
    let id = begin(&mut house, seller, 500, Currency::Xlm);
    house.bid_xlm(id, person(2), 600, None, 2_000).unwrap();
    assert_eq!(house.finalize(id, 4_600), Err(AuctionError::NotEndedYet));
    assert_eq!(house.finalize(7, 4_601), Err(AuctionError::AuctionNotFound));
    let calls = house.finalize(id, 4_601).unwrap();
    assert_eq!(
        calls,
        vec![
            AuctionCall::Plain(Effect::AssetTransfer {
                registry: REGISTRY,
                from: HOUSE,
                to: person(2),
                token_id: 3
            }),
            AuctionCall::Plain(Effect::TokenTransfer {
                token: XLM,
                from: HOUSE,
                to: seller,
                amount: 600
            }),
        ]
    );
    let info = house.get_auction(id).unwrap();
    assert!(info.finalized && info.escrow_settled);
    assert_eq!(house.finalize(id, 4_602), Err(AuctionError::AlreadyFinalized));
    assert_eq!(AuctionError::AlreadyFinalized.kind(), ErrorKind::InvalidState);

    // without a bid the item returns to the seller
    let id = begin(&mut house, seller, 500, Currency::Usdc);
    let calls = house.finalize(id, 4_601).unwrap();
    assert_eq!(
        calls,
        vec![AuctionCall::Plain(Effect::AssetTransfer {
            registry: REGISTRY,
            from: HOUSE,
            to: seller,
            token_id: 3
        })]
    );
    let info = house.get_auction(id).unwrap();
    assert!(info.finalized && !info.escrow_settled);
}

#[test]
fn the_vault_of_the_moment_gets_the_bid_of_an_auction_begun_under_the_vault() {
    let mut house = house();
    let seller = person(1);
    house.configure_trustless_escrow(ADMIN, person(8), person(9)).unwrap();
    let id = begin(&mut house, seller, 500, Currency::Usdc);
    house.bid_usdc(id, person(2), 600, None, 2_000).unwrap();
    house.configure_trustless_escrow(ADMIN, person(18), person(19)).unwrap();
    house.configure_internal_escrow(ADMIN).unwrap();
    let calls = house.finalize(id, 9_000).unwrap();
    assert_eq!(
        calls[1],
        AuctionCall::Plain(Effect::TokenTransfer {
            token: USDC,
            from: HOUSE,
            to: person(19),
            amount: 600
        })
    );
}

#[test]
fn an_asset_yet_to_be_minted_is_minted_for_the_winner() {
    let winner = person(2);
    let entry = |provider: EscrowProvider, bid: Option<BidInfo>| AuctionEntry {
        info: AuctionInfo {
            token_uri: "ipfs://to-be-minted".to_string(),
            is_item_auction: false,
            seller: person(1),
            token_id: 0,
            start_time: 0,
            end_time: 3_600,
            starting_price: 10,
            currency: Currency::Xlm,
            finalized: false,
            escrow_provider: provider,
            escrow_settled: false,
        },
        highest_bid: bid,
    };
    let bid = BidInfo { bidder: winner, amount: 12, currency: Currency::Xlm };
    let mut house = house();
    house.configure_trustless_escrow(ADMIN, person(8), person(9)).unwrap();
    house.auctions.push(entry(EscrowProvider::Internal, Some(bid)));
    house.auctions.push(entry(EscrowProvider::TrustlessWork, Some(bid)));
    house.auctions.push(entry(EscrowProvider::TrustlessWork, None));

    let mint = AuctionCall::Mint {
        registry: REGISTRY,
        to: winner,
        token_uri: "ipfs://to-be-minted".to_string(),
    };
    // under the internal backend the bid stays with the auction house
    assert_eq!(house.finalize(0, 3_601), Ok(vec![mint.clone()]));
    let info = house.get_auction(0).unwrap();
    assert!(info.finalized && !info.escrow_settled);
    assert_eq!(
        house.finalize(1, 3_601),
        Ok(vec![
            mint,
            AuctionCall::Plain(Effect::TokenTransfer {
                token: XLM,
                from: HOUSE,
                to: person(8),
                amount: 12
            }),
        ])
    );
    let info = house.get_auction(1).unwrap();
    assert!(info.finalized && info.escrow_settled);
    assert_eq!(house.finalize(2, 3_601), Ok(vec![]));
    assert!(house.get_auction(2).unwrap().finalized);
}
