use shimeji_contracts::address::Address;
use shimeji_contracts::commission::{
    CommissionError, CommissionRequest, CommissionStatus, ShimejiCommission,
};
use shimeji_contracts::currency::Currency;
use shimeji_contracts::effect::Effect;
use shimeji_contracts::error::ErrorKind;

const ADMIN: Address = Address { kind: shimeji_contracts::address::AddressKind::Account, hi: 0, lo: 1 };
const XLM: Address = Address { kind: shimeji_contracts::address::AddressKind::Contract, hi: 1, lo: 1 };
const USDC: Address = Address { kind: shimeji_contracts::address::AddressKind::Contract, hi: 1, lo: 2 };
const DESK: Address = Address { kind: shimeji_contracts::address::AddressKind::Contract, hi: 1, lo: 3 };

fn person(n: u128) -> Address {
    Address::account(7, n)
}

fn desk() -> ShimejiCommission {
    let mut desk = ShimejiCommission::new(DESK);
    desk.initialize(ADMIN, USDC, XLM).unwrap();
    desk
}

fn post(desk: &mut ShimejiCommission, buyer: Address, currency: Currency) -> u64 {
    desk.create_commission(buyer, "a fox".to_string(), String::new(), 100, 10, 1, currency, 9)
        .unwrap()
        .0
}

#[test]
fn a_request_is_checked_field_by_field() {
    let mut d = desk();
    let b = person(1);
    let mut create = |i: &str, r: &str, px: i128, pu: i128, rate: i128| {
        d.create_commission(b, i.to_string(), r.to_string(), px, pu, rate, Currency::Xlm, 0)
            .map(|created| created.0)
    };
    assert_eq!(create("", "", 0, 0, 0), Err(CommissionError::IntentionEmpty));
    assert_eq!(create(&"a".repeat(501), "", 0, 0, 0), Err(CommissionError::IntentionTooLong));
    assert_eq!(
        create(&"a".repeat(500), &"r".repeat(513), 0, 0, 0),
        Err(CommissionError::ReferenceImageTooLong)
    );
    assert_eq!(
        create(&"a".repeat(500), &"r".repeat(512), 0, 0, 0),
        Err(CommissionError::PriceXlmNotPositive)
    );
    assert_eq!(create("a", "", 1, 0, 0), Err(CommissionError::PriceUsdcNotPositive));
    assert_eq!(create("a", "", 1, 1, 0), Err(CommissionError::RateNotPositive));
    assert_eq!(create("a", "", 1, 1, 1), Ok(0));
    assert_eq!(CommissionError::RateNotPositive.kind(), ErrorKind::Validation);
    assert_eq!(CommissionError::RateNotPositive.message(), "xlm_usdc_rate must be positive");

    let mut fresh = ShimejiCommission::new(DESK);
    assert_eq!(
        fresh.create_commission(b, "a".to_string(), String::new(), 1, 1, 1, Currency::Xlm, 0),
        Err(CommissionError::NotInitialized)
    );
    assert_eq!(fresh.assign_artist(ADMIN, 0, b, 0), Err(CommissionError::NotInitialized));
    assert_eq!(fresh.initialize(ADMIN, USDC, XLM), Ok(()));
    let again = fresh.initialize(ADMIN, USDC, XLM).unwrap_err();
    assert_eq!(again, CommissionError::AlreadyInitialized);
    assert_eq!(again.kind(), ErrorKind::AlreadyInitialized);
}

#[test]
fn a_request_escrows_the_price_in_its_currency() {
    let mut d = desk();
    let buyer = person(1);
    let (id, effects) = d
        .create_commission(
            buyer,
            "a fox".to_string(),
            "ipfs://ref".to_string(),
            100,
            10,
            3,
            Currency::Usdc,
            9,
        )
        .unwrap();
    assert_eq!(
        effects,
        vec![Effect::TokenTransfer { token: USDC, from: buyer, to: DESK, amount: 10 }]
    );
    assert_eq!(
        d.get_commission(id),
        Ok(CommissionRequest {
            buyer,
            intention: "a fox".to_string(),
            reference_image: "ipfs://ref".to_string(),
            price_xlm: 100,
            price_usdc: 10,
            xlm_usdc_rate: 3,
            currency: Currency::Usdc,
            status: CommissionStatus::Open,
            token_id: 0,
            artist: None,
            created_at: 9,
        })
    );
    assert_eq!(d.get_commission(1), Err(CommissionError::CommissionNotFound));
    assert_eq!(d.total_commissions(), 1);
}

#[test]
fn each_stage_admits_its_own_party() {
    let mut d = desk();
    let buyer = person(1);
    let artist = person(2);
    let id = post(&mut d, buyer, Currency::Xlm);

    assert_eq!(d.assign_artist(buyer, id, artist, 4), Err(CommissionError::NotAdmin));
    assert_eq!(d.assign_artist(ADMIN, 9, artist, 4), Err(CommissionError::CommissionNotFound));
    assert_eq!(d.mark_delivered(artist, id), Err(CommissionError::NotAccepted));
    assert_eq!(d.approve_delivery(buyer, id), Err(CommissionError::NotDelivered));
    d.assign_artist(ADMIN, id, artist, 4).unwrap();
    assert_eq!(d.get_commission(id).unwrap().artist, Some(artist));

    assert_eq!(d.mark_delivered(person(3), id), Err(CommissionError::NotAssignedArtist));
    assert_eq!(d.mark_delivered(artist, 9), Err(CommissionError::CommissionNotFound));
    d.mark_delivered(artist, id).unwrap();
    assert_eq!(d.mark_delivered(artist, id), Err(CommissionError::NotAccepted));

    assert_eq!(d.approve_delivery(artist, id), Err(CommissionError::NotBuyer));
    assert_eq!(d.approve_delivery(buyer, 9), Err(CommissionError::CommissionNotFound));
    assert_eq!(
        d.approve_delivery(buyer, id),
        Ok(vec![Effect::TokenTransfer { token: XLM, from: DESK, to: artist, amount: 100 }])
    );
    assert_eq!(d.approve_delivery(buyer, id), Err(CommissionError::NotDelivered));
    assert_eq!(d.get_commission(id).unwrap().status, CommissionStatus::Completed);
}

#[test]
fn cancelling_depends_on_the_stage() {
    let mut d = desk();
    let buyer = person(1);
    let artist = person(2);

    // open: the buyer or the admin
    let id = post(&mut d, buyer, Currency::Usdc);
    let refused = d.cancel_commission(artist, id).unwrap_err();
    assert_eq!(refused, CommissionError::OpenCancelNotAllowed);
    assert_eq!(refused.kind(), ErrorKind::Unauthorized);
    assert_eq!(
        d.cancel_commission(ADMIN, id),
        Ok(vec![Effect::TokenTransfer { token: USDC, from: DESK, to: buyer, amount: 10 }])
    );
    assert_eq!(d.cancel_commission(ADMIN, id), Err(CommissionError::NotCancellable));
    assert_eq!(d.cancel_commission(ADMIN, 9), Err(CommissionError::CommissionNotFound));

    // accepted: the admin alone
    let id = post(&mut d, buyer, Currency::Xlm);
    d.assign_artist(ADMIN, id, artist, 4).unwrap();
    assert_eq!(d.cancel_commission(buyer, id), Err(CommissionError::AcceptedCancelNotAllowed));
    assert_eq!(
        d.cancel_commission(ADMIN, id),
        Ok(vec![Effect::TokenTransfer { token: XLM, from: DESK, to: buyer, amount: 100 }])
    );
    assert_eq!(d.get_commission(id).unwrap().status, CommissionStatus::Cancelled);

    // delivered: nobody
    let id = post(&mut d, buyer, Currency::Xlm);
    d.assign_artist(ADMIN, id, artist, 4).unwrap();
    d.mark_delivered(artist, id).unwrap();
    assert_eq!(d.cancel_commission(ADMIN, id), Err(CommissionError::NotCancellable));
    assert_eq!(d.assign_artist(ADMIN, id, artist, 4), Err(CommissionError::NotOpen));
}
