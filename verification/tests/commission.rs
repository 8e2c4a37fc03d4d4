use shimeji_contracts::address::Address;
use shimeji_contracts::commission::{CommissionStatus, ShimejiCommission};
use shimeji_contracts::currency::Currency;
use shimeji_contracts::effect::Effect;
use std::collections::HashMap;

/// A small ledger around the commission desk: the balances of the two payment
/// tokens.
struct TestEnv {
    next_key: u128,
    commission: ShimejiCommission,
    xlm: Address,
    usdc: Address,
    balances: HashMap<(Address, Address), i128>,
    admin: Address,
}

impl TestEnv {
    fn generate(&mut self) -> Address {
        self.next_key += 1;
        Address::account(0, self.next_key)
    }

    fn fund(&mut self, token: Address, to: Address, amount: i128) {
        *self.balances.entry((token, to)).or_insert(0) += amount;
    }

    fn balance(&self, token: Address, who: Address) -> i128 {
        *self.balances.get(&(token, who)).unwrap_or(&0)
    }

    fn apply(&mut self, effects: &[Effect]) {
        for effect in effects {
            match *effect {
                Effect::TokenTransfer { token, from, to, amount } => {
                    assert!(amount >= 0, "negative amount");
                    assert!(self.balance(token, from) >= amount, "balance is not sufficient");
                    *self.balances.entry((token, from)).or_insert(0) -= amount;
                    *self.balances.entry((token, to)).or_insert(0) += amount;
                }
                _ => unreachable!(),
            }
        }
    }

    fn create_commission(
        &mut self,
        buyer: Address,
        intention: &str,
        reference_image: &str,
        currency: Currency,
    ) -> u64 {
        let (commission_id, effects) = self
            .commission
            .create_commission(
                buyer,
                intention.to_string(),
                reference_image.to_string(),
                100_0000000i128,
                10_0000000i128,
                1000000i128,
                currency,
                0,
            )
            .unwrap();
        self.apply(&effects);
        commission_id
    }
}

fn setup() -> TestEnv {
    let admin = Address::account(0, 1);
    let xlm = Address::contract(1, 1);
    let usdc = Address::contract(1, 2);
    let mut commission = ShimejiCommission::new(Address::contract(1, 3));
    commission.initialize(admin, usdc, xlm).unwrap();
    TestEnv { next_key: 1, commission, xlm, usdc, balances: HashMap::new(), admin }
}

#[test]
fn test_xlm_commission_happy_path() {
    let mut t = setup();
    let buyer = t.generate();
    let artist = t.generate();

    t.fund(t.xlm, buyer, 500_0000000i128);

    let commission_id = t.create_commission(
        buyer,
        "Draw my shimeji as a samurai!",
        "ipfs://Qm.../reference.png",
        Currency::Xlm,
    );
    assert_eq!(commission_id, 0);
    assert_eq!(t.commission.total_commissions(), 1);

    // Payment escrowed
    assert_eq!(t.balance(t.xlm, buyer), 400_0000000i128);

    // Admin assigns artist + egg token ID
    t.commission.assign_artist(t.admin, commission_id, artist, 42u64).unwrap();
    let c = t.commission.get_commission(commission_id).unwrap();
    assert_eq!(c.status, CommissionStatus::Accepted);
    assert_eq!(c.token_id, 42u64);

    // Artist marks delivered
    t.commission.mark_delivered(artist, commission_id).unwrap();
    let c = t.commission.get_commission(commission_id).unwrap();
    assert_eq!(c.status, CommissionStatus::Delivered);

    // Buyer approves
    let effects = t.commission.approve_delivery(buyer, commission_id).unwrap();
    t.apply(&effects);
    let c = t.commission.get_commission(commission_id).unwrap();
    assert_eq!(c.status, CommissionStatus::Completed);

    // Artist received payment
    assert_eq!(t.balance(t.xlm, artist), 100_0000000i128);
}

#[test]
fn test_usdc_commission_happy_path() {
    let mut t = setup();
    let buyer = t.generate();
    let artist = t.generate();

    t.fund(t.usdc, buyer, 50_0000000i128);

    let commission_id = t.create_commission(buyer, "Pixel art shimeji please", "", Currency::Usdc);

    t.commission.assign_artist(t.admin, commission_id, artist, 0u64).unwrap();
    t.commission.mark_delivered(artist, commission_id).unwrap();
    let effects = t.commission.approve_delivery(buyer, commission_id).unwrap();
    t.apply(&effects);

    assert_eq!(t.balance(t.usdc, artist), 10_0000000i128);
}

#[test]
fn test_cancel_open_commission() {
    let mut t = setup();
    let buyer = t.generate();

    t.fund(t.xlm, buyer, 100_0000000i128);

    let commission_id = t.create_commission(buyer, "Neon shimeji", "", Currency::Xlm);

    // Buyer cancels — payment returned
    let effects = t.commission.cancel_commission(buyer, commission_id).unwrap();
    t.apply(&effects);
    let c = t.commission.get_commission(commission_id).unwrap();
    assert_eq!(c.status, CommissionStatus::Cancelled);
    assert_eq!(t.balance(t.xlm, buyer), 100_0000000i128);
}

#[test]
#[should_panic(expected = "commission is not open")]
fn test_cannot_reassign_accepted_commission() {
    let mut t = setup();
    let buyer = t.generate();
    let artist1 = t.generate();
    let artist2 = t.generate();

    t.fund(t.xlm, buyer, 100_0000000i128);

    let commission_id = t.create_commission(buyer, "Cute shimeji", "", Currency::Xlm);

    t.commission.assign_artist(t.admin, commission_id, artist1, 0u64).unwrap();
    let refused = t.commission.assign_artist(t.admin, commission_id, artist2, 1u64).unwrap_err();
    panic!("{}", refused.message());
}
