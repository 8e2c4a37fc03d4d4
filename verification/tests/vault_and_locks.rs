use shimeji_contracts::address::{Address, AddressKind};
use shimeji_contracts::effect::Effect;
use shimeji_contracts::error::ErrorKind;
use shimeji_contracts::escrow_vault::{ShimejiEscrowVault, VaultError};
use shimeji_contracts::seller_locks::{LockEntry, SellerLocks};
use shimeji_contracts::text::{byte_length, is_blank};

fn person(n: u128) -> Address {
    Address::account(7, n)
}

#[test]
fn addresses_are_told_apart_by_kind_and_key() {
    assert_eq!(Address::account(1, 2), Address { kind: AddressKind::Account, hi: 1, lo: 2 });
    assert_eq!(Address::contract(1, 2), Address { kind: AddressKind::Contract, hi: 1, lo: 2 });
    assert_ne!(Address::account(1, 2), Address::contract(1, 2));
    assert_ne!(Address::account(1, 2), Address::account(2, 1));
    assert!(Address::contract(0, 0).is_contract());
    assert!(!Address::account(0, 0).is_contract());
}

#[test]
fn text_lengths_count_bytes() {
    assert_eq!(byte_length(&String::new()), 0);
    assert_eq!(byte_length(&"shimeji".to_string()), 7);
    assert_eq!(byte_length(&"é".to_string()), 2);
    assert_eq!(byte_length(&"日本語".to_string()), 9);
    assert!(is_blank(&String::new()));
    assert!(!is_blank(&" ".to_string()));
}

#[test]
fn a_lock_is_found_replaced_and_released() {
    let mut locks = SellerLocks::new();
    assert_eq!(locks.get(person(1)), None);
    assert!(!locks.contains(person(1)));
    locks.remove(person(1));
    assert!(locks.entries.is_empty());

    locks.insert(person(1), 10);
    locks.insert(person(2), 20);
    locks.insert(person(3), 30);
    assert_eq!(locks.get(person(1)), Some(10));
    assert_eq!(locks.get(person(2)), Some(20));
    assert_eq!(locks.get(person(3)), Some(30));
    assert_eq!(locks.get(person(4)), None);

    // a later lock of the same holder replaces the earlier one
    locks.insert(person(2), 21);
    assert_eq!(locks.get(person(2)), Some(21));
    assert!(locks.contains(person(2)));

    // and releasing lets go of it altogether
    locks.remove(person(2));
    assert_eq!(locks.get(person(2)), None);
    assert_eq!(
        locks.entries,
        vec![LockEntry { holder: person(1), id: 10 }, LockEntry { holder: person(3), id: 30 }]
    );
    locks.remove(person(4));
    assert_eq!(locks.entries.len(), 2);
}

#[test]
fn the_vault_pays_on_the_word_of_admin_or_operator() {
    let vault_addr = Address::contract(1, 1);
    let token = Address::contract(1, 2);
    let admin = person(1);
    let operator = person(2);
    let mut vault = ShimejiEscrowVault::new(vault_addr);
    assert_eq!(vault.admin(), Err(VaultError::NotInitialized));
    assert_eq!(vault.set_operator(admin, operator), Err(VaultError::NotInitialized));
    assert_eq!(vault.payout_token(admin, token, person(3), 5), Err(VaultError::NotInitialized));
    assert_eq!(vault.payout_token(admin, token, person(3), 0), Err(VaultError::AmountNotPositive));

    vault.initialize(admin).unwrap();
    let again = vault.initialize(operator).unwrap_err();
    assert_eq!(again, VaultError::AlreadyInitialized);
    assert_eq!(again.kind(), ErrorKind::AlreadyInitialized);
    assert_eq!(vault.admin(), Ok(admin));
    assert_eq!(vault.require_admin(admin), Ok(admin));
    assert_eq!(vault.require_admin(operator), Err(VaultError::NotAdmin));

    let unset = vault.operator().unwrap_err();
    assert_eq!(unset, VaultError::OperatorNotConfigured);
    assert_eq!(unset.message(), "operator not configured");
    // until an operator is named not even the admin can pay out
    assert_eq!(
        vault.payout_token(admin, token, person(3), 5),
        Err(VaultError::OperatorNotConfigured)
    );
    assert_eq!(vault.set_operator(operator, operator), Err(VaultError::NotAdmin));
    vault.set_operator(admin, operator).unwrap();
    assert_eq!(vault.operator(), Ok(operator));

    let expected = Effect::TokenTransfer { token, from: vault_addr, to: person(3), amount: 5 };
    assert_eq!(vault.payout_token(admin, token, person(3), 5), Ok(expected));
    assert_eq!(vault.payout_token(operator, token, person(3), 5), Ok(expected));
    let refused = vault.payout_token(person(3), token, person(3), 5).unwrap_err();
    assert_eq!(refused, VaultError::UnauthorizedPayoutCaller);
    assert_eq!(refused.message(), "unauthorized payout caller");
    assert_eq!(refused.kind(), ErrorKind::Unauthorized);
    let refused = vault.payout_token(operator, token, person(3), -1).unwrap_err();
    assert_eq!(refused, VaultError::AmountNotPositive);
    assert_eq!(refused.message(), "amount must be positive");
    assert_eq!(refused.kind(), ErrorKind::Validation);
}
