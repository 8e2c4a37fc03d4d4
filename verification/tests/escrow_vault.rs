use shimeji_contracts::address::Address;
use shimeji_contracts::effect::Effect;
use shimeji_contracts::escrow_vault::ShimejiEscrowVault;
use std::collections::HashMap;

fn balance(balances: &HashMap<(Address, Address), i128>, token: Address, who: Address) -> i128 {
    *balances.get(&(token, who)).unwrap_or(&0)
}

#[test]
fn test_initialize_and_read_admin() {
    let admin = Address::account(0, 1);
    let contract_id = Address::contract(1, 1);
    let mut client = ShimejiEscrowVault::new(contract_id);

    client.initialize(admin).unwrap();
    assert_eq!(client.admin().unwrap(), admin);
}

#[test]
#[should_panic(expected = "already initialized")]
fn test_double_initialize_panics() {
    let admin = Address::account(0, 1);
    let contract_id = Address::contract(1, 1);
    let mut client = ShimejiEscrowVault::new(contract_id);

    client.initialize(admin).unwrap();
    let refused = client.initialize(admin).unwrap_err();
    panic!("{}", refused.message());
}

#[test]
fn test_operator_can_payout_token() {
    let admin = Address::account(0, 1);
    let operator = Address::account(0, 2);
    let recipient = Address::account(0, 3);

    let xlm_addr = Address::contract(1, 2);
    let mut balances: HashMap<(Address, Address), i128> = HashMap::new();

    let contract_id = Address::contract(1, 1);
    let mut client = ShimejiEscrowVault::new(contract_id);
    client.initialize(admin).unwrap();
    client.set_operator(admin, operator).unwrap();

    balances.insert((xlm_addr, contract_id), 500_0000000i128);
    let payout = client.payout_token(operator, xlm_addr, recipient, 200_0000000i128).unwrap();
    match payout {
        Effect::TokenTransfer { token, from, to, amount } => {
            assert!(balance(&balances, token, from) >= amount);
            *balances.entry((token, from)).or_insert(0) -= amount;
            *balances.entry((token, to)).or_insert(0) += amount;
        }
        _ => unreachable!(),
    }

    assert_eq!(balance(&balances, xlm_addr, contract_id), 300_0000000i128);
    assert_eq!(balance(&balances, xlm_addr, recipient), 200_0000000i128);
}
