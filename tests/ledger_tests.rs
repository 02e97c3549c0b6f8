use erc20::account::AccountId;
use erc20::ledger::Erc20;

fn alice() -> AccountId {
    AccountId::from([0x1; 32])
}

fn bob() -> AccountId {
    AccountId::from([0x0; 32])
}

fn carol() -> AccountId {
    AccountId::new([0x7; 32])
}

#[test]
fn new_works() {
    let contract = Erc20::new(alice(), 777);
    assert_eq!(contract.total_supply(), 777);
}

#[test]
fn balance_works() {
    let contract = Erc20::new(alice(), 100);
    assert_eq!(contract.total_supply(), 100);
    assert_eq!(contract.balance_of(AccountId::from([0x1; 32])), 100);
    assert_eq!(contract.balance_of(AccountId::from([0x0; 32])), 0);
}

#[test]
fn transfer_works() {
    let mut contract = Erc20::new(alice(), 100);
    assert_eq!(contract.balance_of(AccountId::from([0x1; 32])), 100);
    assert!(contract.transfer(alice(), AccountId::from([0x0; 32]), 10));
    assert_eq!(contract.balance_of(AccountId::from([0x0; 32])), 10);
    assert!(!contract.transfer(alice(), AccountId::from([0x0; 32]), 100));
}

#[test]
fn construction_credits_deployer_only() {
    let contract = Erc20::new(alice(), 777);
    assert_eq!(contract.total_supply(), 777);
    assert_eq!(contract.balance_of(alice()), 777);
    assert_eq!(contract.balance_of(bob()), 0);
    assert_eq!(contract.balance_of(carol()), 0);
}

#[test]
fn transfer_moves_units() {
    let mut contract = Erc20::new(alice(), 100);
    assert!(contract.transfer_from_to(alice(), bob(), 10));
    assert_eq!(contract.balance_of(bob()), 10);
    assert_eq!(contract.balance_of(alice()), 90);
    assert_eq!(contract.total_supply(), 100);
}

#[test]
fn insufficient_funds_changes_nothing() {
    let mut contract = Erc20::new(alice(), 100);
    assert!(contract.transfer_from_to(alice(), bob(), 10));
    assert!(!contract.transfer_from_to(alice(), bob(), 100));
    assert_eq!(contract.balance_of(alice()), 90);
    assert_eq!(contract.balance_of(bob()), 10);
}

#[test]
fn empty_supply_refuses_positive_transfers() {
    let mut contract = Erc20::new(alice(), 0);
    assert_eq!(contract.total_supply(), 0);
    assert_eq!(contract.balance_of(alice()), 0);
    assert_eq!(contract.balance_of(bob()), 0);
    assert!(!contract.transfer_from_to(alice(), bob(), 1));
    assert!(!contract.transfer_from_to(bob(), alice(), 5));
    assert_eq!(contract.balance_of(alice()), 0);
    assert_eq!(contract.balance_of(bob()), 0);
}

#[test]
fn self_transfer_keeps_balance() {
    let mut contract = Erc20::new(alice(), 50);
    assert!(contract.transfer_from_to(alice(), alice(), 30));
    assert_eq!(contract.balance_of(alice()), 50);
    assert!(contract.transfer_from_to(alice(), alice(), 50));
    assert_eq!(contract.balance_of(alice()), 50);
    assert!(!contract.transfer_from_to(alice(), alice(), 51));
    assert_eq!(contract.balance_of(alice()), 50);
}

#[test]
fn zero_transfer_is_no_op() {
    let mut contract = Erc20::new(alice(), 20);
    assert!(contract.transfer_from_to(bob(), carol(), 0));
    assert!(contract.transfer_from_to(alice(), bob(), 0));
    assert_eq!(contract.balance_of(alice()), 20);
    assert_eq!(contract.balance_of(bob()), 0);
    assert_eq!(contract.balance_of(carol()), 0);
}

#[test]
fn supply_is_conserved_over_transfers() {
    let mut contract = Erc20::new(alice(), 1000);
    let accounts = [alice(), bob(), carol()];
    let steps: [(usize, usize, u128); 6] = [(0, 1, 300), (1, 2, 120), (2, 0, 500), (1, 0, 180), (0, 2, 700), (2, 1, 0)];
    for (from, to, value) in steps.iter() {
        contract.transfer_from_to(accounts[*from], accounts[*to], *value);
        let sum: u128 = accounts.iter().map(|a| contract.balance_of(*a)).sum();
        assert_eq!(sum, contract.total_supply());
    }
    assert_eq!(contract.balance_of(alice()), 180);
    assert_eq!(contract.balance_of(bob()), 0);
    assert_eq!(contract.balance_of(carol()), 820);
}

#[test]
fn third_party_is_unaffected() {
    let mut contract = Erc20::new(alice(), 100);
    assert!(contract.transfer_from_to(alice(), carol(), 40));
    assert!(contract.transfer_from_to(alice(), bob(), 25));
    assert_eq!(contract.balance_of(carol()), 40);
    assert_eq!(contract.balance_of(bob()), 25);
    assert_eq!(contract.balance_of(alice()), 35);
}

#[test]
fn largest_supply_moves_without_overflow() {
    let mut contract = Erc20::new(alice(), u128::MAX);
    assert!(contract.transfer_from_to(alice(), bob(), u128::MAX - 1));
    assert!(contract.transfer_from_to(alice(), bob(), 1));
    assert_eq!(contract.balance_of(bob()), u128::MAX);
    assert_eq!(contract.balance_of(alice()), 0);
    assert!(!contract.transfer_from_to(alice(), bob(), 1));
}

#[test]
fn account_comparison_is_bytewise() {
    assert!(alice().same_as(&AccountId::new([0x1; 32])));
    assert!(!alice().same_as(&bob()));
    let mut bytes = [0x1u8; 32];
    bytes[31] = 0x2;
    assert!(!alice().same_as(&AccountId::new(bytes)));
    assert_eq!(AccountId::from(bytes).bytes, bytes);
}
