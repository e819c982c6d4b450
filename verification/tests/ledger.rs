use erc20::AccountId;
use erc20::Erc20;
use erc20::Error;

fn fresh(total_supply: u128, owner: AccountId) -> Erc20 {
    let (ledger, _event) = Erc20::new(
        String::from("Token"),
        String::from("TOK"),
        12,
        total_supply,
        owner,
    );
    ledger
}

#[test]
fn new_assigns_total_supply_to_caller() {
    let a = AccountId(1);
    let b = AccountId(2);
    let (ledger, event) = Erc20::new(
        String::from("Token"),
        String::from("TOK"),
        12,
        1000,
        a,
    );
    assert_eq!(ledger.total_supply(), 1000);
    assert_eq!(ledger.balance_of(a), 1000);
    assert_eq!(ledger.balance_of(b), 0);
    assert_eq!(ledger.name(), String::from("Token"));
    assert_eq!(ledger.symbol(), String::from("TOK"));
    assert_eq!(ledger.decimals(), 12);
    assert_eq!(event.from, None);
    assert_eq!(event.to, Some(a));
    assert_eq!(event.value, 1000);
}

#[test]
fn balance_of_unknown_account_is_zero() {
    let ledger = fresh(1000, AccountId(1));
    assert_eq!(ledger.balance_of(AccountId(99)), 0);
}

#[test]
fn allowance_unset_is_zero() {
    let ledger = fresh(1000, AccountId(1));
    assert_eq!(ledger.allowance(AccountId(1), AccountId(2)), 0);
    assert_eq!(ledger.allowance(AccountId(7), AccountId(8)), 0);
}

#[test]
fn transfer_moves_balance() {
    let a = AccountId(1);
    let b = AccountId(2);
    let mut ledger = fresh(1000, a);
    let result = ledger.transfer(a, b, 400);
    let event = result.unwrap();
    assert_eq!(ledger.balance_of(a), 600);
    assert_eq!(ledger.balance_of(b), 400);
    assert_eq!(event.from, Some(a));
    assert_eq!(event.to, Some(b));
    assert_eq!(event.value, 400);
}

#[test]
fn transfer_with_insufficient_balance_fails() {
    let a = AccountId(1);
    let b = AccountId(2);
    let mut ledger = fresh(1000, a);
    let result = ledger.transfer(a, b, 1001);
    assert_eq!(result, Err(Error::InsufficientBalance));
    assert_eq!(ledger.balance_of(a), 1000);
    assert_eq!(ledger.balance_of(b), 0);
}

#[test]
fn transfer_from_account_without_balance_fails() {
    let a = AccountId(1);
    let b = AccountId(2);
    let mut ledger = fresh(1000, a);
    let result = ledger.transfer(b, a, 1);
    assert_eq!(result, Err(Error::InsufficientBalance));
    assert_eq!(ledger.balance_of(a), 1000);
    assert_eq!(ledger.balance_of(b), 0);
}

#[test]
fn transfer_of_zero_value_succeeds() {
    let a = AccountId(1);
    let b = AccountId(2);
    let mut ledger = fresh(1000, a);
    let result = ledger.transfer(a, b, 0);
    let event = result.unwrap();
    assert_eq!(ledger.balance_of(a), 1000);
    assert_eq!(ledger.balance_of(b), 0);
    assert_eq!(event.from, Some(a));
    assert_eq!(event.to, Some(b));
    assert_eq!(event.value, 0);
}

#[test]
fn transfer_to_self_keeps_balance() {
    let a = AccountId(1);
    let mut ledger = fresh(1000, a);
    let result = ledger.transfer(a, a, 700);
    let event = result.unwrap();
    assert_eq!(ledger.balance_of(a), 1000);
    assert_eq!(event.from, Some(a));
    assert_eq!(event.to, Some(a));
    assert_eq!(event.value, 700);
}

#[test]
fn transfer_of_entire_balance_empties_account() {
    let a = AccountId(1);
    let b = AccountId(2);
    let mut ledger = fresh(1000, a);
    assert!(ledger.transfer(a, b, 1000).is_ok());
    assert_eq!(ledger.balance_of(a), 0);
    assert_eq!(ledger.balance_of(b), 1000);
}

#[test]
fn transfers_preserve_total_supply() {
    let a = AccountId(1);
    let b = AccountId(2);
    let c = AccountId(3);
    let mut ledger = fresh(1000, a);
    assert!(ledger.transfer(a, b, 250).is_ok());
    assert!(ledger.transfer(b, c, 100).is_ok());
    assert!(ledger.transfer(a, a, 50).is_ok());
    let sum = ledger.balance_of(a) + ledger.balance_of(b) + ledger.balance_of(c);
    assert_eq!(sum, ledger.total_supply());
}

#[test]
fn approve_sets_allowance() {
    let a = AccountId(1);
    let c = AccountId(3);
    let mut ledger = fresh(1000, a);
    let result = ledger.approve(a, c, 300);
    let event = result.unwrap();
    assert_eq!(ledger.allowance(a, c), 300);
    assert_eq!(ledger.allowance(c, a), 0);
    assert_eq!(ledger.balance_of(a), 1000);
    assert_eq!(event.owner, a);
    assert_eq!(event.spender, c);
    assert_eq!(event.value, 300);
}

#[test]
fn approve_overwrites_previous_allowance() {
    let a = AccountId(1);
    let c = AccountId(3);
    let mut ledger = fresh(1000, a);
    assert!(ledger.approve(a, c, 300).is_ok());
    assert!(ledger.approve(a, c, 150).is_ok());
    assert_eq!(ledger.allowance(a, c), 150);
}

#[test]
fn approve_may_exceed_balance() {
    let a = AccountId(1);
    let c = AccountId(3);
    let mut ledger = fresh(1000, a);
    assert!(ledger.approve(a, c, 5000).is_ok());
    assert_eq!(ledger.allowance(a, c), 5000);
}

#[test]
fn transfer_from_spends_allowance() {
    let a = AccountId(1);
    let c = AccountId(3);
    let d = AccountId(4);
    let mut ledger = fresh(1000, a);
    assert!(ledger.approve(a, c, 300).is_ok());
    let result = ledger.transfer_from(c, a, d, 200);
    let event = result.unwrap();
    assert_eq!(ledger.balance_of(a), 800);
    assert_eq!(ledger.balance_of(d), 200);
    assert_eq!(ledger.balance_of(c), 0);
    assert_eq!(ledger.allowance(a, c), 100);
    assert_eq!(event.from, Some(a));
    assert_eq!(event.to, Some(d));
    assert_eq!(event.value, 200);
}

#[test]
fn transfer_from_without_allowance_fails() {
    let a = AccountId(1);
    let c = AccountId(3);
    let d = AccountId(4);
    let mut ledger = fresh(1000, a);
    let result = ledger.transfer_from(c, a, d, 1);
    assert_eq!(result, Err(Error::InsufficientAllowance));
    assert_eq!(ledger.balance_of(a), 1000);
    assert_eq!(ledger.balance_of(d), 0);
}

#[test]
fn allowance_failure_reported_even_when_balance_also_short() {
    let a = AccountId(1);
    let c = AccountId(3);
    let d = AccountId(4);
    let mut ledger = fresh(1000, a);
    assert!(ledger.approve(a, c, 10).is_ok());
    // `a` holds 1000 < 2000 as well, but the allowance check comes first.
    let result = ledger.transfer_from(c, a, d, 2000);
    assert_eq!(result, Err(Error::InsufficientAllowance));
    assert_eq!(ledger.balance_of(a), 1000);
    assert_eq!(ledger.allowance(a, c), 10);
}

#[test]
fn transfer_from_with_insufficient_balance_keeps_allowance() {
    let a = AccountId(1);
    let c = AccountId(3);
    let d = AccountId(4);
    let mut ledger = fresh(1000, a);
    assert!(ledger.approve(a, c, 2000).is_ok());
    let result = ledger.transfer_from(c, a, d, 1500);
    assert_eq!(result, Err(Error::InsufficientBalance));
    assert_eq!(ledger.balance_of(a), 1000);
    assert_eq!(ledger.balance_of(d), 0);
    assert_eq!(ledger.allowance(a, c), 2000);
}

#[test]
fn transfer_from_of_entire_allowance_leaves_zero() {
    let a = AccountId(1);
    let c = AccountId(3);
    let mut ledger = fresh(1000, a);
    assert!(ledger.approve(a, c, 300).is_ok());
    assert!(ledger.transfer_from(c, a, c, 300).is_ok());
    assert_eq!(ledger.allowance(a, c), 0);
    assert_eq!(ledger.balance_of(c), 300);
}

#[test]
fn delegated_transfer_scenario() {
    let a = AccountId(1);
    let b = AccountId(2);
    let c = AccountId(3);
    let d = AccountId(4);
    let mut ledger = fresh(1000, a);
    assert!(ledger.transfer(a, b, 400).is_ok());
    assert_eq!(ledger.balance_of(a), 600);
    assert_eq!(ledger.balance_of(b), 400);
    assert!(ledger.approve(a, c, 300).is_ok());
    assert!(ledger.transfer_from(c, a, d, 300).is_ok());
    assert_eq!(ledger.balance_of(a), 300);
    assert_eq!(ledger.balance_of(d), 300);
    assert_eq!(ledger.allowance(a, c), 0);
    let result = ledger.transfer_from(c, a, d, 1);
    assert_eq!(result, Err(Error::InsufficientAllowance));
    let sum = ledger.balance_of(a) + ledger.balance_of(b) + ledger.balance_of(c)
        + ledger.balance_of(d);
    assert_eq!(sum, 1000);
}

#[test]
fn zero_supply_ledger_works() {
    let a = AccountId(1);
    let b = AccountId(2);
    let mut ledger = fresh(0, a);
    assert_eq!(ledger.total_supply(), 0);
    assert_eq!(ledger.balance_of(a), 0);
    assert!(ledger.transfer(a, b, 0).is_ok());
    assert_eq!(ledger.transfer(a, b, 1), Err(Error::InsufficientBalance));
}

#[test]
fn maximal_supply_can_move_without_overflow() {
    let a = AccountId(1);
    let b = AccountId(2);
    let mut ledger = fresh(u128::MAX, a);
    assert!(ledger.transfer(a, b, u128::MAX).is_ok());
    assert_eq!(ledger.balance_of(a), 0);
    assert_eq!(ledger.balance_of(b), u128::MAX);
    assert!(ledger.transfer(b, a, 1).is_ok());
    assert_eq!(ledger.balance_of(a), 1);
    assert_eq!(ledger.balance_of(b), u128::MAX - 1);
}
