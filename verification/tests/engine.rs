use trumall::errors::MarketError;
use trumall::models::{Account, TransactionStatus, TransactionType};
use trumall::services::{
    cancel_transaction, execute_buy_transaction, execute_sell_transaction, new_buy_transaction,
    new_sell_transaction, record_transaction,
};

fn fresh_account(balance: u64) -> Account {
    Account {
        account_name: String::from("tester"),
        account_number: 123456789,
        account_balance: balance,
        transaction_history: Vec::new(),
        account_pin: 4321,
    }
}

fn buy(price: u64, quantity: u64, fee: u64) -> trumall::models::Transaction {
    new_buy_transaction(
        String::from("user-1"),
        String::from("item-1"),
        price,
        quantity,
        String::from("USD"),
        fee,
        String::from("USD"),
        Vec::new(),
    )
}

fn sell(price: u64, quantity: u64, fee: u64) -> trumall::models::Transaction {
    new_sell_transaction(
        String::from("user-1"),
        String::from("item-1"),
        price,
        quantity,
        String::from("USD"),
        fee,
        String::from("USD"),
        Vec::new(),
    )
}

#[test]
fn scenario_a_successful_buy() {
    let mut account = fresh_account(10000);
    let mut t = buy(1200, 1, 0);
    assert_eq!(t.amount, 1200);
    assert!(matches!(t.status, TransactionStatus::Pending));
    let r = execute_buy_transaction(&mut t, &mut account);
    assert!(r.is_ok());
    assert!(matches!(t.status, TransactionStatus::Completed));
    assert_eq!(account.account_balance, 8800);
    assert_eq!(account.transaction_history.len(), 1);
    assert_eq!(account.transaction_history[0].amount, 1200);
    assert!(matches!(
        account.transaction_history[0].status,
        TransactionStatus::Completed
    ));
}

#[test]
fn scenario_b_insufficient_funds() {
    let mut account = fresh_account(500);
    let mut t = buy(1200, 1, 0);
    let r = execute_buy_transaction(&mut t, &mut account);
    assert_eq!(r, Err(MarketError::InsufficientFunds));
    assert!(matches!(t.status, TransactionStatus::Failed));
    assert_eq!(account.account_balance, 500);
    assert_eq!(account.transaction_history.len(), 0);
}

#[test]
fn buy_amount_is_price_times_quantity() {
    let t = buy(250, 4, 7);
    assert_eq!(t.amount, 1000);
    assert_eq!(t.price, 250);
    assert_eq!(t.quantity, 4);
    assert_eq!(t.transaction_fee, 7);
    assert!(matches!(t.transaction_type, TransactionType::Buy));
    assert_eq!(t.currency, "USD");
}

#[test]
fn buy_debits_amount_plus_fee() {
    let mut account = fresh_account(10000);
    let mut t = buy(250, 4, 7);
    let r = execute_buy_transaction(&mut t, &mut account);
    assert!(r.is_ok());
    assert_eq!(account.account_balance, 10000 - 1000 - 7);
}

#[test]
fn sell_credits_amount_minus_fee() {
    let mut account = fresh_account(100);
    let mut t = sell(300, 2, 50);
    assert_eq!(t.amount, 600);
    assert!(matches!(t.transaction_type, TransactionType::Sell));
    let r = execute_sell_transaction(&mut t, &mut account);
    assert!(r.is_ok());
    assert!(matches!(t.status, TransactionStatus::Completed));
    assert_eq!(account.account_balance, 100 + 600 - 50);
    assert_eq!(account.transaction_history.len(), 1);
}

#[test]
fn balance_accounting_over_a_sequence() {
    let mut account = fresh_account(10000);
    let mut b1 = buy(1200, 1, 0);
    let mut s1 = sell(300, 2, 50);
    let mut b2 = buy(100, 3, 10);
    assert!(execute_buy_transaction(&mut b1, &mut account).is_ok());
    assert!(execute_sell_transaction(&mut s1, &mut account).is_ok());
    assert!(execute_buy_transaction(&mut b2, &mut account).is_ok());
    // initial - buy totals + sell nets
    assert_eq!(account.account_balance, 10000 - 1200 + (600 - 50) - (300 + 10));
    assert_eq!(account.transaction_history.len(), 3);
}

#[test]
fn second_buy_execution_refused() {
    let mut account = fresh_account(10000);
    let mut t = buy(1200, 1, 0);
    assert!(execute_buy_transaction(&mut t, &mut account).is_ok());
    let balance_after_first = account.account_balance;
    let history_after_first = account.transaction_history.len();
    let r2 = execute_buy_transaction(&mut t, &mut account);
    assert_eq!(r2, Err(MarketError::AlreadyFinalized));
    assert_eq!(account.account_balance, balance_after_first);
    assert_eq!(account.transaction_history.len(), history_after_first);
    assert!(matches!(t.status, TransactionStatus::Completed));
}

#[test]
fn second_sell_execution_refused() {
    let mut account = fresh_account(1000);
    let mut t = sell(300, 1, 0);
    assert!(execute_sell_transaction(&mut t, &mut account).is_ok());
    let balance_after_first = account.account_balance;
    let r2 = execute_sell_transaction(&mut t, &mut account);
    assert_eq!(r2, Err(MarketError::AlreadyFinalized));
    assert_eq!(account.account_balance, balance_after_first);
    assert_eq!(account.transaction_history.len(), 1);
}

#[test]
fn failed_buy_is_terminal_too() {
    let mut account = fresh_account(10);
    let mut t = buy(1200, 1, 0);
    assert_eq!(
        execute_buy_transaction(&mut t, &mut account),
        Err(MarketError::InsufficientFunds)
    );
    let r2 = execute_buy_transaction(&mut t, &mut account);
    assert_eq!(r2, Err(MarketError::AlreadyFinalized));
    assert_eq!(account.account_balance, 10);
}

#[test]
fn cancel_only_from_pending() {
    let mut t = buy(100, 1, 0);
    assert!(cancel_transaction(&mut t).is_ok());
    assert!(matches!(t.status, TransactionStatus::Canceled));
    assert_eq!(cancel_transaction(&mut t), Err(MarketError::AlreadyFinalized));
    let mut account = fresh_account(1000);
    let r = execute_buy_transaction(&mut t, &mut account);
    assert_eq!(r, Err(MarketError::AlreadyFinalized));
    assert_eq!(account.account_balance, 1000);
}

#[test]
fn exact_buy_of_whole_balance_succeeds() {
    let mut account = fresh_account(1207);
    let mut t = buy(1200, 1, 7);
    assert!(execute_buy_transaction(&mut t, &mut account).is_ok());
    assert_eq!(account.account_balance, 0);
}

#[test]
fn one_over_balance_fails() {
    let mut account = fresh_account(1206);
    let mut t = buy(1200, 1, 7);
    assert_eq!(
        execute_buy_transaction(&mut t, &mut account),
        Err(MarketError::InsufficientFunds)
    );
    assert_eq!(account.account_balance, 1206);
}

#[test]
fn record_transaction_appends_summary() {
    let mut account = fresh_account(0);
    let t = buy(10, 2, 1);
    record_transaction(&mut account, &t);
    assert_eq!(account.transaction_history.len(), 1);
    let s = &account.transaction_history[0];
    assert_eq!(s.amount, 20);
    assert_eq!(s.price, 10);
    assert_eq!(s.quantity, 2);
    assert_eq!(s.transaction_fee, 1);
    assert_eq!(s.transaction_id, t.transaction_id);
    assert_eq!(s.user_id, t.user_id);
    assert_eq!(s.item_id, t.item_id);
}

#[test]
fn fresh_ids_are_uuid_shaped() {
    let t = buy(1, 1, 0);
    assert_eq!(t.transaction_id.len(), 36);
    let u = buy(1, 1, 0);
    assert_ne!(t.transaction_id, u.transaction_id);
    assert!(t.timestamp > 0);
}

#[test]
fn ledger_primitives() {
    let mut account = fresh_account(100);
    assert_eq!(account.balance(), 100);
    assert!(account.debit(40).is_ok());
    assert_eq!(account.balance(), 60);
    assert_eq!(account.debit(61), Err(MarketError::InsufficientFunds));
    assert_eq!(account.balance(), 60);
    account.credit(15);
    assert_eq!(account.balance(), 75);
    assert!(account.check_pin(4321));
    assert!(!account.check_pin(1111));
}

#[test]
fn error_labels() {
    assert_eq!(MarketError::InsufficientFunds.label(), "insufficient_funds");
    assert_eq!(MarketError::DuplicateUsername.label(), "duplicate_username");
    assert_eq!(MarketError::AlreadyFinalized.label(), "already_finalized");
}
