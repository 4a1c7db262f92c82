//! The transaction engine: constructs buy/sell transactions and
//! executes them against a ledger.
//!
//! A transaction is created `Pending` and moves to exactly one
//! terminal status.  Execution is all-or-nothing on the ledger: a
//! refused debit leaves balance and history untouched, and a
//! transaction already in a terminal status is refused outright.
//! The exact effect of each execution is stated by the transition
//! relations [`buy_transition`] and [`sell_transition`], and the laws
//! at the bottom are proved from them alone.

use vstd::prelude::*;

use crate::errors::MarketError;
use crate::models::{
    is_terminal, Account, Transaction, TransactionStatus, TransactionSummary, TransactionType,
};

verus! {

/// What a completed buy removes from the ledger: amount plus fee.
pub open spec fn buy_total(t: Transaction) -> int {
    t.amount + t.transaction_fee
}

/// What a completed sell adds to the ledger: amount minus the retained
/// fee.
pub open spec fn sell_net(t: Transaction) -> int {
    t.amount - t.transaction_fee
}

/// The transaction as it stands after its status moved to `s`.
pub open spec fn tx_with_status(t: Transaction, s: TransactionStatus) -> Transaction {
    Transaction { status: s, ..t }
}

/// The history record of a transaction: every field but the metadata.
pub open spec fn summary_of(t: Transaction) -> TransactionSummary {
    TransactionSummary {
        transaction_id: t.transaction_id,
        user_id: t.user_id,
        transaction_type: t.transaction_type,
        amount: t.amount,
        price: t.price,
        quantity: t.quantity,
        currency: t.currency,
        status: t.status,
        item_id: t.item_id,
        timestamp: t.timestamp,
        transaction_fee: t.transaction_fee,
        transaction_fee_currency: t.transaction_fee_currency,
    }
}

/// Everything about the account except balance and history is as it
/// was.
pub open spec fn account_owner_unchanged(a0: Account, a1: Account) -> bool {
    &&& a1.account_name == a0.account_name
    &&& a1.account_number == a0.account_number
    &&& a1.account_pin == a0.account_pin
}

/// The exact effect of `execute_buy_transaction`: from transaction
/// `t0` and account `a0` to `t1` and `a1` with result `r`.
pub open spec fn buy_transition(
    t0: Transaction,
    t1: Transaction,
    a0: Account,
    a1: Account,
    r: Result<(), MarketError>,
) -> bool {
    if is_terminal(t0.status) {
        &&& r == Err::<(), MarketError>(MarketError::AlreadyFinalized)
        &&& t1 == t0
        &&& a1 == a0
    } else if buy_total(t0) <= a0.account_balance {
        &&& r == Ok::<(), MarketError>(())
        &&& t1 == tx_with_status(t0, TransactionStatus::Completed)
        &&& a1.account_balance == a0.account_balance - buy_total(t0)
        &&& a1.transaction_history@ == a0.transaction_history@.push(summary_of(t1))
        &&& account_owner_unchanged(a0, a1)
    } else {
        &&& r == Err::<(), MarketError>(MarketError::InsufficientFunds)
        &&& t1 == tx_with_status(t0, TransactionStatus::Failed)
        &&& a1 == a0
    }
}

/// The exact effect of `execute_sell_transaction`.  A sell has no
/// funds check: the net proceeds are always credited.
pub open spec fn sell_transition(
    t0: Transaction,
    t1: Transaction,
    a0: Account,
    a1: Account,
    r: Result<(), MarketError>,
) -> bool {
    if is_terminal(t0.status) {
        &&& r == Err::<(), MarketError>(MarketError::AlreadyFinalized)
        &&& t1 == t0
        &&& a1 == a0
    } else {
        &&& r == Ok::<(), MarketError>(())
        &&& t1 == tx_with_status(t0, TransactionStatus::Completed)
        &&& a1.account_balance == a0.account_balance + sell_net(t0)
        &&& a1.transaction_history@ == a0.transaction_history@.push(summary_of(t1))
        &&& account_owner_unchanged(a0, a1)
    }
}

/// Relies on `uuid::Uuid::new_v4` (and its hyphenated rendering, 36
/// characters) for a fresh random identifier.  Nothing is promised of
/// the value itself: it is random.
#[verifier::external_body]
pub(crate) fn fresh_id() -> (r: String)
    ensures
        r@.len() == 36,
{
    uuid::Uuid::new_v4().to_string()
}

/// Relies on `chrono::Utc::now` for the current instant, as seconds
/// since the Unix epoch.  Nothing can be promised of the clock's
/// reading.
#[verifier::external_body]
fn now_timestamp() -> i64 {
    chrono::Utc::now().timestamp()
}

/// Builds a pending buy transaction for `quantity` units at `price`
/// each; no side effect on any ledger.  The id is freshly drawn and
/// the timestamp is the clock's reading, so neither is pinned here.
pub fn new_buy_transaction(
    user_id: String,
    item_id: String,
    price: u64,
    quantity: u64,
    currency: String,
    transaction_fees: u64,
    transaction_fee_currency: String,
    metadata: Vec<(String, String)>,
) -> (t: Transaction)
    requires
        quantity >= 1,
        price * quantity <= u64::MAX,
    ensures
        t.transaction_type == TransactionType::Buy,
        t.status == TransactionStatus::Pending,
        t.amount == price * quantity,
        t.user_id == user_id,
        t.item_id == item_id,
        t.price == price,
        t.quantity == quantity,
        t.currency == currency,
        t.transaction_fee == transaction_fees,
        t.transaction_fee_currency == transaction_fee_currency,
        t.metadata == metadata,
        t.transaction_id@.len() == 36,
{
    let amount = price * quantity;
    Transaction {
        transaction_id: fresh_id(),
        user_id,
        transaction_type: TransactionType::Buy,
        metadata,
        amount,
        price,
        quantity,
        currency,
        status: TransactionStatus::Pending,
        item_id,
        timestamp: now_timestamp(),
        transaction_fee: transaction_fees,
        transaction_fee_currency,
    }
}

/// Builds a pending sell transaction; no side effect on any ledger.
pub fn new_sell_transaction(
    user_id: String,
    item_id: String,
    item_price: u64,
    item_quantity: u64,
    currency: String,
    transaction_fees: u64,
    transaction_fees_currency: String,
    metadata: Vec<(String, String)>,
) -> (t: Transaction)
    requires
        item_quantity >= 1,
        item_price * item_quantity <= u64::MAX,
    ensures
        t.transaction_type == TransactionType::Sell,
        t.status == TransactionStatus::Pending,
        t.amount == item_price * item_quantity,
        t.user_id == user_id,
        t.item_id == item_id,
        t.price == item_price,
        t.quantity == item_quantity,
        t.currency == currency,
        t.transaction_fee == transaction_fees,
        t.transaction_fee_currency == transaction_fees_currency,
        t.metadata == metadata,
        t.transaction_id@.len() == 36,
{
    let amount = item_price * item_quantity;
    Transaction {
        transaction_id: fresh_id(),
        user_id,
        transaction_type: TransactionType::Sell,
        metadata,
        amount,
        price: item_price,
        quantity: item_quantity,
        currency,
        status: TransactionStatus::Pending,
        item_id,
        timestamp: now_timestamp(),
        transaction_fee: transaction_fees,
        transaction_fee_currency: transaction_fees_currency,
    }
}

/// The structured record of a terminal transaction, ready to append.
fn make_summary(t: &Transaction) -> (s: TransactionSummary)
    ensures
        s == summary_of(*t),
{
    TransactionSummary {
        transaction_id: t.transaction_id.clone(),
        user_id: t.user_id.clone(),
        transaction_type: t.transaction_type,
        amount: t.amount,
        price: t.price,
        quantity: t.quantity,
        currency: t.currency.clone(),
        status: t.status,
        item_id: t.item_id.clone(),
        timestamp: t.timestamp,
        transaction_fee: t.transaction_fee,
        transaction_fee_currency: t.transaction_fee_currency.clone(),
    }
}

/// Appends the structured record of `transaction` to the account's
/// history, in place of fire-and-forget logging.
pub fn record_transaction(account: &mut Account, transaction: &Transaction)
    ensures
        final(account).transaction_history@ == old(account).transaction_history@.push(
            summary_of(*transaction),
        ),
        final(account).account_balance == old(account).account_balance,
        account_owner_unchanged(*old(account), *final(account)),
{
    let s = make_summary(transaction);
    account.append_history(s);
}

/// Executes a buy against the ledger: debits amount plus fee as one
/// indivisible step.  On cover, the transaction completes and its
/// record is appended; on insufficient funds it fails and nothing of
/// the account changes; a transaction already terminal is refused.
pub fn execute_buy_transaction(
    transaction: &mut Transaction,
    account: &mut Account,
) -> (r: Result<(), MarketError>)
    requires
        !is_terminal(old(transaction).status) ==> old(transaction).amount + old(
            transaction,
        ).transaction_fee <= u64::MAX,
    ensures
        buy_transition(*old(transaction), *final(transaction), *old(account), *final(account), r),
{
    if transaction.status != TransactionStatus::Pending {
        return Err(MarketError::AlreadyFinalized);
    }
    let total_amount = transaction.amount + transaction.transaction_fee;
    match account.debit(total_amount) {
        Ok(_) => {
            transaction.status = TransactionStatus::Completed;
            record_transaction(account, transaction);
            Ok(())
        },
        Err(e) => {
            transaction.status = TransactionStatus::Failed;
            Err(e)
        },
    }
}

/// Executes a sell against the ledger: credits amount minus the
/// retained fee, completes the transaction and appends its record.
/// There is no funds check on this path; a transaction already
/// terminal is refused.
pub fn execute_sell_transaction(
    transaction: &mut Transaction,
    account: &mut Account,
) -> (r: Result<(), MarketError>)
    requires
        !is_terminal(old(transaction).status) ==> {
            &&& old(transaction).transaction_fee <= old(transaction).amount
            &&& old(account).account_balance + (old(transaction).amount - old(
                transaction,
            ).transaction_fee) <= u64::MAX
        },
    ensures
        sell_transition(*old(transaction), *final(transaction), *old(account), *final(account), r),
{
    if transaction.status != TransactionStatus::Pending {
        return Err(MarketError::AlreadyFinalized);
    }
    let net = transaction.amount - transaction.transaction_fee;
    account.credit(net);
    transaction.status = TransactionStatus::Completed;
    record_transaction(account, transaction);
    Ok(())
}

/// Cancels a still-pending transaction; reserved for callers that
/// abandon a transaction before execution.  A transaction already
/// terminal is refused.
pub fn cancel_transaction(transaction: &mut Transaction) -> (r: Result<(), MarketError>)
    ensures
        if is_terminal(old(transaction).status) {
            r == Err::<(), MarketError>(MarketError::AlreadyFinalized) && *final(transaction)
                == *old(transaction)
        } else {
            r == Ok::<(), MarketError>(()) && *final(transaction) == tx_with_status(
                *old(transaction),
                TransactionStatus::Canceled,
            )
        },
{
    if transaction.status != TransactionStatus::Pending {
        return Err(MarketError::AlreadyFinalized);
    }
    transaction.status = TransactionStatus::Canceled;
    Ok(())
}

/// What one history record contributes to the balance: a buy removed
/// its total, a sell added its net, anything else moved nothing.
pub open spec fn summary_delta(s: TransactionSummary) -> int {
    match s.transaction_type {
        TransactionType::Buy => -(s.amount + s.transaction_fee),
        TransactionType::Sell => s.amount - s.transaction_fee,
        TransactionType::Transfer => 0,
    }
}

/// The net effect of a whole history on the balance.
pub open spec fn history_delta(h: Seq<TransactionSummary>) -> int
    decreases h.len(),
{
    if h.len() == 0 {
        0
    } else {
        history_delta(h.drop_last()) + summary_delta(h.last())
    }
}

/// The accounting statement: the balance equals the initial balance
/// plus the net effect of everything in the history.
pub open spec fn accounted_from(initial: int, a: Account) -> bool {
    a.account_balance == initial + history_delta(a.transaction_history@)
}

/// Law: the base of the accounting induction.  An account with an
/// empty history is accounted from its own balance; each execution
/// then preserves the statement, by the two lemmas below.
pub proof fn lemma_fresh_account_accounted(a: Account)
    requires
        a.transaction_history@.len() == 0,
    ensures
        accounted_from(a.account_balance as int, a),
{
}

/// Law: a buy execution keeps the books.  If the balance equalled the
/// initial balance minus completed buy totals plus completed sell nets
/// before the call, it does after, and it is never negative.
pub proof fn lemma_buy_preserves_accounting(
    initial: int,
    t0: Transaction,
    t1: Transaction,
    a0: Account,
    a1: Account,
    r: Result<(), MarketError>,
)
    requires
        t0.transaction_type == TransactionType::Buy,
        buy_transition(t0, t1, a0, a1, r),
        accounted_from(initial, a0),
    ensures
        accounted_from(initial, a1),
        a1.account_balance >= 0,
{
    if !is_terminal(t0.status) && buy_total(t0) <= a0.account_balance {
        let h1 = a1.transaction_history@;
        assert(h1.drop_last() =~= a0.transaction_history@);
        assert(h1.last() == summary_of(t1));
    }
}

/// Law: a sell execution keeps the books, and the balance is never
/// negative.
pub proof fn lemma_sell_preserves_accounting(
    initial: int,
    t0: Transaction,
    t1: Transaction,
    a0: Account,
    a1: Account,
    r: Result<(), MarketError>,
)
    requires
        t0.transaction_type == TransactionType::Sell,
        sell_transition(t0, t1, a0, a1, r),
        accounted_from(initial, a0),
    ensures
        accounted_from(initial, a1),
        a1.account_balance >= 0,
{
    if !is_terminal(t0.status) {
        let h1 = a1.transaction_history@;
        assert(h1.drop_last() =~= a0.transaction_history@);
        assert(h1.last() == summary_of(t1));
    }
}

/// Law: no partial debit.  A buy that failed for insufficient funds
/// left the account — balance and history — exactly as it was.
pub proof fn lemma_no_partial_debit(
    t0: Transaction,
    t1: Transaction,
    a0: Account,
    a1: Account,
    r: Result<(), MarketError>,
)
    requires
        buy_transition(t0, t1, a0, a1, r),
        r == Err::<(), MarketError>(MarketError::InsufficientFunds),
    ensures
        a1 == a0,
        a1.account_balance == a0.account_balance,
        a1.transaction_history@ == a0.transaction_history@,
{
}

/// Law: the idempotence guard for buys.  Whatever a first execution
/// returned, it left the transaction terminal, so a second execution
/// of the same transaction answers `AlreadyFinalized` and moves
/// neither the transaction nor the ledger.
pub proof fn lemma_buy_idempotence_guard(
    t0: Transaction,
    t1: Transaction,
    t2: Transaction,
    a0: Account,
    a1: Account,
    a2: Account,
    r1: Result<(), MarketError>,
    r2: Result<(), MarketError>,
)
    requires
        buy_transition(t0, t1, a0, a1, r1),
        buy_transition(t1, t2, a1, a2, r2),
    ensures
        r2 == Err::<(), MarketError>(MarketError::AlreadyFinalized),
        t2 == t1,
        a2 == a1,
{
}

/// Law: the idempotence guard for sells, as for buys.
pub proof fn lemma_sell_idempotence_guard(
    t0: Transaction,
    t1: Transaction,
    t2: Transaction,
    a0: Account,
    a1: Account,
    a2: Account,
    r1: Result<(), MarketError>,
    r2: Result<(), MarketError>,
)
    requires
        sell_transition(t0, t1, a0, a1, r1),
        sell_transition(t1, t2, a1, a2, r2),
    ensures
        r2 == Err::<(), MarketError>(MarketError::AlreadyFinalized),
        t2 == t1,
        a2 == a1,
{
}

} // verus!
