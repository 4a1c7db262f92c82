//! The data model: identities, session claims, catalog items, cart
//! entries, transactions and the per-account ledger.
//!
//! Identifiers are carried as plain strings (the boundary fills them
//! from freshly drawn UUIDs), and instants as seconds since the Unix
//! epoch, so that every rule below can be stated and checked over
//! ordinary values.

use vstd::prelude::*;

verus! {

/// A registered user: an opaque unique id, the display name used to
/// log in, and the one-way verifier derived from the secret.  The
/// plaintext secret itself is never stored.
pub struct User {
    pub id: String,
    pub username: String,
    pub password_hash: String,
}

/// The claims carried by a session token: the subject's id and the
/// expiry instant in seconds since the Unix epoch.
pub struct Claims {
    pub sub: String,
    pub exp: usize,
}

/// A sellable catalog entry.  `price` is a non-negative amount in
/// minor currency units.
pub struct Item {
    pub id: String,
    pub name: String,
    pub price: u64,
    pub description: String,
}

/// One line of a shopping cart: an item and how many of it.
pub struct CartItem {
    pub item: Item,
    pub quantity: u32,
}

/// The kind of a transaction.  `Transfer` is declared for future
/// callers and never constructed by the engine.
#[derive(Clone, Copy, Debug, PartialEq, Eq, Structural)]
pub enum TransactionType {
    Buy,
    Sell,
    Transfer,
}

/// The lifecycle status of a transaction: created `Pending`, it moves
/// to exactly one terminal status and never moves again.
#[derive(Clone, Copy, Debug, PartialEq, Eq, Structural)]
pub enum TransactionStatus {
    Pending,
    Completed,
    Failed,
    Canceled,
}

/// A single buy or sell operation.  `amount` is the unit price times
/// the quantity; the fee is kept separate.  `timestamp` is seconds
/// since the Unix epoch.  `metadata` is a free-form mapping carried
/// through untouched.
pub struct Transaction {
    pub transaction_id: String,
    pub user_id: String,
    pub transaction_type: TransactionType,
    pub metadata: Vec<(String, String)>,
    pub amount: u64,
    pub price: u64,
    pub quantity: u64,
    pub currency: String,
    pub status: TransactionStatus,
    pub item_id: String,
    pub timestamp: i64,
    pub transaction_fee: u64,
    pub transaction_fee_currency: String,
}

/// The body of a signup request.
pub struct SignupData {
    pub username: String,
    pub password: String,
}

/// The body of a login request.
pub struct LoginData {
    pub username: String,
    pub password: String,
}

/// The structured record of one terminal transaction, appended to the
/// owning account's history in place of free-form logging.  It carries
/// every field of the transaction except the free-form metadata.
pub struct TransactionSummary {
    pub transaction_id: String,
    pub user_id: String,
    pub transaction_type: TransactionType,
    pub amount: u64,
    pub price: u64,
    pub quantity: u64,
    pub currency: String,
    pub status: TransactionStatus,
    pub item_id: String,
    pub timestamp: i64,
    pub transaction_fee: u64,
    pub transaction_fee_currency: String,
}

/// One account's ledger: a non-negative balance in minor units and the
/// append-only history of terminal transactions, plus the owner's name,
/// account number and PIN.
pub struct Account {
    pub account_name: String,
    pub account_number: u32,
    pub account_balance: u64,
    pub transaction_history: Vec<TransactionSummary>,
    pub account_pin: u32,
}

/// Whether a status is terminal: a transaction that reached it never
/// changes status again.
pub open spec fn is_terminal(s: TransactionStatus) -> bool {
    s != TransactionStatus::Pending
}

} // verus!
