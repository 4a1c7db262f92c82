//! A minimal marketplace core: an account ledger with a transaction
//! execution engine, a credential store, a session-token issuer, and a
//! read-only catalog with a shopping cart.
//!
//! Balances are non-negative integers in minor currency units.  A
//! transaction is created `Pending` and moves to exactly one terminal
//! status; the ledger's balance changes only through a successfully
//! applied transaction.

pub mod cart;
pub mod catalog;
pub mod credentials;
pub mod errors;
pub mod ledger;
pub mod models;
pub mod numerals;
pub mod services;
pub mod token;
pub mod utils;
