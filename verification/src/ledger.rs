//! The ledger: one account's balance and append-only history.
//!
//! The balance is a `u64`, so it is non-negative by construction; the
//! contracts below guarantee that it changes only by the exact amount
//! of a checked debit or credit, and that history entries are only
//! ever appended, never reordered or removed.

use vstd::prelude::*;

use crate::errors::MarketError;
use crate::models::{Account, TransactionSummary};

verus! {

impl Account {
    /// The current balance, in minor currency units.
    pub fn balance(&self) -> (r: u64)
        ensures
            r == self.account_balance,
    {
        self.account_balance
    }

    /// Removes `amount` from the balance, all or nothing: the debit is
    /// applied exactly when it is covered, and a refused debit leaves
    /// the account untouched.
    pub fn debit(&mut self, amount: u64) -> (r: Result<(), MarketError>)
        ensures
            amount <= old(self).account_balance ==> {
                &&& r == Ok::<(), MarketError>(())
                &&& final(self).account_balance == old(self).account_balance - amount
                &&& final(self).transaction_history@ == old(self).transaction_history@
                &&& final(self).account_name == old(self).account_name
                &&& final(self).account_number == old(self).account_number
                &&& final(self).account_pin == old(self).account_pin
            },
            amount > old(self).account_balance ==> {
                &&& r == Err::<(), MarketError>(MarketError::InsufficientFunds)
                &&& *final(self) == *old(self)
            },
    {
        if amount <= self.account_balance {
            self.account_balance = self.account_balance - amount;
            Ok(())
        } else {
            Err(MarketError::InsufficientFunds)
        }
    }

    /// Adds `amount` to the balance (used for sell proceeds).  The sum
    /// must fit the machine word; no business bound is enforced.
    pub fn credit(&mut self, amount: u64)
        requires
            old(self).account_balance + amount <= u64::MAX,
        ensures
            final(self).account_balance == old(self).account_balance + amount,
            final(self).transaction_history@ == old(self).transaction_history@,
            final(self).account_name == old(self).account_name,
            final(self).account_number == old(self).account_number,
            final(self).account_pin == old(self).account_pin,
    {
        self.account_balance = self.account_balance + amount;
    }

    /// Appends one terminal transaction to the history.  Entries are
    /// immutable once added: nothing is reordered or removed.
    pub fn append_history(&mut self, summary: TransactionSummary)
        ensures
            final(self).transaction_history@ == old(self).transaction_history@.push(summary),
            final(self).account_balance == old(self).account_balance,
            final(self).account_name == old(self).account_name,
            final(self).account_number == old(self).account_number,
            final(self).account_pin == old(self).account_pin,
    {
        self.transaction_history.push(summary);
    }

    /// Whether `entered` is this account's PIN.
    pub fn check_pin(&self, entered: u32) -> (r: bool)
        ensures
            r == (self.account_pin == entered),
    {
        self.account_pin == entered
    }
}

} // verus!
