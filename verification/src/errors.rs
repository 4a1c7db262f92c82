//! The error taxonomy of the marketplace core.
//!
//! Credential and session errors surface at the boundary as rejection
//! responses; transaction errors are terminal for the transaction that
//! raised them and never corrupt ledger state.

use vstd::prelude::*;

verus! {

/// Every failure the core can report.
///
/// `InvalidCredentials` is deliberately the single answer for both an
/// unknown username and a wrong secret, so that a caller cannot probe
/// which usernames exist.
#[derive(Clone, Copy, Debug, PartialEq, Eq, Structural)]
pub enum MarketError {
    /// A signup used a username that is already registered.
    DuplicateUsername,
    /// Authentication failed: unknown user or wrong secret.
    InvalidCredentials,
    /// A session token was presented at or after its expiry instant.
    TokenExpired,
    /// A session token's signature field is not even well-formed.
    TokenMalformed,
    /// A session token's signature does not match its contents.
    TokenBadSignature,
    /// A debit asked for more than the ledger holds.
    InsufficientFunds,
    /// A transaction in a terminal status was handed to the engine again.
    AlreadyFinalized,
    /// A catalog lookup named an item that is not listed.
    ItemNotFound,
    /// A menu selection was outside the offered range.
    InvalidSelection,
    /// Deriving the one-way secret verifier, or signing, failed internally.
    InternalHashingFailure,
}

/// The short stable label of each failure.
pub open spec fn label_of(e: MarketError) -> Seq<char> {
    match e {
        MarketError::DuplicateUsername => "duplicate_username"@,
        MarketError::InvalidCredentials => "invalid_credentials"@,
        MarketError::TokenExpired => "token_expired"@,
        MarketError::TokenMalformed => "token_malformed"@,
        MarketError::TokenBadSignature => "token_bad_signature"@,
        MarketError::InsufficientFunds => "insufficient_funds"@,
        MarketError::AlreadyFinalized => "already_finalized"@,
        MarketError::ItemNotFound => "item_not_found"@,
        MarketError::InvalidSelection => "invalid_selection"@,
        MarketError::InternalHashingFailure => "internal_hashing_failure"@,
    }
}

impl MarketError {
    /// A short stable label for display at the boundary.
    pub fn label(&self) -> (r: &'static str)
        ensures
            r@ == label_of(*self),
            r@.len() > 0,
    {
        let s = match self {
            MarketError::DuplicateUsername => "duplicate_username",
            MarketError::InvalidCredentials => "invalid_credentials",
            MarketError::TokenExpired => "token_expired",
            MarketError::TokenMalformed => "token_malformed",
            MarketError::TokenBadSignature => "token_bad_signature",
            MarketError::InsufficientFunds => "insufficient_funds",
            MarketError::AlreadyFinalized => "already_finalized",
            MarketError::ItemNotFound => "item_not_found",
            MarketError::InvalidSelection => "invalid_selection",
            MarketError::InternalHashingFailure => "internal_hashing_failure",
        };
        proof {
            reveal_strlit("duplicate_username");
            reveal_strlit("invalid_credentials");
            reveal_strlit("token_expired");
            reveal_strlit("token_malformed");
            reveal_strlit("token_bad_signature");
            reveal_strlit("insufficient_funds");
            reveal_strlit("already_finalized");
            reveal_strlit("item_not_found");
            reveal_strlit("invalid_selection");
            reveal_strlit("internal_hashing_failure");
        }
        s
    }
}

} // verus!
