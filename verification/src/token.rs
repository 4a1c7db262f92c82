//! The session issuer: converts a verified identity into a
//! time-bounded, tamper-evident token, and validates presented
//! tokens.
//!
//! A token carries its claims in the clear; its validity is proven
//! solely by an HMAC signature over a canonical message derived from
//! the claims, checked before any claim is trusted, plus the expiry
//! check.  There is no revocation: compromise of the signing key
//! invalidates the security of all outstanding tokens.  The key is
//! injected by the caller, never hard-coded here.

use vstd::prelude::*;

use crate::errors::MarketError;
use crate::models::Claims;
use crate::numerals::{dec_rep, u64_to_string};

verus! {

/// How long a token stays valid after issuance: 24 hours.
pub const TOKEN_TTL_SECONDS: usize = 86400;

/// The base64 HMAC-SHA256 signature of `message` under `key`, as
/// `jsonwebtoken`'s HS256 signing produces it.  The value depends on
/// the two arguments alone; this names it, since the algorithm is not
/// restated here.
pub uninterp spec fn hmac_sig_of(message: Seq<char>, key: Seq<u8>) -> Seq<char>;

#[verifier::external_type_specification]
#[verifier::external_body]
pub struct ExJwtError(jsonwebtoken::errors::Error);

/// Relies on `jsonwebtoken::crypto::sign` with `Algorithm::HS256` and
/// a secret key: the result is the base64 HMAC signature of the
/// message under the key.  With a key built by `from_secret` the HMAC
/// family check, the keying and the signing itself have no failure
/// path, so the call succeeds on every input.
#[verifier::external_body]
fn hmac_sign(message: &str, key: &[u8]) -> (r: Result<String, jsonwebtoken::errors::Error>)
    ensures
        r is Ok,
        r matches Ok(s) ==> s@ == hmac_sig_of(message@, key@),
{
    jsonwebtoken::crypto::sign(
        message.as_bytes(),
        &jsonwebtoken::EncodingKey::from_secret(key),
        jsonwebtoken::Algorithm::HS256,
    )
}

/// Relies on `jsonwebtoken::crypto::verify` with `Algorithm::HS256`:
/// whenever it answers, the answer is whether `signature` is the
/// base64 HMAC signature of the message under the key, and on the
/// genuine signature it never refuses to answer (the genuine
/// signature is canonical base64, which always decodes).
#[verifier::external_body]
fn hmac_verify(signature: &str, message: &str, key: &[u8]) -> (r: Result<
    bool,
    jsonwebtoken::errors::Error,
>)
    ensures
        match r {
            Ok(b) => b == (signature@ == hmac_sig_of(message@, key@)),
            Err(_) => signature@ != hmac_sig_of(message@, key@),
        },
{
    jsonwebtoken::crypto::verify(
        signature,
        message.as_bytes(),
        &jsonwebtoken::DecodingKey::from_secret(key),
        jsonwebtoken::Algorithm::HS256,
    )
}

/// A session token: claims in the clear plus the signature over their
/// canonical message.
pub struct SessionToken {
    pub claims: Claims,
    pub signature: String,
}

/// The canonical message signed for a token: the subject, a dot, and
/// the expiry in decimal.
pub open spec fn token_message(sub: Seq<char>, exp: nat) -> Seq<char> {
    sub + seq!['.'] + dec_rep(exp)
}

/// Whether the token's signature is the genuine signature of its own
/// claims under `key` — the tamper-evidence test.
pub open spec fn token_genuine(t: SessionToken, key: Seq<u8>) -> bool {
    t.signature@ == hmac_sig_of(token_message(t.claims.sub@, t.claims.exp as nat), key)
}

/// Whether validation at instant `now` must accept the token.
pub open spec fn validate_accepts(t: SessionToken, key: Seq<u8>, now: int) -> bool {
    token_genuine(t, key) && now < t.claims.exp
}

/// Whether validation at instant `now` must report expiry: the token
/// is genuine but `now` is at or past the expiry instant.
pub open spec fn validate_expired(t: SessionToken, key: Seq<u8>, now: int) -> bool {
    token_genuine(t, key) && now >= t.claims.exp
}

/// Builds the canonical message for a subject and expiry.
fn claims_message(sub: &String, exp: usize) -> (m: String)
    ensures
        m@ == token_message(sub@, exp as nat),
{
    let mut m = sub.clone();
    m.append(".");
    let digits = u64_to_string(exp as u64);
    m.append(digits.as_str());
    proof {
        reveal_strlit(".");
        assert(m@ =~= token_message(sub@, exp as nat));
    }
    m
}

/// Issues a token for `subject` at instant `now`: issuance always
/// succeeds, the expiry is `now` plus the fixed TTL, and the
/// signature is the genuine HMAC of the claims under `key`.
pub fn issue_token(subject: &String, now: usize, key: &[u8]) -> (r: Result<
    SessionToken,
    MarketError,
>)
    requires
        now + TOKEN_TTL_SECONDS <= usize::MAX,
    ensures
        r is Ok,
        match r {
            Ok(t) => {
                &&& t.claims.sub@ == subject@
                &&& t.claims.exp == now + TOKEN_TTL_SECONDS
                &&& token_genuine(t, key@)
            },
            Err(e) => e == MarketError::InternalHashingFailure,
        },
{
    let exp = now + TOKEN_TTL_SECONDS;
    let message = claims_message(subject, exp);
    match hmac_sign(message.as_str(), key) {
        Ok(signature) => Ok(
            SessionToken { claims: Claims { sub: subject.clone(), exp }, signature },
        ),
        Err(_) => Err(MarketError::InternalHashingFailure),
    }
}

/// Validates a token at instant `now`: the signature is checked first,
/// against the message recomputed from the presented claims, and only
/// then the expiry.  Returns the subject exactly when the token is
/// genuine and not yet expired; a genuine but stale token is
/// `TokenExpired`; a token whose signature is not the genuine one is
/// refused (`TokenMalformed` if the signature cannot even be read as
/// base64, `TokenBadSignature` otherwise).
pub fn validate_token(token: &SessionToken, key: &[u8], now: usize) -> (r: Result<
    String,
    MarketError,
>)
    ensures
        r matches Ok(s) ==> s@ == token.claims.sub@,
        r is Ok <==> validate_accepts(*token, key@, now as int),
        r == Err::<String, MarketError>(MarketError::TokenExpired) <==> validate_expired(
            *token,
            key@,
            now as int,
        ),
        !token_genuine(*token, key@) ==> (r == Err::<String, MarketError>(
            MarketError::TokenMalformed,
        ) || r == Err::<String, MarketError>(MarketError::TokenBadSignature)),
{
    let message = claims_message(&token.claims.sub, token.claims.exp);
    match hmac_verify(token.signature.as_str(), message.as_str(), key) {
        Err(_) => Err(MarketError::TokenMalformed),
        Ok(b) => {
            if !b {
                Err(MarketError::TokenBadSignature)
            } else if now >= token.claims.exp {
                Err(MarketError::TokenExpired)
            } else {
                Ok(token.claims.sub.clone())
            }
        },
    }
}

/// Law: the token lifecycle.  A token issued at instant `T` — its
/// expiry being `T` plus the TTL and its signature genuine — must be
/// accepted one second after issuance, and must be reported expired,
/// not merely refused, one second after its TTL has run out.
/// `validate_token`'s contract turns these two facts into its `Ok`
/// and `TokenExpired` answers.
pub proof fn lemma_token_lifecycle(t: SessionToken, key: Seq<u8>, issued_at: int)
    requires
        issued_at >= 0,
        token_genuine(t, key),
        t.claims.exp == issued_at + TOKEN_TTL_SECONDS,
    ensures
        validate_accepts(t, key, issued_at + 1),
        !validate_accepts(t, key, issued_at + TOKEN_TTL_SECONDS + 1),
        validate_expired(t, key, issued_at + TOKEN_TTL_SECONDS + 1),
{
}

} // verus!
