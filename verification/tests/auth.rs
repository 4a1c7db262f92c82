use trumall::credentials::CredentialStore;
use trumall::errors::MarketError;
use trumall::models::{LoginData, SignupData};
use trumall::token::{issue_token, validate_token, SessionToken, TOKEN_TTL_SECONDS};

const KEY: &[u8] = b"test-signing-key";

#[test]
fn scenario_c_signup_and_login() {
    let mut store = CredentialStore::new();
    let alice = String::from("alice");
    let pw1 = String::from("pw1");
    let pw2 = String::from("pw2");

    let first = store.register(&alice, &pw1);
    assert!(first.is_ok());
    assert_eq!(store.user_count(), 1);

    let second = store.register(&alice, &pw2);
    assert!(matches!(second, Err(MarketError::DuplicateUsername)));
    assert_eq!(store.user_count(), 1);

    let wrong_secret = store.authenticate(&alice, &pw2);
    assert!(matches!(wrong_secret, Err(MarketError::InvalidCredentials)));

    let right = store.authenticate(&alice, &pw1);
    assert!(right.is_ok());
    let user = right.unwrap();
    assert_eq!(user.username, "alice");
    assert_eq!(user.id.len(), 36);
    // the plaintext secret is never stored: the verifier wears
    // bcrypt's fixed 60-character form instead
    assert_ne!(user.password_hash, "pw1");
    assert_eq!(user.password_hash.len(), 60);
    assert!(user.password_hash.starts_with("$2b$12$"));
}

#[test]
fn auth_symmetry_same_error_for_unknown_user_and_wrong_secret() {
    let mut store = CredentialStore::new();
    let bob = String::from("bob");
    let secret = String::from("hunter2");
    assert!(store.register(&bob, &secret).is_ok());

    let unknown_user_attempt = store.authenticate(&String::from("nobody"), &String::from("anything"));
    let wrong_secret_attempt = store.authenticate(&bob, &String::from("wrong-secret"));
    assert!(matches!(unknown_user_attempt, Err(MarketError::InvalidCredentials)));
    assert!(matches!(wrong_secret_attempt, Err(MarketError::InvalidCredentials)));
}

#[test]
fn usernames_are_case_sensitive() {
    let mut store = CredentialStore::new();
    let secret = String::from("s");
    assert!(store.register(&String::from("Carol"), &secret).is_ok());
    assert!(store.register(&String::from("carol"), &secret).is_ok());
    assert_eq!(store.user_count(), 2);
}

#[test]
fn signup_data_carries_fields() {
    let d = SignupData { username: String::from("u"), password: String::from("p") };
    assert_eq!(d.username, "u");
    assert_eq!(d.password, "p");
    let l = LoginData { username: d.username, password: d.password };
    assert_eq!(l.username, "u");
    assert_eq!(l.password, "p");
}

#[test]
fn token_lifecycle_valid_then_expired() {
    let subject = String::from("user-42");
    let issued_at: usize = 1_700_000_000;
    let token = issue_token(&subject, issued_at, KEY).unwrap();
    assert_eq!(token.claims.sub, "user-42");
    assert_eq!(token.claims.exp, issued_at + TOKEN_TTL_SECONDS);

    // one second after issuance: accepted
    let fresh = validate_token(&token, KEY, issued_at + 1);
    assert_eq!(fresh, Ok(String::from("user-42")));

    // one second past the TTL: expired, and reported as such
    let stale = validate_token(&token, KEY, issued_at + TOKEN_TTL_SECONDS + 1);
    assert_eq!(stale, Err(MarketError::TokenExpired));

    // the expiry instant itself is already too late
    let boundary = validate_token(&token, KEY, issued_at + TOKEN_TTL_SECONDS);
    assert_eq!(boundary, Err(MarketError::TokenExpired));
}

#[test]
fn tampered_signature_is_refused() {
    let subject = String::from("user-42");
    let token = issue_token(&subject, 1000, KEY).unwrap();
    let forged = SessionToken {
        claims: token.claims,
        signature: String::from("AAAA"),
    };
    let r = validate_token(&forged, KEY, 1001);
    assert_eq!(r, Err(MarketError::TokenBadSignature));
}

#[test]
fn unreadable_signature_is_malformed() {
    let subject = String::from("user-42");
    let token = issue_token(&subject, 1000, KEY).unwrap();
    let forged = SessionToken {
        claims: token.claims,
        signature: String::from("!!!not-base64!!!"),
    };
    let r = validate_token(&forged, KEY, 1001);
    assert_eq!(r, Err(MarketError::TokenMalformed));
}

#[test]
fn tampered_claims_are_refused() {
    let subject = String::from("user-42");
    let issued_at: usize = 1000;
    let token = issue_token(&subject, issued_at, KEY).unwrap();
    // stretch the expiry without re-signing
    let mut claims = token.claims;
    claims.exp += 1000;
    let forged = SessionToken { claims, signature: token.signature };
    let r = validate_token(&forged, KEY, issued_at + 1);
    assert_eq!(r, Err(MarketError::TokenBadSignature));
}

#[test]
fn wrong_key_is_refused() {
    let subject = String::from("user-42");
    let token = issue_token(&subject, 1000, KEY).unwrap();
    let r = validate_token(&token, b"another-key", 1001);
    assert_eq!(r, Err(MarketError::TokenBadSignature));
}
