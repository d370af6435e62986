use google_apis_ex::auth::Token;
use google_apis_ex::auth::TokenManager;
use google_apis_ex::error::AuthError;

fn token(value: &str, expires_at: Option<u64>) -> Token {
    Token { value: value.to_string(), expires_at }
}

#[test]
fn test_has_expired_boundary() {
    let t = token("t", Some(200));
    assert!(!t.has_expired(199));
    assert!(t.has_expired(200));
    assert!(t.has_expired(201));
}

#[test]
fn test_has_expired_without_expiry() {
    let t = token("t", None);
    assert!(!t.has_expired(0));
    assert!(!t.has_expired(u64::MAX));
}

#[test]
fn test_token_as_str() {
    let t = token("secret-value", Some(10));
    assert_eq!(t.as_str(), "secret-value");
}

// Scenario: a cache for ["scope-a"] serves the first minted token T1 on
// the first call, and the same T1 without a second mint on the next call
// before expiry.
#[test]
fn test_first_get_mints_then_reuses() {
    let mut tm = TokenManager::new(vec!["scope-a".to_string()]);
    assert_eq!(tm.mint_count, 0);

    // First get_token: the cache is empty, so a mint is needed.
    assert!(tm.get_token(100).is_none());
    let t1 = token("t1", Some(200));
    let got = tm.complete_mint(Ok(t1.clone())).unwrap();
    assert_eq!(got.as_str(), "t1");
    assert_eq!(tm.mint_count, 1);

    // Second get_token before expiry: the same token, no new mint.
    let again = tm.get_token(150).expect("cached token must be served");
    assert_eq!(again.as_str(), "t1");
    assert_eq!(again.expires_at, Some(200));
    assert_eq!(tm.mint_count, 1);

    // And the scope set is still the one fixed at construction.
    assert_eq!(tm.scopes, vec!["scope-a".to_string()]);
}

// After the expiry boundary passes, the next call triggers exactly one new
// mint and returns the new token.
#[test]
fn test_expiry_triggers_one_new_mint() {
    let mut tm = TokenManager::new(vec!["scope-a".to_string()]);
    assert!(tm.get_token(100).is_none());
    tm.complete_mint(Ok(token("t1", Some(200)))).unwrap();
    assert_eq!(tm.mint_count, 1);

    // The boundary passes: the cached token is no longer served.
    assert!(tm.get_token(200).is_none());
    let got = tm.complete_mint(Ok(token("t2", Some(400)))).unwrap();
    assert_eq!(got.as_str(), "t2");
    assert_eq!(tm.mint_count, 2);

    // The cache now reflects the new value.
    let again = tm.get_token(300).expect("fresh token must be served");
    assert_eq!(again.as_str(), "t2");
    assert_eq!(tm.mint_count, 2);
}

// A token is never served at or past its expiry instant.
#[test]
fn test_never_serves_expired() {
    let mut tm = TokenManager::new(vec!["scope-a".to_string()]);
    tm.complete_mint(Ok(token("t1", Some(200)))).unwrap();
    assert!(tm.get_token(199).is_some());
    assert!(tm.get_token(200).is_none());
    assert!(tm.get_token(1_000_000).is_none());
}

// A failed mint surfaces the error unmodified and leaves the cache as it
// was.
#[test]
fn test_failed_mint_keeps_cache() {
    let mut tm = TokenManager::new(vec!["scope-a".to_string()]);
    tm.complete_mint(Ok(token("t1", Some(200)))).unwrap();

    let err = tm
        .complete_mint(Err(AuthError::GcpAuth("no ambient credentials".to_string())))
        .unwrap_err();
    assert_eq!(err, AuthError::GcpAuth("no ambient credentials".to_string()));
    assert_eq!(tm.mint_count, 1);

    let again = tm.get_token(100).expect("old token still cached");
    assert_eq!(again.as_str(), "t1");
}
