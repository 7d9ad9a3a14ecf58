use cloudreve::time::{Timestamp, LAST_SECOND};
use cloudreve::tokens::{Token, TokenDecision, TokenStore};

fn at(secs: i64) -> Timestamp {
    Timestamp { secs, nanos: 500 }
}

fn token(access_expires: &str, refresh_expires: &str) -> Token<String> {
    Token {
        access_token: "new access".to_string(),
        refresh_token: "new refresh".to_string(),
        access_expires: access_expires.to_string(),
        refresh_expires: refresh_expires.to_string(),
    }
}

#[test]
fn an_empty_store_authenticates_nothing() {
    let store: TokenStore<String> = TokenStore::new();
    assert!(!store.has_tokens());
    assert!(store.is_access_token_expired());
    assert!(store.is_refresh_token_expired());
    assert!(matches!(store.decide_at(at(0), at(0)), TokenDecision::NoTokens));
}

#[test]
fn one_token_alone_authenticates_nothing() {
    let mut store: TokenStore<String> = TokenStore::new();
    store.access_token = Some("a".to_string());
    store.access_token_expires = Some(at(LAST_SECOND));
    store.refresh_token_expires = Some(at(LAST_SECOND));
    assert!(!store.has_tokens());
    assert!(matches!(store.decide_at(at(0), at(0)), TokenDecision::NoTokens));
}

#[test]
fn arrived_tokens_last_an_hour_and_seven_days() {
    let mut store = TokenStore::new();
    store.arrive("a".to_string(), "r".to_string(), at(1000), at(2000));
    assert_eq!(store.access_token_expires, Some(at(1000 + 3600)));
    assert_eq!(store.refresh_token_expires, Some(at(2000 + 7 * 86_400)));
    assert!(store.has_tokens());
}

#[test]
fn arrived_tokens_are_used_refreshed_and_given_up() {
    let mut store = TokenStore::new();
    store.arrive("a".to_string(), "r".to_string(), at(1000), at(1000));
    let just_before = Timestamp { secs: 4600, nanos: 499 };
    match store.decide_at(just_before, just_before) {
        TokenDecision::Use(token) => assert_eq!(token, "a"),
        other => panic!("{:?}", other),
    }
    match store.decide_at(at(4600), at(4600)) {
        TokenDecision::Refresh(token) => assert_eq!(token, "r"),
        other => panic!("{:?}", other),
    }
    let end = 1000 + 7 * 86_400;
    assert!(matches!(store.decide_at(at(end), at(1000)), TokenDecision::RefreshExpired));
}

#[test]
fn expiry_begins_at_the_limit() {
    let limit = Timestamp { secs: 10, nanos: 5 };
    assert!(limit.has_reached(limit));
    assert!(Timestamp { secs: 10, nanos: 6 }.has_reached(limit));
    assert!(Timestamp { secs: 11, nanos: 0 }.has_reached(limit));
    assert!(!Timestamp { secs: 10, nanos: 4 }.has_reached(limit));
    assert!(!Timestamp { secs: 9, nanos: 9 }.has_reached(limit));
}

#[test]
fn an_expired_token_stays_expired() {
    let mut store: TokenStore<String> = TokenStore::new();
    store.access_token_expires = Some(at(100));
    for now in [100, 101, 5000, LAST_SECOND] {
        assert!(store.is_access_token_expired_at(at(now)));
    }
    assert!(!store.is_access_token_expired_at(at(99)));
    store.refresh_token_expires = Some(at(100));
    assert!(store.is_refresh_token_expired_at(at(100)));
    assert!(!store.is_refresh_token_expired_at(at(99)));
}

#[test]
fn the_clock_decides_about_past_and_future() {
    let mut store: TokenStore<String> = TokenStore::new();
    store.access_token_expires = Some(at(1));
    store.refresh_token_expires = Some(at(LAST_SECOND));
    assert!(store.is_access_token_expired());
    assert!(!store.is_refresh_token_expired());
}

#[test]
fn stated_expiries_are_read_and_converted_to_utc() {
    let mut store = TokenStore::new();
    store.install_as_stated(&token("2024-01-01T02:00:00.25+02:00", "1970-01-02T00:00:00Z"));
    assert_eq!(
        store.access_token_expires,
        Some(Timestamp { secs: 1_704_067_200, nanos: 250_000_000 })
    );
    assert_eq!(store.refresh_token_expires, Some(Timestamp { secs: 86_400, nanos: 0 }));
    assert_eq!(store.access_token.as_deref(), Some("new access"));
    assert_eq!(store.refresh_token.as_deref(), Some("new refresh"));
}

#[test]
fn an_expiry_that_cannot_be_read_stays_what_it_was() {
    let mut store = TokenStore::new();
    store.arrive("a".to_string(), "r".to_string(), at(0), at(0));
    store.install_as_stated(&token("tomorrow", "1970-01-02T00:00:00Z"));
    assert_eq!(store.access_token_expires, Some(at(3600)));
    assert_eq!(store.refresh_token_expires, Some(Timestamp { secs: 86_400, nanos: 0 }));
    store.install_as_stated(&token("1970-01-01T00:00:09Z", ""));
    assert_eq!(store.access_token_expires, Some(Timestamp { secs: 9, nanos: 0 }));
    assert_eq!(store.refresh_token_expires, Some(Timestamp { secs: 86_400, nanos: 0 }));
}

#[test]
fn stated_expiries_decide() {
    let mut store = TokenStore::new();
    store.install_as_stated(&token("1970-01-01T00:01:40Z", "1970-01-01T00:03:20Z"));
    match store.decide_at(at(99), at(99)) {
        TokenDecision::Use(token) => assert_eq!(token, "new access"),
        other => panic!("{:?}", other),
    }
    match store.decide_at(at(100), at(100)) {
        TokenDecision::Refresh(token) => assert_eq!(token, "new refresh"),
        other => panic!("{:?}", other),
    }
    assert!(matches!(store.decide_at(at(200), at(200)), TokenDecision::RefreshExpired));
}

#[test]
fn tokens_are_installed_with_given_expiries() {
    let mut store = TokenStore::new();
    store.install(&token("", ""), Some(at(1)), None);
    assert_eq!(store.access_token_expires, Some(at(1)));
    assert_eq!(store.refresh_token_expires, None);
    let copy = token("x", "y").duplicate();
    assert_eq!(copy.access_expires, "x");
    assert_eq!(copy.refresh_expires, "y");
}
