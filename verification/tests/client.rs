use cloudreve::client::Client;
use cloudreve::config::{ClientConfig, RequestOptions, CR_HEADER_PREFIX};
use cloudreve::error::{ApiError, ErrorCode};
use cloudreve::json::JsonMember;
use cloudreve::jwt::{check_payload, check_scopes, validate_jwt_scopes};
use cloudreve::time::{Timestamp, LAST_SECOND};
use cloudreve::tokens::{Token, TokenDecision};

/// `{"scopes":["a"]}`
const WITH_SCOPES: &str = "head.eyJzY29wZXMiOlsiYSJdfQ.signature";

fn client() -> Client<u8, u8> {
    Client::new(ClientConfig::new("https://example.com"))
}

fn token(access_token: &str) -> Token<String> {
    Token {
        access_token: access_token.to_string(),
        refresh_token: "refresh".to_string(),
        access_expires: "2000-01-01T00:00:00Z".to_string(),
        refresh_expires: "9999-01-01T00:00:00Z".to_string(),
    }
}

fn complaint(res: Result<(), ApiError<String>>) -> String {
    match res {
        Err(ApiError::InvalidToken(text)) => text,
        other => panic!("{:?}", other),
    }
}

#[test]
fn a_configuration_has_defaults() {
    let config = ClientConfig::new("https://example.com");
    assert_eq!(config.base_url, "https://example.com");
    assert_eq!(config.timeout_seconds, 60);
    assert_eq!(config.client_id, "");
    assert_eq!(config.user_agent, None);
}

#[test]
fn a_configuration_is_built_field_by_field() {
    let config = ClientConfig::new("u").with_timeout(5).with_client_id("id").with_user_agent("ua");
    assert_eq!(config.base_url, "u");
    assert_eq!(config.timeout_seconds, 5);
    assert_eq!(config.client_id, "id");
    assert_eq!(config.user_agent.as_deref(), Some("ua"));
    assert_eq!(CR_HEADER_PREFIX, "X-Cr-");
}

#[test]
fn options_are_set_one_by_one() {
    let none = RequestOptions::new();
    assert_eq!(none, RequestOptions::default());
    assert!(!none.no_credential && !none.with_purchase_ticket);
    assert!(!none.skip_batch_error && !none.skip_lock_conflict);
    assert_eq!(none.no_credential(), RequestOptions { no_credential: true, ..none });
    assert_eq!(none.with_purchase_ticket(), RequestOptions { with_purchase_ticket: true, ..none });
    assert_eq!(none.skip_batch_error(), RequestOptions { skip_batch_error: true, ..none });
    assert_eq!(none.skip_lock_conflict(), RequestOptions { skip_lock_conflict: true, ..none });
}

#[test]
fn a_new_client_holds_nothing() {
    let client = client();
    assert!(!client.tokens.has_tokens());
    assert_eq!(client.purchase_ticket, None);
    assert!(client.on_credential_refreshed.is_none());
    assert!(client.on_credential_invalid.is_none());
    assert!(matches!(client.get_access_token(), TokenDecision::NoTokens));
}

#[test]
fn callbacks_are_set_and_cleared() {
    let mut client = client();
    client.set_on_credential_refreshed(1);
    client.set_on_credential_invalid(2);
    assert_eq!(client.on_credential_refreshed, Some(1));
    assert_eq!(client.on_credential_invalid, Some(2));
    client.clear_on_credential_refreshed();
    assert_eq!(client.on_credential_refreshed, None);
    assert_eq!(client.on_credential_invalid, Some(2));
    client.clear_on_credential_invalid();
    assert_eq!(client.on_credential_invalid, None);
}

#[test]
fn urls_have_the_api_prefix() {
    assert_eq!(client().build_url("/file"), "https://example.com/api/v4/file");
    assert_eq!(client().build_url(""), "https://example.com/api/v4");
}

#[test]
fn tokens_are_set_used_and_cleared() {
    let mut client = client();
    assert!(client.set_tokens("a".to_string(), "r".to_string()));
    match client.get_access_token() {
        TokenDecision::Use(token) => assert_eq!(token, "a"),
        other => panic!("{:?}", other),
    }
    client.clear_tokens();
    assert!(matches!(client.get_access_token(), TokenDecision::NoTokens));
}

#[test]
fn tokens_set_now_expire_in_an_hour_and_a_week() {
    let mut client = client();
    client.set_tokens("a".to_string(), "r".to_string());
    let access = client.tokens.access_token_expires.unwrap();
    let refresh = client.tokens.refresh_token_expires.unwrap();
    let between = refresh.secs - access.secs;
    assert!((604_800 - 3600..604_800 - 3600 + 10).contains(&between));
}

#[test]
fn tokens_are_set_at_given_times() {
    let mut client = client();
    let then = Timestamp { secs: 50, nanos: 7 };
    assert!(client.set_tokens_at("a".to_string(), "r".to_string(), then, then));
    assert_eq!(client.tokens.access_token_expires, Some(Timestamp { secs: 3650, nanos: 7 }));
    assert_eq!(client.tokens.refresh_token_expires, Some(Timestamp { secs: 604_850, nanos: 7 }));
}

#[test]
fn tokens_are_not_set_where_they_would_outlast_time() {
    let at = |secs: i64| Timestamp { secs, nanos: 0 };
    let cases = [
        (LAST_SECOND - 3600, LAST_SECOND - 604_800, true),
        (LAST_SECOND - 3599, LAST_SECOND - 604_800, false),
        (LAST_SECOND - 3600, LAST_SECOND - 604_799, false),
        (LAST_SECOND, LAST_SECOND, false),
    ];
    for (access_now, refresh_now, expected) in cases {
        let mut client = client();
        let set =
            client.set_tokens_at("a".to_string(), "r".to_string(), at(access_now), at(refresh_now));
        assert_eq!(set, expected);
        assert_eq!(client.tokens.has_tokens(), expected);
    }
}

#[test]
fn an_acceptable_token_is_installed() {
    let mut client = client();
    assert!(client.set_tokens_with_expiry(&token(WITH_SCOPES)).is_ok());
    assert_eq!(client.tokens.access_token.as_deref(), Some(WITH_SCOPES));
    assert_eq!(client.tokens.refresh_token.as_deref(), Some("refresh"));
    assert_eq!(
        client.tokens.access_token_expires,
        Some(Timestamp { secs: 946_684_800, nanos: 0 })
    );
    match client.get_access_token() {
        TokenDecision::Refresh(token) => assert_eq!(token, "refresh"),
        other => panic!("{:?}", other),
    }
}

#[test]
fn an_unacceptable_token_changes_nothing() {
    let mut client = client();
    client.set_tokens("a".to_string(), "r".to_string());
    let expires = client.tokens.access_token_expires;
    assert_eq!(complaint(client.set_tokens_with_expiry(&token("no"))), "Invalid JWT format");
    assert_eq!(client.tokens.access_token.as_deref(), Some("a"));
    assert_eq!(client.tokens.refresh_token.as_deref(), Some("r"));
    assert_eq!(client.tokens.access_token_expires, expires);
}

#[test]
fn the_purchase_ticket_is_set_and_taken_back() {
    let mut client = client();
    client.set_purchase_ticket(Some("t".to_string()));
    assert_eq!(client.purchase_ticket.as_deref(), Some("t"));
    client.set_purchase_ticket(None);
    assert_eq!(client.purchase_ticket, None);
}

#[test]
fn tokens_with_scopes_are_accepted() {
    assert!(validate_jwt_scopes(WITH_SCOPES).is_ok());
    // {"scopes":"Files.Read"}
    assert!(validate_jwt_scopes("h.eyJzY29wZXMiOiJGaWxlcy5SZWFkIn0.s").is_ok());
    assert!(validate_jwt_scopes(".eyJzY29wZXMiOlsiYSJdfQ.").is_ok());
}

#[test]
fn tokens_have_three_parts() {
    for text in ["", "a", "a.b", "a.b.c.d"] {
        assert_eq!(complaint(validate_jwt_scopes(text)), "Invalid JWT format");
    }
}

#[test]
fn the_payload_is_base64url_without_padding() {
    assert_eq!(
        complaint(validate_jwt_scopes("h.!!!!.s")),
        "Failed to decode JWT payload: Invalid symbol 33, offset 0."
    );
    assert_eq!(
        complaint(validate_jwt_scopes("h.eyJzY29wZXMiOlsiYSJdfQ==.s")),
        "Failed to decode JWT payload: Invalid padding"
    );
}

#[test]
fn the_payload_is_json() {
    // not json
    assert_eq!(
        complaint(validate_jwt_scopes("h.bm90IGpzb24.s")),
        "Failed to parse JWT payload: expected ident at line 1 column 2"
    );
    assert_eq!(
        complaint(check_payload(b"{")),
        "Failed to parse JWT payload: EOF while parsing an object at line 1 column 1"
    );
    assert!(check_payload(b"{\"scopes\":[1]}").is_ok());
}

#[test]
fn scopes_are_there_and_not_empty() {
    // {"scopes":[]}, {"scopes":""}, {"scopes":7}, {"sub":"x"}, ["scopes"]
    let cases = [
        ("h.eyJzY29wZXMiOltdfQ.s", "Token 'scopes' field is empty"),
        ("h.eyJzY29wZXMiOiIifQ.s", "Token 'scopes' field is empty"),
        ("h.eyJzY29wZXMiOjd9.s", "Token 'scopes' field has invalid type"),
        ("h.eyJzdWIiOiJ4In0.s", "Token missing 'scopes' field"),
        ("h.WyJzY29wZXMiXQ.s", "Token missing 'scopes' field"),
    ];
    for (text, expected) in cases {
        assert_eq!(complaint(validate_jwt_scopes(text)), expected);
    }
}

#[test]
fn scopes_are_an_array_or_a_text() {
    assert!(check_scopes(Some(&JsonMember::Array(1))).is_ok());
    assert!(check_scopes(Some(&JsonMember::Text("x".to_string()))).is_ok());
    for member in [
        JsonMember::Null,
        JsonMember::Bool(true),
        JsonMember::Number(Some(1)),
        JsonMember::Object,
    ] {
        assert_eq!(complaint(check_scopes(Some(&member))), "Token 'scopes' field has invalid type");
    }
    assert_eq!(
        complaint(check_scopes(Some(&JsonMember::Array(0)))),
        "Token 'scopes' field is empty"
    );
    assert_eq!(complaint(check_scopes(None)), "Token missing 'scopes' field");
}

#[test]
fn codes_are_found_by_their_numbers() {
    let codes = [
        (ErrorCode::Success, 0, false),
        (ErrorCode::LoginRequired, 401, true),
        (ErrorCode::CredentialInvalid, 40020, true),
        (ErrorCode::LockConflict, 40073, false),
        (ErrorCode::SessionExpired, 40089, true),
    ];
    for (code, number, about_credentials) in codes {
        assert_eq!(code.number(), number);
        assert_eq!(ErrorCode::from_code(number), Some(code));
        assert_eq!(code.is_credential_error(), about_credentials);
    }
    assert_eq!(ErrorCode::from_code(404), None);
    assert_eq!(ErrorCode::from_code(-1), None);
}
