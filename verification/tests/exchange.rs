use cloudreve::client::Client;
use cloudreve::config::{ClientConfig, RequestOptions};
use cloudreve::error::ApiError;
use cloudreve::exchange::{
    check_text, code_of, message_of, reply_data, Action, Event, Exchange, Readings, RefreshReply,
    Verdict,
};
use cloudreve::json::JsonMember;
use cloudreve::time::Timestamp;
use cloudreve::tokens::Token;

type Headers = Vec<(String, String)>;

/// `{"scopes":["a"]}`
const RENEWED: &str = "h.eyJzY29wZXMiOlsiYSJdfQ.s";

fn clock(secs: i64) -> Readings {
    let now = Timestamp { secs, nanos: 0 };
    Readings { refresh_now: now, access_now: now }
}

fn signed_in() -> Client<u8, u8> {
    let mut client = Client::new(ClientConfig::new("https://c.example"));
    let then = Timestamp { secs: 0, nanos: 0 };
    client.set_tokens_at("access".to_string(), "refresh".to_string(), then, then);
    client
}

fn exchange() -> Exchange {
    Exchange::get("/file", RequestOptions::new())
}

fn request(step: Option<Action<String, Headers>>) -> (String, Headers) {
    match step.unwrap() {
        Action::Send(plan) => (plan.url, plan.headers),
        other => panic!("{:?}", other),
    }
}

fn refresh(step: Option<Action<String, Headers>>) -> (String, String) {
    match step.unwrap() {
        Action::PostRefresh { url, refresh_token } => (url, refresh_token),
        other => panic!("{:?}", other),
    }
}

fn error(step: Option<Action<String, Headers>>) -> ApiError<String> {
    match step.unwrap() {
        Action::Finish(Err(error)) => error,
        other => panic!("{:?}", other),
    }
}

fn parsed(code: i32, token_expired: bool) -> Event<String> {
    Event::Parsed { code, message: format!("message {}", code), token_expired }
}

fn told_invalid(step: Option<Action<String, Headers>>) {
    assert!(matches!(step, Some(Action::NotifyInvalid)));
}

fn reply(text: &str) -> Event<String> {
    Event::Reply(text.to_string())
}

fn new_token(access_token: &str) -> Event<String> {
    Event::Refreshed(RefreshReply {
        code: 0,
        message: String::new(),
        token_expired: false,
        token: Some(Token {
            access_token: access_token.to_string(),
            refresh_token: "refresh 2".to_string(),
            access_expires: "1971-01-01T00:00:00Z".to_string(),
            refresh_expires: "1972-01-01T00:00:00Z".to_string(),
        }),
    })
}

fn header(name: &str, value: &str) -> (String, String) {
    (name.to_string(), value.to_string())
}

#[test]
fn a_request_is_authenticated_sent_read_and_done() {
    let mut client = signed_in();
    let mut x = exchange();
    let (url, headers) = request(x.step_at(&mut client, Event::Start, clock(10)));
    assert_eq!(url, "https://c.example/api/v4/file");
    assert_eq!(headers, vec![header("Authorization", "Bearer access")]);
    let step = x.step_at(&mut client, reply("{\"code\":0}"), clock(10)).unwrap();
    assert!(matches!(step, Action::Parse));
    let event = parsed(0, false);
    let step = x.step_at(&mut client, event, clock(10)).unwrap();
    assert!(matches!(step, Action::Finish(Ok(()))));
}

#[test]
fn a_finished_exchange_does_nothing_more() {
    let mut client = signed_in();
    let mut x = exchange();
    x.step_at(&mut client, Event::Start, clock(10));
    x.step_at(&mut client, Event::SendFailed, clock(10));
    for event in [Event::Start, Event::SendFailed, Event::ParseFailed, new_token(RENEWED)] {
        assert!(x.step_at(&mut client, event, clock(10)).is_none());
    }
    assert_eq!(client.tokens.access_token.as_deref(), Some("access"));
}

#[test]
fn an_unexpected_event_changes_nothing() {
    let mut client = signed_in();
    let mut x = exchange();
    assert!(x.step_at(&mut client, reply("{}"), clock(10)).is_none());
    assert!(x.step_at(&mut client, new_token(RENEWED), clock(10)).is_none());
    request(x.step_at(&mut client, Event::Start, clock(10)));
}

#[test]
fn client_id_and_ticket_are_sent() {
    let mut client: Client<u8, u8> =
        Client::new(ClientConfig::new("u").with_client_id("device"));
    client.set_purchase_ticket(Some("ticket".to_string()));
    let options = RequestOptions::new().no_credential();
    let mut plain = Exchange::get("/a", options);
    let (_, headers) = request(plain.step_at(&mut client, Event::Start, clock(10)));
    assert_eq!(headers, vec![header("X-Cr-Client-Id", "device")]);
    let mut paying = Exchange::get("/a", options.with_purchase_ticket());
    let (_, headers) = request(paying.step_at(&mut client, Event::Start, clock(10)));
    assert_eq!(
        headers,
        vec![header("X-Cr-Client-Id", "device"), header("X-Cr-Purchase-Ticket", "ticket")]
    );
    client.set_purchase_ticket(None);
    let plan = paying.plan(&client, Some("t"));
    assert_eq!(plan.url, "u/api/v4/a");
    assert_eq!(
        plan.headers,
        vec![header("Authorization", "Bearer t"), header("X-Cr-Client-Id", "device")]
    );
}

#[test]
fn no_credentials_are_sent_where_they_are_left_out() {
    let mut client = signed_in();
    let mut x = Exchange::get("/a", RequestOptions::new().no_credential());
    let (_, headers) = request(x.step_at(&mut client, Event::Start, clock(10)));
    assert!(headers.is_empty());
    x.step_at(&mut client, reply("{}"), clock(10));
    let expired = parsed(401, true);
    refresh(x.step_at(&mut client, expired, clock(10)));
    let (_, headers) = request(x.step_at(&mut client, new_token(RENEWED), clock(10)));
    assert!(headers.is_empty());
}

#[test]
fn without_tokens_a_request_fails_and_is_told() {
    let mut client: Client<u8, u8> = Client::new(ClientConfig::new("u"));
    client.set_on_credential_invalid(1);
    let mut x = exchange();
    told_invalid(x.step_at(&mut client, Event::Start, clock(10)));
    let step = x.step_at(&mut client, Event::Notified, clock(10));
    assert!(matches!(error(step), ApiError::NoTokensAvailable));
    client.clear_on_credential_invalid();
    let step = exchange().step_at(&mut client, Event::Start, clock(10));
    assert!(matches!(error(step), ApiError::NoTokensAvailable));
}

#[test]
fn an_expired_refresh_token_fails_and_is_told() {
    let mut client = signed_in();
    client.set_on_credential_invalid(1);
    let mut x = exchange();
    told_invalid(x.step_at(&mut client, Event::Start, clock(604_800)));
    let step = x.step_at(&mut client, Event::Notified, clock(604_800));
    assert!(matches!(error(step), ApiError::RefreshTokenExpired));
}

#[test]
fn an_expired_access_token_is_refreshed_first() {
    let mut client = signed_in();
    client.set_on_credential_refreshed(1);
    let mut x = exchange();
    let (url, token) = refresh(x.step_at(&mut client, Event::Start, clock(3600)));
    assert_eq!(url, "https://c.example/api/v4/session/token/refresh");
    assert_eq!(token, "refresh");
    match x.step_at(&mut client, new_token(RENEWED), clock(3600)).unwrap() {
        Action::NotifyRefreshed(told) => {
            assert_eq!(told.access_token, RENEWED);
            assert_eq!(told.refresh_token, "refresh 2");
        }
        other => panic!("{:?}", other),
    }
    let (_, headers) = request(x.step_at(&mut client, Event::Notified, clock(3600)));
    assert_eq!(headers, vec![header("Authorization", &format!("Bearer {}", RENEWED))]);
    assert_eq!(client.tokens.access_token.as_deref(), Some(RENEWED));
    assert_eq!(client.tokens.refresh_token.as_deref(), Some("refresh 2"));
    assert_eq!(
        client.tokens.access_token_expires,
        Some(Timestamp { secs: 31_536_000, nanos: 0 })
    );
}

#[test]
fn nobody_is_told_who_did_not_ask() {
    let mut client = signed_in();
    let mut x = exchange();
    x.step_at(&mut client, Event::Start, clock(3600));
    request(x.step_at(&mut client, new_token(RENEWED), clock(3600)));
    assert!(x.step_at(&mut client, Event::Notified, clock(3600)).is_none());
}

#[test]
fn a_request_is_made_up_after_the_callback_has_returned() {
    let mut client = signed_in();
    client.set_on_credential_refreshed(1);
    let options = RequestOptions::new().with_purchase_ticket();
    let mut x = Exchange::get("/a", options);
    x.step_at(&mut client, Event::Start, clock(3600));
    x.step_at(&mut client, new_token(RENEWED), clock(3600));
    client.set_purchase_ticket(Some("ticket".to_string()));
    client.clear_tokens();
    let (_, headers) = request(x.step_at(&mut client, Event::Notified, clock(3600)));
    assert_eq!(
        headers,
        vec![
            header("Authorization", &format!("Bearer {}", RENEWED)),
            header("X-Cr-Purchase-Ticket", "ticket"),
        ]
    );
}

#[test]
fn a_retry_reads_the_tokens_after_the_callback_has_returned() {
    let expired = || parsed(401, true);
    let mut client = signed_in();
    client.set_on_credential_invalid(1);
    client.set_on_credential_refreshed(1);
    let mut x = exchange();
    x.step_at(&mut client, Event::Start, clock(10));
    x.step_at(&mut client, reply("{}"), clock(10));
    told_invalid(x.step_at(&mut client, expired(), clock(10)));
    client.tokens.refresh_token = Some("other refresh".to_string());
    let (_, token) = refresh(x.step_at(&mut client, Event::Notified, clock(10)));
    assert_eq!(token, "other refresh");
    x.step_at(&mut client, new_token(RENEWED), clock(10));
    client.tokens.access_token = Some("other access".to_string());
    let (_, headers) = request(x.step_at(&mut client, Event::Notified, clock(10)));
    assert_eq!(headers, vec![header("Authorization", "Bearer other access")]);

    let mut client = signed_in();
    client.set_on_credential_invalid(1);
    let mut x = exchange();
    x.step_at(&mut client, Event::Start, clock(10));
    x.step_at(&mut client, reply("{}"), clock(10));
    told_invalid(x.step_at(&mut client, expired(), clock(10)));
    client.clear_tokens();
    let step = x.step_at(&mut client, Event::Notified, clock(10));
    assert!(matches!(error(step), ApiError::NoTokensAvailable));
}

#[test]
fn a_refresh_can_fail_in_many_ways() {
    let attempts = [
        (Event::RefreshFailed, "Transport"),
        (
            Event::Refreshed(RefreshReply { code: 0, message: String::new(), token_expired: false, token: None }),
            "Other(\"No token in response\")",
        ),
        (
            Event::Refreshed(RefreshReply { code: 500, message: "down".to_string(), token_expired: false, token: None }),
            "Response { code: 500, message: \"down\" }",
        ),
        (new_token("nonsense"), "InvalidToken(\"Invalid JWT format\")"),
    ];
    for (event, expected) in attempts {
        let mut client = signed_in();
        client.set_on_credential_refreshed(1);
        client.set_on_credential_invalid(1);
        let mut x = exchange();
        x.step_at(&mut client, Event::Start, clock(3600));
        let step = x.step_at(&mut client, event, clock(3600));
        assert_eq!(format!("{:?}", error(step)), expected);
        assert_eq!(client.tokens.access_token.as_deref(), Some("access"));
    }
}

#[test]
fn a_refused_refresh_about_credentials_is_told() {
    for code in [401, 40020, 40089] {
        let mut client = signed_in();
        client.set_on_credential_invalid(1);
        let mut x = exchange();
        x.step_at(&mut client, Event::Start, clock(3600));
        let refused = Event::Refreshed(RefreshReply { code, message: "no".to_string(), token_expired: false, token: None });
        told_invalid(x.step_at(&mut client, refused, clock(3600)));
        let step = x.step_at(&mut client, Event::Notified, clock(3600));
        match error(step) {
            ApiError::Response { code: c, message } => assert_eq!((c, message.as_str()), (code, "no")),
            other => panic!("{:?}", other),
        }
    }
}

#[test]
fn a_reply_about_credentials_is_told() {
    for (code, told) in [(401, true), (40020, true), (40089, true), (404, false), (-1, false)] {
        let mut client = signed_in();
        client.set_on_credential_invalid(1);
        let mut x = exchange();
        x.step_at(&mut client, Event::Start, clock(10));
        x.step_at(&mut client, reply("{}"), clock(10));
        let event = parsed(code, false);
        let mut step = x.step_at(&mut client, event, clock(10));
        if told {
            told_invalid(step);
            step = x.step_at(&mut client, Event::Notified, clock(10));
        }
        match error(step) {
            ApiError::Response { code: c, message } => {
                assert_eq!((c, message), (code, format!("message {}", code)));
            }
            other => panic!("{:?}", other),
        }
    }
}

#[test]
fn an_expired_token_is_renewed_and_the_request_retried_once() {
    let mut client = signed_in();
    let mut x = exchange();
    x.step_at(&mut client, Event::Start, clock(10));
    x.step_at(&mut client, reply("{}"), clock(10));
    let expired = || parsed(401, true);
    let (_, token) = refresh(x.step_at(&mut client, expired(), clock(10)));
    assert_eq!(token, "refresh");
    let (_, headers) = request(x.step_at(&mut client, new_token(RENEWED), clock(10)));
    assert_eq!(headers, vec![header("Authorization", &format!("Bearer {}", RENEWED))]);
    x.step_at(&mut client, reply("{}"), clock(10));
    let step = x.step_at(&mut client, expired(), clock(10));
    assert!(matches!(error(step), ApiError::AccessTokenExpired));
}

#[test]
fn a_renewed_token_that_has_expired_is_renewed_again() {
    let mut client = signed_in();
    let mut x = exchange();
    x.step_at(&mut client, Event::Start, clock(3600));
    request(x.step_at(&mut client, new_token(RENEWED), clock(3600)));
    x.step_at(&mut client, reply("{}"), clock(3600));
    let expired = parsed(401, true);
    let (_, token) = refresh(x.step_at(&mut client, expired, clock(3600)));
    assert_eq!(token, "refresh 2");
    // The access token that arrives has expired by the time of the second attempt.
    let (_, token) = refresh(x.step_at(&mut client, new_token(RENEWED), clock(40_000_000)));
    assert_eq!(token, "refresh 2");
    let step = x.step_at(&mut client, new_token(RENEWED), clock(40_000_000));
    request(step);
}

#[test]
fn a_retry_without_refresh_token_fails() {
    let mut client = signed_in();
    let mut x = Exchange::get("/a", RequestOptions::new().no_credential());
    x.step_at(&mut client, Event::Start, clock(10));
    client.clear_tokens();
    x.step_at(&mut client, reply("{}"), clock(10));
    let expired = parsed(401, true);
    let step = x.step_at(&mut client, expired, clock(10));
    assert!(matches!(error(step), ApiError::NoTokensAvailable));
}

#[test]
fn replies_that_cannot_be_had_or_read_fail() {
    let mut client = signed_in();
    let mut x = exchange();
    x.step_at(&mut client, Event::Start, clock(10));
    let step = x.step_at(&mut client, Event::SendFailed, clock(10));
    assert!(matches!(error(step), ApiError::Transport));
    let mut x = exchange();
    x.step_at(&mut client, Event::Start, clock(10));
    match error(x.step_at(&mut client, reply("<html>"), clock(10))) {
        ApiError::Json(text) => assert_eq!(text, "expected value at line 1 column 1"),
        other => panic!("{:?}", other),
    }
    let mut x = exchange();
    x.step_at(&mut client, Event::Start, clock(10));
    x.step_at(&mut client, reply("[]"), clock(10));
    let step = x.step_at(&mut client, Event::ParseFailed, clock(10));
    assert!(matches!(error(step), ApiError::Malformed));
}

#[test]
fn a_lock_conflict_ends_the_request() {
    let mut client = signed_in();
    client.set_on_credential_invalid(1);
    let mut x = Exchange::get("/a", RequestOptions::new());
    x.step_at(&mut client, Event::Start, clock(10));
    let step = x.step_at(&mut client, reply("{\"code\":40073,\"msg\":\"locked\"}"), clock(10));
    match error(step) {
        ApiError::LockConflict { message, detail } => {
            assert_eq!(message, "locked");
            assert_eq!(detail, None);
        }
        other => panic!("{:?}", other),
    }
    let mut x = Exchange::get("/a", RequestOptions::new());
    x.step_at(&mut client, Event::Start, clock(10));
    let text = "{\"data\": [ {\"path\":\"/p\"} ], \"code\": 40073}";
    match error(x.step_at(&mut client, reply(text), clock(10))) {
        ApiError::LockConflict { message, detail } => {
            assert_eq!(message, "");
            assert_eq!(detail.as_deref(), Some("[{\"path\":\"/p\"}]"));
        }
        other => panic!("{:?}", other),
    }
}

#[test]
fn a_lock_conflict_that_is_skipped_is_refused_like_any_other() {
    let mut client = signed_in();
    let mut x = Exchange::get("/a", RequestOptions::new().skip_lock_conflict());
    x.step_at(&mut client, Event::Start, clock(10));
    let step = x.step_at(&mut client, reply("{\"code\":40073,\"msg\":\"locked\"}"), clock(10));
    assert!(matches!(step, Some(Action::Parse)));
    let event = parsed(40073, false);
    let step = x.step_at(&mut client, event, clock(10));
    match error(step) {
        ApiError::Response { code, message } => {
            assert_eq!((code, message.as_str()), (40073, "message 40073"));
        }
        other => panic!("{:?}", other),
    }
}

#[test]
fn reply_texts_are_checked() {
    assert!(check_text("{\"code\":0}", false).is_none());
    assert!(check_text("{\"code\":401}", false).is_none());
    assert!(check_text("{}", false).is_none());
    assert!(check_text("7", false).is_none());
    assert!(check_text("{\"code\":\"40073\"}", false).is_none());
    assert!(matches!(
        check_text("{\"code\":40073}", false),
        Some(ApiError::LockConflict { message, .. }) if message.is_empty()
    ));
    assert!(matches!(
        check_text("{\"code\":40073,\"msg\":5}", false),
        Some(ApiError::LockConflict { message, .. }) if message.is_empty()
    ));
    assert!(matches!(
        check_text("{\"code\":4295007369,\"msg\":\"m\"}", false),
        Some(ApiError::LockConflict { message, .. }) if message == "m"
    ));
    assert!(matches!(
        check_text("", false),
        Some(ApiError::Json(text)) if text == "EOF while parsing a value at line 1 column 0"
    ));
    assert!(check_text("{\"code\":40073}", true).is_none());
    assert!(matches!(check_text("{", true), Some(ApiError::Json(_))));
}

#[test]
fn codes_are_cut_to_thirty_two_bits() {
    let number = |n: i64| code_of(Some(&JsonMember::Number(Some(n))));
    for n in [0, 1, -1, 401, i32::MAX as i64, i32::MIN as i64] {
        assert_eq!(number(n) as i64, n);
    }
    for n in [0x8000_0000, -0x8000_0001, 0x1_0000_0000, i64::MAX, i64::MIN, -5_000_000_000] {
        assert_eq!(number(n), n as i32);
    }
    assert_eq!(code_of(None), 0);
    assert_eq!(code_of(Some(&JsonMember::Number(None))), 0);
    assert_eq!(code_of(Some(&JsonMember::Text("401".to_string()))), 0);
}

#[test]
fn messages_are_texts() {
    assert_eq!(message_of(Some(&JsonMember::Text("m".to_string()))), "m");
    assert_eq!(message_of(Some(&JsonMember::Null)), "");
    assert_eq!(message_of(None), "");
}

#[test]
fn the_clock_of_the_machine_is_read() {
    let mut client: Client<u8, u8> = Client::new(ClientConfig::new("u"));
    client.set_tokens("a".to_string(), "r".to_string());
    let (_, headers) = request(exchange().step(&mut client, Event::Start));
    assert_eq!(headers, vec![header("Authorization", "Bearer a")]);
    let mut old = signed_in();
    let step = exchange().step(&mut old, Event::Start);
    assert!(matches!(error(step), ApiError::RefreshTokenExpired));
}

#[test]
fn whatever_the_server_replies_an_exchange_ends() {
    let mut client = signed_in();
    client.set_on_credential_invalid(1);
    client.set_on_credential_refreshed(1);
    let mut x = exchange();
    let mut steps = 0;
    let mut sends = 0;
    let mut refreshes = 0;
    let mut event = Event::Start;
    loop {
        let step = x.step_at(&mut client, event, clock(3600)).unwrap();
        steps += 1;
        // Every token that arrives has expired, and every reply says so.
        event = match step {
            Action::PostRefresh { .. } => {
                refreshes += 1;
                Event::Refreshed(RefreshReply {
                    code: 0,
                    message: String::new(),
                    token_expired: true,
                    token: Some(Token {
                        access_token: RENEWED.to_string(),
                        refresh_token: "r".to_string(),
                        access_expires: "1970-01-01T00:00:01Z".to_string(),
                        refresh_expires: "2000-01-01T00:00:00Z".to_string(),
                    }),
                })
            }
            Action::Send(_) => {
                sends += 1;
                reply("{}")
            }
            Action::Parse => parsed(40020, true),
            Action::NotifyRefreshed(_) | Action::NotifyInvalid => Event::Notified,
            Action::Finish(res) => {
                assert!(matches!(res, Err(ApiError::AccessTokenExpired)));
                break;
            }
        };
    }
    assert_eq!((steps, sends, refreshes), (13, 2, 3));
}

#[test]
fn each_kind_of_request_has_its_method_and_body() {
    let client = signed_in();
    let options = RequestOptions::new();
    let plan = |x: Exchange| {
        let plan = x.plan(&client, None);
        (plan.method, plan.with_body)
    };
    assert_eq!(plan(Exchange::get("/a", options)), ("GET".to_string(), false));
    assert_eq!(plan(Exchange::post("/a", options)), ("POST".to_string(), true));
    assert_eq!(plan(Exchange::put("/a", options)), ("PUT".to_string(), true));
    assert_eq!(plan(Exchange::delete("/a", options)), ("DELETE".to_string(), false));
    assert_eq!(plan(Exchange::delete_with_body("/a", options)), ("DELETE".to_string(), true));
    assert_eq!(plan(Exchange::patch("/a", options)), ("PATCH".to_string(), true));
    assert_eq!(plan(Exchange::new("/a", "HEAD", false, options)), ("HEAD".to_string(), false));
}

#[test]
fn a_retry_repeats_the_request() {
    let mut client = signed_in();
    let mut x = Exchange::patch("/a", RequestOptions::new());
    let sent = |step: Option<Action<String, Headers>>| match step.unwrap() {
        Action::Send(plan) => (plan.method, plan.url, plan.with_body),
        other => panic!("{:?}", other),
    };
    let first = sent(x.step_at(&mut client, Event::Start, clock(10)));
    assert_eq!(
        first,
        ("PATCH".to_string(), "https://c.example/api/v4/a".to_string(), true)
    );
    x.step_at(&mut client, reply("{}"), clock(10));
    let expired = parsed(401, true);
    x.step_at(&mut client, expired, clock(10));
    assert_eq!(sent(x.step_at(&mut client, new_token(RENEWED), clock(10))), first);
}

#[test]
fn a_verdict_is_carried_out() {
    let client = signed_in();
    let cases = [
        (Verdict::NoTokens, "NoTokensAvailable"),
        (Verdict::RefreshExpired, "RefreshTokenExpired"),
        (Verdict::AccessExpired, "AccessTokenExpired"),
        (
            Verdict::Refused { code: 7, message: "m".to_string() },
            "Response { code: 7, message: \"m\" }",
        ),
    ];
    for (verdict, expected) in cases {
        assert_eq!(format!("{:?}", verdict.duplicate()), format!("{:?}", verdict));
        let action = exchange().conclude(&client, verdict);
        assert_eq!(format!("{:?}", error(Some(action))), expected);
    }
    let (_, token) = refresh(Some(exchange().conclude(&client, Verdict::Retry)));
    assert_eq!(token, "refresh");
}

#[test]
fn a_success_gives_the_data_or_the_default() {
    assert_eq!(reply_data(Some(5), 0), 5);
    assert_eq!(reply_data(None, 9), 9);
}

#[test]
fn an_exchange_resumes_with_the_new_token_or_from_the_start() {
    let client = signed_in();
    let (_, headers) = request(Some(exchange().resume(&client, "new", false, false, clock(10))));
    assert_eq!(headers, vec![header("Authorization", "Bearer new")]);
    let (_, headers) = request(Some(exchange().resume(&client, "new", false, true, clock(10))));
    assert_eq!(headers, vec![header("Authorization", "Bearer access")]);
}
