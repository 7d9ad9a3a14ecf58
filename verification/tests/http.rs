use cloudreve::http::{
    body_failure, build_failure, check_method, complain, http_outcome, ping_outcome, ping_url,
    ping_url_of, request_failure, status_text, success,
};

#[test]
fn success_is_two_hundred_and_more() {
    for code in [200, 204, 299] {
        assert!(success(code));
    }
    for code in [100, 199, 300, 404, 500, 999] {
        assert!(!success(code));
    }
}

#[test]
fn status_codes_are_displayed_with_their_reason() {
    assert_eq!(status_text(200), "200 OK");
    assert_eq!(status_text(404), "404 Not Found");
    assert_eq!(status_text(503), "503 Service Unavailable");
    assert_eq!(status_text(999), "999 <unknown status code>");
}

#[test]
fn methods_are_tokens() {
    for method in ["GET", "post", "PATCH", "X-Method_1.0!#$%&'*+^`|~"] {
        assert_eq!(check_method(method), Ok(method.to_string()));
    }
    for method in ["", " ", "GET ", "G\tT", "GÉT", "a/b", "a\"b", "a(b", "a{b", "a:b"] {
        assert_eq!(check_method(method), Err("invalid method: InvalidMethod".to_string()));
    }
}

#[test]
fn failures_list_their_causes() {
    let report = request_failure("http://x", "short", "Long {\n}", &Vec::new());
    assert_eq!(report, "request failed\nURL: http://x\nDisplay: short\nDebug: Long {\n}");
    let causes: Vec<String> = (0..11).map(|i| format!("cause {}", i * i)).collect();
    let report = request_failure("u", "d", "D", &causes);
    let mut expected = "request failed\nURL: u\nDisplay: d\nDebug: D".to_string();
    for (i, cause) in causes.iter().enumerate() {
        expected.push_str(&format!("\nCaused by [{}]: {}", i, cause));
    }
    assert_eq!(report, expected);
    assert!(report.ends_with("\nCaused by [10]: cause 100"));
}

#[test]
fn other_failures_have_their_words() {
    assert_eq!(build_failure("E"), "build reqwest client failed: E");
    assert_eq!(body_failure("E"), "read response body failed: E");
    assert_eq!(complain("404 Not Found", "b"), "http status error: 404 Not Found\nbody: b");
}

#[test]
fn any_status_is_a_response() {
    let response = http_outcome(500, Ok("oops".to_string())).unwrap();
    assert_eq!((response.status, response.body.as_str()), (500, "oops"));
    match http_outcome(200, Err("cut off".to_string())) {
        Err(report) => assert_eq!(report, "read response body failed: cut off"),
        Ok(response) => panic!("{:?}", response),
    }
}

#[test]
fn sites_are_pinged_below_their_address() {
    let expected = Ok("https://c.example/api/v4/site/ping".to_string());
    assert_eq!(ping_url("https://c.example"), expected);
    assert_eq!(ping_url("https://c.example/"), expected);
    assert_eq!(ping_url(" \t https://c.example///\n"), expected);
    assert_eq!(
        ping_url("http://h/base"),
        Ok("http://h/base/api/v4/site/ping".to_string())
    );
    assert_eq!(ping_url_of("https://c.example//"), expected);
    assert_eq!(
        ping_url_of(" https://c.example"),
        Err("invalid site url:  https://c.example".to_string())
    );
}

#[test]
fn only_web_addresses_are_pinged() {
    for (site, named) in [
        ("", ""),
        ("c.example", "c.example"),
        (" ftp://x/ ", "ftp://x"),
        ("HTTPS://x", "HTTPS://x"),
        ("http://", "http:"),
        ("x https://y", "x https://y"),
    ] {
        assert_eq!(ping_url(site), Err(format!("invalid site url: {}", named)));
    }
}

#[test]
fn a_ping_answers_with_the_body_of_success() {
    assert_eq!(ping_outcome(200, Ok("pong".to_string())), Ok("pong".to_string()));
    assert_eq!(
        ping_outcome(502, Ok("bad".to_string())),
        Err("http status error: 502 Bad Gateway\nbody: bad".to_string())
    );
    assert_eq!(
        ping_outcome(502, Err("cut off".to_string())),
        Err("read response body failed: cut off".to_string())
    );
    assert_eq!(
        ping_outcome(200, Err("cut off".to_string())),
        Err("read response body failed: cut off".to_string())
    );
}
