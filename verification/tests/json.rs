use cloudreve::error::ApiError;
use cloudreve::exchange::{check_fields, check_text};
use cloudreve::json::{find, find_value, JsonField, JsonMember};
use cloudreve::jwt;

fn field(key: &str, value: JsonMember<String>, json: &str) -> (String, JsonField<String>) {
    (key.to_string(), JsonField { value, json: json.to_string() })
}

#[test]
fn members_are_found_by_their_keys() {
    let list = vec![
        field("a", JsonMember::Bool(true), "true"),
        field("b", JsonMember::Null, "null"),
        field("a", JsonMember::Number(Some(5)), "5"),
    ];
    assert_eq!(find(&list, "a").unwrap().json, "5");
    assert!(matches!(find_value(&list, "a"), Some(JsonMember::Number(Some(5)))));
    assert!(matches!(find_value(&list, "b"), Some(JsonMember::Null)));
    assert!(find(&list, "c").is_none());
    assert!(find_value(&Vec::new(), "a").is_none());
}

#[test]
fn a_lock_conflict_is_told_by_its_members() {
    let code = |n: i64| field("code", JsonMember::Number(Some(n)), "");
    let msg = || field("msg", JsonMember::Text("locked".to_string()), "\"locked\"");
    let data = || field("data", JsonMember::Object, "{\"a\":1}");
    match check_fields(&vec![data(), msg(), code(40073)], false) {
        Some(ApiError::LockConflict { message, detail }) => {
            assert_eq!(message, "locked");
            assert_eq!(detail.as_deref(), Some("{\"a\":1}"));
        }
        other => panic!("{:?}", other),
    }
    assert!(check_fields(&vec![data(), msg(), code(40073)], true).is_none());
    assert!(check_fields(&vec![data(), msg(), code(401)], false).is_none());
    assert!(check_fields(&Vec::new(), false).is_none());
}

#[test]
fn the_last_of_equal_keys_counts() {
    assert!(check_text("{\"code\":40073,\"code\":0}", false).is_none());
    assert!(check_text("{\"code\":0,\"code\":40073}", false).is_some());
}

#[test]
fn data_is_handed_out_in_json() {
    for (data, json) in [
        ("null", "null"),
        ("\"t\\u0041\"", "\"tA\""),
        ("[ 1, 2 ]", "[1,2]"),
        ("{ }", "{}"),
        ("7", "7"),
    ] {
        match check_text(&format!("{{\"code\":40073,\"data\":{}}}", data), false) {
            Some(ApiError::LockConflict { detail, .. }) => assert_eq!(detail.as_deref(), Some(json)),
            other => panic!("{:?}", other),
        }
    }
}

#[test]
fn scopes_are_looked_up_among_the_members() {
    let scopes = |value| jwt::check_fields(&vec![field("x", JsonMember::Null, ""), field("scopes", value, "")]);
    assert!(scopes(JsonMember::Array(2)).is_ok());
    assert!(scopes(JsonMember::Array(0)).is_err());
    assert!(jwt::check_fields(&vec![field("scope", JsonMember::Array(2), "")]).is_err());
}
