//! The check that an access token is a JWT with scopes.

use crate::error::ApiError;
use crate::json::{
    fields, find_value, json_bytes_fields, member_view, parse_bytes, value_of, Fields, JsonField,
    JsonMember,
};
use crate::text::{concat2, pieces, split};
use base64::Engine;
use vstd::prelude::*;

verus! {

/// The bytes that a text stands for in base64 with the URL-safe alphabet and no padding, or the
/// words of the decoder's error.
pub uninterp spec fn base64url(text: Seq<char>) -> Result<Seq<u8>, Seq<char>>;

/// Decoded bytes, or the words of an error, as contracts see them.
pub open spec fn bytes_view(res: Result<Vec<u8>, String>) -> Result<Seq<u8>, Seq<char>> {
    match res {
        Ok(bytes) => Ok(bytes@),
        Err(text) => Err(text@),
    }
}

/// Calls `Engine::decode` of base64's `URL_SAFE_NO_PAD`. The result depends on the text alone,
/// and is named `base64url`; neither the alphabet nor the wording of errors is repeated here.
#[verifier::external_body]
fn decode_base64url(text: &str) -> (res: Result<Vec<u8>, String>)
    ensures
        bytes_view(res) == base64url(text@),
{
    base64::engine::general_purpose::URL_SAFE_NO_PAD.decode(text).map_err(|e| e.to_string())
}

/// What is wrong with the `scopes` member of a token, if anything.
pub open spec fn scopes_verdict(scopes: Option<JsonMember<Seq<char>>>) -> Result<(), Seq<char>> {
    match scopes {
        None => Err("Token missing 'scopes' field"@),
        Some(JsonMember::Array(len)) => if len == 0 {
            Err("Token 'scopes' field is empty"@)
        } else {
            Ok(())
        },
        Some(JsonMember::Text(text)) => if text.len() == 0 {
            Err("Token 'scopes' field is empty"@)
        } else {
            Ok(())
        },
        Some(_) => Err("Token 'scopes' field has invalid type"@),
    }
}

/// What is wrong with the members of the payload of a token, if anything.
pub open spec fn fields_verdict(payload: Fields) -> Result<(), Seq<char>> {
    scopes_verdict(value_of(payload, "scopes"@))
}

/// What is wrong with the decoded payload of a token, if anything.
pub open spec fn payload_verdict(payload: Seq<u8>) -> Result<(), Seq<char>> {
    match json_bytes_fields(payload) {
        Err(text) => Err("Failed to parse JWT payload: "@ + text),
        Ok(fields) => fields_verdict(fields),
    }
}

/// What is wrong with a token, if anything: it has three parts, of which the second holds a JSON
/// object with scopes.
pub open spec fn token_verdict(token: Seq<char>) -> Result<(), Seq<char>> {
    let parts = pieces(token, '.');
    if parts.len() != 3 {
        Err("Invalid JWT format"@)
    } else {
        match base64url(parts[1]) {
            Err(text) => Err("Failed to decode JWT payload: "@ + text),
            Ok(payload) => payload_verdict(payload),
        }
    }
}

/// Whether a result says what a verdict says: nothing is wrong, or the token is invalid, in the
/// verdict's words.
pub open spec fn says(res: Result<(), ApiError<String>>, verdict: Result<(), Seq<char>>) -> bool {
    match res {
        Ok(()) => verdict is Ok,
        Err(error) => verdict is Err && error@ == ApiError::InvalidToken(verdict->Err_0),
    }
}

/// Checks that the `scopes` member of a token is there and not empty.
pub fn check_scopes(scopes: Option<&JsonMember<String>>) -> (res: Result<(), ApiError<String>>)
    ensures
        says(res, scopes_verdict(member_view(scopes))),
{
    match scopes {
        None => Err(ApiError::InvalidToken("Token missing 'scopes' field".to_owned())),
        Some(JsonMember::Array(len)) => {
            if *len == 0 {
                Err(ApiError::InvalidToken("Token 'scopes' field is empty".to_owned()))
            } else {
                Ok(())
            }
        },
        Some(JsonMember::Text(text)) => {
            if text.as_str().is_empty() {
                Err(ApiError::InvalidToken("Token 'scopes' field is empty".to_owned()))
            } else {
                Ok(())
            }
        },
        Some(_) => Err(
            ApiError::InvalidToken("Token 'scopes' field has invalid type".to_owned()),
        ),
    }
}

/// Checks the members of the payload of a token.
pub fn check_fields(payload: &Vec<(String, JsonField<String>)>) -> (res: Result<
    (),
    ApiError<String>,
>)
    ensures
        says(res, fields_verdict(fields(payload@))),
{
    check_scopes(find_value(payload, "scopes"))
}

/// Checks the decoded payload of a token.
pub fn check_payload(payload: &[u8]) -> (res: Result<(), ApiError<String>>)
    ensures
        says(res, payload_verdict(payload@)),
{
    match parse_bytes(payload) {
        Err(text) => Err(
            ApiError::InvalidToken(concat2("Failed to parse JWT payload: ", text.as_str())),
        ),
        Ok(fields) => check_fields(&fields),
    }
}

/// Validates that a JWT has a non-empty `scopes` member.
pub fn validate_jwt_scopes(token: &str) -> (res: Result<(), ApiError<String>>)
    ensures
        says(res, token_verdict(token@)),
{
    let parts = split(token, '.');
    if parts.len() != 3 {
        return Err(ApiError::InvalidToken("Invalid JWT format".to_owned()));
    }
    match decode_base64url(parts[1]) {
        Err(text) => Err(
            ApiError::InvalidToken(concat2("Failed to decode JWT payload: ", text.as_str())),
        ),
        Ok(payload) => check_payload(payload.as_slice()),
    }
}

/// A token that is accepted has three parts, and the second one holds a JSON object whose
/// `scopes` are an array or a text, and not empty.
pub proof fn law_accepted_token_has_scopes(token: Seq<char>)
    requires
        token_verdict(token) is Ok,
    ensures
        pieces(token, '.').len() == 3,
        base64url(pieces(token, '.')[1]) is Ok,
        json_bytes_fields(base64url(pieces(token, '.')[1])->Ok_0) matches Ok(payload) && (value_of(
            payload,
            "scopes"@,
        ) matches Some(scopes) && match scopes {
            JsonMember::Array(len) => len > 0,
            JsonMember::Text(text) => text.len() > 0,
            _ => false,
        }),
{
}

/// A token of three parts is accepted whenever the second one decodes to a JSON object whose
/// `scopes` are an array of one or more elements, or a text of one or more characters.
pub proof fn law_token_with_scopes_is_accepted(token: Seq<char>, payload: Seq<u8>, scopes: JsonMember<
    Seq<char>,
>)
    requires
        pieces(token, '.').len() == 3,
        base64url(pieces(token, '.')[1]) == Ok::<Seq<u8>, Seq<char>>(payload),
        json_bytes_fields(payload) matches Ok(fields) && fields.dom().contains("scopes"@)
            && fields["scopes"@].value == scopes,
        scopes matches JsonMember::Array(len) && len >= 1 || (scopes matches JsonMember::Text(text)
            && text.len() >= 1),
    ensures
        token_verdict(token) is Ok,
{
}

/// A token that is refused is refused for what is wrong with it: the number of its parts, its
/// encoding, its JSON, or its `scopes`, which are missing, empty, or neither array nor text.
pub proof fn law_refused_token_is_told_why(token: Seq<char>)
    requires
        token_verdict(token) is Err,
    ensures
        pieces(token, '.').len() != 3 ==> token_verdict(token)->Err_0 == "Invalid JWT format"@,
        pieces(token, '.').len() == 3 ==> match base64url(pieces(token, '.')[1]) {
            Err(words) => token_verdict(token)->Err_0 == "Failed to decode JWT payload: "@ + words,
            Ok(payload) => match json_bytes_fields(payload) {
                Err(words) => token_verdict(token)->Err_0 == "Failed to parse JWT payload: "@
                    + words,
                Ok(fields) => if !fields.dom().contains("scopes"@) {
                    token_verdict(token)->Err_0 == "Token missing 'scopes' field"@
                } else {
                    match fields["scopes"@].value {
                        JsonMember::Array(len) => len == 0 && token_verdict(token)->Err_0
                            == "Token 'scopes' field is empty"@,
                        JsonMember::Text(text) => text.len() == 0 && token_verdict(token)->Err_0
                            == "Token 'scopes' field is empty"@,
                        _ => token_verdict(token)->Err_0 == "Token 'scopes' field has invalid type"@,
                    }
                },
            },
        },
{
}

/// A check succeeds exactly where nothing is wrong, and otherwise fails with an invalid token in
/// the words of what is wrong.
pub proof fn law_check_says_verdict(res: Result<(), ApiError<String>>, verdict: Result<
    (),
    Seq<char>,
>)
    requires
        says(res, verdict),
    ensures
        res is Ok <==> verdict is Ok,
        res matches Err(error) ==> error@ == ApiError::InvalidToken(verdict->Err_0),
{
}


} // verus!
