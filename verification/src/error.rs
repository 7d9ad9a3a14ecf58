//! What can go wrong with a request to the API.

use crate::text::optional;
use vstd::prelude::*;

verus! {

/// The reply codes of the API that the client acts on.
#[derive(Debug, Clone, Copy, PartialEq, Eq, Structural)]
pub enum ErrorCode {
    Success,
    LoginRequired,
    CredentialInvalid,
    LockConflict,
    SessionExpired,
}

/// The number of a reply code.
pub open spec fn code_number(code: ErrorCode) -> i32 {
    match code {
        ErrorCode::Success => 0,
        ErrorCode::LoginRequired => 401,
        ErrorCode::CredentialInvalid => 40020,
        ErrorCode::LockConflict => 40073,
        ErrorCode::SessionExpired => 40089,
    }
}

/// Whether a number stands for a reply that the credentials are invalid or have expired.
pub open spec fn is_credential_number(number: i32) -> bool {
    number == 401 || number == 40020 || number == 40089
}

impl ErrorCode {
    /// The number of the code.
    pub fn number(self) -> (number: i32)
        ensures
            number == code_number(self),
    {
        match self {
            ErrorCode::Success => 0,
            ErrorCode::LoginRequired => 401,
            ErrorCode::CredentialInvalid => 40020,
            ErrorCode::LockConflict => 40073,
            ErrorCode::SessionExpired => 40089,
        }
    }

    /// The code with a number, where the client knows it.
    pub fn from_code(number: i32) -> (code: Option<ErrorCode>)
        ensures
            match code {
                Some(code) => number == code_number(code),
                None => forall|code: ErrorCode| number != code_number(code),
            },
    {
        if number == 0 {
            Some(ErrorCode::Success)
        } else if number == 401 {
            Some(ErrorCode::LoginRequired)
        } else if number == 40020 {
            Some(ErrorCode::CredentialInvalid)
        } else if number == 40073 {
            Some(ErrorCode::LockConflict)
        } else if number == 40089 {
            Some(ErrorCode::SessionExpired)
        } else {
            None
        }
    }

    /// Whether the code says that the credentials are invalid or have expired.
    pub fn is_credential_error(self) -> (res: bool)
        ensures
            res == is_credential_number(code_number(self)),
    {
        match self {
            ErrorCode::LoginRequired | ErrorCode::CredentialInvalid
            | ErrorCode::SessionExpired => true,
            ErrorCode::Success | ErrorCode::LockConflict => false,
        }
    }
}

/// Why a request to the API failed.
#[derive(Debug)]
pub enum ApiError<T> {
    /// The access token is not acceptable.
    InvalidToken(T),
    /// There are no tokens to authenticate with.
    NoTokensAvailable,
    /// The refresh token has expired.
    RefreshTokenExpired,
    /// The server says that the access token has expired.
    AccessTokenExpired,
    /// The request could not be made, or its reply could not be received.
    Transport,
    /// The reply is not valid JSON.
    Json(T),
    /// The reply does not have the expected form.
    Malformed,
    /// The object is locked; `detail` is the data of the reply, in JSON, if there is any.
    LockConflict { message: T, detail: Option<T> },
    /// The server refused the request with this code and message.
    Response { code: i32, message: T },
    /// Anything else.
    Other(T),
}

impl View for ApiError<String> {
    type V = ApiError<Seq<char>>;

    open spec fn view(&self) -> ApiError<Seq<char>> {
        match *self {
            ApiError::InvalidToken(text) => ApiError::InvalidToken(text@),
            ApiError::NoTokensAvailable => ApiError::NoTokensAvailable,
            ApiError::RefreshTokenExpired => ApiError::RefreshTokenExpired,
            ApiError::AccessTokenExpired => ApiError::AccessTokenExpired,
            ApiError::Transport => ApiError::Transport,
            ApiError::Json(text) => ApiError::Json(text@),
            ApiError::Malformed => ApiError::Malformed,
            ApiError::LockConflict { message, detail } => ApiError::LockConflict {
                message: message@,
                detail: optional(detail),
            },
            ApiError::Response { code, message } => ApiError::Response { code, message: message@ },
            ApiError::Other(text) => ApiError::Other(text@),
        }
    }
}

/// Different codes have different numbers, and a code is found again by its number.
pub proof fn law_codes_are_distinct(a: ErrorCode, b: ErrorCode)
    ensures
        code_number(a) == code_number(b) <==> a == b,
{
}

/// The codes that are about credentials are 401, 40020 and 40089, and no other number is; the code
/// of success and that of a lock conflict are not.
pub proof fn law_credential_codes(number: i32)
    ensures
        is_credential_number(number) <==> (number == 401 || number == 40020 || number == 40089),
        is_credential_number(code_number(ErrorCode::LoginRequired)),
        is_credential_number(code_number(ErrorCode::CredentialInvalid)),
        is_credential_number(code_number(ErrorCode::SessionExpired)),
        !is_credential_number(code_number(ErrorCode::Success)),
        !is_credential_number(code_number(ErrorCode::LockConflict)),
{
}


} // verus!
