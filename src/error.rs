//! The JSON error envelope and the taxonomy of failures that handlers report.

use vstd::prelude::*;

verus! {

/// The body of every error response: `{ "error": <message>, "code": <code> }`.
#[derive(Debug, PartialEq, Eq)]
pub struct ErrorResp {
    pub error: String,
    pub code: String,
}

/// Every failure a handler reports, before it is rendered as an envelope.
#[derive(Debug, PartialEq, Eq)]
pub enum ApiError {
    /// Malformed input: a decimal that does not parse, a missing field.
    BadRequest(String),
    /// Input of the right shape that fails a semantic check.
    InvalidRequest(String),
    /// Login rejected, whether the user is unknown or the password wrong.
    InvalidCredentials,
    /// A protected route reached without an `Authorization` header.
    AuthMissing,
    /// An `Authorization` header that is not a bearer credential.
    AuthMalformed,
    /// A bearer or refresh token that does not verify.
    TokenInvalid(String),
    /// A uniqueness precheck failed.
    Conflict(String),
    /// The target row is absent.
    NotFound(String),
    /// Any unclassified failure, with the display text of its cause.
    Internal(String),
}

pub const STATUS_NO_CONTENT: u16 = 204;
pub const STATUS_BAD_REQUEST: u16 = 400;
pub const STATUS_UNAUTHORIZED: u16 = 401;
pub const STATUS_NOT_FOUND: u16 = 404;
pub const STATUS_CONFLICT: u16 = 409;
pub const STATUS_INTERNAL: u16 = 500;

impl ApiError {
    /// The HTTP status of each kind of failure.
    pub open spec fn status_spec(&self) -> u16 {
        match self {
            ApiError::BadRequest(_) => STATUS_BAD_REQUEST,
            ApiError::InvalidRequest(_) => STATUS_BAD_REQUEST,
            ApiError::InvalidCredentials => STATUS_UNAUTHORIZED,
            ApiError::AuthMissing => STATUS_UNAUTHORIZED,
            ApiError::AuthMalformed => STATUS_UNAUTHORIZED,
            ApiError::TokenInvalid(_) => STATUS_UNAUTHORIZED,
            ApiError::Conflict(_) => STATUS_CONFLICT,
            ApiError::NotFound(_) => STATUS_NOT_FOUND,
            ApiError::Internal(_) => STATUS_INTERNAL,
        }
    }

    /// The machine code of each kind of failure.
    pub open spec fn code_spec(&self) -> Seq<char> {
        match self {
            ApiError::BadRequest(_) => "bad_request"@,
            ApiError::InvalidRequest(_) => "invalid_request"@,
            ApiError::InvalidCredentials => "invalid_credentials"@,
            ApiError::AuthMissing => "missing_authorization"@,
            ApiError::AuthMalformed => "invalid_authorization"@,
            ApiError::TokenInvalid(_) => "invalid_token"@,
            ApiError::Conflict(_) => "conflict"@,
            ApiError::NotFound(_) => "not_found"@,
            ApiError::Internal(_) => "internal"@,
        }
    }

    /// The human message of each kind of failure.
    pub open spec fn message_spec(&self) -> Seq<char> {
        match self {
            ApiError::BadRequest(m) => m@,
            ApiError::InvalidRequest(m) => m@,
            ApiError::InvalidCredentials => "invalid credentials"@,
            ApiError::AuthMissing => "missing Authorization header"@,
            ApiError::AuthMalformed => "expected Bearer token"@,
            ApiError::TokenInvalid(m) => m@,
            ApiError::Conflict(m) => m@,
            ApiError::NotFound(m) => m@,
            ApiError::Internal(m) => m@,
        }
    }

    /// The HTTP status of this failure.
    pub fn status(&self) -> (r: u16)
        ensures
            r == self.status_spec(),
    {
        match self {
            ApiError::BadRequest(_) => STATUS_BAD_REQUEST,
            ApiError::InvalidRequest(_) => STATUS_BAD_REQUEST,
            ApiError::InvalidCredentials => STATUS_UNAUTHORIZED,
            ApiError::AuthMissing => STATUS_UNAUTHORIZED,
            ApiError::AuthMalformed => STATUS_UNAUTHORIZED,
            ApiError::TokenInvalid(_) => STATUS_UNAUTHORIZED,
            ApiError::Conflict(_) => STATUS_CONFLICT,
            ApiError::NotFound(_) => STATUS_NOT_FOUND,
            ApiError::Internal(_) => STATUS_INTERNAL,
        }
    }

    /// The machine code of this failure.
    pub fn code(&self) -> (r: &'static str)
        ensures
            r@ == self.code_spec(),
    {
        match self {
            ApiError::BadRequest(_) => "bad_request",
            ApiError::InvalidRequest(_) => "invalid_request",
            ApiError::InvalidCredentials => "invalid_credentials",
            ApiError::AuthMissing => "missing_authorization",
            ApiError::AuthMalformed => "invalid_authorization",
            ApiError::TokenInvalid(_) => "invalid_token",
            ApiError::Conflict(_) => "conflict",
            ApiError::NotFound(_) => "not_found",
            ApiError::Internal(_) => "internal",
        }
    }

    /// The status and envelope that render this failure.
    pub fn into_response(self) -> (r: (u16, ErrorResp))
        ensures
            r.0 == self.status_spec(),
            r.1.code@ == self.code_spec(),
            r.1.error@ == self.message_spec(),
    {
        let status = self.status();
        let code = self.code();
        let msg: String = match self {
            ApiError::BadRequest(m) => m,
            ApiError::InvalidRequest(m) => m,
            ApiError::InvalidCredentials => "invalid credentials".to_owned(),
            ApiError::AuthMissing => "missing Authorization header".to_owned(),
            ApiError::AuthMalformed => "expected Bearer token".to_owned(),
            ApiError::TokenInvalid(m) => m,
            ApiError::Conflict(m) => m,
            ApiError::NotFound(m) => m,
            ApiError::Internal(m) => m,
        };
        json_error(status, code, msg)
    }
}

/// An error response with the given status, machine code and message.
pub fn json_error(status: u16, code: &str, msg: String) -> (r: (u16, ErrorResp))
    ensures
        r.0 == status,
        r.1.code@ == code@,
        r.1.error@ == msg@,
{
    (status, ErrorResp { error: msg, code: code.to_owned() })
}

/// A `500 internal` response whose message is the display text of the cause.
pub fn internal_json(msg: String) -> (r: (u16, ErrorResp))
    ensures
        r.0 == STATUS_INTERNAL,
        r.1.code@ == "internal"@,
        r.1.error@ == msg@,
{
    json_error(STATUS_INTERNAL, "internal", msg)
}

/// A `400 bad_request` response whose message is the display text of the cause.
pub fn bad_request_json(msg: String) -> (r: (u16, ErrorResp))
    ensures
        r.0 == STATUS_BAD_REQUEST,
        r.1.code@ == "bad_request"@,
        r.1.error@ == msg@,
{
    json_error(STATUS_BAD_REQUEST, "bad_request", msg)
}

/// `Ok` of the row when it is present, else `404 not_found` with `what`.
pub fn found_or_not_found<T>(row: Option<T>, what: &str) -> (r: Result<T, ApiError>)
    ensures
        row matches Some(x) ==> r == Ok::<T, ApiError>(x),
        row is None ==> (r matches Err(ApiError::NotFound(m)) && m@ == what@),
{
    match row {
        Some(x) => Ok(x),
        None => Err(ApiError::NotFound(what.to_owned())),
    }
}

/// The outcome of a delete that removed `rows_affected` rows: `204` when a row
/// went, `404 not_found` with `what` when none was there.
pub fn deletion_outcome(rows_affected: u64, what: &str) -> (r: Result<u16, ApiError>)
    ensures
        rows_affected > 0 ==> r == Ok::<u16, ApiError>(STATUS_NO_CONTENT),
        rows_affected == 0 ==> (r matches Err(ApiError::NotFound(m)) && m@ == what@),
{
    if rows_affected == 0 {
        Err(ApiError::NotFound(what.to_owned()))
    } else {
        Ok(STATUS_NO_CONTENT)
    }
}

} // verus!
