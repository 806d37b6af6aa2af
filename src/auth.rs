//! Authentication: login checks, token claims, the guard in front of protected
//! routes, and refresh.

use vstd::prelude::*;
use vstd::utf8::encode_utf8;
use crate::error::{ApiError, STATUS_UNAUTHORIZED};
use crate::text::{chars_of, contains_in, same_text, strip_prefix, trim, trim_bounds};
use crate::users::UserRow;

verus! {

/// Body of `POST /api/auth/login`.
#[derive(Debug, PartialEq, Eq)]
pub struct LoginReq {
    pub email: String,
    pub password: String,
}

/// Answer to a successful login.
#[derive(Debug, PartialEq, Eq)]
pub struct LoginResp {
    pub token: String,
    pub refresh_token: String,
}

/// Payload of an access or refresh token.
#[derive(Debug, PartialEq, Eq)]
pub struct Claims {
    /// The user's email.
    pub sub: String,
    /// The user's id.
    pub uid: i32,
    /// Issued at, in seconds since the Unix epoch.
    pub iat: i64,
    /// Expires at, in seconds since the Unix epoch.
    pub exp: i64,
}

/// Body of `POST /api/auth/refresh`.
#[derive(Debug, PartialEq, Eq)]
pub struct RefreshReq {
    pub refresh_token: String,
}

/// Answer to a successful refresh.
#[derive(Debug, PartialEq, Eq)]
pub struct RefreshResp {
    pub token: String,
    pub refresh_token: String,
}

/// Lifetime of an access token: one hour.
pub const ACCESS_TOKEN_TTL_SECS: i64 = 3600;

/// Lifetime of a refresh token: thirty days.
pub const REFRESH_TOKEN_TTL_SECS: i64 = 2592000;

/// Shortest password a login accepts, in bytes.
pub const MIN_PASSWORD_BYTES: usize = 6;

/// The minimal email shape: an `@`, a `.`, and no `.` at the end.
pub open spec fn email_shape(t: Seq<char>) -> bool {
    &&& t.contains('@')
    &&& t.contains('.')
    &&& !(t.len() > 0 && t.last() == '.')
}

/// An email is valid when its trimmed text has the minimal shape.
pub open spec fn valid_email(s: Seq<char>) -> bool {
    email_shape(trim(s))
}

/// The length of a text in bytes, as `str::len` reports it.
pub open spec fn byte_len(s: Seq<char>) -> usize {
    encode_utf8(s).len() as usize
}

/// Whether a login request passes input validation.
pub open spec fn login_request_ok(email: Seq<char>, password: Seq<char>) -> bool {
    valid_email(email) && byte_len(password) >= MIN_PASSWORD_BYTES
}

/// Whether `s`, trimmed, has the minimal email shape.
pub fn is_valid_email(s: &str) -> (r: bool)
    ensures
        r == valid_email(s@),
{
    let v = chars_of(s);
    let (i, j) = trim_bounds(&v);
    let ghost t = v@.subrange(i as int, j as int);
    let has_at = contains_in(&v, i, j, '@');
    let has_dot = contains_in(&v, i, j, '.');
    let dot_end = j > i && v[j - 1] == '.';
    assert(j > i ==> t.last() == v@[j - 1]);
    has_at && has_dot && !dot_end
}

/// Input validation of a login: `400 invalid_request` for a malformed email,
/// then for a password under six bytes.
pub fn validate_login(req: &LoginReq) -> (r: Result<(), ApiError>)
    ensures
        r is Ok <==> login_request_ok(req.email@, req.password@),
        !valid_email(req.email@) ==> (r matches Err(ApiError::InvalidRequest(m)) && m@
            == "invalid email"@),
        valid_email(req.email@) && byte_len(req.password@) < MIN_PASSWORD_BYTES ==> (
        r matches Err(ApiError::InvalidRequest(m)) && m@ == "password too short"@),
{
    if !is_valid_email(req.email.as_str()) {
        return Err(ApiError::InvalidRequest("invalid email".to_owned()));
    }
    if req.password.as_str().len() < MIN_PASSWORD_BYTES {
        return Err(ApiError::InvalidRequest("password too short".to_owned()));
    }
    Ok(())
}

/// What checking `password` against a stored bcrypt `hash` gives: whether they
/// match, or the display text of the failure.
pub uninterp spec fn password_check(password: Seq<char>, hash: Seq<char>) -> Result<bool, Seq<char>>;

/// A check outcome, with the failure as text.
pub open spec fn outcome_view(r: Result<bool, String>) -> Result<bool, Seq<char>> {
    match r {
        Ok(b) => Ok(b),
        Err(e) => Err(e@),
    }
}

/// Relies on `bcrypt::verify`: recomputes the hash of `password` with the cost
/// and salt read from `hash`, and compares; its result depends on the two
/// texts alone.
#[verifier::external_body]
fn bcrypt_verify(password: &str, hash: &str) -> (r: Result<bool, String>)
    ensures
        outcome_view(r) == password_check(password@, hash@),
{
    bcrypt::verify(password, hash).map_err(|e| e.to_string())
}

/// Whether a hashing outcome, when it succeeded, gives a hash that accepts
/// `password`.
pub open spec fn hash_accepts(password: Seq<char>, r: Result<String, String>) -> bool {
    match r {
        Ok(h) => password_check(password, h@) == Ok::<bool, Seq<char>>(true),
        Err(_) => true,
    }
}

/// Relies on `bcrypt::hash` at `bcrypt::DEFAULT_COST`, with a failure as its
/// display text. The salt is random, so the text is not determined; but the
/// hash records cost and salt, and `bcrypt::verify` recomputes from them with
/// the same truncation rule, so it accepts the password the hash was made from.
#[verifier::external_body]
fn bcrypt_hash(password: &str) -> (r: Result<String, String>)
    ensures
        hash_accepts(password@, r),
{
    bcrypt::hash(password, bcrypt::DEFAULT_COST).map_err(|e| e.to_string())
}

/// The hash to store for `password`; a hashing failure is `500 internal`.
pub fn hash_password(password: &str) -> (r: Result<String, ApiError>)
    ensures
        r matches Ok(h) ==> password_check(password@, h@) == Ok::<bool, Seq<char>>(true),
        r matches Err(e) ==> e is Internal,
{
    match bcrypt_hash(password) {
        Ok(h) => Ok(h),
        Err(e) => Err(ApiError::Internal(e)),
    }
}

/// Whether a login with this lookup result and check outcome is accepted.
pub open spec fn credentials_accepted(user: Option<UserRow>, outcome: Result<bool, Seq<char>>) -> bool {
    user is Some && outcome == Ok::<bool, Seq<char>>(true)
}

/// The login decision once the user was looked up by email and, if found,
/// the password was checked: an unknown user and a wrong password both give
/// `401 invalid_credentials`; a failed check gives `500 internal`.
pub fn credentials_verdict(user: Option<UserRow>, outcome: Result<bool, String>) -> (r: Result<
    UserRow,
    ApiError,
>)
    ensures
        r is Ok <==> credentials_accepted(user, outcome_view(outcome)),
        r matches Ok(u) ==> user == Some(u),
        user is None ==> r matches Err(ApiError::InvalidCredentials),
        user is Some && outcome == Ok::<bool, String>(false) ==> r matches Err(
            ApiError::InvalidCredentials,
        ),
        user is Some ==> (outcome matches Err(e) ==> (r matches Err(ApiError::Internal(m)) && m@
            == e@)),
{
    match user {
        None => Err(ApiError::InvalidCredentials),
        Some(u) => match outcome {
            Ok(true) => Ok(u),
            Ok(false) => Err(ApiError::InvalidCredentials),
            Err(e) => Err(ApiError::Internal(e)),
        },
    }
}

/// Checks `password` against the stored hash of the user found by email.
pub fn check_credentials(password: &str, user: Option<UserRow>) -> (r: Result<UserRow, ApiError>)
    ensures
        user is None ==> r matches Err(ApiError::InvalidCredentials),
        user matches Some(u) ==> {
            let outcome = password_check(password@, u.password_hash@);
            &&& (r is Ok <==> outcome == Ok::<bool, Seq<char>>(true))
            &&& (r matches Ok(v) ==> v == u)
            &&& (outcome == Ok::<bool, Seq<char>>(false) ==> r matches Err(
                ApiError::InvalidCredentials,
            ))
            &&& (outcome matches Err(e) ==> (r matches Err(ApiError::Internal(m)) && m@ == e))
        },
{
    match user {
        None => Err(ApiError::InvalidCredentials),
        Some(u) => {
            let outcome = bcrypt_verify(password, u.password_hash.as_str());
            credentials_verdict(Some(u), outcome)
        },
    }
}

/// Claims for `uid` and `email`, issued at `now` and valid for `ttl` seconds;
/// `None` when the expiry does not fit in an `i64`.
pub fn claims_at(uid: i32, email: &str, now: i64, ttl: i64) -> (r: Option<Claims>)
    requires
        ttl >= 0,
    ensures
        r is Some <==> now + ttl <= i64::MAX,
        r matches Some(c) ==> c.sub@ == email@ && c.uid == uid && c.iat == now && c.exp == now
            + ttl,
{
    match now.checked_add(ttl) {
        Some(exp) => Some(Claims { sub: email.to_owned(), uid, iat: now, exp }),
        None => None,
    }
}

/// The claims of an access token and of a refresh token minted together.
#[derive(Debug, PartialEq, Eq)]
pub struct TokenClaims {
    pub access: Claims,
    pub refresh: Claims,
}

/// Whether `p` is the pair minted for `uid` and `email` at `now`.
pub open spec fn is_pair_for(p: TokenClaims, uid: i32, email: Seq<char>, now: i64) -> bool {
    &&& p.access.sub@ == email && p.access.uid == uid
    &&& p.refresh.sub@ == email && p.refresh.uid == uid
    &&& p.access.iat == now && p.refresh.iat == now
    &&& p.access.exp == now + ACCESS_TOKEN_TTL_SECS
    &&& p.refresh.exp == now + REFRESH_TOKEN_TTL_SECS
}

/// The access and refresh claims for `uid` and `email` issued at `now`;
/// `None` when an expiry does not fit in an `i64`.
pub fn token_pair_at(uid: i32, email: &str, now: i64) -> (r: Option<TokenClaims>)
    ensures
        r is Some <==> now + REFRESH_TOKEN_TTL_SECS <= i64::MAX,
        r matches Some(p) ==> is_pair_for(p, uid, email@, now),
{
    let access = match claims_at(uid, email, now, ACCESS_TOKEN_TTL_SECS) {
        Some(c) => c,
        None => {
            return None;
        },
    };
    let refresh = match claims_at(uid, email, now, REFRESH_TOKEN_TTL_SECS) {
        Some(c) => c,
        None => {
            return None;
        },
    };
    Some(TokenClaims { access, refresh })
}

/// Relies on `chrono::Utc::now` and `DateTime::timestamp`: the current time in
/// whole seconds since the Unix epoch. Nothing is promised of its value.
#[verifier::external_body]
fn now_secs() -> (r: i64) {
    chrono::Utc::now().timestamp()
}

/// The access and refresh claims for `uid` and `email`, issued now.
pub fn issue_token_pair(uid: i32, email: &str) -> (r: Result<TokenClaims, ApiError>)
    ensures
        r matches Ok(p) ==> is_pair_for(p, uid, email@, p.access.iat),
        r matches Err(e) ==> e is Internal,
{
    let now = now_secs();
    match token_pair_at(uid, email, now) {
        Some(p) => Ok(p),
        None => Err(ApiError::Internal("token expiry out of range".to_owned())),
    }
}

/// The routes open without a token: login, refresh and user creation by
/// `POST`, and the health check.
pub open spec fn is_public_spec(path: Seq<char>, is_post: bool) -> bool {
    ||| is_post && (path == "/api/auth/login"@ || path == "/api/auth/refresh"@ || path
        == "/api/users"@)
    ||| path == "/health"@
    ||| "/health/"@.is_prefix_of(path)
}

/// Whether the route is open without a token.
pub fn is_public_route(path: &str, is_post: bool) -> (r: bool)
    ensures
        r == is_public_spec(path@, is_post),
{
    if is_post && (same_text(path, "/api/auth/login") || same_text(path, "/api/auth/refresh")
        || same_text(path, "/api/users")) {
        return true;
    }
    same_text(path, "/health") || strip_prefix(path, "/health/").is_some()
}

/// What the guard does with a request.
#[derive(Debug, PartialEq, Eq)]
pub enum GuardStep {
    /// Let the request through untouched.
    Pass,
    /// Let it through if this bearer token verifies.
    Verify(String),
    /// Answer with this failure.
    Reject(ApiError),
}

/// The token that an `Authorization` header carries, if it is a bearer
/// credential.
pub open spec fn bearer_of(h: Seq<char>) -> Option<Seq<char>> {
    if "Bearer "@.is_prefix_of(h) {
        Some(h.subrange(7, h.len() as int))
    } else {
        None
    }
}

/// An optional text as an optional view.
pub open spec fn text_opt(o: Option<&str>) -> Option<Seq<char>> {
    match o {
        Some(h) => Some(h@),
        None => None,
    }
}

/// Where the guard sends a request: `None` when the request reaches its
/// handler, else the status and code of the rejection. `verified` says whether
/// the bearer token, once one is read, verifies.
pub open spec fn guard_outcome(
    require: bool,
    path: Seq<char>,
    is_post: bool,
    authorization: Option<Seq<char>>,
    verified: bool,
) -> Option<(u16, Seq<char>)> {
    if !require || is_public_spec(path, is_post) {
        None
    } else {
        match authorization {
            None => Some((STATUS_UNAUTHORIZED, "missing_authorization"@)),
            Some(h) => match bearer_of(h) {
                None => Some((STATUS_UNAUTHORIZED, "invalid_authorization"@)),
                Some(_) => if verified {
                    None
                } else {
                    Some((STATUS_UNAUTHORIZED, "invalid_token"@))
                },
            },
        }
    }
}

/// The guard's first decision on a request to `path`, given whether the guard
/// is on and the `Authorization` header, if any.
pub fn guard_request(require: bool, path: &str, is_post: bool, authorization: Option<&str>) -> (r:
    GuardStep)
    ensures
        !require || is_public_spec(path@, is_post) ==> r is Pass,
        require && !is_public_spec(path@, is_post) ==> match authorization {
            None => r matches GuardStep::Reject(ApiError::AuthMissing),
            Some(h) => match bearer_of(h@) {
                Some(t) => r matches GuardStep::Verify(v) && v@ == t,
                None => r matches GuardStep::Reject(ApiError::AuthMalformed),
            },
        },
        r is Pass ==> forall|v: bool|
            #![auto]
            guard_outcome(require, path@, is_post, text_opt(authorization), v) is None,
        r matches GuardStep::Reject(e) ==> forall|v: bool|
            #![auto]
            guard_outcome(require, path@, is_post, text_opt(authorization), v) == Some(
                (e.status_spec(), e.code_spec()),
            ),
        r matches GuardStep::Verify(t) ==> {
            &&& guard_outcome(require, path@, is_post, text_opt(authorization), true) is None
            &&& guard_outcome(require, path@, is_post, text_opt(authorization), false) == Some(
                (STATUS_UNAUTHORIZED, "invalid_token"@),
            )
        },
{
    if !require || is_public_route(path, is_post) {
        return GuardStep::Pass;
    }
    match authorization {
        None => GuardStep::Reject(ApiError::AuthMissing),
        Some(h) => {
            proof {
                reveal_strlit("Bearer ");
            }
            match strip_prefix(h, "Bearer ") {
                Some(t) => GuardStep::Verify(t.to_owned()),
                None => GuardStep::Reject(ApiError::AuthMalformed),
            }
        },
    }
}

/// The guard's decision once the bearer token was checked: its claims go on
/// with the request, and a failed check is `401 invalid_token`.
pub fn guard_verdict(verified: Result<Claims, String>) -> (r: Result<Claims, ApiError>)
    ensures
        verified matches Ok(c) ==> r == Ok::<Claims, ApiError>(c),
        verified is Err ==> (r matches Err(ApiError::TokenInvalid(m)) && m@
            == "invalid or expired token"@),
{
    match verified {
        Ok(c) => Ok(c),
        Err(_) => Err(ApiError::TokenInvalid("invalid or expired token".to_owned())),
    }
}

/// Input validation of a refresh: a blank token is `400 invalid_request`.
pub fn validate_refresh(req: &RefreshReq) -> (r: Result<(), ApiError>)
    ensures
        r is Ok <==> trim(req.refresh_token@).len() > 0,
        r is Err ==> (r matches Err(ApiError::InvalidRequest(m)) && m@
            == "missing refresh_token"@),
{
    let v = chars_of(req.refresh_token.as_str());
    let (i, j) = trim_bounds(&v);
    if i == j {
        return Err(ApiError::InvalidRequest("missing refresh_token".to_owned()));
    }
    Ok(())
}

/// The refresh decision once the refresh token was checked: a failed check is
/// `401 invalid_token`.
pub fn refresh_verdict(verified: Result<Claims, String>) -> (r: Result<Claims, ApiError>)
    ensures
        verified matches Ok(c) ==> r == Ok::<Claims, ApiError>(c),
        verified is Err ==> (r matches Err(ApiError::TokenInvalid(m)) && m@
            == "invalid or expired refresh token"@),
{
    match verified {
        Ok(c) => Ok(c),
        Err(_) => Err(ApiError::TokenInvalid("invalid or expired refresh token".to_owned())),
    }
}

/// A user whose stored hash was made from `password`, logging in with a
/// well-formed request that carries the same password, is accepted.
pub proof fn lemma_stored_password_logs_in(email: Seq<char>, password: Seq<char>, user: UserRow)
    requires
        login_request_ok(email, password),
        password_check(password, user.password_hash@) == Ok::<bool, Seq<char>>(true),
    ensures
        credentials_accepted(Some(user), password_check(password, user.password_hash@)),
{
}

/// With the guard on, a protected route answers `401 missing_authorization`
/// without a header, `401 invalid_token` for a bearer token that does not
/// verify, and reaches its handler with one that does.
pub proof fn lemma_guard_on_protected_route(path: Seq<char>, is_post: bool, token: Seq<char>)
    requires
        !is_public_spec(path, is_post),
    ensures
        guard_outcome(true, path, is_post, None, true) == Some(
            (STATUS_UNAUTHORIZED, "missing_authorization"@),
        ),
        guard_outcome(true, path, is_post, Some("Bearer "@ + token), false) == Some(
            (STATUS_UNAUTHORIZED, "invalid_token"@),
        ),
        guard_outcome(true, path, is_post, Some("Bearer "@ + token), true) is None,
{
    reveal_strlit("Bearer ");
    let h = "Bearer "@ + token;
    assert("Bearer "@.is_prefix_of(h)) by {
        assert(h.subrange(0, 7) =~= "Bearer "@);
    }
}

} // verus!
