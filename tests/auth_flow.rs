use wallet::auth::{
    check_credentials, claims_at, credentials_verdict, guard_request, guard_verdict,
    hash_password, is_public_route, is_valid_email, issue_token_pair, refresh_verdict,
    token_pair_at, validate_login, validate_refresh, Claims, GuardStep, LoginReq, RefreshReq,
    ACCESS_TOKEN_TTL_SECS, REFRESH_TOKEN_TTL_SECS,
};
use wallet::error::ApiError;
use wallet::users::UserRow;

fn login(email: &str, password: &str) -> LoginReq {
    LoginReq { email: email.to_string(), password: password.to_string() }
}

fn user_with_hash(hash: String) -> UserRow {
    UserRow {
        id: 1,
        username: "tester".to_string(),
        email: "t@example.com".to_string(),
        password_hash: hash,
        created_at: "2024-01-01T00:00:00+00:00".to_string(),
        updated_at: "2024-01-01T00:00:00+00:00".to_string(),
    }
}

fn claims(uid: i32) -> Claims {
    Claims { sub: "t@example.com".to_string(), uid, iat: 10, exp: 20 }
}

#[test]
fn email_shape_accepts_plain_address() {
    assert!(is_valid_email("t@example.com"));
    assert!(is_valid_email("  t@example.com \t"));
}

#[test]
fn email_shape_rejects_malformed() {
    assert!(!is_valid_email(""));
    assert!(!is_valid_email("   "));
    assert!(!is_valid_email("texample.com"));
    assert!(!is_valid_email("t@examplecom"));
    assert!(!is_valid_email("t@example."));
    assert!(!is_valid_email("t@example.  "));
}

#[test]
fn login_rejects_short_password() {
    let r = validate_login(&login("t@example.com", "abc"));
    let e = r.unwrap_err();
    assert_eq!(e, ApiError::InvalidRequest("password too short".to_string()));
    let (status, body) = e.into_response();
    assert_eq!(status, 400);
    assert_eq!(body.code, "invalid_request");
    assert_eq!(body.error, "password too short");
}

#[test]
fn login_rejects_bad_email_before_password() {
    let r = validate_login(&login("nobody", "abc"));
    assert_eq!(r, Err(ApiError::InvalidRequest("invalid email".to_string())));
    let r = validate_login(&login("   ", "secret"));
    assert_eq!(r, Err(ApiError::InvalidRequest("invalid email".to_string())));
}

#[test]
fn login_accepts_six_byte_password() {
    assert_eq!(validate_login(&login("t@example.com", "secret")), Ok(()));
    // Six bytes in three characters.
    assert_eq!(validate_login(&login("t@example.com", "ééé")), Ok(()));
    assert!(validate_login(&login("t@example.com", "éé")).is_err());
}

#[test]
fn stored_password_logs_in_and_others_do_not() {
    let hash = hash_password("secret").unwrap();
    assert_ne!(hash, "secret");
    let ok = check_credentials("secret", Some(user_with_hash(hash.clone())));
    assert_eq!(ok.unwrap().id, 1);
    let wrong = check_credentials("secret2", Some(user_with_hash(hash)));
    assert_eq!(wrong, Err(ApiError::InvalidCredentials));
}

#[test]
fn unknown_user_is_invalid_credentials() {
    let r = check_credentials("secret", None);
    assert_eq!(r, Err(ApiError::InvalidCredentials));
    let (status, body) = r.unwrap_err().into_response();
    assert_eq!(status, 401);
    assert_eq!(body.code, "invalid_credentials");
    assert_eq!(body.error, "invalid credentials");
}

#[test]
fn malformed_stored_hash_is_internal() {
    let r = check_credentials("secret", Some(user_with_hash("not-a-hash".to_string())));
    match r {
        Err(ApiError::Internal(m)) => assert!(!m.is_empty()),
        other => panic!("unexpected {:?}", other),
    }
}

#[test]
fn verdict_on_each_outcome() {
    let u = user_with_hash("h".to_string());
    assert_eq!(credentials_verdict(None, Ok(true)), Err(ApiError::InvalidCredentials));
    assert_eq!(
        credentials_verdict(Some(user_with_hash("h".to_string())), Ok(true)),
        Ok(u)
    );
    assert_eq!(
        credentials_verdict(Some(user_with_hash("h".to_string())), Ok(false)),
        Err(ApiError::InvalidCredentials)
    );
    assert_eq!(
        credentials_verdict(Some(user_with_hash("h".to_string())), Err("boom".to_string())),
        Err(ApiError::Internal("boom".to_string()))
    );
}

#[test]
fn claims_expire_after_their_lifetime() {
    let p = token_pair_at(7, "t@example.com", 1_000).unwrap();
    assert_eq!(p.access, Claims { sub: "t@example.com".to_string(), uid: 7, iat: 1_000, exp: 4_600 });
    assert_eq!(
        p.refresh,
        Claims { sub: "t@example.com".to_string(), uid: 7, iat: 1_000, exp: 1_000 + 2_592_000 }
    );
    assert_eq!(ACCESS_TOKEN_TTL_SECS, 3_600);
    assert_eq!(REFRESH_TOKEN_TTL_SECS, 30 * 24 * 3_600);
}

#[test]
fn claims_out_of_range_are_refused() {
    assert!(claims_at(1, "a@b.c", i64::MAX, 1).is_none());
    assert!(claims_at(1, "a@b.c", i64::MAX, 0).is_some());
    assert!(token_pair_at(1, "a@b.c", i64::MAX - 3_600).is_none());
}

#[test]
fn issued_pair_uses_the_clock() {
    let p = issue_token_pair(3, "t@example.com").unwrap();
    let now = std::time::SystemTime::now()
        .duration_since(std::time::UNIX_EPOCH)
        .unwrap()
        .as_secs() as i64;
    assert!((p.access.iat - now).abs() <= 5);
    assert_eq!(p.refresh.iat, p.access.iat);
    assert_eq!(p.access.exp, p.access.iat + 3_600);
    assert_eq!(p.refresh.uid, 3);
    assert_eq!(p.refresh.sub, "t@example.com");
}

#[test]
fn guard_passes_everything_when_off() {
    assert_eq!(guard_request(false, "/api/users/1", false, None), GuardStep::Pass);
}

#[test]
fn guard_requires_header_on_protected_route() {
    let r = guard_request(true, "/api/users/1", false, None);
    assert_eq!(r, GuardStep::Reject(ApiError::AuthMissing));
    if let GuardStep::Reject(e) = r {
        let (status, body) = e.into_response();
        assert_eq!(status, 401);
        assert_eq!(body.code, "missing_authorization");
    }
}

#[test]
fn guard_rejects_non_bearer_header() {
    let r = guard_request(true, "/api/users/1", false, Some("Basic abc"));
    assert_eq!(r, GuardStep::Reject(ApiError::AuthMalformed));
    assert_eq!(
        guard_request(true, "/api/users/1", false, Some("bearer abc")),
        GuardStep::Reject(ApiError::AuthMalformed)
    );
    if let GuardStep::Reject(e) = r {
        assert_eq!(e.into_response().1.code, "invalid_authorization");
    }
}

#[test]
fn guard_hands_bearer_token_to_verification() {
    assert_eq!(
        guard_request(true, "/api/users/1", false, Some("Bearer abc.def")),
        GuardStep::Verify("abc.def".to_string())
    );
    assert_eq!(guard_request(true, "/api/users/1", false, Some("Bearer ")), GuardStep::Verify(String::new()));
}

#[test]
fn guard_verdict_on_invalid_and_valid_tokens() {
    let bad = guard_verdict(Err("InvalidToken".to_string()));
    assert_eq!(bad, Err(ApiError::TokenInvalid("invalid or expired token".to_string())));
    let (status, body) = bad.unwrap_err().into_response();
    assert_eq!(status, 401);
    assert_eq!(body.code, "invalid_token");
    assert_eq!(guard_verdict(Ok(claims(1))), Ok(claims(1)));
}

#[test]
fn public_routes_skip_the_guard() {
    assert!(is_public_route("/api/auth/login", true));
    assert!(is_public_route("/api/auth/refresh", true));
    assert!(is_public_route("/api/users", true));
    assert!(!is_public_route("/api/users", false));
    assert!(is_public_route("/health", false));
    assert!(is_public_route("/health/live", false));
    assert!(!is_public_route("/healthz", false));
    assert!(!is_public_route("/api/users/1", true));
    assert_eq!(guard_request(true, "/api/users", true, None), GuardStep::Pass);
    assert_eq!(guard_request(true, "/health", false, None), GuardStep::Pass);
}

#[test]
fn refresh_rejects_blank_token() {
    let e = validate_refresh(&RefreshReq { refresh_token: String::new() }).unwrap_err();
    assert_eq!(e, ApiError::InvalidRequest("missing refresh_token".to_string()));
    assert_eq!(e.into_response().0, 400);
    assert!(validate_refresh(&RefreshReq { refresh_token: " \n ".to_string() }).is_err());
    assert_eq!(validate_refresh(&RefreshReq { refresh_token: "garbage".to_string() }), Ok(()));
}

#[test]
fn refresh_rejects_unverifiable_token() {
    let e = refresh_verdict(Err("InvalidToken".to_string())).unwrap_err();
    assert_eq!(e, ApiError::TokenInvalid("invalid or expired refresh token".to_string()));
    let (status, body) = e.into_response();
    assert_eq!(status, 401);
    assert_eq!(body.code, "invalid_token");
    assert_eq!(refresh_verdict(Ok(claims(2))), Ok(claims(2)));
}
