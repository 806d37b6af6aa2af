use wallet::accounts::{CreateAccountReq, UpdateAccountReq};
use wallet::auth::{
    check_credentials, guard_request, guard_verdict, hash_password, issue_token_pair,
    refresh_verdict, validate_login, validate_refresh, GuardStep, LoginReq, RefreshReq,
};
use wallet::decimal::Dec;
use wallet::error::{deletion_outcome, found_or_not_found, ApiError};
use wallet::transactions::CreateTransactionReq;
use wallet::users::{create_user_precheck, CreateUserReq, UserOut, UserRow};

fn stored_user(req: CreateUserReq, id: i32) -> UserRow {
    assert_eq!(create_user_precheck(None, None), Ok(()));
    let hash = hash_password(&req.password).unwrap();
    UserRow {
        id,
        username: req.username,
        email: req.email,
        password_hash: hash,
        created_at: "2024-01-01T00:00:00+00:00".to_string(),
        updated_at: "2024-01-01T00:00:00+00:00".to_string(),
    }
}

fn tester() -> CreateUserReq {
    CreateUserReq {
        username: "tester".to_string(),
        email: "t@example.com".to_string(),
        password: "secret".to_string(),
    }
}

#[test]
fn create_user_then_login() {
    let row = stored_user(tester(), 1);
    let hash = row.password_hash.clone();
    let out = UserOut::from(row);
    assert_eq!(out.id, 1);
    assert_eq!(out.username, "tester");

    let req = LoginReq { email: "t@example.com".to_string(), password: "secret".to_string() };
    assert_eq!(validate_login(&req), Ok(()));
    let found = UserRow {
        id: 1,
        username: "tester".to_string(),
        email: "t@example.com".to_string(),
        password_hash: hash,
        created_at: String::new(),
        updated_at: String::new(),
    };
    let user = check_credentials(&req.password, Some(found)).unwrap();
    let pair = issue_token_pair(user.id, &user.email).unwrap();
    assert_eq!(pair.access.uid, 1);
    assert_eq!(pair.access.sub, "t@example.com");
    assert_eq!(pair.refresh.uid, 1);
}

#[test]
fn login_with_short_password_is_invalid_request() {
    let req = LoginReq { email: "t@example.com".to_string(), password: "abc".to_string() };
    let (status, body) = validate_login(&req).unwrap_err().into_response();
    assert_eq!(status, 400);
    assert_eq!(body.code, "invalid_request");
}

#[test]
fn second_create_with_same_email_conflicts() {
    assert_eq!(create_user_precheck(None, None), Ok(()));
    let (status, body) = create_user_precheck(None, Some(1)).unwrap_err().into_response();
    assert_eq!(status, 409);
    assert_eq!(body.code, "conflict");
}

#[test]
fn account_create_patch_delete_then_missing() {
    let new = CreateAccountReq {
        user_id: 1,
        name: "Cash".to_string(),
        account_type: "cash".to_string(),
        balance: "0".to_string(),
        currency: "CNY".to_string(),
    }
    .prepare()
    .unwrap();
    let row = wallet::accounts::AccountRow {
        id: 1,
        user_id: new.user_id,
        name: new.name,
        account_type: new.account_type,
        balance: new.balance,
        currency: new.currency,
        created_at: String::new(),
    };
    let patch = UpdateAccountReq {
        name: None,
        account_type: None,
        balance: Some("100.50".to_string()),
        currency: None,
    }
    .prepare()
    .unwrap();
    let row = row.apply_patch(patch);
    assert_eq!(row.balance, Dec { mantissa: 10050, scale: 2 });
    let text = rust_decimal::Decimal::from_i128_with_scale(row.balance.mantissa, row.balance.scale);
    assert_eq!(text.to_string(), "100.50");
    assert_eq!(deletion_outcome(1, "account not found"), Ok(204));
    let (status, _) = found_or_not_found::<wallet::accounts::AccountRow>(None, "account not found")
        .unwrap_err()
        .into_response();
    assert_eq!(status, 404);
}

#[test]
fn two_transactions_for_one_account() {
    let reqs = [("12.34", "coffee", 1234, 2), ("5.55", "tea", 555, 2)];
    for (amount, what, mantissa, scale) in reqs {
        let n = CreateTransactionReq {
            account_id: 1,
            transaction_type: "expense".to_string(),
            amount: amount.to_string(),
            description: what.to_string(),
            category: None,
        }
        .prepare()
        .unwrap();
        assert_eq!(n.account_id, 1);
        assert_eq!(n.amount, Dec { mantissa, scale });
        assert_eq!(n.description, what);
    }
}

#[test]
fn refresh_after_login() {
    let pair = issue_token_pair(1, "t@example.com").unwrap();
    let req = RefreshReq { refresh_token: "rt".to_string() };
    assert_eq!(validate_refresh(&req), Ok(()));
    let claims = refresh_verdict(Ok(pair.refresh)).unwrap();
    let fresh = issue_token_pair(claims.uid, &claims.sub).unwrap();
    assert_eq!(fresh.access.uid, 1);
    assert_eq!(fresh.refresh.sub, "t@example.com");

    let empty = RefreshReq { refresh_token: String::new() };
    let (status, body) = validate_refresh(&empty).unwrap_err().into_response();
    assert_eq!((status, body.code.as_str()), (400, "invalid_request"));

    let garbage = RefreshReq { refresh_token: "garbage".to_string() };
    assert_eq!(validate_refresh(&garbage), Ok(()));
    let (status, body) = refresh_verdict(Err("InvalidToken".to_string())).unwrap_err().into_response();
    assert_eq!((status, body.code.as_str()), (401, "invalid_token"));
}

#[test]
fn guarded_user_lookup() {
    let (status, body) = match guard_request(true, "/api/users/1", false, None) {
        GuardStep::Reject(e) => e.into_response(),
        other => panic!("unexpected {:?}", other),
    };
    assert_eq!((status, body.code.as_str()), (401, "missing_authorization"));

    let token = match guard_request(true, "/api/users/1", false, Some("Bearer invalid")) {
        GuardStep::Verify(t) => t,
        other => panic!("unexpected {:?}", other),
    };
    assert_eq!(token, "invalid");
    let (status, body) = guard_verdict(Err("InvalidToken".to_string())).unwrap_err().into_response();
    assert_eq!((status, body.code.as_str()), (401, "invalid_token"));

    let pair = issue_token_pair(1, "t@example.com").unwrap();
    assert!(guard_verdict(Ok(pair.access)).is_ok());
    // The handler then answers 200 with the user or 404, never 401.
    let missing = found_or_not_found::<UserRow>(None, "user not found").unwrap_err();
    assert_eq!(missing.status(), 404);
    assert!(matches!(missing, ApiError::NotFound(_)));
}
