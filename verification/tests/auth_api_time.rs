use linkblocks::api::{create_api, verify_api, ApiKeyAction, API_KEY_VALID_DAYS};
use linkblocks::authentication::{
    create_and_login_oidc_user, hash_password, login_redirect, optional_user_id,
    user_id_from_session, verify_password,
};
use linkblocks::date_time::{add_days, time_to_chrono, MAX_NANOS, NANOS_PER_DAY};
use linkblocks::db::users::{User, UserLookup};
use linkblocks::db::users_api::UserApi;
use linkblocks::ids::Uuid;
use linkblocks::metadata::{get_metadata, last_segment_of};
use linkblocks::oidc::{
    check_access_token_hash, user_from_id_token, user_from_provider_answer, user_info,
    AccessTokenClaim, IdTokenClaims, LoginAttempt, ProviderAnswer,
};
use linkblocks::response_error::ResponseError;

fn user(hash: Option<String>) -> User {
    User {
        id: Uuid::from_u128(1),
        username: "alice".to_string(),
        password_hash: hash,
        email: None,
        oidc_id: None,
        ap_user_id: Uuid::from_u128(2),
    }
}

#[test]
fn registered_password_logs_in() {
    let hash = hash_password(&"correct horse battery".to_string()).unwrap();
    assert!(hash.starts_with("$argon2id$"));
    let u = user(Some(hash));
    assert!(verify_password(&u, "correct horse battery").is_ok());
    assert!(matches!(verify_password(&u, "wrong password"), Err(ResponseError::NotAuthenticated)));
}

#[test]
fn password_failures() {
    match verify_password(&user(None), "anything") {
        Err(ResponseError::Anyhow(m)) => assert_eq!(m, "User has no password set"),
        _ => panic!("expected an error"),
    }
    match verify_password(&user(Some("not a hash".to_string())), "anything") {
        Err(ResponseError::Anyhow(m)) => assert!(m.starts_with("Failed to create password hash: ")),
        _ => panic!("expected an error"),
    }
}

#[test]
fn login_redirect_encodes_the_previous_page() {
    assert_eq!(login_redirect(Some("/lists/abc?x=1")), "/login?previous_uri=%2Flists%2Fabc%3Fx%3D1");
    assert_eq!(login_redirect(None), "/login?previous_uri=");
    assert_eq!(login_redirect(Some("/ä")), "/login?previous_uri=%2F%C3%A4");
}

#[test]
fn session_lookups() {
    assert_eq!(user_id_from_session(Ok(Some(Uuid::from_u128(4)))).unwrap(), Uuid::from_u128(4));
    assert!(matches!(user_id_from_session(Ok(None)), Err(ResponseError::NotAuthenticated)));
    match user_id_from_session(Err("store down".to_string())) {
        Err(ResponseError::Anyhow(m)) => assert_eq!(m, "Failed to load authenticated user id"),
        _ => panic!("expected an error"),
    }
    assert!(matches!(optional_user_id(Err(ResponseError::NotAuthenticated)), Ok(None)));
    assert!(matches!(optional_user_id(Err(ResponseError::NotFound)), Err(ResponseError::NotFound)));
    assert!(matches!(optional_user_id(Ok(Uuid::from_u128(1))), Ok(Some(_))));
}

#[test]
fn oidc_user_lookup_decision() {
    assert!(matches!(create_and_login_oidc_user(Err(ResponseError::NotFound)), UserLookup::Create));
    assert!(matches!(create_and_login_oidc_user(Ok(user(None))), UserLookup::Existing(_)));
    match create_and_login_oidc_user(Err(ResponseError::NotAuthenticated)) {
        UserLookup::Failed(ResponseError::Anyhow(m)) => assert_eq!(m, "Failed to look up user by OIDC id"),
        _ => panic!("expected a failure"),
    }
}

fn key(valid_until: i128) -> UserApi {
    UserApi {
        id: Uuid::from_u128(1),
        user_id: Uuid::from_u128(0x67e5_5044_10b1_426f_9247_bb68_0e5f_e0c8),
        api_key: Some("k".to_string()),
        permissions: None,
        valid_until,
        created_at: 0,
    }
}

#[test]
fn api_keys() {
    let now = 1_700_000_000_000_000_000;
    assert!(matches!(verify_api(&key(now - 1), now, "x"), Err(ResponseError::NotAuthenticated)));
    assert!(verify_api(&key(now), now, "67e55044-10b1-426f-9247-bb680e5fe0c8").unwrap());
    assert!(!verify_api(&key(now + 1), now, "someone-else").unwrap());
    let insert = create_api(now, false);
    assert_eq!(insert.action, ApiKeyAction::Insert { valid_until: now + 30 * NANOS_PER_DAY });
    assert_eq!((insert.api_key.as_u128() >> 76) & 0xf, 4);
    assert_eq!(create_api(now, true).action, ApiKeyAction::Renew);
    assert_eq!(API_KEY_VALID_DAYS, 30);
}

#[test]
fn time_arithmetic() {
    assert_eq!(add_days(0, 1), Some(NANOS_PER_DAY));
    assert_eq!(add_days(MAX_NANOS, 1), None);
    assert_eq!(add_days(MAX_NANOS - NANOS_PER_DAY, 1), Some(MAX_NANOS));
    assert_eq!(time_to_chrono(1_500), 1_500);
    assert_eq!(time_to_chrono((1i128 << 64) + 7), 7);
}

#[test]
fn page_metadata() {
    let html = b"<html><head><title>Hello</title><meta property=\"og:description\" content=\"About\"></head><body></body></html>";
    let m = get_metadata("https://example.com/a/b", html);
    assert_eq!(m.metadata_title, "Hello");
    assert_eq!(m.metadata_description, Some("About".to_string()));
    assert_eq!(m.metadata_image_url, None);
    let plain = b"<html><head></head><body></body></html>";
    let m = get_metadata("https://example.com/a/page.html", plain);
    assert_eq!(m.metadata_title, "page.html");
    let m = get_metadata("https://example.com/", plain);
    assert_eq!(m.metadata_title, "");
    let image = b"<html><head><meta property=\"og:image\" content=\"https://example.com/i.png\"></head></html>";
    assert_eq!(get_metadata("x", image).metadata_image_url, Some("https://example.com/i.png".to_string()));
    assert_eq!(last_segment_of("no-slash"), "no-slash");
}

#[test]
fn oidc_checks() {
    let attempt = LoginAttempt {
        nonce: "n".to_string(),
        csrf_token: "token".to_string(),
        pkce_verifier: "v".to_string(),
        authorize_url: "https://idp.example/auth".to_string(),
    };
    assert!(attempt.check_csrf_token("token").is_ok());
    match attempt.check_csrf_token("forged") {
        Err(ResponseError::Anyhow(m)) => assert_eq!(m, "CSRF token mismatch"),
        _ => panic!("expected a mismatch"),
    }
    assert!(check_access_token_hash(&vec![1, 2], &vec![1, 2]).is_ok());
    match check_access_token_hash(&vec![1, 2], &vec![1, 3]) {
        Err(ResponseError::Anyhow(m)) => assert_eq!(m, "Invalid access token"),
        _ => panic!("expected a mismatch"),
    }
    let info = user_info("sub".to_string(), Some("a@example.com".to_string())).unwrap();
    assert_eq!((info.oidc_id.as_str(), info.email.as_str()), ("sub", "a@example.com"));
    match user_info("sub".to_string(), None) {
        Err(ResponseError::Anyhow(m)) => assert_eq!(m, "failed to get email"),
        _ => panic!("expected an error"),
    }
}

#[test]
fn id_token_checks_in_order() {
    let sub = || "sub".to_string();
    let mail = || Some("a@example.com".to_string());
    let info = user_from_id_token(AccessTokenClaim::NotClaimed, sub(), mail()).unwrap();
    assert_eq!((info.oidc_id.as_str(), info.email.as_str()), ("sub", "a@example.com"));
    let same = AccessTokenClaim::Claimed { expected: vec![7], actual: Ok(vec![7]) };
    assert!(user_from_id_token(same, sub(), mail()).is_ok());
    let differs = AccessTokenClaim::Claimed { expected: vec![7], actual: Ok(vec![8]) };
    match user_from_id_token(differs, sub(), mail()) {
        Err(ResponseError::Anyhow(m)) => assert_eq!(m, "Invalid access token"),
        _ => panic!("expected a mismatch"),
    }
    let uncomputable = AccessTokenClaim::Claimed {
        expected: vec![7],
        actual: Err("Failed to get signing key".to_string()),
    };
    match user_from_id_token(uncomputable, sub(), None) {
        Err(ResponseError::Anyhow(m)) => assert_eq!(m, "Failed to get signing key"),
        _ => panic!("expected an error"),
    }
    match user_from_id_token(AccessTokenClaim::NotClaimed, sub(), None) {
        Err(ResponseError::Anyhow(m)) => assert_eq!(m, "failed to get email"),
        _ => panic!("expected an error"),
    }
}

#[test]
fn provider_answers() {
    let failure = |answer: ProviderAnswer| match user_from_provider_answer(answer) {
        Err(ResponseError::Anyhow(m)) => m,
        _ => panic!("expected an internal error"),
    };
    assert_eq!(failure(ProviderAnswer::ExchangeCodeRejected), "Failed to set exchange code");
    assert_eq!(failure(ProviderAnswer::NoTokenResponse), "failed to get token response");
    assert_eq!(failure(ProviderAnswer::NoIdToken), "Server did not return an ID token");
    assert_eq!(failure(ProviderAnswer::ClaimsRejected), "failed to get token claims");
    let claims = |email: Option<&str>, access_token: AccessTokenClaim| IdTokenClaims {
        subject: "sub".to_string(),
        email: email.map(|e| e.to_string()),
        access_token,
    };
    let info = user_from_provider_answer(ProviderAnswer::Verified(claims(
        Some("a@example.com"),
        AccessTokenClaim::NotClaimed,
    )))
    .unwrap();
    assert_eq!((info.oidc_id.as_str(), info.email.as_str()), ("sub", "a@example.com"));
    let forged = AccessTokenClaim::Claimed { expected: vec![1], actual: Ok(vec![2]) };
    assert_eq!(
        failure(ProviderAnswer::Verified(claims(Some("a@example.com"), forged))),
        "Invalid access token"
    );
    assert_eq!(
        failure(ProviderAnswer::Verified(claims(None, AccessTokenClaim::NotClaimed))),
        "failed to get email"
    );
}
