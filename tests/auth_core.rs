use user_auth::auth::{
    find_user_view, new_user_record, record_login, try_login_user, AuthConfig, AuthError,
    TOKEN_LIFETIME_SECS,
};
use user_auth::gate::{get_user_id_from_token, GateError, RequestContext, UserAuth, TOKEN_HEADER, USER_ID_HEADER};
use user_auth::models::{Claims, LoginUser, NewUser, User};
use user_auth::password::{hash_password, verify_password, HashingError, DEFAULT_HASH_COST, MIN_HASH_COST};
use user_auth::token::{check_claims, decrypt_token, issue_token, TokenError};

const NOW: u64 = 1_700_000_000;

fn config() -> AuthConfig {
    AuthConfig {
        secret: "SECRET-REDACTED".to_string(),
        sub: "users".to_string(),
        company: "ACME".to_string(),
        hash_cost: MIN_HASH_COST,
    }
}

fn claims(user_id: &str, exp: u64) -> Claims {
    Claims { sub: "users".to_string(), company: "ACME".to_string(), user_id: user_id.to_string(), exp }
}

fn registered(password: &str) -> User {
    let new_user = NewUser {
        email: "a@b.com".to_string(),
        username: "a".to_string(),
        password: password.to_string(),
    };
    new_user_record(&new_user, MIN_HASH_COST, NOW).unwrap()
}

#[test]
fn hash_then_verify_accepts_same_password() {
    let h = hash_password("secret", MIN_HASH_COST).unwrap();
    assert_eq!(h.len(), 60);
    assert_ne!(h, "secret");
    assert_eq!(verify_password("secret", &h), Ok(true));
}

#[test]
fn verify_rejects_other_password() {
    let h = hash_password("secret", MIN_HASH_COST).unwrap();
    assert_eq!(verify_password("secret2", &h), Ok(false));
    assert_eq!(verify_password("", &h), Ok(false));
}

#[test]
fn hashing_twice_gives_different_hashes() {
    let a = hash_password("secret", MIN_HASH_COST).unwrap();
    let b = hash_password("secret", MIN_HASH_COST).unwrap();
    assert_ne!(a, b);
    assert_eq!(verify_password("secret", &a), Ok(true));
    assert_eq!(verify_password("secret", &b), Ok(true));
}

#[test]
fn hash_cost_out_of_range_is_refused() {
    assert_eq!(hash_password("secret", 3), Err(HashingError::CostNotAllowed));
    assert_eq!(hash_password("secret", 32), Err(HashingError::CostNotAllowed));
    assert_eq!(DEFAULT_HASH_COST, 12);
}

#[test]
fn verify_against_malformed_hash_fails() {
    assert_eq!(verify_password("secret", "not a hash"), Err(HashingError::Malformed));
}

#[test]
fn issued_token_verifies_before_expiry() {
    let token = issue_token(&claims("u-1", NOW + 10), "SECRET-REDACTED").unwrap();
    assert_eq!(token.split('.').count(), 3);
    assert_eq!(decrypt_token(&token, "SECRET-REDACTED", NOW), Ok("u-1".to_string()));
    assert_eq!(decrypt_token(&token, "SECRET-REDACTED", NOW + 9), Ok("u-1".to_string()));
}

#[test]
fn token_fails_as_expired_from_its_expiry_on() {
    let token = issue_token(&claims("u-1", NOW), "SECRET-REDACTED").unwrap();
    assert_eq!(decrypt_token(&token, "SECRET-REDACTED", NOW), Err(TokenError::Expired));
    assert_eq!(decrypt_token(&token, "SECRET-REDACTED", NOW + 1), Err(TokenError::Expired));
}

#[test]
fn token_with_altered_signature_fails_signature_check() {
    let token = issue_token(&claims("u-1", NOW + 10), "SECRET-REDACTED").unwrap();
    let mut bytes = token.into_bytes();
    let last = bytes.len() - 2;
    bytes[last] = if bytes[last] == b'A' { b'B' } else { b'A' };
    let altered = String::from_utf8(bytes).unwrap();
    assert_eq!(decrypt_token(&altered, "SECRET-REDACTED", NOW), Err(TokenError::InvalidSignature));
}

#[test]
fn token_under_other_secret_fails_signature_check() {
    let token = issue_token(&claims("u-1", NOW + 10), "SECRET-REDACTED").unwrap();
    assert_eq!(decrypt_token(&token, "another", NOW), Err(TokenError::InvalidSignature));
}

#[test]
fn garbage_token_is_malformed() {
    assert_eq!(decrypt_token("abc", "SECRET-REDACTED", NOW), Err(TokenError::Malformed));
    assert_eq!(decrypt_token("", "SECRET-REDACTED", NOW), Err(TokenError::Malformed));
}

#[test]
fn check_claims_decides_on_expiry() {
    assert_eq!(check_claims(Ok(claims("u-2", 100)), 99), Ok("u-2".to_string()));
    assert_eq!(check_claims(Ok(claims("u-2", 100)), 100), Err(TokenError::Expired));
    assert_eq!(check_claims(Err(TokenError::Malformed), 0), Err(TokenError::Malformed));
    assert_eq!(check_claims(Err(TokenError::InvalidSignature), 0), Err(TokenError::InvalidSignature));
}

#[test]
fn register_builds_record_without_login() {
    let user = registered("secret");
    assert_eq!(user.email, "a@b.com");
    assert_eq!(user.username, "a");
    assert_eq!(user.id.len(), 36);
    assert_ne!(user.password, "secret");
    assert_eq!(verify_password("secret", &user.password), Ok(true));
    assert_eq!(user.created_on, NOW);
    assert_eq!(user.last_login, None);
    assert!(user.password.starts_with("$2"));
    let shown = user.to_public();
    assert_eq!(shown.id, user.id);
    assert_eq!(shown.email, "a@b.com");
    assert_eq!(shown.username, "a");
    assert_eq!(shown.last_login, None);
}

#[test]
fn register_gives_each_user_a_fresh_id() {
    assert_ne!(registered("x").id, registered("x").id);
}

#[test]
fn register_with_bad_cost_fails() {
    let new_user = NewUser { email: "a@b.com".to_string(), username: "a".to_string(), password: "p".to_string() };
    assert!(matches!(
        new_user_record(&new_user, 40, NOW),
        Err(AuthError::Hashing(HashingError::CostNotAllowed))
    ));
}

#[test]
fn login_with_wrong_password_fails_opaquely() {
    let user = registered("secret");
    let login = LoginUser { email: "a@b.com".to_string(), password: "wrong".to_string() };
    assert!(matches!(
        try_login_user(&login, Some(user), &config(), NOW),
        Err(AuthError::AuthenticationFailed)
    ));
}

#[test]
fn login_with_unknown_email_fails_opaquely() {
    let login = LoginUser { email: "x@b.com".to_string(), password: "secret".to_string() };
    assert!(matches!(
        try_login_user(&login, None, &config(), NOW),
        Err(AuthError::AuthenticationFailed)
    ));
}

#[test]
fn login_against_malformed_stored_hash_fails_opaquely() {
    let mut user = registered("secret");
    user.password = "broken".to_string();
    let login = LoginUser { email: "a@b.com".to_string(), password: "secret".to_string() };
    assert!(matches!(
        try_login_user(&login, Some(user), &config(), NOW),
        Err(AuthError::AuthenticationFailed)
    ));
}

#[test]
fn login_then_protected_request_succeeds() {
    let mut user = registered("secret");
    let login = LoginUser { email: "a@b.com".to_string(), password: "secret".to_string() };
    let resp = try_login_user(&login, Some(user.clone()), &config(), NOW).unwrap();
    record_login(&mut user, NOW);
    assert_eq!(user.last_login, Some(NOW));

    let gate = UserAuth::new("SECRET-REDACTED".to_string());
    let mut ctx = RequestContext { identity: None };
    assert!(gate.authorize(Some(&resp.token), NOW + 5, &mut ctx));
    assert_eq!(ctx.identity, Some(user.id.clone()));
    assert_eq!(get_user_id_from_token(Some(&resp.token), "SECRET-REDACTED", NOW + 5), Ok(user.id.clone()));

    let at_expiry = NOW + TOKEN_LIFETIME_SECS;
    assert_eq!(
        get_user_id_from_token(Some(&resp.token), "SECRET-REDACTED", at_expiry),
        Err(GateError::Token(TokenError::Expired))
    );
    assert_eq!(TOKEN_LIFETIME_SECS, 24 * 3600);
}

#[test]
fn protected_request_without_token_is_refused() {
    let gate = UserAuth::new("SECRET-REDACTED".to_string());
    let mut ctx = RequestContext { identity: None };
    assert!(!gate.authorize(None, NOW, &mut ctx));
    assert_eq!(ctx.identity, None);
    assert_eq!(get_user_id_from_token(None, "SECRET-REDACTED", NOW), Err(GateError::MissingToken));
    assert_eq!(TOKEN_HEADER, "X-ACCESS-TOKEN");
    assert_eq!(USER_ID_HEADER, "user-id");
}

#[test]
fn protected_request_with_bad_token_is_refused() {
    let gate = UserAuth::new("SECRET-REDACTED".to_string());
    let mut ctx = RequestContext { identity: Some("before".to_string()) };
    assert!(!gate.authorize(Some("a.b.c"), NOW, &mut ctx));
    assert_eq!(ctx.identity, Some("before".to_string()));
}

#[test]
fn lookup_of_missing_user_is_absent() {
    assert!(find_user_view(None).is_none());
    let user = registered("secret");
    let shown = find_user_view(Some(user.clone())).unwrap();
    assert_eq!(shown.id, user.id);
    assert_eq!(shown.email, "a@b.com");
}
