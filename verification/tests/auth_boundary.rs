//! Tests for the token codec, the authentication service, and the middleware
//! decision, running against the real signing and hashing crates.

use blog_core::auth::{extract_bearer, AuthService, JwtAuthMiddleware};
use blog_core::domain::User;
use blog_core::errors::map_user_insert_error;
use blog_core::errors::DomainError;
use blog_core::password::{hash_password, verify_password};
use blog_core::token::{JwtKeys, TOKEN_LIFETIME_SECS};
use blog_core::AuthError;

const SUBJECT: &str = "1f4e9a3c-2b7d-4c1e-8a5f-0d6b9e2c7a41";

fn keys() -> JwtKeys {
    JwtKeys::new("test-secret".to_string())
}

fn sample_user(password: &str) -> User {
    let hash = hash_password(password).expect("hashing failed");
    User {
        id: SUBJECT.to_string(),
        username: "alice".to_string(),
        email: "alice@example.com".to_string(),
        password_hash: hash,
        created_at: 1_700_000_000,
        deleted_at: None,
    }
}

#[test]
fn token_round_trip_keeps_subject() {
    let keys = keys();
    let now = 1_700_000_000usize;
    let token = keys.generate_token_at(SUBJECT, now).expect("issuing failed");
    let claims = keys.verify_token_at(&token, now).expect("verification failed");
    assert_eq!(claims.sub, SUBJECT);
    assert_eq!(claims.iat, now);
    assert_eq!(claims.exp, now + TOKEN_LIFETIME_SECS);
}

#[test]
fn token_round_trip_with_clock() {
    let keys = keys();
    let token = keys.generate_token(SUBJECT).expect("issuing failed");
    let claims = keys.verify_token(&token).expect("verification failed");
    assert_eq!(claims.sub, SUBJECT);
}

#[test]
fn token_expired_at_boundary_and_after() {
    let keys = keys();
    let now = 1_700_000_000usize;
    let token = keys.generate_token_at(SUBJECT, now).expect("issuing failed");
    let exp = now + TOKEN_LIFETIME_SECS;
    // one second before expiry: still valid
    assert!(keys.verify_token_at(&token, exp - 1).is_ok());
    // now == exp already counts as expired
    assert_eq!(keys.verify_token_at(&token, exp), Err(AuthError::InvalidToken));
    assert_eq!(keys.verify_token_at(&token, exp + 1), Err(AuthError::InvalidToken));
}

#[test]
fn token_tampered_or_garbage_is_invalid() {
    let keys = keys();
    let now = 1_700_000_000usize;
    let token = keys.generate_token_at(SUBJECT, now).expect("issuing failed");
    let mut tampered = token.clone();
    tampered.push('x');
    assert_eq!(keys.verify_token_at(&tampered, now), Err(AuthError::InvalidToken));
    assert_eq!(keys.verify_token_at("", now), Err(AuthError::InvalidToken));
    assert_eq!(keys.verify_token_at("not.a.token", now), Err(AuthError::InvalidToken));
}

#[test]
fn token_from_other_secret_is_invalid() {
    let keys = keys();
    let other = JwtKeys::new("other-secret".to_string());
    let now = 1_700_000_000usize;
    let token = other.generate_token_at(SUBJECT, now).expect("issuing failed");
    assert_eq!(keys.verify_token_at(&token, now), Err(AuthError::InvalidToken));
}

#[test]
fn password_hash_round_trip() {
    let hash = hash_password("p1").expect("hashing failed");
    assert_ne!(hash, "p1");
    assert!(verify_password("p1", &hash));
    assert!(!verify_password("p2", &hash));
    assert!(!verify_password("p1", "not-a-phc-hash"));
}

#[test]
fn login_unknown_email_and_wrong_password_are_identical() {
    let service = AuthService::new(keys());
    let user = sample_user("right-password");
    let unknown = service.login(None, "right-password");
    let wrong = service.login(Some(user), "wrong-password");
    assert_eq!(unknown, Err(AuthError::InvalidCredentials));
    assert_eq!(wrong, Err(AuthError::InvalidCredentials));
    // and the same HTTP status surfaces on both paths
    assert_eq!(AuthError::InvalidCredentials.http_status(), 401);
}

#[test]
fn login_at_owes_a_token_on_good_credentials() {
    let service = AuthService::new(keys());
    let now = 1_700_000_000usize;
    let user = sample_user("p1");
    let token = service.login_at(Some(user), "p1", now).expect("login failed");
    let claims = service.keys().verify_token_at(&token, now).expect("verification failed");
    assert_eq!(claims.sub, SUBJECT);
    assert_eq!(claims.iat, now);
    assert_eq!(claims.exp, now + TOKEN_LIFETIME_SECS);
    let user = sample_user("p1");
    assert_eq!(service.login_at(Some(user), "p2", now), Err(AuthError::InvalidCredentials));
    assert_eq!(service.login_at(None, "p1", now), Err(AuthError::InvalidCredentials));
}

#[test]
fn login_good_credentials_yields_verifiable_token() {
    let service = AuthService::new(keys());
    let user = sample_user("p1");
    let token = service.login(Some(user), "p1").expect("login failed");
    let claims = service.keys().verify_token(&token).expect("verification failed");
    assert_eq!(claims.sub, SUBJECT);
}

#[test]
fn register_existing_email_already_exists() {
    let service = AuthService::new(keys());
    let existing = sample_user("p1");
    let r = service.register(
        Some(existing),
        "bob".to_string(),
        "alice@example.com".to_string(),
        "p2".to_string(),
    );
    assert_eq!(r, Err(AuthError::AlreadyExists));
}

#[test]
fn register_new_email_creates_user_with_working_hash() {
    let service = AuthService::new(keys());
    let user = service
        .register(None, "alice".to_string(), "alice@example.com".to_string(), "p1".to_string())
        .expect("registration failed");
    assert_eq!(user.username, "alice");
    assert_eq!(user.email, "alice@example.com");
    assert!(blog_core::text::is_uuid(&user.id));
    assert!(user.deleted_at.is_none());
    assert!(verify_password("p1", &user.password_hash));
}

#[test]
fn extract_bearer_requires_exact_scheme() {
    assert_eq!(extract_bearer(None), Err(AuthError::Unauthenticated));
    assert_eq!(extract_bearer(Some("Basic xyz")), Err(AuthError::Unauthenticated));
    assert_eq!(extract_bearer(Some("Bearer")), Err(AuthError::Unauthenticated));
    assert_eq!(extract_bearer(Some("bearer t")), Err(AuthError::Unauthenticated));
    assert_eq!(extract_bearer(Some("Bearer  t")), Ok(" t".to_string()));
    assert_eq!(extract_bearer(Some("Bearer t")), Ok("t".to_string()));
    assert_eq!(extract_bearer(Some("Bearer ")), Ok("".to_string()));
}

#[test]
fn middleware_rejects_malformed_headers_never_internal() {
    let mw = JwtAuthMiddleware::new(keys());
    let now = 1_700_000_000usize;
    assert_eq!(mw.authorize(None, now), Err(AuthError::Unauthenticated));
    assert_eq!(mw.authorize(Some("Basic xyz"), now), Err(AuthError::Unauthenticated));
    assert_eq!(mw.authorize(Some("Bearer"), now), Err(AuthError::Unauthenticated));
    // empty token after the scheme: rejected at the token check, not as internal
    assert_eq!(mw.authorize(Some("Bearer "), now), Err(AuthError::InvalidToken));
}

#[test]
fn middleware_accepts_valid_bearer_and_resolves_principal() {
    let service = AuthService::new(keys());
    let mw = JwtAuthMiddleware::new(keys());
    let now = 1_700_000_000usize;
    let user = sample_user("p1");
    let token = service.login(Some(user.clone()), "p1").expect("login failed");
    let header = format!("Bearer {token}");
    let claims = mw.authorize(Some(&header), now).expect("authorization failed");
    assert_eq!(claims.sub, user.id);
    let principal = service.resolve_principal(&claims, Some(user.clone())).expect("resolution failed");
    assert_eq!(principal.id, user.id);
    assert_eq!(principal.email, user.email);
}

#[test]
fn principal_resolution_failures_are_auth_failures() {
    let service = AuthService::new(keys());
    let now = 1_700_000_000usize;
    let token = service.keys().generate_token_at(SUBJECT, now).expect("issuing failed");
    let claims = service.authenticate_token(&token, now).expect("authentication failed");
    // a deleted or mismatching account is indistinguishable from a bad token:
    // the very same kind, hence the same 401 surface and generic message
    assert_eq!(service.resolve_principal(&claims, None), Err(AuthError::InvalidToken));
    let mut other = sample_user("p1");
    other.id = "9b8c7d6e-5f4a-4b3c-9d2e-1f0a9b8c7d6e".to_string();
    assert_eq!(service.resolve_principal(&claims, Some(other)), Err(AuthError::InvalidToken));
    assert_eq!(AuthError::InvalidToken.http_status(), 401);
    assert_eq!(AuthError::InvalidToken.grpc_code(), 16);
}

#[test]
fn token_with_non_uuid_subject_is_invalid() {
    let service = AuthService::new(keys());
    let now = 1_700_000_000usize;
    let token = service.keys().generate_token_at("not-a-uuid", now).expect("issuing failed");
    assert_eq!(service.authenticate_token(&token, now), Err(AuthError::InvalidToken));
}

#[test]
fn auth_error_status_tables() {
    assert_eq!(AuthError::InvalidCredentials.http_status(), 401);
    assert_eq!(AuthError::InvalidToken.http_status(), 401);
    assert_eq!(AuthError::Unauthenticated.http_status(), 401);
    assert_eq!(AuthError::AlreadyExists.http_status(), 400);
    assert_eq!(AuthError::NotFound.http_status(), 404);
    assert_eq!(AuthError::Internal.http_status(), 500);
    assert_eq!(AuthError::InvalidCredentials.grpc_code(), 16);
    assert_eq!(AuthError::InvalidToken.grpc_code(), 16);
    assert_eq!(AuthError::Unauthenticated.grpc_code(), 16);
    assert_eq!(AuthError::AlreadyExists.grpc_code(), 3);
    assert_eq!(AuthError::NotFound.grpc_code(), 5);
    assert_eq!(AuthError::Internal.grpc_code(), 13);
}

#[test]
fn auth_error_messages_are_generic() {
    assert_eq!(AuthError::InvalidCredentials.message(), "invalid credentials");
    assert_eq!(AuthError::InvalidToken.message(), "invalid token");
    assert_eq!(AuthError::Unauthenticated.message(), "missing credentials");
    assert_eq!(AuthError::AlreadyExists.message(), "already exists");
    assert_eq!(AuthError::NotFound.message(), "not found");
    assert_eq!(AuthError::Internal.message(), "internal error");
}

#[test]
fn domain_error_surfaces() {
    let e = DomainError::Validation("bad title".to_string());
    assert_eq!(e.status_code(), 400);
    assert_eq!(e.message(), "validation error: bad title");
    let (code, msg) = e.to_status();
    assert_eq!(code, 3);
    assert_eq!(msg, "bad title");

    let e = DomainError::UserNotFound("u1".to_string());
    assert_eq!(e.status_code(), 404);
    assert_eq!(e.message(), "user not found: u1");
    let (code, msg) = e.to_status();
    assert_eq!((code, msg.as_str()), (5, "user not found: u1"));

    let e = DomainError::PostNotFound("p1".to_string());
    assert_eq!(e.status_code(), 404);
    assert_eq!(e.message(), "post not found: p1");

    let e = DomainError::InvalidCredentials("no".to_string());
    assert_eq!(e.status_code(), 401);
    assert_eq!(e.message(), "forbidden: no");
    let (code, _) = e.to_status();
    assert_eq!(code, 16);

    let e = DomainError::AlreadyExists("email already registered".to_string());
    assert_eq!(e.status_code(), 400);
    assert_eq!(e.message(), "already exists: email already registered");
    let (code, msg) = e.to_status();
    assert_eq!((code, msg.as_str()), (3, "email already registered"));

    // internal detail never crosses the boundary
    let e = DomainError::Internal("db exploded".to_string());
    assert_eq!(e.status_code(), 500);
    assert_eq!(e.message(), "internal error");
    let (code, msg) = e.to_status();
    assert_eq!((code, msg.as_str()), (13, "internal error"));
}

#[test]
fn internal_detail_never_crosses_the_boundary() {
    let (status, message, details) = DomainError::Internal("connection string".to_string())
        .response_parts();
    assert_eq!(status, 500);
    assert_eq!(message, "internal error");
    assert!(details.is_none());
    let (status, _, details) = DomainError::Validation("too long".to_string()).response_parts();
    assert_eq!(status, 400);
    assert_eq!(details, Some("too long".to_string()));
}

#[test]
fn user_insert_conflict_maps_to_already_exists() {
    let e = map_user_insert_error(Some("users_email_key".to_string()), "dup".to_string());
    match e {
        DomainError::AlreadyExists(m) => assert_eq!(m, "email already registered"),
        other => panic!("unexpected mapping: {other:?}"),
    }
    let e = map_user_insert_error(Some("posts_pkey".to_string()), "boom".to_string());
    match e {
        DomainError::Internal(m) => assert_eq!(m, "database error: boom"),
        other => panic!("unexpected mapping: {other:?}"),
    }
    let e = map_user_insert_error(None, "boom".to_string());
    match e {
        DomainError::Internal(m) => assert_eq!(m, "database error: boom"),
        other => panic!("unexpected mapping: {other:?}"),
    }
}
