//! Tests for configuration parsing, the text utilities it rests on, the
//! domain constructors, and the post decisions.

use blog_core::config::AppConfig;
use blog_core::domain::{Post, User};
use blog_core::dto::PostResponse;
use blog_core::errors::DomainError;
use blog_core::posts::PostService;
use blog_core::request_id::RequestIdMiddleware;
use blog_core::text::{concat_strs, contains_str, is_uuid, parse_u16, split_trim_csv, strip_prefix_str, trim_str};

#[test]
fn parse_u16_accepts_exactly_decimal_u16() {
    assert_eq!(parse_u16("8080"), Some(8080));
    assert_eq!(parse_u16("0"), Some(0));
    assert_eq!(parse_u16("65535"), Some(65535));
    assert_eq!(parse_u16("65536"), None);
    assert_eq!(parse_u16("99999999999999999999"), None);
    assert_eq!(parse_u16(""), None);
    assert_eq!(parse_u16("12a"), None);
    assert_eq!(parse_u16("-1"), None);
    assert_eq!(parse_u16(" 80"), None);
}

#[test]
fn trim_and_split() {
    assert_eq!(trim_str("  a b \t"), "a b");
    assert_eq!(trim_str(""), "");
    assert_eq!(trim_str(" \r\n "), "");
    assert_eq!(split_trim_csv("a, b ,,c "), vec!["a", "b", "c"]);
    assert_eq!(split_trim_csv("*"), vec!["*"]);
    assert_eq!(split_trim_csv(""), Vec::<String>::new());
    assert_eq!(split_trim_csv(" , ,"), Vec::<String>::new());
}

#[test]
fn contains_and_prefix_and_concat() {
    assert!(contains_str("users_email_key", "users_email"));
    assert!(!contains_str("posts_pkey", "users_email"));
    assert!(contains_str("abc", ""));
    assert_eq!(strip_prefix_str("Bearer abc", "Bearer "), Some("abc".to_string()));
    assert_eq!(strip_prefix_str("Basic abc", "Bearer "), None);
    assert_eq!(concat_strs("foo", "bar"), "foobar");
}

#[test]
fn uuid_shape() {
    assert!(is_uuid("1f4e9a3c-2b7d-4c1e-8a5f-0d6b9e2c7a41"));
    assert!(!is_uuid("1F4E9A3C-2B7D-4C1E-8A5F-0D6B9E2C7A41"));
    assert!(!is_uuid("1f4e9a3c2b7d4c1e8a5f0d6b9e2c7a41"));
    assert!(!is_uuid(""));
    assert!(!is_uuid("1f4e9a3c-2b7d-4c1e-8a5f-0d6b9e2c7a4"));
}

#[test]
fn config_defaults_apply() {
    let c = AppConfig::from_vars(
        None,
        None,
        None,
        Some("postgres://localhost/blog".to_string()),
        Some("SECRET-REDACTED".to_string()),
        None,
        None,
    )
    .expect("configuration failed");
    assert_eq!(c.host, "127.0.0.1");
    assert_eq!(c.http_port, 8080);
    assert_eq!(c.grpc_port, 5000);
    assert_eq!(c.database_url, "postgres://localhost/blog");
    assert_eq!(c.cors_origins, vec!["*"]);
    assert_eq!(c.log_format, "text");
}

#[test]
fn config_parses_explicit_values() {
    let c = AppConfig::from_vars(
        Some("0.0.0.0".to_string()),
        Some("9000".to_string()),
        Some("50051".to_string()),
        Some("postgres://db/blog".to_string()),
        Some("SECRET-REDACTED".to_string()),
        Some("https://a.example, https://b.example,".to_string()),
        Some("json".to_string()),
    )
    .expect("configuration failed");
    assert_eq!(c.host, "0.0.0.0");
    assert_eq!(c.http_port, 9000);
    assert_eq!(c.grpc_port, 50051);
    assert_eq!(c.cors_origins, vec!["https://a.example", "https://b.example"]);
    assert_eq!(c.log_format, "json");
}

#[test]
fn config_rejects_bad_ports_and_missing_values() {
    let r = AppConfig::from_vars(
        None,
        Some("not-a-port".to_string()),
        None,
        Some("db".to_string()),
        Some("s".to_string()),
        None,
        None,
    );
    assert_eq!(r, Err("invalid HTTP PORT".to_string()));
    let r = AppConfig::from_vars(
        None,
        None,
        Some("70000".to_string()),
        Some("db".to_string()),
        Some("s".to_string()),
        None,
        None,
    );
    assert_eq!(r, Err("invalid GRPC PORT".to_string()));
    let r = AppConfig::from_vars(None, None, None, None, Some("s".to_string()), None, None);
    assert_eq!(r, Err("DATABASE_URL must be set".to_string()));
    let r = AppConfig::from_vars(None, None, None, Some("db".to_string()), None, None, None);
    assert_eq!(r, Err("JWT_SECRET must be set".to_string()));
}

#[test]
fn new_records_carry_fresh_uuid_ids() {
    let u = User::new("alice".to_string(), "alice@example.com".to_string(), "hash".to_string());
    assert!(is_uuid(&u.id));
    assert_eq!(u.username, "alice");
    assert!(u.deleted_at.is_none());
    let author = u.id.clone();
    let p = Post::new("t".to_string(), "c".to_string(), author.clone());
    assert!(is_uuid(&p.id));
    assert_eq!(p.author_id, author);
    assert_eq!(p.title, "t");
    assert_eq!(p.content, "c");
    assert!(p.deleted_at.is_none());
}

#[test]
fn created_posts_are_bound_to_the_principal() {
    let service = PostService::new();
    let principal = blog_core::domain::AuthenticatedUser {
        id: "1f4e9a3c-2b7d-4c1e-8a5f-0d6b9e2c7a41".to_string(),
        email: "alice@example.com".to_string(),
    };
    let post = service.create_post_for(&principal, "t".to_string(), "c".to_string());
    assert_eq!(post.author_id, principal.id);
    assert!(is_uuid(&post.id));
}

#[test]
fn post_decisions() {
    let service = PostService::new();
    let post = service.create_post(
        "t".to_string(),
        "c".to_string(),
        "1f4e9a3c-2b7d-4c1e-8a5f-0d6b9e2c7a41".to_string(),
    );
    assert_eq!(service.get_post(Some(post.clone()), &post.id), Ok(post.clone()));
    assert_eq!(
        service.get_post(None, "missing-id"),
        Err(DomainError::PostNotFound("post id: missing-id".to_string()))
    );
    let updated = service
        .update_post(Some(post.clone()), &post.id, "t2".to_string(), "c2".to_string())
        .expect("update failed");
    assert_eq!(updated.id, post.id);
    assert_eq!(updated.author_id, post.author_id);
    assert_eq!(updated.created_at, post.created_at);
    assert_eq!(updated.title, "t2");
    assert_eq!(updated.content, "c2");
    assert_eq!(
        service.update_post(None, "missing-id", "t".to_string(), "c".to_string()),
        Err(DomainError::PostNotFound("post id: missing-id".to_string()))
    );
}

#[test]
fn post_response_keeps_fields() {
    let p = Post::new(
        "t".to_string(),
        "c".to_string(),
        "1f4e9a3c-2b7d-4c1e-8a5f-0d6b9e2c7a41".to_string(),
    );
    let r = PostResponse::from(p.clone());
    assert_eq!(r.id, p.id);
    assert_eq!(r.author_id, p.author_id);
    assert_eq!(r.title, p.title);
    assert_eq!(r.content, p.content);
    assert_eq!(r.created_at, p.created_at);
}

#[test]
fn request_ids_are_kept_or_freshly_assigned() {
    let rid = RequestIdMiddleware::request_id_for(Some("abc-123".to_string()));
    assert_eq!(rid.0, "abc-123");
    let rid = RequestIdMiddleware::request_id_for(None);
    assert!(is_uuid(&rid.0));
}
