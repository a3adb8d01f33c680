//! An end-to-end walk over the verified decisions, with the real signing and
//! hashing crates doing the cryptography and an in-memory directory and
//! store standing in for the persistence collaborators.

use blog_core::auth::{AuthService, JwtAuthMiddleware};
use blog_core::client::{BlogClient, CallPlan, HttpMethod, Transport};
use blog_core::domain::{Post, User};
use blog_core::errors::DomainError;
use blog_core::posts::PostService;
use blog_core::token::JwtKeys;
use blog_core::AuthError;

#[test]
fn end_to_end_register_login_create_list_delete() {
    let auth = AuthService::new(JwtKeys::new("e2e-secret".to_string()));
    let mw = JwtAuthMiddleware::new(JwtKeys::new("e2e-secret".to_string()));
    let posts = PostService::new();
    let mut directory: Vec<User> = Vec::new();
    let mut store: Vec<Post> = Vec::new();
    let now = chrono::Utc::now().timestamp() as usize;

    // the client session plans the registration call over HTTP
    let mut session = BlogClient::new(Transport::Http("http://127.0.0.1:8080".to_string()));
    let plan = session.register_call(
        "alice".to_string(),
        "alice@example.com".to_string(),
        "p1".to_string(),
    );
    match plan {
        CallPlan::Http(h) => assert_eq!(h.method, HttpMethod::Post),
        other => panic!("wrong transport: {other:?}"),
    }

    // the server registers alice
    let existing = directory.iter().find(|u| u.email == "alice@example.com").cloned();
    let alice = auth
        .register(existing, "alice".to_string(), "alice@example.com".to_string(), "p1".to_string())
        .expect("registration failed");
    directory.push(alice.clone());

    // a second registration with the same email collides
    let existing = directory.iter().find(|u| u.email == "alice@example.com").cloned();
    let again = auth.register(
        existing,
        "alice2".to_string(),
        "alice@example.com".to_string(),
        "p9".to_string(),
    );
    assert_eq!(again, Err(AuthError::AlreadyExists));

    // login with the same credentials yields a token the session captures
    let lookup = directory.iter().find(|u| u.email == "alice@example.com").cloned();
    let token = auth.login(lookup, "p1").expect("login failed");
    session.set_token(token.clone());

    // a wrong password would have failed exactly like an unknown email
    let lookup = directory.iter().find(|u| u.email == "alice@example.com").cloned();
    assert_eq!(auth.login(lookup, "p2"), Err(AuthError::InvalidCredentials));
    assert_eq!(auth.login(None, "p1"), Err(AuthError::InvalidCredentials));

    // the middleware resolves the principal from the bearer header
    let header = format!("Bearer {token}");
    let claims = mw.authorize(Some(&header), now).expect("authorization failed");
    let account = directory.iter().find(|u| u.id == claims.sub).cloned();
    let principal = auth.resolve_principal(&claims, account).expect("resolution failed");
    assert_eq!(principal.id, alice.id);

    // createPost(title "t", content "c"): the stored author is the verified
    // principal, never a caller-chosen id
    let post = posts.create_post_for(&principal, "t".to_string(), "c".to_string());
    assert_eq!(post.author_id, alice.id);
    assert_eq!(post.title, "t");
    assert_eq!(post.content, "c");
    store.push(post.clone());

    // listing alice's posts returns exactly that one post
    let listed: Vec<Post> = store.iter().filter(|p| p.author_id == alice.id).cloned().collect();
    assert_eq!(listed, vec![post.clone()]);

    // deleting it succeeds, and a later lookup misses
    store.retain(|p| p.id != post.id);
    let lookup = store.iter().find(|p| p.id == post.id).cloned();
    assert_eq!(
        posts.get_post(lookup, &post.id),
        Err(DomainError::PostNotFound(format!("post id: {}", post.id)))
    );
}
