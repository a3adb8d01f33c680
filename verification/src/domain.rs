//! Domain models: users, posts, and the principal attached to an
//! authenticated request.
//!
//! Identifiers are hyphenated UUID strings and timestamps are Unix seconds,
//! so that every field is a plain value the contracts can speak about.

use vstd::prelude::*;

use crate::text::is_uuid_chars;

verus! {

/// Relies on uuid::Uuid::new_v4 and its Display form: a fresh random
/// identifier rendered as 36 hyphenated lowercase hex characters.
#[verifier::external_body]
pub(crate) fn fresh_uuid() -> (r: String)
    ensures
        is_uuid_chars(r@),
{
    uuid::Uuid::new_v4().to_string()
}

/// Relies on chrono::Utc::now for the current Unix time; nothing is assumed
/// about the value it returns.
#[verifier::external_body]
pub(crate) fn now_unix() -> (r: usize) {
    chrono::Utc::now().timestamp() as usize
}

/// User domain model.
#[derive(Debug, Clone, PartialEq, Eq)]
pub struct User {
    /// Unique user identifier.
    pub id: String,
    /// User display name.
    pub username: String,
    /// User email address.
    pub email: String,
    /// Hashed user password.
    pub password_hash: String,
    /// User creation timestamp (Unix seconds).
    pub created_at: usize,
    /// User deletion timestamp, if deleted.
    pub deleted_at: Option<usize>,
}

impl User {
    /// A well-formed user record carries a UUID-shaped identifier.
    pub open spec fn wf(&self) -> bool {
        is_uuid_chars(self.id@)
    }

    /// Creates a new user instance with a fresh UUID and the current
    /// timestamp.
    pub fn new(username: String, email: String, password_hash: String) -> (r: Self)
        ensures
            r.wf(),
            r.username == username,
            r.email == email,
            r.password_hash == password_hash,
            r.deleted_at is None,
    {
        User {
            id: fresh_uuid(),
            username,
            email,
            password_hash,
            created_at: now_unix(),
            deleted_at: None,
        }
    }
}

/// Blog post domain model.
#[derive(Debug, Clone, PartialEq, Eq)]
pub struct Post {
    /// Unique post identifier.
    pub id: String,
    /// Identifier of the post author.
    pub author_id: String,
    /// Post title.
    pub title: String,
    /// Post content.
    pub content: String,
    /// Post creation timestamp (Unix seconds).
    pub created_at: usize,
    /// Post deletion timestamp, if deleted.
    pub deleted_at: Option<usize>,
}

impl Post {
    /// A well-formed post record carries a UUID-shaped identifier.
    pub open spec fn wf(&self) -> bool {
        is_uuid_chars(self.id@)
    }

    /// Creates a new post instance with a fresh UUID and the current
    /// timestamp.
    pub fn new(title: String, content: String, author_id: String) -> (r: Self)
        ensures
            r.wf(),
            r.title == title,
            r.content == content,
            r.author_id == author_id,
            r.deleted_at is None,
    {
        Post {
            id: fresh_uuid(),
            author_id,
            title,
            content,
            created_at: now_unix(),
            deleted_at: None,
        }
    }

    /// Returns this post with its title and content replaced.
    pub fn with_update(self, title: String, content: String) -> (r: Self)
        ensures
            r.id == self.id,
            r.author_id == self.author_id,
            r.created_at == self.created_at,
            r.deleted_at == self.deleted_at,
            r.title == title,
            r.content == content,
    {
        Post { title, content, ..self }
    }
}

/// The verified principal: the identity attached to a request after its
/// bearer token passed signature, expiry and directory checks.
#[derive(Debug, Clone, PartialEq, Eq)]
pub struct AuthenticatedUser {
    /// Authenticated user ID.
    pub id: String,
    /// Authenticated user email.
    pub email: String,
}

} // verus!
