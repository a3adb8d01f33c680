//! Data transfer objects of the HTTP surface: request payloads and response
//! shapes, all over plain values.

use vstd::prelude::*;

use crate::domain::Post;

verus! {

/// User registration request payload.
#[derive(Clone, Debug, PartialEq, Eq)]
pub struct RegisterRequest {
    /// Desired username.
    pub username: String,
    /// User email address.
    pub email: String,
    /// User plaintext password.
    pub password: String,
}

/// User login request payload.
#[derive(Clone, Debug, PartialEq, Eq)]
pub struct LoginRequest {
    /// User email address.
    pub email: String,
    /// User plaintext password.
    pub password: String,
}

/// Health check response.
#[derive(Clone, Debug, PartialEq, Eq)]
pub struct HealthResponse {
    /// Service status.
    pub status: String,
    /// Current server timestamp (Unix seconds).
    pub timestamp: usize,
}

/// JWT token response.
#[derive(Clone, Debug, PartialEq, Eq)]
pub struct TokenResponse {
    /// Access token.
    pub access_token: String,
}

/// Post response payload.
#[derive(Clone, Debug, PartialEq, Eq)]
pub struct PostResponse {
    /// Post identifier.
    pub id: String,
    /// Post author identifier.
    pub author_id: String,
    /// Post title.
    pub title: String,
    /// Post content.
    pub content: String,
    /// Post creation timestamp (Unix seconds).
    pub created_at: usize,
}

/// Post creation request payload.
#[derive(Clone, Debug, PartialEq, Eq)]
pub struct CreatePostRequest {
    /// Post title.
    pub title: String,
    /// Post content.
    pub content: String,
}

impl core::convert::From<Post> for PostResponse {
    /// Converts a domain post into an HTTP response DTO, keeping every field.
    fn from(post: Post) -> Self {
        PostResponse {
            id: post.id,
            author_id: post.author_id,
            title: post.title,
            content: post.content,
            created_at: post.created_at,
        }
    }
}

impl vstd::std_specs::convert::FromSpecImpl<Post> for PostResponse {
    open spec fn obeys_from_spec() -> bool {
        true
    }

    open spec fn from_spec(post: Post) -> PostResponse {
        PostResponse {
            id: post.id,
            author_id: post.author_id,
            title: post.title,
            content: post.content,
            created_at: post.created_at,
        }
    }
}

} // verus!
