//! Server-side error surfaces: the domain error carried by handlers, and the
//! exact mapping of every failure kind to its HTTP status and RPC status
//! code, stated as one explicit table rather than ad hoc matching.

use vstd::prelude::*;
use vstd::string::*;

use crate::text::{concat_strs, contains_seq, contains_str};
use crate::AuthError;

verus! {

/// The HTTP status that each kind of the shared taxonomy surfaces as. Every
/// authentication-class failure collapses to 401, so callers cannot tell the
/// causes apart.
pub open spec fn auth_http_status(e: AuthError) -> u16 {
    match e {
        AuthError::InvalidCredentials => 401,
        AuthError::InvalidToken => 401,
        AuthError::Unauthenticated => 401,
        AuthError::AlreadyExists => 400,
        AuthError::NotFound => 404,
        AuthError::Internal => 500,
    }
}

/// The RPC status code that each kind of the shared taxonomy surfaces as:
/// UNAUTHENTICATED (16) for every authentication-class failure,
/// INVALID_ARGUMENT (3), NOT_FOUND (5) and INTERNAL (13) for the rest.
pub open spec fn auth_grpc_code(e: AuthError) -> u32 {
    match e {
        AuthError::InvalidCredentials => 16,
        AuthError::InvalidToken => 16,
        AuthError::Unauthenticated => 16,
        AuthError::AlreadyExists => 3,
        AuthError::NotFound => 5,
        AuthError::Internal => 13,
    }
}

/// The generic message each kind of the shared taxonomy surfaces with. No
/// kind carries detail, so no internal information can cross the boundary.
pub open spec fn auth_message(e: AuthError) -> Seq<char> {
    match e {
        AuthError::InvalidCredentials => "invalid credentials"@,
        AuthError::InvalidToken => "invalid token"@,
        AuthError::Unauthenticated => "missing credentials"@,
        AuthError::AlreadyExists => "already exists"@,
        AuthError::NotFound => "not found"@,
        AuthError::Internal => "internal error"@,
    }
}

impl AuthError {
    /// The generic message this failure surfaces with, on both transports:
    /// the HTTP body's `error` field and the RPC status detail.
    pub fn message(&self) -> (r: String)
        ensures
            r@ == auth_message(*self),
    {
        match self {
            AuthError::InvalidCredentials => String::from_str("invalid credentials"),
            AuthError::InvalidToken => String::from_str("invalid token"),
            AuthError::Unauthenticated => String::from_str("missing credentials"),
            AuthError::AlreadyExists => String::from_str("already exists"),
            AuthError::NotFound => String::from_str("not found"),
            AuthError::Internal => String::from_str("internal error"),
        }
    }

    /// The HTTP status this failure surfaces as.
    pub fn http_status(&self) -> (r: u16)
        ensures
            r == auth_http_status(*self),
    {
        match self {
            AuthError::InvalidCredentials => 401,
            AuthError::InvalidToken => 401,
            AuthError::Unauthenticated => 401,
            AuthError::AlreadyExists => 400,
            AuthError::NotFound => 404,
            AuthError::Internal => 500,
        }
    }

    /// The RPC status code this failure surfaces as.
    pub fn grpc_code(&self) -> (r: u32)
        ensures
            r == auth_grpc_code(*self),
    {
        match self {
            AuthError::InvalidCredentials => 16,
            AuthError::InvalidToken => 16,
            AuthError::Unauthenticated => 16,
            AuthError::AlreadyExists => 3,
            AuthError::NotFound => 5,
            AuthError::Internal => 13,
        }
    }
}

/// Domain-level application errors, mapped to HTTP responses in the web
/// layer.
#[derive(Debug, Clone, PartialEq, Eq)]
pub enum DomainError {
    /// Internal application error.
    Internal(String),
    /// Validation error caused by invalid input.
    Validation(String),
    /// User was not found.
    UserNotFound(String),
    /// Post was not found.
    PostNotFound(String),
    /// Authentication or authorization failure.
    InvalidCredentials(String),
    /// A registration email collides with an existing account.
    AlreadyExists(String),
}

/// The HTTP status code of each domain error.
pub open spec fn domain_status_code(e: DomainError) -> u16 {
    match e {
        DomainError::Validation(_) => 400,
        DomainError::UserNotFound(_) => 404,
        DomainError::PostNotFound(_) => 404,
        DomainError::InvalidCredentials(_) => 401,
        DomainError::AlreadyExists(_) => 400,
        DomainError::Internal(_) => 500,
    }
}

/// The message each domain error surfaces with at the boundary. An internal
/// error surfaces as a fixed generic message: whatever detail the variant
/// carries stays inside the process.
pub open spec fn domain_message(e: DomainError) -> Seq<char> {
    match e {
        DomainError::Internal(_) => "internal error"@,
        DomainError::Validation(m) => "validation error: "@ + m@,
        DomainError::UserNotFound(m) => "user not found: "@ + m@,
        DomainError::PostNotFound(m) => "post not found: "@ + m@,
        DomainError::InvalidCredentials(m) => "forbidden: "@ + m@,
        DomainError::AlreadyExists(m) => "already exists: "@ + m@,
    }
}

/// The RPC status code and detail message each domain error surfaces with.
/// An internal error carries only the fixed generic message.
pub open spec fn domain_grpc_status(e: DomainError) -> (u32, Seq<char>) {
    match e {
        DomainError::Validation(m) => (3, m@),
        DomainError::UserNotFound(m) => (5, "user not found: "@ + m@),
        DomainError::PostNotFound(m) => (5, "post not found: "@ + m@),
        DomainError::InvalidCredentials(m) => (16, m@),
        DomainError::AlreadyExists(m) => (3, m@),
        DomainError::Internal(_) => (13, "internal error"@),
    }
}

/// The raw detail string carried by a domain error.
pub open spec fn domain_detail(e: DomainError) -> Seq<char> {
    match e {
        DomainError::Internal(m) => m@,
        DomainError::Validation(m) => m@,
        DomainError::UserNotFound(m) => m@,
        DomainError::PostNotFound(m) => m@,
        DomainError::InvalidCredentials(m) => m@,
        DomainError::AlreadyExists(m) => m@,
    }
}

impl DomainError {
    /// Maps this domain error to its HTTP status code.
    pub fn status_code(&self) -> (r: u16)
        ensures
            r == domain_status_code(*self),
    {
        match self {
            DomainError::Validation(_) => 400,
            DomainError::UserNotFound(_) => 404,
            DomainError::PostNotFound(_) => 404,
            DomainError::InvalidCredentials(_) => 401,
            DomainError::AlreadyExists(_) => 400,
            DomainError::Internal(_) => 500,
        }
    }

    /// Renders the message this error surfaces with at the boundary.
    pub fn message(&self) -> (r: String)
        ensures
            r@ == domain_message(*self),
    {
        match self {
            DomainError::Internal(_) => String::from_str("internal error"),
            DomainError::Validation(m) => concat_strs("validation error: ", m.as_str()),
            DomainError::UserNotFound(m) => concat_strs("user not found: ", m.as_str()),
            DomainError::PostNotFound(m) => concat_strs("post not found: ", m.as_str()),
            DomainError::InvalidCredentials(m) => concat_strs("forbidden: ", m.as_str()),
            DomainError::AlreadyExists(m) => concat_strs("already exists: ", m.as_str()),
        }
    }

    /// The parts of the HTTP error response built from this error: the
    /// status code, the full message for the body's `error` field, and the
    /// raw detail for the body's optional `details` field -- absent exactly
    /// for internal errors, whose detail never crosses the boundary.
    pub fn response_parts(&self) -> (r: (u16, String, Option<String>))
        ensures
            r.0 == domain_status_code(*self),
            r.1@ == domain_message(*self),
            *self matches DomainError::Internal(_) ==> r.2 is None,
            !(*self matches DomainError::Internal(_)) ==> (r.2 matches Some(d) && d@
                == domain_detail(*self)),
    {
        let details = match self {
            DomainError::Internal(_) => None,
            DomainError::Validation(m) => Some(m.clone()),
            DomainError::UserNotFound(m) => Some(m.clone()),
            DomainError::PostNotFound(m) => Some(m.clone()),
            DomainError::InvalidCredentials(m) => Some(m.clone()),
            DomainError::AlreadyExists(m) => Some(m.clone()),
        };
        (self.status_code(), self.message(), details)
    }

    /// Maps this domain error to an RPC status code with a detail message.
    pub fn to_status(&self) -> (r: (u32, String))
        ensures
            r.0 == domain_grpc_status(*self).0,
            r.1@ == domain_grpc_status(*self).1,
    {
        match self {
            DomainError::Validation(m) => (3, m.clone()),
            DomainError::UserNotFound(m) => (5, concat_strs("user not found: ", m.as_str())),
            DomainError::PostNotFound(m) => (5, concat_strs("post not found: ", m.as_str())),
            DomainError::InvalidCredentials(m) => (16, m.clone()),
            DomainError::AlreadyExists(m) => (3, m.clone()),
            DomainError::Internal(_) => (13, String::from_str("internal error")),
        }
    }
}

/// Maps a failed user insert to a domain error: a unique-constraint hit that
/// names the users' email index means the email is already registered
/// (`AlreadyExists`), and anything else is an internal database failure whose
/// detail stays inside the variant, for logging, and never reaches the
/// boundary. `constraint` is the violated constraint's name, when the
/// database reported one.
pub fn map_user_insert_error(constraint: Option<String>, detail: String) -> (r: DomainError)
    ensures
        (constraint matches Some(c) && contains_seq(c@, "users_email"@)) ==> (r matches
            DomainError::AlreadyExists(m) && m@ == "email already registered"@),
        (match constraint {
            Some(c) => !contains_seq(c@, "users_email"@),
            None => true,
        }) ==> (r matches DomainError::Internal(m) && m@ == "database error: "@ + detail@),
{
    let conflict = match &constraint {
        Some(c) => contains_str(c.as_str(), "users_email"),
        None => false,
    };
    if conflict {
        DomainError::AlreadyExists(String::from_str("email already registered"))
    } else {
        DomainError::Internal(concat_strs("database error: ", detail.as_str()))
    }
}

} // verus!
