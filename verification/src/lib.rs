//! Verified core of a two-transport blog service: the token codec, the
//! authentication boundary on the server, and the transport-unifying client
//! session, with one shared error taxonomy across both transports.

use vstd::prelude::*;

pub mod auth;
pub mod client;
pub mod config;
pub mod domain;
pub mod dto;
pub mod errors;
pub mod password;
pub mod posts;
pub mod request_id;
pub mod text;
pub mod token;

verus! {

/// The shared error taxonomy: every failure that crosses the authentication
/// boundary or the client session surface is one of these kinds.
#[derive(Clone, Copy, Debug, PartialEq, Eq, Structural)]
pub enum AuthError {
    /// A login email/password pair does not resolve to a valid account.
    InvalidCredentials,
    /// A token failed the signature, parse or expiry check, or its subject no
    /// longer resolves to a live account -- causes indistinguishable to the
    /// caller.
    InvalidToken,
    /// No credential was supplied at all.
    Unauthenticated,
    /// A registration email collides with an existing account.
    AlreadyExists,
    /// A referenced user or post does not exist: a resource-level miss after
    /// authentication, never an authentication failure itself.
    NotFound,
    /// An unexpected failure in signing, storage, or serialization.
    Internal,
}

} // verus!
