//! Post management decisions. The store itself is I/O and lives outside this
//! crate; each operation here takes the store's answer as an argument and is
//! verified for all its values.

use vstd::prelude::*;

use crate::domain::{AuthenticatedUser, Post};
use crate::errors::DomainError;
use crate::text::concat_strs;

verus! {

/// Post management service: the CRUD decisions around the post store.
#[derive(Clone, Debug)]
pub struct PostService {}

impl PostService {
    /// Creates a new post service.
    pub fn new() -> (r: Self) {
        PostService {}
    }

    /// Builds a new post authored by the given user, for the caller to
    /// persist.
    pub fn create_post(&self, title: String, content: String, author_id: String) -> (r: Post)
        ensures
            r.wf(),
            r.title == title,
            r.content == content,
            r.author_id == author_id,
            r.deleted_at is None,
    {
        Post::new(title, content, author_id)
    }

    /// Builds the post a verified principal creates: the stored author is
    /// always the principal's own identity, never a caller-chosen id.
    pub fn create_post_for(
        &self,
        principal: &AuthenticatedUser,
        title: String,
        content: String,
    ) -> (r: Post)
        ensures
            r.wf(),
            r.title == title,
            r.content == content,
            r.author_id@ == principal.id@,
            r.deleted_at is None,
    {
        Post::new(title, content, principal.id.clone())
    }

    /// Decides a retrieval: `lookup` is the store's answer for `id`, and a
    /// miss is exactly a `PostNotFound` failure naming that id.
    pub fn get_post(&self, lookup: Option<Post>, id: &str) -> (r: Result<Post, DomainError>)
        ensures
            lookup matches Some(p) ==> r == Ok::<Post, DomainError>(p),
            lookup is None ==> (r matches Err(e) && e matches DomainError::PostNotFound(m) && m@
                == "post id: "@ + id@),
    {
        match lookup {
            Some(p) => Ok(p),
            None => Err(DomainError::PostNotFound(concat_strs("post id: ", id))),
        }
    }

    /// Decides an update: a miss is exactly a `PostNotFound` failure, and a
    /// hit keeps the post's identity and creation time while replacing its
    /// title and content, for the caller to persist.
    pub fn update_post(&self, lookup: Option<Post>, id: &str, title: String, content: String) -> (r:
        Result<Post, DomainError>)
        ensures
            lookup is None ==> (r matches Err(e) && e matches DomainError::PostNotFound(m) && m@
                == "post id: "@ + id@),
            lookup matches Some(p) ==> (r matches Ok(u) && u.id == p.id && u.author_id
                == p.author_id && u.created_at == p.created_at && u.deleted_at == p.deleted_at
                && u.title == title && u.content == content),
    {
        match lookup {
            Some(p) => Ok(p.with_update(title, content)),
            None => Err(DomainError::PostNotFound(concat_strs("post id: ", id))),
        }
    }
}

} // verus!
