//! Request identification: each incoming request carries or receives an
//! identifier that is echoed back on the response.

use vstd::prelude::*;

use crate::domain::fresh_uuid;
use crate::text::is_uuid_chars;

verus! {

/// Request identifier stored in request-scoped context.
#[derive(Clone, Debug, PartialEq, Eq)]
pub struct RequestId(pub String);

/// Request ID middleware: keeps the identifier a request arrived with, or
/// assigns a fresh one.
#[derive(Clone, Debug, PartialEq, Eq)]
pub struct RequestIdMiddleware;

impl RequestIdMiddleware {
    /// Decides the identifier of one request: the inbound header value when
    /// present, a fresh UUID otherwise.
    pub fn request_id_for(header: Option<String>) -> (r: RequestId)
        ensures
            header matches Some(h) ==> r.0 == h,
            header is None ==> is_uuid_chars(r.0@),
    {
        match header {
            Some(h) => RequestId(h),
            None => RequestId(fresh_uuid()),
        }
    }
}

} // verus!
