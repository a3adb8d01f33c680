//! The client session: one call surface over two transports.
//!
//! A session binds one transport at construction and tracks the current
//! token. Each operation is split into a verified decision -- build the call
//! plan for the bound transport, attach the bearer credential, fail fast when
//! no token is set -- and the transport I/O itself, which runs outside this
//! crate and hands plain values back. Every transport failure is normalized
//! into one shared error taxonomy before it reaches the caller.

use vstd::prelude::*;

use crate::text::concat_strs;
use vstd::string::*;

verus! {

/// Transport configuration for the blog client: chosen once at session
/// creation and immutable thereafter.
#[derive(Clone, Debug, PartialEq, Eq)]
pub enum Transport {
    /// Use the HTTP transport with the given base URL.
    Http(String),
    /// Use the gRPC transport with the given server address.
    Grpc(String),
}

/// Blog client errors: the one taxonomy every transport failure is mapped
/// into.
#[derive(Clone, Debug, PartialEq, Eq)]
pub enum BlogClientError {
    /// HTTP transport or status error.
    Http(String),
    /// gRPC status error returned by the server: code and message.
    GrpcStatus(u32, String),
    /// gRPC transport-level error.
    GrpcTransport(String),
    /// Serialization or deserialization error.
    Serde(String),
    /// Unauthorized request or missing authentication.
    Unauthorized(String),
    /// Requested resource was not found.
    NotFound(String),
    /// Invalid client request.
    InvalidRequest(String),
    /// Invalid client state.
    InvalidState(String),
    /// Other client error.
    Other(String),
}

/// HTTP request method of a planned call.
#[derive(Clone, Copy, Debug, PartialEq, Eq, Structural)]
pub enum HttpMethod {
    Get,
    Post,
    Put,
    Delete,
}

/// The structured body of a planned HTTP call.
#[derive(Clone, Debug, PartialEq, Eq)]
pub enum RequestBody {
    /// Registration payload.
    NewUser { username: String, email: String, password: String },
    /// Login payload.
    Credentials { email: String, password: String },
    /// Post creation and update payload.
    PostPayload { title: String, content: String },
}

/// A planned HTTP call: method, full URL, optional `Authorization` header
/// value, optional structured body, and optional `(limit, offset)` query.
#[derive(Clone, Debug, PartialEq, Eq)]
pub struct HttpCall {
    /// Request method.
    pub method: HttpMethod,
    /// Full request URL (base URL plus path).
    pub url: String,
    /// Value for the `Authorization` header, when the call is authenticated.
    pub bearer: Option<String>,
    /// Structured request body, when the operation carries one.
    pub body: Option<RequestBody>,
    /// `(limit, offset)` query parameters, for the list operation.
    pub query: Option<(u32, u32)>,
}

/// The typed message of a planned gRPC call.
#[derive(Clone, Debug, PartialEq, Eq)]
pub enum GrpcOp {
    /// Registration request.
    Register { username: String, email: String, password: String },
    /// Login request.
    Login { email: String, password: String },
    /// Post creation request.
    CreatePost { title: String, content: String },
    /// Post retrieval request.
    GetPost { id: String },
    /// Post update request.
    UpdatePost { id: String, title: String, content: String },
    /// Post deletion request.
    DeletePost { id: String },
    /// Post listing request.
    ListPosts,
}

/// A planned gRPC call: optional `authorization` metadata value and the
/// typed request message.
#[derive(Clone, Debug, PartialEq, Eq)]
pub struct GrpcCall {
    /// Value for the `authorization` metadata entry, when authenticated.
    pub authorization: Option<String>,
    /// The typed request message.
    pub op: GrpcOp,
}

/// A planned call on whichever transport the session is bound to.
#[derive(Clone, Debug, PartialEq, Eq)]
pub enum CallPlan {
    /// A call over the HTTP transport.
    Http(HttpCall),
    /// A call over the gRPC transport.
    Grpc(GrpcCall),
}

/// Authentication response returned by the API. A register response may or
/// may not carry a token depending on transport and server configuration;
/// the session tolerates both shapes.
#[derive(Clone, Debug, PartialEq, Eq)]
pub struct AuthResponse {
    /// JWT access token, if authentication was successful.
    pub access_token: Option<String>,
    /// Authenticated user information, if available.
    pub user: Option<User>,
}

/// User model returned by the client API.
#[derive(Clone, Debug, PartialEq, Eq)]
pub struct User {
    /// Unique user identifier.
    pub id: String,
    /// User display name.
    pub username: String,
    /// User email address.
    pub email: String,
}

/// Blog post model returned by the client API.
#[derive(Clone, Debug, PartialEq, Eq)]
pub struct Post {
    /// Unique post identifier.
    pub id: String,
    /// Post title.
    pub title: String,
    /// Post content.
    pub content: String,
    /// Post author identifier.
    pub author_id: String,
    /// Post creation timestamp (Unix seconds).
    pub created_at: usize,
    /// Post update timestamp, if updated.
    pub updated_at: Option<usize>,
}

/// The bearer credential value carried for token `t`, identical on both
/// transports: the `Authorization` header and the `authorization` metadata
/// entry both hold `Bearer <t>`.
pub open spec fn bearer_value_of(t: Seq<char>) -> Seq<char> {
    "Bearer "@ + t
}

/// The credential a plan carries.
pub open spec fn plan_auth(p: CallPlan) -> Option<Seq<char>> {
    match p {
        CallPlan::Http(h) => match h.bearer {
            Some(s) => Some(s@),
            None => None,
        },
        CallPlan::Grpc(g) => match g.authorization {
            Some(s) => Some(s@),
            None => None,
        },
    }
}

/// Whether a plan goes over the given transport.
pub open spec fn plan_matches_transport(p: CallPlan, t: Transport) -> bool {
    match p {
        CallPlan::Http(_) => t is Http,
        CallPlan::Grpc(_) => t is Grpc,
    }
}

/// Normalizes a raw authentication payload into a response: the gRPC wire
/// carries an empty token string where HTTP carries an absent field, and an
/// empty token is no token -- so a register response that carries none is
/// tolerated on either transport.
pub fn wire_auth_response(token: String, user: Option<User>) -> (r: AuthResponse)
    ensures
        token@.len() == 0 ==> r.access_token is None,
        token@.len() > 0 ==> r.access_token == Some(token),
        r.user == user,
{
    if token.as_str().unicode_len() == 0 {
        AuthResponse { access_token: None, user }
    } else {
        AuthResponse { access_token: Some(token), user }
    }
}

/// Builds the `Bearer <token>` credential value.
pub fn bearer_header(token: &String) -> (r: String)
    ensures
        r@ == bearer_value_of(token@),
{
    concat_strs("Bearer ", token.as_str())
}

/// Blog API client session: one transport, one optional token, one unified
/// operation surface. `set_token` replaces the token, never merges; a
/// missing token fails every authenticated operation before any plan is
/// built, so no network call can be attempted.
#[derive(Clone, Debug)]
pub struct BlogClient {
    transport: Transport,
    token: Option<String>,
}

impl BlogClient {
    /// The transport this session was bound to at construction.
    pub closed spec fn spec_transport(&self) -> Transport {
        self.transport
    }

    /// The current token, if any.
    pub closed spec fn spec_token(&self) -> Option<Seq<char>> {
        match self.token {
            Some(t) => Some(t@),
            None => None,
        }
    }

    /// Creates a new blog client session bound to the given transport, with
    /// no token set.
    pub fn new(transport: Transport) -> (r: Self)
        ensures
            r.spec_transport() == transport,
            r.spec_token() is None,
    {
        BlogClient { transport, token: None }
    }

    /// Sets the JWT token used for authenticated requests, replacing any
    /// previous one.
    pub fn set_token(&mut self, token: String)
        ensures
            final(self).spec_token() == Some(token@),
            final(self).spec_transport() == old(self).spec_transport(),
    {
        self.token = Some(token);
    }

    /// Returns the current JWT token, if present.
    pub fn get_token(&self) -> (r: Option<&String>)
        ensures
            r matches Some(t) ==> self.spec_token() == Some(t@),
            r is None ==> self.spec_token() is None,
    {
        self.token.as_ref()
    }

    /// Captures the token of an authentication response, when one is
    /// present; a response without a token leaves the session unchanged.
    pub fn absorb_auth(&mut self, resp: &AuthResponse)
        ensures
            final(self).spec_transport() == old(self).spec_transport(),
            resp.access_token matches Some(t) ==> final(self).spec_token() == Some(t@),
            resp.access_token is None ==> final(self).spec_token() == old(self).spec_token(),
    {
        match &resp.access_token {
            Some(t) => self.set_token(t.clone()),
            None => (),
        }
    }

    /// The current `Bearer <token>` credential value, or the exact
    /// missing-token failure.
    fn current_bearer(&self) -> (r: Result<String, BlogClientError>)
        ensures
            self.spec_token() is None ==> (r matches Err(e) && e matches
                BlogClientError::Unauthorized(m) && m@ == "token is missing"@),
            self.spec_token() matches Some(t) ==> (r matches Ok(b) && b@ == bearer_value_of(t)),
    {
        match &self.token {
            Some(t) => Ok(bearer_header(t)),
            None => Err(BlogClientError::Unauthorized(String::from_str("token is missing"))),
        }
    }

    /// Plans a registration call: no credential is attached.
    pub fn register_call(&self, username: String, email: String, password: String) -> (r: CallPlan)
        ensures
            plan_matches_transport(r, self.spec_transport()),
            plan_auth(r) is None,
            r matches CallPlan::Http(h) ==> h.method == HttpMethod::Post && (
            self.spec_transport() matches Transport::Http(b) ==> h.url@ == b@
                + "/api/public/auth/register"@) && h.query is None && (h.body matches Some(
                RequestBody::NewUser { username: un, email: em, password: pw },
            ) && un == username && em == email && pw == password),
            r matches CallPlan::Grpc(g) ==> (g.op matches GrpcOp::Register {
                username: un,
                email: em,
                password: pw,
            } && un == username && em == email && pw == password),
    {
        match &self.transport {
            Transport::Http(b) => CallPlan::Http(
                HttpCall {
                    method: HttpMethod::Post,
                    url: concat_strs(b.as_str(), "/api/public/auth/register"),
                    bearer: None,
                    body: Some(RequestBody::NewUser { username, email, password }),
                    query: None,
                },
            ),
            Transport::Grpc(_) => CallPlan::Grpc(
                GrpcCall {
                    authorization: None,
                    op: GrpcOp::Register { username, email, password },
                },
            ),
        }
    }

    /// Plans a login call: no credential is attached.
    pub fn login_call(&self, email: String, password: String) -> (r: CallPlan)
        ensures
            plan_matches_transport(r, self.spec_transport()),
            plan_auth(r) is None,
            r matches CallPlan::Http(h) ==> h.method == HttpMethod::Post && (
            self.spec_transport() matches Transport::Http(b) ==> h.url@ == b@
                + "/api/public/auth/login"@) && h.query is None && (h.body matches Some(
                RequestBody::Credentials { email: em, password: pw },
            ) && em == email && pw == password),
            r matches CallPlan::Grpc(g) ==> (g.op matches GrpcOp::Login {
                email: em,
                password: pw,
            } && em == email && pw == password),
    {
        match &self.transport {
            Transport::Http(b) => CallPlan::Http(
                HttpCall {
                    method: HttpMethod::Post,
                    url: concat_strs(b.as_str(), "/api/public/auth/login"),
                    bearer: None,
                    body: Some(RequestBody::Credentials { email, password }),
                    query: None,
                },
            ),
            Transport::Grpc(_) => CallPlan::Grpc(
                GrpcCall { authorization: None, op: GrpcOp::Login { email, password } },
            ),
        }
    }

    /// Plans a post creation call. Fails fast with the missing-token failure
    /// when no token is set: no plan exists, so no network call can happen.
    pub fn create_post_call(&self, title: String, content: String) -> (r: Result<
        CallPlan,
        BlogClientError,
    >)
        ensures
            self.spec_token() is None ==> (r matches Err(e) && e matches
                BlogClientError::Unauthorized(m) && m@ == "token is missing"@),
            self.spec_token() matches Some(t) ==> (r matches Ok(p) && plan_matches_transport(
                p,
                self.spec_transport(),
            ) && plan_auth(p) == Some(bearer_value_of(t)) && (p matches CallPlan::Http(h)
                ==> h.method == HttpMethod::Post && (self.spec_transport() matches Transport::Http(
                b,
            ) ==> h.url@ == b@ + "/api/protected/posts"@) && h.query is None && (h.body matches Some(
                RequestBody::PostPayload { title: ti, content: co },
            ) && ti == title && co == content)) && (p matches CallPlan::Grpc(g)
                ==> g.op matches GrpcOp::CreatePost { title: ti, content: co } && ti == title && co
                == content)),
    {
        let bearer = self.current_bearer()?;
        match &self.transport {
            Transport::Http(b) => Ok(
                CallPlan::Http(
                    HttpCall {
                        method: HttpMethod::Post,
                        url: concat_strs(b.as_str(), "/api/protected/posts"),
                        bearer: Some(bearer),
                        body: Some(RequestBody::PostPayload { title, content }),
                        query: None,
                    },
                ),
            ),
            Transport::Grpc(_) => Ok(
                CallPlan::Grpc(
                    GrpcCall {
                        authorization: Some(bearer),
                        op: GrpcOp::CreatePost { title, content },
                    },
                ),
            ),
        }
    }

    /// Plans a post retrieval call. Fails fast with the missing-token
    /// failure when no token is set.
    pub fn get_post_call(&self, id: &str) -> (r: Result<CallPlan, BlogClientError>)
        ensures
            self.spec_token() is None ==> (r matches Err(e) && e matches
                BlogClientError::Unauthorized(m) && m@ == "token is missing"@),
            self.spec_token() matches Some(t) ==> (r matches Ok(p) && plan_matches_transport(
                p,
                self.spec_transport(),
            ) && plan_auth(p) == Some(bearer_value_of(t)) && (p matches CallPlan::Http(h)
                ==> h.method == HttpMethod::Get && (self.spec_transport() matches Transport::Http(
                b,
            ) ==> h.url@ == b@ + "/api/protected/posts/"@ + id@) && h.body is None && h.query
                is None) && (p matches CallPlan::Grpc(g) ==> g.op matches GrpcOp::GetPost {
                id: pid,
            } && pid@ == id@)),
    {
        let bearer = self.current_bearer()?;
        match &self.transport {
            Transport::Http(b) => Ok(
                CallPlan::Http(
                    HttpCall {
                        method: HttpMethod::Get,
                        url: concat_strs(
                            concat_strs(b.as_str(), "/api/protected/posts/").as_str(),
                            id,
                        ),
                        bearer: Some(bearer),
                        body: None,
                        query: None,
                    },
                ),
            ),
            Transport::Grpc(_) => Ok(
                CallPlan::Grpc(
                    GrpcCall {
                        authorization: Some(bearer),
                        op: GrpcOp::GetPost { id: String::from_str(id) },
                    },
                ),
            ),
        }
    }

    /// Plans a post update call. Fails fast with the missing-token failure
    /// when no token is set.
    pub fn update_post_call(&self, id: &str, title: String, content: String) -> (r: Result<
        CallPlan,
        BlogClientError,
    >)
        ensures
            self.spec_token() is None ==> (r matches Err(e) && e matches
                BlogClientError::Unauthorized(m) && m@ == "token is missing"@),
            self.spec_token() matches Some(t) ==> (r matches Ok(p) && plan_matches_transport(
                p,
                self.spec_transport(),
            ) && plan_auth(p) == Some(bearer_value_of(t)) && (p matches CallPlan::Http(h)
                ==> h.method == HttpMethod::Put && (self.spec_transport() matches Transport::Http(
                b,
            ) ==> h.url@ == b@ + "/api/protected/posts/"@ + id@) && h.query is None && (
            h.body matches Some(RequestBody::PostPayload { title: ti, content: co }) && ti == title
                && co == content)) && (p matches CallPlan::Grpc(g)
                ==> g.op matches GrpcOp::UpdatePost { id: pid, title: ti, content: co } && pid@
                == id@ && ti == title && co == content)),
    {
        let bearer = self.current_bearer()?;
        match &self.transport {
            Transport::Http(b) => Ok(
                CallPlan::Http(
                    HttpCall {
                        method: HttpMethod::Put,
                        url: concat_strs(
                            concat_strs(b.as_str(), "/api/protected/posts/").as_str(),
                            id,
                        ),
                        bearer: Some(bearer),
                        body: Some(RequestBody::PostPayload { title, content }),
                        query: None,
                    },
                ),
            ),
            Transport::Grpc(_) => Ok(
                CallPlan::Grpc(
                    GrpcCall {
                        authorization: Some(bearer),
                        op: GrpcOp::UpdatePost { id: String::from_str(id), title, content },
                    },
                ),
            ),
        }
    }

    /// Plans a post deletion call. Fails fast with the missing-token failure
    /// when no token is set.
    pub fn delete_post_call(&self, id: &str) -> (r: Result<CallPlan, BlogClientError>)
        ensures
            self.spec_token() is None ==> (r matches Err(e) && e matches
                BlogClientError::Unauthorized(m) && m@ == "token is missing"@),
            self.spec_token() matches Some(t) ==> (r matches Ok(p) && plan_matches_transport(
                p,
                self.spec_transport(),
            ) && plan_auth(p) == Some(bearer_value_of(t)) && (p matches CallPlan::Http(h)
                ==> h.method == HttpMethod::Delete && (
            self.spec_transport() matches Transport::Http(b) ==> h.url@ == b@
                + "/api/protected/posts/"@ + id@) && h.body is None && h.query is None) && (
            p matches CallPlan::Grpc(g) ==> g.op matches GrpcOp::DeletePost { id: pid } && pid@
                == id@)),
    {
        let bearer = self.current_bearer()?;
        match &self.transport {
            Transport::Http(b) => Ok(
                CallPlan::Http(
                    HttpCall {
                        method: HttpMethod::Delete,
                        url: concat_strs(
                            concat_strs(b.as_str(), "/api/protected/posts/").as_str(),
                            id,
                        ),
                        bearer: Some(bearer),
                        body: None,
                        query: None,
                    },
                ),
            ),
            Transport::Grpc(_) => Ok(
                CallPlan::Grpc(
                    GrpcCall {
                        authorization: Some(bearer),
                        op: GrpcOp::DeletePost { id: String::from_str(id) },
                    },
                ),
            ),
        }
    }

    /// Plans a post listing call. Fails fast with the missing-token failure
    /// when no token is set. The `(limit, offset)` pair rides along as query
    /// parameters on the HTTP transport and is not supported by the gRPC
    /// transport.
    pub fn list_posts_call(&self, limit: u32, offset: u32) -> (r: Result<
        CallPlan,
        BlogClientError,
    >)
        ensures
            self.spec_token() is None ==> (r matches Err(e) && e matches
                BlogClientError::Unauthorized(m) && m@ == "token is missing"@),
            self.spec_token() matches Some(t) ==> (r matches Ok(p) && plan_matches_transport(
                p,
                self.spec_transport(),
            ) && plan_auth(p) == Some(bearer_value_of(t)) && (p matches CallPlan::Http(h)
                ==> h.method == HttpMethod::Get && (self.spec_transport() matches Transport::Http(
                b,
            ) ==> h.url@ == b@ + "/api/protected/posts"@) && h.body is None && h.query == Some(
                (limit, offset),
            )) && (p matches CallPlan::Grpc(g) ==> g.op is ListPosts)),
    {
        let bearer = self.current_bearer()?;
        match &self.transport {
            Transport::Http(b) => Ok(
                CallPlan::Http(
                    HttpCall {
                        method: HttpMethod::Get,
                        url: concat_strs(b.as_str(), "/api/protected/posts"),
                        bearer: Some(bearer),
                        body: None,
                        query: Some((limit, offset)),
                    },
                ),
            ),
            Transport::Grpc(_) => Ok(
                CallPlan::Grpc(GrpcCall { authorization: Some(bearer), op: GrpcOp::ListPosts }),
            ),
        }
    }
}

/// Whether an HTTP status reports success.
pub open spec fn is_success_status(status: u16) -> bool {
    200 <= status < 300
}

/// Checks whether an HTTP status reports success.
pub fn http_status_is_success(status: u16) -> (r: bool)
    ensures
        r == is_success_status(status),
{
    200 <= status && status < 300
}

/// Normalizes an HTTP failure into the shared taxonomy: 401 is an
/// authorization failure, 404 a missing resource, 400 an invalid request,
/// and anything else a plain HTTP error carrying the response detail.
pub fn classify_http_failure(status: u16, detail: String) -> (r: BlogClientError)
    ensures
        status == 401 ==> (r matches BlogClientError::Unauthorized(m) && m@ == detail@),
        status == 404 ==> (r matches BlogClientError::NotFound(m) && m@ == detail@),
        status == 400 ==> (r matches BlogClientError::InvalidRequest(m) && m@ == detail@),
        (status != 401 && status != 404 && status != 400) ==> (r matches BlogClientError::Http(m)
            && m@ == detail@),
        error_kind(r) == http_kind_model(status),
{
    if status == 401 {
        BlogClientError::Unauthorized(detail)
    } else if status == 404 {
        BlogClientError::NotFound(detail)
    } else if status == 400 {
        BlogClientError::InvalidRequest(detail)
    } else {
        BlogClientError::Http(detail)
    }
}

/// Normalizes a gRPC failure into the shared taxonomy: UNAUTHENTICATED (16)
/// is an authorization failure, NOT_FOUND (5) a missing resource,
/// INVALID_ARGUMENT (3) an invalid request, and anything else a plain gRPC
/// status error carrying the code and message.
pub fn classify_grpc_failure(code: u32, message: String) -> (r: BlogClientError)
    ensures
        code == 16 ==> (r matches BlogClientError::Unauthorized(m) && m@ == message@),
        code == 5 ==> (r matches BlogClientError::NotFound(m) && m@ == message@),
        code == 3 ==> (r matches BlogClientError::InvalidRequest(m) && m@ == message@),
        (code != 16 && code != 5 && code != 3) ==> (r matches BlogClientError::GrpcStatus(c, m)
            && c == code && m@ == message@),
        error_kind(r) == grpc_kind_model(code),
{
    if code == 16 {
        BlogClientError::Unauthorized(message)
    } else if code == 5 {
        BlogClientError::NotFound(message)
    } else if code == 3 {
        BlogClientError::InvalidRequest(message)
    } else {
        BlogClientError::GrpcStatus(code, message)
    }
}

/// The kind of a normalized client failure, with the transport-specific
/// detail erased.
#[derive(Clone, Copy, Debug, PartialEq, Eq, Structural)]
pub enum ErrorKind {
    /// Unauthorized request or missing authentication.
    Unauthorized,
    /// Requested resource was not found.
    NotFound,
    /// Invalid client request.
    InvalidRequest,
    /// A transport-level or unclassified remote failure.
    TransportFailure,
    /// A payload decode failure.
    Decode,
    /// An invalid client state.
    State,
    /// Any other client failure.
    OtherFailure,
}

/// The kind of a client error.
pub open spec fn error_kind(e: BlogClientError) -> ErrorKind {
    match e {
        BlogClientError::Unauthorized(_) => ErrorKind::Unauthorized,
        BlogClientError::NotFound(_) => ErrorKind::NotFound,
        BlogClientError::InvalidRequest(_) => ErrorKind::InvalidRequest,
        BlogClientError::Http(_) => ErrorKind::TransportFailure,
        BlogClientError::GrpcStatus(_, _) => ErrorKind::TransportFailure,
        BlogClientError::GrpcTransport(_) => ErrorKind::TransportFailure,
        BlogClientError::Serde(_) => ErrorKind::Decode,
        BlogClientError::InvalidState(_) => ErrorKind::State,
        BlogClientError::Other(_) => ErrorKind::OtherFailure,
    }
}

/// The kind an HTTP failure status normalizes to.
pub open spec fn http_kind_model(status: u16) -> ErrorKind {
    if status == 401 {
        ErrorKind::Unauthorized
    } else if status == 404 {
        ErrorKind::NotFound
    } else if status == 400 {
        ErrorKind::InvalidRequest
    } else {
        ErrorKind::TransportFailure
    }
}

/// The kind a gRPC failure code normalizes to.
pub open spec fn grpc_kind_model(code: u32) -> ErrorKind {
    if code == 16 {
        ErrorKind::Unauthorized
    } else if code == 5 {
        ErrorKind::NotFound
    } else if code == 3 {
        ErrorKind::InvalidRequest
    } else {
        ErrorKind::TransportFailure
    }
}

/// Law: the two transports' failure models land on the same kinds at the
/// boundary -- an HTTP 401 and a gRPC UNAUTHENTICATED (16) normalize
/// identically, as do 404 / NOT_FOUND (5) and 400 / INVALID_ARGUMENT (3) --
/// so callers of the session never observe which transport failed.
pub proof fn lemma_transport_error_unification()
    ensures
        http_kind_model(401) == grpc_kind_model(16),
        http_kind_model(404) == grpc_kind_model(5),
        http_kind_model(400) == grpc_kind_model(3),
        http_kind_model(401) == ErrorKind::Unauthorized,
{
}

} // verus!
