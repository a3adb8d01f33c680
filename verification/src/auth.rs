//! The authentication boundary: the service that turns credentials into
//! tokens and tokens into principals, and the transport-agnostic middleware
//! decision that every protected request passes through.
//!
//! Directory lookups are I/O and happen outside this crate; every decision
//! here takes the lookup result as an argument and is verified for all its
//! values.

use vstd::prelude::*;

use crate::domain::{AuthenticatedUser, User};
use crate::errors::auth_http_status;
use crate::password::{hash_password, password_matches, verify_password};
use crate::text::{has_prefix, is_uuid, is_uuid_chars, strip_prefix_str};
use crate::client::bearer_value_of;
use crate::token::{
    claims_result_view, decoded_claims, issued_token, token_chars, verify_model, Claims, JwtKeys,
    TOKEN_LIFETIME_SECS,
};
use crate::AuthError;

verus! {

/// Whether a login attempt carries acceptable credentials: the email resolved
/// to a user and the password matches that user's stored hash.
pub open spec fn credentials_ok(user: Option<User>, password: Seq<char>) -> bool {
    user matches Some(u) && password_matches(password, u.password_hash@)
}

/// The single place that converts credentials into a token and a token into
/// a principal. Directory lookups are handed in by the caller.
#[derive(Clone)]
pub struct AuthService {
    keys: JwtKeys,
}

impl View for AuthService {
    type V = Seq<char>;

    /// The secret this service signs and verifies with.
    closed spec fn view(&self) -> Seq<char> {
        self.keys@
    }
}

impl AuthService {
    /// Creates a new authentication service over the given keys.
    pub fn new(keys: JwtKeys) -> (r: Self)
        ensures
            r@ == keys@,
    {
        AuthService { keys }
    }

    /// The JWT keys this service signs and verifies with.
    pub fn keys(&self) -> (r: &JwtKeys)
        ensures
            r@ == self@,
    {
        &self.keys
    }

    /// Registers a new user. `existing` is the directory's answer to "is this
    /// email already taken": any hit fails the registration with
    /// `AlreadyExists`; otherwise a fresh user record carrying the hashed
    /// password is returned for the caller to persist.
    pub fn register(
        &self,
        existing: Option<User>,
        username: String,
        email: String,
        password: String,
    ) -> (r: Result<User, AuthError>)
        ensures
            existing is Some ==> r == Err::<User, AuthError>(AuthError::AlreadyExists),
            r matches Ok(u) ==> existing is None && u.wf() && u.username == username && u.email
                == email && password_matches(password@, u.password_hash@) && u.deleted_at is None,
            existing is None ==> r is Ok || r == Err::<User, AuthError>(AuthError::Internal),
    {
        if existing.is_some() {
            return Err(AuthError::AlreadyExists);
        }
        match hash_password(password.as_str()) {
            Some(h) => Ok(User::new(username, email, h)),
            None => Err(AuthError::Internal),
        }
    }

    /// Logs a user in at instant `now`. `user` is the directory's answer to
    /// "which account has this email". The outcome is exact: acceptable
    /// credentials always yield a token issued at `now` whose subject is the
    /// user's id, and anything else -- an unknown email or a wrong password
    /// alike -- is exactly `InvalidCredentials`.
    pub fn login_at(&self, user: Option<User>, password: &str, now: usize) -> (r: Result<
        String,
        AuthError,
    >)
        requires
            now + TOKEN_LIFETIME_SECS <= usize::MAX,
        ensures
            r is Ok <==> credentials_ok(user, password@),
            r is Err ==> r == Err::<String, AuthError>(AuthError::InvalidCredentials),
            r matches Ok(t) ==> (user matches Some(u) && t@ == token_chars(
                self@,
                u.id@,
                now,
                (now + TOKEN_LIFETIME_SECS) as usize,
            ) && decoded_claims(self@, t@) == Some(
                (u.id@, now, (now + TOKEN_LIFETIME_SECS) as usize),
            )),
    {
        match user {
            None => Err(AuthError::InvalidCredentials),
            Some(u) => {
                if !verify_password(password, u.password_hash.as_str()) {
                    Err(AuthError::InvalidCredentials)
                } else {
                    let r = self.keys.generate_token_at(u.id.as_str(), now);
                    proof {
                        assert(self@ == self.keys@);
                    }
                    r
                }
            }
        }
    }

    /// Logs a user in at the current time. The one failure besides
    /// `InvalidCredentials` is a clock reading too large for the expiry sum,
    /// which surfaces as `Internal`.
    pub fn login(&self, user: Option<User>, password: &str) -> (r: Result<String, AuthError>)
        ensures
            r == Err::<String, AuthError>(AuthError::InvalidCredentials) <==> !credentials_ok(
                user,
                password@,
            ),
            r matches Ok(t) ==> (user matches Some(u) && password_matches(
                password@,
                u.password_hash@,
            ) && issued_token(self@, u.id@, t@)),
            r is Err ==> r == Err::<String, AuthError>(AuthError::InvalidCredentials) || r == Err::<
                String,
                AuthError,
            >(AuthError::Internal),
    {
        match user {
            None => Err(AuthError::InvalidCredentials),
            Some(u) => {
                if !verify_password(password, u.password_hash.as_str()) {
                    Err(AuthError::InvalidCredentials)
                } else {
                    let r = self.keys.generate_token(u.id.as_str());
                    proof {
                        assert(self@ == self.keys@);
                    }
                    r
                }
            }
        }
    }

    /// Verifies a token at instant `now` and checks that its subject has the
    /// shape of a user identifier -- the canonical hyphenated lowercase form,
    /// the one form this crate ever issues. Any failure is `InvalidToken`.
    pub fn authenticate_token(&self, token: &str, now: usize) -> (r: Result<Claims, AuthError>)
        ensures
            claims_result_view(r) == authenticate_model(self@, token@, now),
            token@.len() == 0 ==> r == Err::<Claims, AuthError>(AuthError::InvalidToken),
    {
        match self.keys.verify_token_at(token, now) {
            Ok(c) => {
                if is_uuid(c.sub.as_str()) {
                    Ok(c)
                } else {
                    Err(AuthError::InvalidToken)
                }
            }
            Err(e) => Err(e),
        }
    }

    /// Resolves a principal from verified claims. `user` is the directory's
    /// answer to "which account has the subject id of these claims". A
    /// missing or mismatching account fails with `InvalidToken`, the same
    /// kind as a failed signature or expiry check, so a caller cannot tell
    /// a deleted account from a bad token -- never a resource miss, never an
    /// internal error.
    pub fn resolve_principal(&self, claims: &Claims, user: Option<User>) -> (r: Result<
        AuthenticatedUser,
        AuthError,
    >)
        ensures
            user is None ==> r == Err::<AuthenticatedUser, AuthError>(AuthError::InvalidToken),
            r matches Ok(p) ==> (user matches Some(u) && p.id@ == u.id@ && p.email@ == u.email@
                && p.id@ == claims.sub@),
            user matches Some(u) ==> (u.id@ == claims.sub@ ==> (r matches Ok(p) && p.id@ == u.id@
                && p.email@ == u.email@)),
            user matches Some(u) ==> (u.id@ != claims.sub@ ==> r == Err::<
                AuthenticatedUser,
                AuthError,
            >(AuthError::InvalidToken)),
    {
        match user {
            None => Err(AuthError::InvalidToken),
            Some(u) => {
                if u.id == claims.sub {
                    Ok(AuthenticatedUser { id: u.id, email: u.email })
                } else {
                    Err(AuthError::InvalidToken)
                }
            }
        }
    }
}

/// The outcome of authenticating a token at instant `now`: the claims must
/// verify (signature and expiry) and their subject must be UUID-shaped.
pub open spec fn authenticate_model(secret: Seq<char>, token: Seq<char>, now: usize) -> Result<
    (Seq<char>, usize, usize),
    AuthError,
> {
    match verify_model(secret, token, now) {
        Ok(c) => if is_uuid_chars(c.0) {
            Ok(c)
        } else {
            Err(AuthError::InvalidToken)
        },
        Err(e) => Err(e),
    }
}

/// The view of an optional header value.
pub open spec fn opt_str_view(h: Option<&str>) -> Option<Seq<char>> {
    match h {
        Some(s) => Some(s@),
        None => None,
    }
}

/// The bearer token carried by a credential value: the remainder after the
/// exact, case-sensitive prefix `Bearer ` (single space), or nothing when
/// the scheme is malformed.
pub open spec fn bearer_token_of(h: Seq<char>) -> Option<Seq<char>> {
    if has_prefix(h, "Bearer "@) {
        Some(h.skip("Bearer "@.len() as int))
    } else {
        None
    }
}

/// The outcome of the extract step: a missing carrier or a malformed scheme
/// is rejected as `Unauthenticated`, independent of any token check.
pub open spec fn extract_model(header: Option<Seq<char>>) -> Result<Seq<char>, AuthError> {
    match header {
        None => Err(AuthError::Unauthenticated),
        Some(h) => match bearer_token_of(h) {
            Some(t) => Ok(t),
            None => Err(AuthError::Unauthenticated),
        },
    }
}

/// The view of an extraction outcome.
pub open spec fn str_result_view(r: Result<String, AuthError>) -> Result<Seq<char>, AuthError> {
    match r {
        Ok(s) => Ok(s@),
        Err(e) => Err(e),
    }
}

/// Extracts the bearer token from a credential carrier value: the HTTP
/// `Authorization` header and the RPC `authorization` metadata entry share
/// this exact convention.
pub fn extract_bearer(header: Option<&str>) -> (r: Result<String, AuthError>)
    ensures
        str_result_view(r) == extract_model(opt_str_view(header)),
{
    match header {
        None => Err(AuthError::Unauthenticated),
        Some(h) => match strip_prefix_str(h, "Bearer ") {
            Some(t) => Ok(t),
            None => Err(AuthError::Unauthenticated),
        },
    }
}

/// The full middleware decision on one request at instant `now`: extract the
/// bearer credential, then authenticate it. Every failure is one of
/// `Unauthenticated` and `InvalidToken`; no request is ever rejected as an
/// internal error.
pub open spec fn authorize_model(secret: Seq<char>, header: Option<Seq<char>>, now: usize) -> Result<
    (Seq<char>, usize, usize),
    AuthError,
> {
    match extract_model(header) {
        Ok(t) => authenticate_model(secret, t, now),
        Err(e) => Err(e),
    }
}

/// JWT authentication middleware: validates the `Authorization` carrier,
/// extracts the claims from the JWT, and hands the caller what it needs to
/// resolve the principal. One instance serves both transports; it holds no
/// per-request state.
pub struct JwtAuthMiddleware {
    service: AuthService,
}

impl View for JwtAuthMiddleware {
    type V = Seq<char>;

    /// The secret the middleware verifies tokens with.
    closed spec fn view(&self) -> Seq<char> {
        self.service@
    }
}

impl JwtAuthMiddleware {
    /// Creates a new JWT authentication middleware.
    pub fn new(keys: JwtKeys) -> (r: Self)
        ensures
            r@ == keys@,
    {
        JwtAuthMiddleware { service: AuthService::new(keys) }
    }

    /// Decides one request: extracts the bearer credential from the carrier
    /// value and authenticates it at instant `now`.
    pub fn authorize(&self, header: Option<&str>, now: usize) -> (r: Result<Claims, AuthError>)
        ensures
            claims_result_view(r) == authorize_model(self@, opt_str_view(header), now),
            (header matches Some(h) && h@ == "Bearer "@) ==> r == Err::<Claims, AuthError>(
                AuthError::InvalidToken,
            ),
    {
        proof {
            reveal_strlit("Bearer ");
            match header {
                Some(h) => {
                    if h@ == "Bearer "@ {
                        assert(h@.subrange(0, "Bearer "@.len() as int) =~= "Bearer "@);
                        assert(h@.skip("Bearer "@.len() as int) =~= Seq::<char>::empty());
                    }
                }
                None => {},
            }
        }
        match extract_bearer(header) {
            Ok(t) => self.service.authenticate_token(t.as_str(), now),
            Err(e) => Err(e),
        }
    }
}

/// Law: a wrong authentication scheme and a bare scheme without a token are
/// both rejected as `Unauthenticated` before any token check, and no carrier
/// value whatsoever is rejected as an internal error or as a credentials
/// failure.
pub proof fn lemma_malformed_scheme_rejected(secret: Seq<char>, now: usize)
    ensures
        authorize_model(secret, Some("Basic xyz"@), now) == Err::<(Seq<char>, usize, usize),
            AuthError,
        >(AuthError::Unauthenticated),
        authorize_model(secret, Some("Bearer"@), now) == Err::<(Seq<char>, usize, usize),
            AuthError,
        >(AuthError::Unauthenticated),
        authorize_model(secret, None, now) == Err::<(Seq<char>, usize, usize), AuthError>(
            AuthError::Unauthenticated,
        ),
        forall|header: Option<Seq<char>>|
            #![trigger authorize_model(secret, header, now)]
            authorize_model(secret, header, now) != Err::<(Seq<char>, usize, usize), AuthError>(
                AuthError::Internal,
            ) && authorize_model(secret, header, now) != Err::<(Seq<char>, usize, usize),
                AuthError,
            >(AuthError::InvalidCredentials),
{
    reveal_strlit("Bearer ");
    reveal_strlit("Basic xyz");
    reveal_strlit("Bearer");
    assert("Basic xyz"@.subrange(0, 7)[1] != "Bearer "@[1]);
    assert(!has_prefix("Basic xyz"@, "Bearer "@));
    assert("Bearer"@.len() < "Bearer "@.len());
    assert(!has_prefix("Bearer"@, "Bearer "@));
}

/// Law: an unknown email and a wrong password are indistinguishable to the
/// caller -- both are exactly a credentials failure, which surfaces as the
/// same HTTP status on either path.
pub proof fn lemma_login_indistinguishable(u: User, password: Seq<char>)
    ensures
        !credentials_ok(None, password),
        !password_matches(password, u.password_hash@) ==> !credentials_ok(Some(u), password),
        auth_http_status(AuthError::InvalidCredentials) == 401,
{
}

/// Law: the bearer carrier convention is identical on both transports and
/// exactly inverse to the extraction step -- the credential value the client
/// session attaches for token `t` always extracts back to `t`.
pub proof fn lemma_bearer_round_trip(t: Seq<char>)
    ensures
        bearer_token_of(bearer_value_of(t)) == Some(t),
{
    reveal_strlit("Bearer ");
    assert((bearer_value_of(t)).subrange(0, 7) =~= "Bearer "@);
    assert(has_prefix(bearer_value_of(t), "Bearer "@));
    assert((bearer_value_of(t)).skip(7) =~= t);
}

/// Law: a token freshly issued for subject `sub`, carried with the exact
/// bearer convention, passes the whole middleware decision as that subject:
/// whenever authorization succeeds it yields claims whose subject is `sub`,
/// and the only possible rejection is the token check itself (expiry), never
/// a scheme failure and never an internal error.
pub proof fn lemma_login_token_authorizes(
    secret: Seq<char>,
    sub: Seq<char>,
    t: Seq<char>,
    now: usize,
)
    ensures
        (issued_token(secret, sub, t) && is_uuid_chars(sub)) ==> match authorize_model(
            secret,
            Some(bearer_value_of(t)),
            now,
        ) {
            Ok(c) => c.0 == sub,
            Err(e) => e == AuthError::InvalidToken,
        },
{
    lemma_bearer_round_trip(t);
}

/// Law: a principal resolved from a token that `login` issued for user `u`
/// always carries that user's id: the token's subject is `u.id`, an
/// unexpired verification returns that subject unchanged, and resolution
/// checks the directory record against it.
pub proof fn lemma_principal_round_trip(
    secret: Seq<char>,
    u: User,
    token: Seq<char>,
    now_issued: usize,
    exp: usize,
    now_checked: usize,
)
    ensures
        (decoded_claims(secret, token) == Some((u.id@, now_issued, exp)) && now_checked < exp
            && is_uuid_chars(u.id@)) ==> authenticate_model(secret, token, now_checked) == Ok::<
            (Seq<char>, usize, usize),
            AuthError,
        >((u.id@, now_issued, exp)),
{
}

} // verus!
