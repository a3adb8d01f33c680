//! The token codec: a signed, time-bounded identity claim encoded to and from
//! an opaque string, built on jsonwebtoken's HS256 implementation.
//!
//! Signing and signature checking are delegated to jsonwebtoken; the expiry
//! rule is this crate's own, verified code: a token is invalid from its
//! expiry instant onward, with no clock-skew leniency.

use vstd::prelude::*;

use crate::domain::now_unix;
use crate::AuthError;

verus! {

/// Fixed token lifetime in seconds: one hour from issuance.
pub const TOKEN_LIFETIME_SECS: usize = 3600;

/// The claims carried inside a signed token.
#[derive(Debug, Clone, PartialEq, Eq)]
pub struct Claims {
    /// Subject (user ID).
    pub sub: String,
    /// Expiration timestamp (seconds since epoch).
    pub exp: usize,
    /// Issued-at timestamp (seconds since epoch).
    pub iat: usize,
}

impl View for Claims {
    type V = (Seq<char>, usize, usize);

    /// The mathematical content of a claims value: (subject, issued-at, expiry).
    open spec fn view(&self) -> (Seq<char>, usize, usize) {
        (self.sub@, self.iat, self.exp)
    }
}

/// What jsonwebtoken::encode returns for these claims signed with this secret:
/// a function of the secret and the claims alone.
pub uninterp spec fn token_chars(secret: Seq<char>, sub: Seq<char>, iat: usize, exp: usize) -> Seq<char>;

/// What jsonwebtoken::decode (signature check only, no expiry validation)
/// extracts from a token under this secret: the subject, issued-at and expiry
/// claims, or nothing when the token is malformed, misses one of the three
/// claims, or carries a signature that does not match.
pub uninterp spec fn decoded_claims(secret: Seq<char>, token: Seq<char>) -> Option<(Seq<char>, usize, usize)>;

/// Relies on jsonwebtoken::encode with HS256: it cannot fail (an HMAC key of
/// any length is accepted and these claims always serialize), the result is a
/// function of the secret and the claims alone, and jsonwebtoken::decode
/// under the same secret recovers exactly the claims that were encoded.
#[verifier::external_body]
fn jwt_encode(secret: &str, sub: &str, iat: usize, exp: usize) -> (r: Option<String>)
    ensures
        r is Some,
        r matches Some(t) ==> t@ == token_chars(secret@, sub@, iat, exp),
        r matches Some(t) ==> decoded_claims(secret@, t@) == Some((sub@, iat, exp)),
{
    let mut claims = serde_json::Map::new();
    claims.insert("sub".to_string(), serde_json::Value::String(sub.to_string()));
    claims.insert("iat".to_string(), serde_json::Value::Number(serde_json::Number::from(iat as u64)));
    claims.insert("exp".to_string(), serde_json::Value::Number(serde_json::Number::from(exp as u64)));
    jsonwebtoken::encode(
        &jsonwebtoken::Header::default(),
        &serde_json::Value::Object(claims),
        &jsonwebtoken::EncodingKey::from_secret(secret.as_bytes()),
    )
    .ok()
}

/// Relies on jsonwebtoken::decode with HS256 and signature validation only
/// (expiry is left to verified code): the outcome is a function of the secret
/// and the token alone, and a token without the three dot-separated parts --
/// in particular an empty one -- is always rejected, as is one that carries
/// an audience claim (no accepted audience is configured) or misses one of
/// the three claims read here.
#[verifier::external_body]
fn jwt_decode(secret: &str, token: &str) -> (r: Option<Claims>)
    ensures
        r matches Some(c) ==> decoded_claims(secret@, token@) == Some(c@),
        r is None ==> decoded_claims(secret@, token@) is None,
        token@.len() == 0 ==> r is None,
{
    let mut validation = jsonwebtoken::Validation::new(jsonwebtoken::Algorithm::HS256);
    validation.validate_exp = false;
    validation.required_spec_claims = std::collections::HashSet::new();
    let key = jsonwebtoken::DecodingKey::from_secret(secret.as_bytes());
    let data = jsonwebtoken::decode::<serde_json::Value>(token, &key, &validation).ok()?;
    Some(Claims {
        sub: data.claims.get("sub")?.as_str()?.to_string(),
        exp: data.claims.get("exp")?.as_u64()? as usize,
        iat: data.claims.get("iat")?.as_u64()? as usize,
    })
}

/// The outcome of verifying a token at instant `now`: the decoded claims when
/// the signature checks out and the expiry lies strictly in the future --
/// `now == exp` already counts as expired, with no clock-skew leniency.
pub open spec fn verify_model(secret: Seq<char>, token: Seq<char>, now: usize) -> Result<
    (Seq<char>, usize, usize),
    AuthError,
> {
    match decoded_claims(secret, token) {
        Some(c) => if now < c.2 {
            Ok(c)
        } else {
            Err(AuthError::InvalidToken)
        },
        None => Err(AuthError::InvalidToken),
    }
}

/// The mathematical content of a verification outcome.
pub open spec fn claims_result_view(r: Result<Claims, AuthError>) -> Result<
    (Seq<char>, usize, usize),
    AuthError,
> {
    match r {
        Ok(c) => Ok(c@),
        Err(e) => Err(e),
    }
}

/// A token freshly issued for subject `sub` under `secret`: at some instant
/// `now` it was signed over the claims (`sub`, `now`, `now + lifetime`), and
/// decoding it under the same secret recovers exactly those claims.
pub open spec fn issued_token(secret: Seq<char>, sub: Seq<char>, t: Seq<char>) -> bool {
    exists|now: usize, exp: usize|
        now + TOKEN_LIFETIME_SECS <= usize::MAX && exp == now + TOKEN_LIFETIME_SECS && t
            == #[trigger] token_chars(secret, sub, now, exp) && decoded_claims(secret, t) == Some(
            (sub, now, exp),
        )
}

/// JWT signing and verification keys.
#[derive(Clone)]
pub struct JwtKeys {
    secret: String,
}

impl View for JwtKeys {
    type V = Seq<char>;

    /// The secret the keys were built from.
    closed spec fn view(&self) -> Seq<char> {
        self.secret@
    }
}

impl JwtKeys {
    /// Creates a new JWT key set.
    pub fn new(secret: String) -> (r: Self)
        ensures
            r@ == secret@,
    {
        JwtKeys { secret }
    }

    /// Generates a signed JWT for the given user ID, issued at `now` and
    /// expiring `TOKEN_LIFETIME_SECS` seconds later. Issuance always
    /// succeeds: HS256 signing of these claims cannot fail.
    pub fn generate_token_at(&self, user_id: &str, now: usize) -> (r: Result<String, AuthError>)
        requires
            now + TOKEN_LIFETIME_SECS <= usize::MAX,
        ensures
            r matches Ok(t) && t@ == token_chars(
                self@,
                user_id@,
                now,
                (now + TOKEN_LIFETIME_SECS) as usize,
            ) && decoded_claims(self@, t@) == Some(
                (user_id@, now, (now + TOKEN_LIFETIME_SECS) as usize),
            ),
    {
        let exp = now + TOKEN_LIFETIME_SECS;
        match jwt_encode(self.secret.as_str(), user_id, now, exp) {
            Some(t) => Ok(t),
            None => Err(AuthError::Internal),
        }
    }

    /// Generates a signed JWT for the given user ID at the current time.
    /// The one failure left is a clock reading too large for the expiry sum,
    /// which the guard turns into `Internal`.
    pub fn generate_token(&self, user_id: &str) -> (r: Result<String, AuthError>)
        ensures
            r matches Ok(t) ==> issued_token(self@, user_id@, t@),
            r matches Err(e) ==> e == AuthError::Internal,
    {
        let now = now_unix();
        if now > usize::MAX - TOKEN_LIFETIME_SECS {
            return Err(AuthError::Internal);
        }
        self.generate_token_at(user_id, now)
    }

    /// Verifies a JWT at instant `now` and returns its claims.
    pub fn verify_token_at(&self, token: &str, now: usize) -> (r: Result<Claims, AuthError>)
        ensures
            claims_result_view(r) == verify_model(self@, token@, now),
            token@.len() == 0 ==> r == Err::<Claims, AuthError>(AuthError::InvalidToken),
    {
        match jwt_decode(self.secret.as_str(), token) {
            Some(c) => {
                if now < c.exp {
                    Ok(c)
                } else {
                    Err(AuthError::InvalidToken)
                }
            }
            None => Err(AuthError::InvalidToken),
        }
    }

    /// Verifies a JWT against the current time and returns its claims.
    pub fn verify_token(&self, token: &str) -> (r: Result<Claims, AuthError>)
        ensures
            exists|now: usize| claims_result_view(r) == verify_model(self@, token@, now),
            r matches Ok(c) ==> decoded_claims(self@, token@) == Some(c@),
            decoded_claims(self@, token@) is None ==> r == Err::<Claims, AuthError>(
                AuthError::InvalidToken,
            ),
            token@.len() == 0 ==> r == Err::<Claims, AuthError>(AuthError::InvalidToken),
    {
        let now = now_unix();
        let r = self.verify_token_at(token, now);
        proof {
            assert(claims_result_view(r) == verify_model(self@, token@, now));
        }
        r
    }
}

/// Law: a token that decodes to given claims verifies successfully at any
/// instant strictly before its expiry, and yields exactly those claims.
pub proof fn lemma_issue_then_verify(
    secret: Seq<char>,
    sub: Seq<char>,
    iat: usize,
    exp: usize,
    token: Seq<char>,
    now: usize,
)
    ensures
        decoded_claims(secret, token) == Some((sub, iat, exp)) && now < exp
            ==> verify_model(secret, token, now) == Ok::<(Seq<char>, usize, usize), AuthError>(
            (sub, iat, exp),
        ),
{
}

/// Law: a token is rejected as invalid from its expiry instant onward, even
/// when its signature still checks out -- the boundary `now == exp` included.
pub proof fn lemma_expired_token_rejected(secret: Seq<char>, token: Seq<char>, now: usize)
    ensures
        (decoded_claims(secret, token) matches Some(c) && now >= c.2) ==> verify_model(
            secret,
            token,
            now,
        ) == Err::<(Seq<char>, usize, usize), AuthError>(AuthError::InvalidToken),
{
}

} // verus!
