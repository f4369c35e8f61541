//! Issuance and validation of time-bounded bearer tokens.
//!
//! A token is a stateless signed credential carrying two claims: the
//! second at which it was issued and the second at which it expires,
//! always issuance plus a fixed validity window. Signing and signature
//! checking come from the jsonwebtoken crate behind two spec names; the
//! expiry comparison is done here, against a caller-supplied clock
//! reading, so that every decision about time is verified and the
//! component stays testable with a deterministic clock.

use vstd::prelude::*;

use crate::errors::ApiError;
use crate::errors::ErrorKind;

verus! {

/// How long an issued token stays valid, in seconds (two hours).
pub const TOKEN_VALIDITY_SECS: u64 = 7200;

/// The claims carried by a token: issued-at and expires-at, as seconds
/// since the epoch.
#[derive(Clone, Copy, Debug, PartialEq, Eq, Structural)]
pub struct Claims {
    pub iat: u64,
    pub exp: u64,
}

/// The token that signing the given claims with the given secret
/// produces. Names the result of `jsonwebtoken::encode` under the
/// default header (HMAC-SHA256), a function of secret and claims alone.
pub uninterp spec fn jwt_encode_spec(secret: Seq<u8>, iat: u64, exp: u64) -> Seq<char>;

/// The claims recovered from a token under the given secret, or `None`
/// where the token is structurally bad, carries no numeric issued-at and
/// expires-at, or its signature does not check. Names the result of
/// `jsonwebtoken::decode` restricted to HMAC-SHA256 with the clock-bound
/// checks turned off, a function of secret and token alone.
pub uninterp spec fn jwt_decode_spec(secret: Seq<u8>, token: Seq<char>) -> Option<(u64, u64)>;

/// Relies on `jsonwebtoken::encode` with `Header::default()` (HMAC-SHA256)
/// over the claims object `{iat, exp}`: the output is a deterministic
/// function of secret and claims, and decoding it with the same secret
/// recovers exactly those claims. For an HMAC secret under the default
/// header the call cannot fail — the key family matches, HS256 accepts
/// any key length, and signing the two-field claims object is
/// infallible — so the result is always present.
#[verifier::external_body]
fn jwt_encode_raw(secret: &[u8], iat: u64, exp: u64) -> (r: Option<String>)
    ensures
        r is Some,
        r matches Some(t) ==> t@ == jwt_encode_spec(secret@, iat, exp),
        r matches Some(t) ==> jwt_decode_spec(secret@, t@) == Some((iat, exp)),
        r matches Some(t) ==> t@.len() > 0,
{
    let key = jsonwebtoken::EncodingKey::from_secret(secret);
    let mut claims = serde_json::Map::new();
    claims.insert("iat".to_owned(), serde_json::Value::from(iat));
    claims.insert("exp".to_owned(), serde_json::Value::from(exp));
    match jsonwebtoken::encode(&jsonwebtoken::Header::default(), &serde_json::Value::Object(claims), &key) {
        Ok(t) => Some(t),
        Err(_) => None,
    }
}

/// Relies on `jsonwebtoken::decode` restricted to HMAC-SHA256, with the
/// expiry and required-claim checks turned off so that the result
/// depends on secret and token alone; the numeric `iat` and `exp`
/// claims are read out of the decoded payload. The audience check keeps
/// its default, so a signed token that carries an `aud` claim — which
/// this service never issues — decodes to nothing.
#[verifier::external_body]
fn jwt_decode_raw(secret: &[u8], token: &str) -> (r: Option<(u64, u64)>)
    ensures
        r == jwt_decode_spec(secret@, token@),
{
    let key = jsonwebtoken::DecodingKey::from_secret(secret);
    let mut validation = jsonwebtoken::Validation::new(jsonwebtoken::Algorithm::HS256);
    validation.validate_exp = false;
    validation.required_spec_claims = std::collections::HashSet::new();
    let data = match jsonwebtoken::decode::<serde_json::Value>(token, &key, &validation) {
        Ok(d) => d,
        Err(_) => return None,
    };
    let iat = data.claims.get("iat").and_then(serde_json::Value::as_u64);
    let exp = data.claims.get("exp").and_then(serde_json::Value::as_u64);
    match (iat, exp) {
        (Some(i), Some(e)) => Some((i, e)),
        _ => None,
    }
}

/// What validating a token at clock reading `now` decides: recover the
/// claims (signature check included); a token that does not decode is
/// malformed, one whose expiry second has been reached is expired.
pub open spec fn token_status(secret: Seq<u8>, token: Seq<char>, now: u64) -> Result<Claims, ErrorKind> {
    match jwt_decode_spec(secret, token) {
        Some(claims) => if now < claims.1 {
            Ok(Claims { iat: claims.0, exp: claims.1 })
        } else {
            Err(ErrorKind::Expired)
        },
        None => Err(ErrorKind::Malformed),
    }
}

/// Issues and validates tokens under one process-wide signing secret,
/// handed in at construction.
#[derive(Debug)]
pub struct TokenService {
    secret: Vec<u8>,
}

impl TokenService {
    /// The signing secret this service was built with.
    pub closed spec fn secret(&self) -> Seq<u8> {
        self.secret@
    }

    /// Build a service around a signing secret, which must be non-empty;
    /// an empty secret is a configuration fault.
    pub fn new(secret: Vec<u8>) -> (r: Result<TokenService, ApiError>)
        ensures
            r matches Ok(s) ==> s.secret() == secret@ && secret@.len() > 0,
            r matches Err(e) ==> e.kind == ErrorKind::InternalError && secret@.len() == 0,
    {
        if secret.len() == 0 {
            Err(ApiError::new(ErrorKind::InternalError, "Empty signing secret"))
        } else {
            Ok(TokenService { secret })
        }
    }

    /// Issue a token with issued-at `now` and expires-at `now` plus the
    /// validity window. HMAC signing cannot fail, so issuance always
    /// succeeds.
    pub fn issue_at(&self, now: u64) -> (r: Result<String, ApiError>)
        requires
            now + TOKEN_VALIDITY_SECS <= u64::MAX,
        ensures
            r is Ok,
            r matches Ok(t) ==> t@ == jwt_encode_spec(self.secret(), now, (now + TOKEN_VALIDITY_SECS) as u64),
            r matches Ok(t) ==> jwt_decode_spec(self.secret(), t@) == Some((now, (now + TOKEN_VALIDITY_SECS) as u64)),
            r matches Ok(t) ==> t@.len() > 0,
    {
        let exp = now + TOKEN_VALIDITY_SECS;
        match jwt_encode_raw(self.secret.as_slice(), now, exp) {
            Some(t) => Ok(t),
            None => Err(ApiError::new(ErrorKind::InternalError, "Error generating token")),
        }
    }

    /// Validate a token at clock reading `now`: recover its claims when
    /// the signature checks and the expiry second has not been reached,
    /// and otherwise say which of the two failed — an expired session is
    /// reported differently from a token that never checks out.
    pub fn validate_at(&self, token: &str, now: u64) -> (r: Result<Claims, ApiError>)
        ensures
            r matches Ok(c) ==> token_status(self.secret(), token@, now) == Ok::<Claims, ErrorKind>(c),
            r matches Err(e) ==> token_status(self.secret(), token@, now) == Err::<Claims, ErrorKind>(e.kind),
    {
        match jwt_decode_raw(self.secret.as_slice(), token) {
            Some((iat, exp)) => {
                if now < exp {
                    Ok(Claims { iat, exp })
                } else {
                    Err(ApiError::new(ErrorKind::Expired, "Your session has expired, please log in"))
                }
            },
            None => Err(ApiError::new(ErrorKind::Malformed, "Token denied, please log in")),
        }
    }
}

/// Issue a fresh token at clock reading `now` under the service's
/// secret; issuance always succeeds.
pub fn create_jwt(service: &TokenService, now: u64) -> (r: Result<String, ApiError>)
    requires
        now + TOKEN_VALIDITY_SECS <= u64::MAX,
    ensures
        r is Ok,
        r matches Ok(t) ==> t@ == jwt_encode_spec(service.secret(), now, (now + TOKEN_VALIDITY_SECS) as u64),
        r matches Ok(t) ==> jwt_decode_spec(service.secret(), t@) == Some((now, (now + TOKEN_VALIDITY_SECS) as u64)),
        r matches Ok(t) ==> t@.len() > 0,
{
    service.issue_at(now)
}

/// Say whether a token is acceptable at clock reading `now`, with the
/// same error split as `TokenService::validate_at`.
pub fn is_valid(service: &TokenService, token: &str, now: u64) -> (r: Result<bool, ApiError>)
    ensures
        r matches Ok(b) ==> b && (token_status(service.secret(), token@, now) is Ok),
        r matches Err(e) ==> token_status(service.secret(), token@, now) == Err::<Claims, ErrorKind>(e.kind),
        (r is Ok) == (token_status(service.secret(), token@, now) is Ok),
{
    match service.validate_at(token, now) {
        Ok(_) => Ok(true),
        Err(e) => Err(e),
    }
}

/// Law: a token that decodes to claims `(iat, exp)` validates at `now`
/// exactly when `now` lies before `exp`; once the expiry second is
/// reached the failure is Expired specifically, never Malformed.
pub proof fn lemma_validity_window(secret: Seq<u8>, token: Seq<char>, iat: u64, exp: u64, now: u64)
    ensures
        jwt_decode_spec(secret, token) == Some((iat, exp)) ==> (
            (token_status(secret, token, now) == Ok::<Claims, ErrorKind>(Claims { iat, exp }) <==> now < exp)
            && (now >= exp ==> token_status(secret, token, now) == Err::<Claims, ErrorKind>(ErrorKind::Expired))
        ),
{
}

/// Law: tokens that decode to different claims under one secret are
/// different strings; in particular, tokens issued at different seconds
/// differ.
pub proof fn lemma_distinct_claims_distinct_tokens(
    secret: Seq<u8>,
    t1: Seq<char>,
    t2: Seq<char>,
    c1: (u64, u64),
    c2: (u64, u64),
)
    ensures
        jwt_decode_spec(secret, t1) == Some(c1) && jwt_decode_spec(secret, t2) == Some(c2) && c1 != c2
            ==> t1 != t2,
{
}

} // verus!
