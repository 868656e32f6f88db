//! Session tokens: claims signed with HMAC-SHA256 under one secret key that
//! is handed in at startup and never changes.

use jsonwebtoken::{Algorithm, DecodingKey, EncodingKey, Header, Validation};
use serde_json::Value;
use vstd::prelude::*;
use vstd::slice::slice_to_vec;

use crate::errors::{text_result, AuthError};
use crate::text::optional_text;

verus! {

/// The payload of a session token.
#[derive(Debug)]
pub struct Claims {
    /// The user the token was issued to.
    pub sub: String,
    /// The second, counted from the Unix epoch, at which the token runs out.
    pub exp: usize,
}

/// The secret that tokens are signed and checked with.
pub struct JwtKey {
    secret: Vec<u8>,
}

/// The token that jsonwebtoken's `encode` makes of the claims `sub` and
/// `exp` under the default header and the HMAC secret: `None` where it fails.
pub uninterp spec fn hs256_token(subject: Seq<char>, expires_at: usize, secret: Seq<u8>) -> Option<
    Seq<char>,
>;

/// The claims `sub` and `exp` that jsonwebtoken's `decode` reads from a
/// token whose HS256 signature holds under the secret: `None` for a token
/// that is malformed, signed otherwise, or without these two claims.
pub uninterp spec fn hs256_claims(token: Seq<char>, secret: Seq<u8>) -> Option<(Seq<char>, usize)>;

/// What a verification at the second `now` makes of the claims that were
/// read from a token: the signature counts first, the expiry second.
pub open spec fn token_verdict(decoded: Option<(Seq<char>, usize)>, now: usize) -> Result<
    (Seq<char>, usize),
    AuthError,
> {
    match decoded {
        None => Err(AuthError::InvalidCredentials),
        Some(claims) => if now < claims.1 {
            Ok(claims)
        } else {
            Err(AuthError::ExpiredCredentials)
        },
    }
}

/// Subject and expiry of optional claims.
pub open spec fn optional_claims(claims: Option<Claims>) -> Option<(Seq<char>, usize)> {
    match claims {
        Some(c) => Some(c@),
        None => None,
    }
}

/// Subject and expiry of a verification's result.
pub open spec fn claims_result(r: Result<Claims, AuthError>) -> Result<
    (Seq<char>, usize),
    AuthError,
> {
    match r {
        Ok(c) => Ok(c@),
        Err(e) => Err(e),
    }
}

/// `encode` of jsonwebtoken with `Header::default()` (HS256), the claims
/// object `{sub, exp}` and `EncodingKey::from_secret`. Claimed: the token is
/// a function of the three arguments, and `decode` under the same secret
/// reads the same two claims back from it.
#[verifier::external_body]
fn hs256_encode(subject: &str, expires_at: usize, secret: &[u8]) -> (token: Option<String>)
    ensures
        optional_text(token) == hs256_token(subject@, expires_at, secret@),
        token matches Some(t) ==> hs256_claims(t@, secret@) == Some((subject@, expires_at)),
{
    let mut claims = serde_json::Map::new();
    claims.insert("sub".to_owned(), Value::from(subject));
    claims.insert("exp".to_owned(), Value::from(expires_at));
    let key = EncodingKey::from_secret(secret);
    jsonwebtoken::encode(&Header::default(), &Value::Object(claims), &key).ok()
}

/// `decode` of jsonwebtoken with `DecodingKey::from_secret` and the default
/// validation for HS256, but for the expiry, which is left to the caller.
/// Claimed: the outcome is a function of token and secret.
#[verifier::external_body]
fn hs256_decode(token: &str, secret: &[u8]) -> (claims: Option<Claims>)
    ensures
        optional_claims(claims) == hs256_claims(token@, secret@),
{
    let mut validation = Validation::new(Algorithm::HS256);
    validation.validate_exp = false;
    let key = DecodingKey::from_secret(secret);
    let data = jsonwebtoken::decode::<Value>(token, &key, &validation).ok()?;
    let sub = data.claims.get("sub")?.as_str()?.to_owned();
    let exp = usize::try_from(data.claims.get("exp")?.as_u64()?).ok()?;
    Some(Claims { sub, exp })
}

impl View for Claims {
    type V = (Seq<char>, usize);

    open spec fn view(&self) -> (Seq<char>, usize) {
        (self.sub@, self.exp)
    }
}

impl View for JwtKey {
    type V = Seq<u8>;

    closed spec fn view(&self) -> Seq<u8> {
        self.secret@
    }
}

/// Decides on claims that were read from a token: none were read when the
/// token is malformed or badly signed; claims that have run out at `now`
/// are told apart from that.
pub fn check_claims(decoded: Option<Claims>, now: usize) -> (r: Result<Claims, AuthError>)
    ensures
        claims_result(r) == token_verdict(optional_claims(decoded), now),
{
    match decoded {
        None => Err(AuthError::InvalidCredentials),
        Some(claims) => if now < claims.exp {
            Ok(claims)
        } else {
            Err(AuthError::ExpiredCredentials)
        },
    }
}

impl JwtKey {
    /// Keeps a copy of the secret.
    pub fn new(secret: &[u8]) -> (key: Self)
        ensures
            key@ == secret@,
    {
        JwtKey { secret: slice_to_vec(secret) }
    }

    /// What `issue` returns.
    pub open spec fn spec_issue(&self, subject: Seq<char>, expires_at: usize) -> Result<
        Seq<char>,
        AuthError,
    > {
        match hs256_token(subject, expires_at, self@) {
            Some(token) => Ok(token),
            None => Err(AuthError::UnexpectedError),
        }
    }

    /// What `verify` returns at the second `now`.
    pub open spec fn spec_verify(&self, token: Seq<char>, now: usize) -> Result<
        (Seq<char>, usize),
        AuthError,
    > {
        token_verdict(hs256_claims(token, self@), now)
    }

    /// Signs the claims `{sub: subject, exp: expires_at}`. Verifying the
    /// token at any second before `expires_at` gives the same claims back.
    pub fn issue(&self, subject: &str, expires_at: usize) -> (r: Result<String, AuthError>)
        ensures
            text_result(r) == self.spec_issue(subject@, expires_at),
            r matches Ok(token) ==> hs256_claims(token@, self@) == Some((subject@, expires_at)),
            r matches Ok(token) ==> forall|now: usize|
                now < expires_at ==> #[trigger] self.spec_verify(token@, now) == Ok::<
                    (Seq<char>, usize),
                    AuthError,
                >((subject@, expires_at)),
    {
        match hs256_encode(subject, expires_at, self.secret.as_slice()) {
            Some(token) => Ok(token),
            None => Err(AuthError::UnexpectedError),
        }
    }

    /// Checks the signature first and the expiry second: a token that is
    /// malformed or not signed with this key gives `InvalidCredentials`, a
    /// well-signed one that has run out at `now` gives `ExpiredCredentials`.
    pub fn verify(&self, token: &str, now: usize) -> (r: Result<Claims, AuthError>)
        ensures
            claims_result(r) == self.spec_verify(token@, now),
    {
        check_claims(hs256_decode(token, self.secret.as_slice()), now)
    }
}

} // verus!
