//! Authentication of a request: a bearer token is taken from the
//! `Authorization` header, its signature and expiry are examined, and then
//! the ledger is asked whether the session is still on record.

use vstd::prelude::*;

use crate::errors::{text_result, AuthError};
use crate::ledger::{session_of, SessionLedger};
use crate::text::optional_str;
use crate::token::{claims_result, hs256_claims, token_verdict, Claims, JwtKey};

verus! {

/// What a bearer header starts with.
pub const BEARER_PREFIX: &'static str = "Bearer ";

/// The verified identity of a request: all that a handler gets to see.
#[derive(Debug)]
pub struct AuthenticatedPrincipal {
    pub subject: String,
}

/// The token of a header that is there and starts with `Bearer `.
pub open spec fn bearer_token(header: Option<Seq<char>>) -> Option<Seq<char>> {
    match header {
        Some(h) => if h.len() >= BEARER_PREFIX@.len() && h.subrange(
            0,
            BEARER_PREFIX@.len() as int,
        ) == BEARER_PREFIX@ {
            Some(h.subrange(BEARER_PREFIX@.len() as int, h.len() as int))
        } else {
            None
        },
        None => None,
    }
}

/// What `extract_bearer` returns.
pub open spec fn extracted_bearer(header: Option<Seq<char>>) -> Result<Seq<char>, AuthError> {
    match bearer_token(header) {
        Some(token) => Ok(token),
        None => Err(AuthError::MissingBearer),
    }
}

/// A session is alive at `now` when it is on record and has not run out.
pub open spec fn session_alive(session: Option<usize>, now: usize) -> bool {
    session matches Some(expires_at) && expires_at >= now
}

/// What the ledger makes of a subject whose token was accepted.
pub open spec fn session_verdict(subject: Seq<char>, session: Option<usize>, now: usize) -> Result<
    Seq<char>,
    AuthError,
> {
    if session_alive(session, now) {
        Ok(subject)
    } else {
        Err(AuthError::ExpiredCredentials)
    }
}

/// The subject of the request, or the first check that it fails: the
/// header, then signature and expiry of the token, then the ledger.
pub open spec fn authenticated(
    header: Option<Seq<char>>,
    secret: Seq<u8>,
    sessions: Map<Seq<char>, usize>,
    now: usize,
) -> Result<Seq<char>, AuthError> {
    match bearer_token(header) {
        None => Err(AuthError::MissingBearer),
        Some(token) => match token_verdict(hs256_claims(token, secret), now) {
            Err(e) => Err(e),
            Ok(claims) => session_verdict(claims.0, session_of(sessions, claims.0), now),
        },
    }
}

/// The subject of a result that holds a principal.
pub open spec fn principal_result(r: Result<AuthenticatedPrincipal, AuthError>) -> Result<
    Seq<char>,
    AuthError,
> {
    match r {
        Ok(principal) => Ok(principal.subject@),
        Err(e) => Err(e),
    }
}

/// Takes the token out of the `Authorization` header.
pub fn extract_bearer(header: Option<&str>) -> (r: Result<String, AuthError>)
    ensures
        text_result(r) == extracted_bearer(optional_str(header)),
{
    proof {
        reveal_strlit("Bearer ");
    }
    match header {
        None => Err(AuthError::MissingBearer),
        Some(h) => {
            let length = h.unicode_len();
            if length < 7 {
                return Err(AuthError::MissingBearer);
            }
            let prefix = h.substring_char(0, 7).to_owned();
            if prefix == BEARER_PREFIX.to_owned() {
                Ok(h.substring_char(7, length).to_owned())
            } else {
                Err(AuthError::MissingBearer)
            }
        },
    }
}

/// The first two checks: the header must carry a bearer token, and the
/// token must be signed with `key` and not have run out at `now`.
pub fn verify_bearer(header: Option<&str>, key: &JwtKey, now: usize) -> (r: Result<
    Claims,
    AuthError,
>)
    ensures
        claims_result(r) == (match bearer_token(optional_str(header)) {
            None => Err(AuthError::MissingBearer),
            Some(token) => key.spec_verify(token, now),
        }),
{
    match extract_bearer(header) {
        Err(e) => Err(e),
        Ok(token) => key.verify(token.as_str(), now),
    }
}

/// The last check: the subject of accepted claims must have a session on
/// record that has not run out at `now`.
pub fn check_session(claims: Claims, session: Option<usize>, now: usize) -> (r: Result<
    AuthenticatedPrincipal,
    AuthError,
>)
    ensures
        principal_result(r) == session_verdict(claims.sub@, session, now),
{
    match session {
        Some(expires_at) => if expires_at >= now {
            Ok(AuthenticatedPrincipal { subject: claims.sub })
        } else {
            Err(AuthError::ExpiredCredentials)
        },
        None => Err(AuthError::ExpiredCredentials),
    }
}

/// Authenticates a request at the second `now`. The ledger is only read.
pub fn authenticate(header: Option<&str>, key: &JwtKey, ledger: &SessionLedger, now: usize) -> (r:
    Result<AuthenticatedPrincipal, AuthError>)
    requires
        ledger.wf(),
    ensures
        principal_result(r) == authenticated(optional_str(header), key@, ledger@, now),
{
    match verify_bearer(header, key, now) {
        Err(e) => Err(e),
        Ok(claims) => {
            let session = ledger.check(claims.sub.as_str());
            check_session(claims, session, now)
        },
    }
}

/// A request is let through exactly when its header carries a bearer token
/// whose signature holds, whose expiry lies after `now`, and whose subject
/// has a session on record that has not run out at `now`.
pub proof fn lemma_authenticated_iff(
    header: Option<Seq<char>>,
    secret: Seq<u8>,
    sessions: Map<Seq<char>, usize>,
    now: usize,
)
    ensures
        authenticated(header, secret, sessions, now) is Ok <==> {
            &&& bearer_token(header) matches Some(token)
            &&& hs256_claims(token, secret) matches Some(claims)
            &&& now < claims.1
            &&& sessions.contains_key(claims.0)
            &&& sessions[claims.0] >= now
        },
        authenticated(header, secret, sessions, now) matches Ok(subject) ==> hs256_claims(
            bearer_token(header).unwrap(),
            secret,
        ).unwrap().0 == subject,
{
}

/// The token behind the bearer prefix is the one that is taken out again.
pub proof fn lemma_bearer_of_prefixed(token: Seq<char>)
    ensures
        bearer_token(Some(BEARER_PREFIX@ + token)) == Some(token),
{
    let header = BEARER_PREFIX@ + token;
    let n = BEARER_PREFIX@.len() as int;
    assert(header.subrange(0, n) =~= BEARER_PREFIX@);
    assert(header.subrange(n, header.len() as int) =~= token);
}

/// A token that reads as the claims of `subject` lets a request through at
/// every second before its expiry at which the subject's session is alive.
pub proof fn lemma_live_session_is_admitted(
    token: Seq<char>,
    secret: Seq<u8>,
    sessions: Map<Seq<char>, usize>,
    subject: Seq<char>,
    expires_at: usize,
    now: usize,
)
    requires
        hs256_claims(token, secret) == Some((subject, expires_at)),
        now < expires_at,
        session_alive(session_of(sessions, subject), now),
    ensures
        authenticated(Some(BEARER_PREFIX@ + token), secret, sessions, now) == Ok::<
            Seq<char>,
            AuthError,
        >(subject),
{
    lemma_bearer_of_prefixed(token);
}

/// Once the session of its subject is revoked, a token is turned down as
/// expired, though its signature holds and its own expiry lies ahead.
pub proof fn lemma_revoked_session_is_refused(
    token: Seq<char>,
    secret: Seq<u8>,
    sessions: Map<Seq<char>, usize>,
    subject: Seq<char>,
    expires_at: usize,
    now: usize,
)
    requires
        hs256_claims(token, secret) == Some((subject, expires_at)),
        now < expires_at,
    ensures
        authenticated(Some(BEARER_PREFIX@ + token), secret, sessions.remove(subject), now) == Err::<
            Seq<char>,
            AuthError,
        >(AuthError::ExpiredCredentials),
{
    lemma_bearer_of_prefixed(token);
}

} // verus!
