//! What the three routes of a session do: log in, log out, and change the
//! password of the user who is logged in.

use vstd::prelude::*;

use crate::authentication::{validate_credentials, validated_credentials, Credentials, Login};
use crate::errors::{
    AppError,
    AppErrorView,
    AuthError,
    ChangePasswordError,
    STATUS_UNAUTHORIZED,
};
use crate::ledger::SessionLedger;
use crate::password::password_matches;
use crate::session::AuthenticatedPrincipal;
use crate::token::{hs256_claims, hs256_token, JwtKey};
use crate::users::{
    index_of_id,
    lemma_index_of_username,
    username_of,
    users_distinct,
    with_password_hash,
    CredentialStore,
    UserRecord,
};

verus! {

/// How long a session lives: fifteen days, in seconds.
pub const SESSION_LIFETIME_SECONDS: usize = 1_296_000;

/// The text of the failure to find the user behind a principal.
pub const USERNAME_QUERY_FAILED: &'static str = "Failed to perform a query to retrieve a username";

/// The text that every refused login answers with.
pub const LOGIN_FAILED: &'static str = "login failed";

/// What a successful login answers with. It cannot be printed: the token
/// is not for the log.
pub struct LoginResponse {
    pub token: String,
}

/// What a request to change the password carries. It cannot be printed:
/// the passwords are not for the log.
pub struct ChangePasswordRequest {
    pub current_password: String,
    pub new_password: String,
    pub new_password_check: String,
}

/// The second through which a session lives that starts at `now`; `None`
/// where that second cannot be counted.
pub open spec fn expiry_after(now: usize) -> Option<usize> {
    if now + SESSION_LIFETIME_SECONDS <= usize::MAX {
        Some((now + SESSION_LIFETIME_SECONDS) as usize)
    } else {
        None
    }
}

/// The token of a result that holds a login response.
pub open spec fn login_result(r: Result<LoginResponse, AuthError>) -> Result<Seq<char>, AuthError> {
    match r {
        Ok(response) => Ok(response.token@),
        Err(e) => Err(e),
    }
}

/// What a login at the second `now` answers with.
pub open spec fn login_answer(
    users: Seq<UserRecord>,
    secret: Seq<u8>,
    username: Seq<char>,
    password: Seq<char>,
    now: usize,
) -> Result<Seq<char>, AuthError> {
    match validated_credentials(users, username, password) {
        Err(e) => Err(e),
        Ok(subject) => match expiry_after(now) {
            None => Err(AuthError::UnexpectedError),
            Some(expires_at) => match hs256_token(subject, expires_at, secret) {
                Some(token) => Ok(token),
                None => Err(AuthError::UnexpectedError),
            },
        },
    }
}

/// The sessions on record after a login at the second `now`: a session of
/// fifteen days for the user whose credentials were accepted, in place of
/// the one the user may have had; the same sessions otherwise.
pub open spec fn sessions_after_login(
    sessions: Map<Seq<char>, usize>,
    users: Seq<UserRecord>,
    username: Seq<char>,
    password: Seq<char>,
    now: usize,
) -> Map<Seq<char>, usize> {
    match validated_credentials(users, username, password) {
        Err(_) => sessions,
        Ok(subject) => match expiry_after(now) {
            None => sessions,
            Some(expires_at) => sessions.insert(subject, expires_at),
        },
    }
}

/// The first reason to refuse a change of password, in the order in which
/// the checks are made: the new password and its confirmation differ; the
/// new password is the current one; the principal is no user on record; the
/// current password is not the user's. `None` where the change goes ahead.
pub open spec fn change_password_refusal(
    users: Seq<UserRecord>,
    subject: Seq<char>,
    current_password: Seq<char>,
    new_password: Seq<char>,
    new_password_check: Seq<char>,
) -> Option<AppErrorView> {
    if new_password != new_password_check {
        Some(AppErrorView::ChangePassword(ChangePasswordError::NewPasswordMissingMatch))
    } else if current_password == new_password {
        Some(AppErrorView::ChangePassword(ChangePasswordError::NewPasswordMustBeDifferent))
    } else {
        match username_of(users, subject) {
            None => Some(AppErrorView::UnexpectedError(USERNAME_QUERY_FAILED@)),
            Some(username) => match validated_credentials(users, username, current_password) {
                Err(e) => Some(AppErrorView::Auth(e)),
                Ok(_) => None,
            },
        }
    }
}

/// Status and text of the answer to a login that failed: credentials that
/// were turned down answer alike, whatever was wrong with them; a failure
/// that is not the caller's fault is told apart from them.
pub open spec fn login_refusal(error: AuthError) -> (u16, Seq<char>) {
    match error {
        AuthError::UnexpectedError => (error.status_code(), error.message_text()),
        _ => (STATUS_UNAUTHORIZED, LOGIN_FAILED@),
    }
}

/// Status and text of the answer to a login that failed.
pub fn login_rejection(error: AuthError) -> (r: (u16, String))
    ensures
        (r.0, r.1@) == login_refusal(error),
{
    match error {
        AuthError::UnexpectedError => (error.status(), error.message()),
        _ => (STATUS_UNAUTHORIZED, LOGIN_FAILED.to_owned()),
    }
}

/// The second through which a session lives that starts at `now`.
pub fn session_expiry(now: usize) -> (r: Option<usize>)
    ensures
        r == expiry_after(now),
{
    now.checked_add(SESSION_LIFETIME_SECONDS)
}

/// The two checks on a new password that need no store: it must equal its
/// confirmation, and it must differ from the current password.
pub fn check_new_password(payload: &ChangePasswordRequest) -> (r: Result<(), ChangePasswordError>)
    ensures
        r == (if payload.new_password@ != payload.new_password_check@ {
            Err(ChangePasswordError::NewPasswordMissingMatch)
        } else if payload.current_password@ == payload.new_password@ {
            Err(ChangePasswordError::NewPasswordMustBeDifferent)
        } else {
            Ok(())
        }),
{
    if !(payload.new_password == payload.new_password_check) {
        return Err(ChangePasswordError::NewPasswordMissingMatch);
    }
    if payload.current_password == payload.new_password {
        return Err(ChangePasswordError::NewPasswordMustBeDifferent);
    }
    Ok(())
}

/// Logs a user in at the second `now`: the credentials are checked, a
/// session of fifteen days is put on record in place of the one the user
/// may have had, and a token for it is signed. Where the credentials are
/// turned down the ledger stays as it was.
pub fn login(
    payload: Login,
    store: &CredentialStore,
    ledger: &mut SessionLedger,
    key: &JwtKey,
    now: usize,
) -> (r: Result<LoginResponse, AuthError>)
    requires
        store.wf(),
        old(ledger).wf(),
    ensures
        final(ledger).wf(),
        login_result(r) == login_answer(store@, key@, payload.username@, payload.password@, now),
        final(ledger)@ == sessions_after_login(
            old(ledger)@,
            store@,
            payload.username@,
            payload.password@,
            now,
        ),
        r matches Ok(response) ==> hs256_claims(response.token@, key@) == Some(
            (
                validated_credentials(store@, payload.username@, payload.password@).unwrap(),
                expiry_after(now).unwrap(),
            ),
        ),
{
    let credentials = Credentials::from(payload);
    let subject = match validate_credentials(credentials, store) {
        Ok(subject) => subject,
        Err(e) => { return Err(e); },
    };
    let expires_at = match session_expiry(now) {
        Some(expires_at) => expires_at,
        None => { return Err(AuthError::UnexpectedError); },
    };
    ledger.create(subject.as_str(), expires_at);
    match key.issue(subject.as_str(), expires_at) {
        Ok(token) => Ok(LoginResponse { token }),
        Err(e) => Err(e),
    }
}

/// Logs the principal out: its session is deleted, so that its token is
/// turned down from now on, whatever expiry the token carries.
pub fn logout(principal: &AuthenticatedPrincipal, ledger: &mut SessionLedger)
    requires
        old(ledger).wf(),
    ensures
        final(ledger).wf(),
        final(ledger)@ == old(ledger)@.remove(principal.subject@),
{
    ledger.revoke(principal.subject.as_str());
}

/// Changes the password of the principal. The checks come in the order of
/// `change_password_refusal`, and the store is written only after the last
/// of them: on every `Err` it is as it was. On `Ok` the principal's hash
/// is one that the new password matches.
pub fn change_password(
    principal: &AuthenticatedPrincipal,
    payload: ChangePasswordRequest,
    store: &mut CredentialStore,
) -> (r: Result<(), AppError>)
    requires
        old(store).wf(),
    ensures
        final(store).wf(),
        match change_password_refusal(
            old(store)@,
            principal.subject@,
            payload.current_password@,
            payload.new_password@,
            payload.new_password_check@,
        ) {
            Some(refusal) => r matches Err(e) && e@ == refusal && final(store)@ == old(store)@,
            None => match r {
                Ok(_) => exists|hash: Seq<char>| #[trigger]
                    password_matches(payload.new_password@, hash) && final(store)@
                        == with_password_hash(old(store)@, principal.subject@, hash),
                Err(e) => e@ == AppErrorView::Auth(AuthError::UnexpectedError) && final(store)@
                    == old(store)@,
            },
        },
{
    match check_new_password(&payload) {
        Ok(_) => {},
        Err(e) => { return Err(AppError::ChangePassword(e)); },
    }
    let username = match store.get_username(principal.subject.as_str()) {
        Some(username) => username,
        None => { return Err(AppError::UnexpectedError(USERNAME_QUERY_FAILED.to_owned())); },
    };
    let credentials = Credentials { username, password: payload.current_password };
    let user_id = match validate_credentials(credentials, store) {
        Ok(user_id) => user_id,
        Err(e) => { return Err(AppError::Auth(e)); },
    };
    proof {
        lemma_validated_is_owner(
            store@,
            principal.subject@,
            payload.current_password@,
        );
    }
    match crate::authentication::change_password(
        user_id.as_str(),
        payload.new_password.as_str(),
        store,
    ) {
        Ok(_) => Ok(()),
        Err(e) => Err(AppError::Auth(e)),
    }
}

/// A new password that differs from its confirmation is refused before
/// anything else is looked at.
pub proof fn lemma_mismatch_is_refused_first(
    users: Seq<UserRecord>,
    subject: Seq<char>,
    current_password: Seq<char>,
    new_password: Seq<char>,
    new_password_check: Seq<char>,
)
    requires
        new_password != new_password_check,
    ensures
        change_password_refusal(
            users,
            subject,
            current_password,
            new_password,
            new_password_check,
        ) == Some(AppErrorView::ChangePassword(ChangePasswordError::NewPasswordMissingMatch)),
{
}

/// A confirmed new password that is the current one is refused: a change
/// must change something.
pub proof fn lemma_same_password_is_refused(
    users: Seq<UserRecord>,
    subject: Seq<char>,
    current_password: Seq<char>,
    new_password: Seq<char>,
    new_password_check: Seq<char>,
)
    requires
        new_password == new_password_check,
        current_password == new_password,
    ensures
        change_password_refusal(
            users,
            subject,
            current_password,
            new_password,
            new_password_check,
        ) == Some(AppErrorView::ChangePassword(ChangePasswordError::NewPasswordMustBeDifferent)),
{
}

/// The user that a principal's name leads to is the principal: where the
/// credentials under that name are accepted, the identifier that comes
/// back is the principal's own.
pub proof fn lemma_validated_is_owner(
    users: Seq<UserRecord>,
    subject: Seq<char>,
    password: Seq<char>,
)
    requires
        users_distinct(users),
        username_of(users, subject) is Some,
    ensures
        validated_credentials(users, username_of(users, subject).unwrap(), password) matches Ok(id)
            ==> id == subject,
{
    let i = index_of_id(users, subject);
    lemma_index_of_username(users, i);
}

} // verus!
