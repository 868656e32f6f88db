//! The second at which a request is answered.

use vstd::prelude::*;

use crate::authentication::Login;
use crate::errors::AuthError;
use crate::ledger::SessionLedger;
use crate::routes::{login, login_answer, login_result, sessions_after_login, LoginResponse};
use crate::session::{authenticate, authenticated, principal_result, AuthenticatedPrincipal};
use crate::text::optional_str;
use crate::token::JwtKey;
use crate::users::CredentialStore;

verus! {

/// `SystemTime::now` of std, read as a `DateTime<Utc>` of chrono, and its
/// `timestamp`: the seconds since the Unix epoch on this machine's clock.
/// The count of a clock that stands before the epoch is negative and gives
/// `None`, as does one that a `usize` cannot hold. Nothing is claimed of
/// the number.
#[verifier::external_body]
fn unix_seconds() -> (now: Option<usize>) {
    let now = chrono::DateTime::<chrono::Utc>::from(std::time::SystemTime::now());
    usize::try_from(now.timestamp()).ok()
}

/// What a reading of the clock counts as: the second that was read, or an
/// unexpected error for a clock that gave none.
pub fn time_of_reading(reading: Option<usize>) -> (r: Result<usize, AuthError>)
    ensures
        r == (match reading {
            Some(now) => Ok::<usize, AuthError>(now),
            None => Err::<usize, AuthError>(AuthError::UnexpectedError),
        }),
{
    match reading {
        Some(now) => Ok(now),
        None => Err(AuthError::UnexpectedError),
    }
}

/// The second that the clock shows. Which second that is lies with the
/// clock; a failure is an unexpected error.
pub fn current_time() -> (r: Result<usize, AuthError>)
    ensures
        r matches Err(e) ==> e == AuthError::UnexpectedError,
{
    time_of_reading(unix_seconds())
}

/// Logs a user in at the second that the clock shows: whatever second that
/// is, the answer and the ledger are those of `login` at that second.
pub fn login_now(payload: Login, store: &CredentialStore, ledger: &mut SessionLedger, key: &JwtKey)
    -> (r: Result<LoginResponse, AuthError>)
    requires
        store.wf(),
        old(ledger).wf(),
    ensures
        final(ledger).wf(),
        (r == Err::<LoginResponse, AuthError>(AuthError::UnexpectedError) && final(ledger)@ == old(
            ledger,
        )@) || exists|now: usize|
            login_result(r) == #[trigger] login_answer(
                store@,
                key@,
                payload.username@,
                payload.password@,
                now,
            ) && final(ledger)@ == sessions_after_login(
                old(ledger)@,
                store@,
                payload.username@,
                payload.password@,
                now,
            ),
{
    match current_time() {
        Ok(now) => login(payload, store, ledger, key, now),
        Err(e) => Err(e),
    }
}

/// Authenticates a request at the second that the clock shows.
pub fn authenticate_now(header: Option<&str>, key: &JwtKey, ledger: &SessionLedger) -> (r: Result<
    AuthenticatedPrincipal,
    AuthError,
>)
    requires
        ledger.wf(),
    ensures
        r == Err::<AuthenticatedPrincipal, AuthError>(AuthError::UnexpectedError) || exists|
            now: usize,
        |
            principal_result(r) == #[trigger] authenticated(
                optional_str(header),
                key@,
                ledger@,
                now,
            ),
{
    match current_time() {
        Ok(now) => authenticate(header, key, ledger, now),
        Err(e) => Err(e),
    }
}

} // verus!
