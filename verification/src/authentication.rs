//! Credential verification: a username and a password are held against the
//! stored hash, in such a way that an unknown user costs the same work and
//! fails in the same way as a wrong password.

use vstd::prelude::*;

use crate::errors::{text_result, AuthError, HashFormatError};
use crate::password::{
    compute_password_hash,
    password_matches,
    verification,
    verify_password_hash,
};
use crate::text::optional_text;
use crate::users::{
    has_id,
    has_username,
    lemma_index_of_username,
    optional_pair,
    stored_credentials,
    users_distinct,
    with_password_hash,
    CredentialStore,
    User,
    UserRecord,
};

verus! {

/// What a login request carries. It cannot be printed: the password is
/// not for the log.
pub struct Login {
    pub username: String,
    pub password: String,
}

/// A username and the password offered for it. Held only while a request
/// is answered.
pub struct Credentials {
    pub username: String,
    pub password: String,
}

/// The hash that the password of an unknown user is held against, so that
/// the work is done all the same. The outcome is thrown away.
pub const FALLBACK_PASSWORD_HASH: &'static str =
    "$argon2id$v=19$m=15000,t=2,p=1$gZiV/M1gPc22ElAH/Jh1Hw$CWOrkoo7oJBQ/iyh7uJ0LO2aLEfrHwTWllSAxT0zRno";

impl From<Login> for Credentials {
    fn from(e: Login) -> (credentials: Credentials) {
        Credentials { username: e.username, password: e.password }
    }
}

impl vstd::std_specs::convert::FromSpecImpl<Login> for Credentials {
    open spec fn obeys_from_spec() -> bool {
        true
    }

    open spec fn from_spec(e: Login) -> Credentials {
        Credentials { username: e.username, password: e.password }
    }
}

/// The identifier of an optional stored user.
pub open spec fn optional_id(stored: Option<(Seq<char>, Seq<char>)>) -> Option<Seq<char>> {
    match stored {
        Some(found) => Some(found.0),
        None => None,
    }
}

/// The hash that a password is held against: the stored one, or the
/// fallback where no user was found.
pub open spec fn hash_to_check(stored: Option<(Seq<char>, Seq<char>)>) -> Seq<char> {
    match stored {
        Some(found) => found.1,
        None => FALLBACK_PASSWORD_HASH@,
    }
}

/// The decision on a user that was or was not found and on what the check
/// of the password gave: the identifier only for a user that was found and
/// whose password matches; the same failure for an unknown user and for a
/// wrong password; a stored hash that cannot be read is no fault of the
/// caller.
pub open spec fn credentials_verdict(
    user_id: Option<Seq<char>>,
    check: Result<bool, HashFormatError>,
) -> Result<Seq<char>, AuthError> {
    match user_id {
        None => Err(AuthError::InvalidCredentials),
        Some(id) => match check {
            Ok(true) => Ok(id),
            Ok(false) => Err(AuthError::InvalidCredentials),
            Err(_) => Err(AuthError::UnexpectedError),
        },
    }
}

/// What `check_credentials` returns for a password and the outcome of the
/// lookup.
pub open spec fn checked_credentials(
    password: Seq<char>,
    stored: Option<(Seq<char>, Seq<char>)>,
) -> Result<Seq<char>, AuthError> {
    credentials_verdict(optional_id(stored), verification(password, hash_to_check(stored)))
}

/// What `validate_credentials` returns for a username and a password
/// against the users in a store.
pub open spec fn validated_credentials(
    users: Seq<UserRecord>,
    username: Seq<char>,
    password: Seq<char>,
) -> Result<Seq<char>, AuthError> {
    checked_credentials(password, stored_credentials(users, username))
}

/// The name of a user on record, with a password that the stored hash
/// matches, gives that user's identifier.
pub proof fn lemma_stored_pair_is_accepted(users: Seq<UserRecord>, i: int, password: Seq<char>)
    requires
        users_distinct(users),
        0 <= i < users.len(),
        password_matches(password, users[i].password_hash),
    ensures
        validated_credentials(users, users[i].username, password) == Ok::<Seq<char>, AuthError>(
            users[i].id,
        ),
{
    lemma_index_of_username(users, i);
}

/// A wrong password for a user on record is turned down as invalid
/// credentials.
pub proof fn lemma_wrong_password_is_rejected(users: Seq<UserRecord>, i: int, password: Seq<char>)
    requires
        users_distinct(users),
        0 <= i < users.len(),
        verification(password, users[i].password_hash) == Ok::<bool, HashFormatError>(false),
    ensures
        validated_credentials(users, users[i].username, password) == Err::<Seq<char>, AuthError>(
            AuthError::InvalidCredentials,
        ),
{
    lemma_index_of_username(users, i);
}

/// A name that is not on record is turned down as invalid credentials,
/// whatever the password.
pub proof fn lemma_unknown_user_is_rejected(
    users: Seq<UserRecord>,
    username: Seq<char>,
    password: Seq<char>,
)
    requires
        !has_username(users, username),
    ensures
        validated_credentials(users, username, password) == Err::<Seq<char>, AuthError>(
            AuthError::InvalidCredentials,
        ),
{
}

/// An unknown user and a wrong password fail alike: the same error, with
/// the same text and the same status.
pub proof fn lemma_rejections_are_identical(
    users: Seq<UserRecord>,
    i: int,
    wrong_password: Seq<char>,
    unknown_username: Seq<char>,
    any_password: Seq<char>,
)
    requires
        users_distinct(users),
        0 <= i < users.len(),
        verification(wrong_password, users[i].password_hash) == Ok::<bool, HashFormatError>(false),
        !has_username(users, unknown_username),
    ensures
        validated_credentials(users, users[i].username, wrong_password) == validated_credentials(
            users,
            unknown_username,
            any_password,
        ),
        validated_credentials(users, unknown_username, any_password) matches Err(e) && e
            == AuthError::InvalidCredentials,
{
    lemma_wrong_password_is_rejected(users, i, wrong_password);
    lemma_unknown_user_is_rejected(users, unknown_username, any_password);
}

/// Decides on the outcome of the lookup and of the password check.
pub fn decide_credentials(user_id: Option<String>, check: Result<bool, HashFormatError>) -> (r:
    Result<String, AuthError>)
    ensures
        text_result(r) == credentials_verdict(optional_text(user_id), check),
{
    match user_id {
        None => Err(AuthError::InvalidCredentials),
        Some(id) => match check {
            Ok(true) => Ok(id),
            Ok(false) => Err(AuthError::InvalidCredentials),
            Err(_) => Err(AuthError::UnexpectedError),
        },
    }
}

/// Holds `password` against the stored hash of a user that was looked up,
/// or against the fallback hash where none was found, and decides.
pub fn check_credentials(password: &str, stored: Option<(String, String)>) -> (r: Result<
    String,
    AuthError,
>)
    ensures
        text_result(r) == checked_credentials(password@, optional_pair(stored)),
{
    match stored {
        Some((id, password_hash)) => {
            let check = verify_password_hash(password_hash.as_str(), password);
            decide_credentials(Some(id), check)
        },
        None => {
            let check = verify_password_hash(FALLBACK_PASSWORD_HASH, password);
            decide_credentials(None, check)
        },
    }
}

/// Looks the username up in `store` and checks the password: the user's
/// identifier for the right password, `InvalidCredentials` both for a wrong
/// password and for an unknown user. The store is only read.
pub fn validate_credentials(credentials: Credentials, store: &CredentialStore) -> (r: Result<
    String,
    AuthError,
>)
    requires
        store.wf(),
    ensures
        text_result(r) == validated_credentials(
            store@,
            credentials.username@,
            credentials.password@,
        ),
{
    let stored = store.get_store_credentials(credentials.username.as_str());
    check_credentials(credentials.password.as_str(), stored)
}

/// Stores a new user with the hash of `password`. `Ok(false)` says that the
/// name or the identifier is taken; on `Err` the hash could not be
/// computed. In both cases the store is as it was. A user that was stored
/// is accepted from then on under this name and password.
pub fn register(store: &mut CredentialStore, id: String, username: String, password: &str) -> (r:
    Result<bool, AuthError>)
    requires
        old(store).wf(),
    ensures
        final(store).wf(),
        match r {
            Ok(stored) => {
                &&& stored == (!has_username(old(store)@, username@) && !has_id(old(store)@, id@))
                &&& stored ==> exists|hash: Seq<char>| #[trigger]
                    password_matches(password@, hash) && final(store)@ == old(store)@.push(
                        UserRecord { id: id@, username: username@, password_hash: hash },
                    )
                &&& stored ==> validated_credentials(final(store)@, username@, password@) == Ok::<
                    Seq<char>,
                    AuthError,
                >(id@)
                &&& !stored ==> final(store)@ == old(store)@
            },
            Err(e) => e == AuthError::UnexpectedError && final(store)@ == old(store)@,
        },
{
    match compute_password_hash(password) {
        Ok(password_hash) => {
            let ghost hash = password_hash@;
            let stored = store.insert(User { id, username, password_hash });
            proof {
                if stored {
                    assert(password_matches(password@, hash));
                    lemma_stored_pair_is_accepted(store@, old(store)@.len() as int, password@);
                }
            }
            Ok(stored)
        },
        Err(e) => Err(e),
    }
}

/// Hashes `password` and stores the hash for the user `user_id`. `Ok(false)`
/// says that there is no such user; on `Err` the hash could not be computed.
/// In both cases the store is as it was.
pub fn change_password(user_id: &str, password: &str, store: &mut CredentialStore) -> (r: Result<
    bool,
    AuthError,
>)
    requires
        old(store).wf(),
    ensures
        final(store).wf(),
        match r {
            Ok(changed) => changed == has_id(old(store)@, user_id@) && exists|hash: Seq<char>|
                #[trigger] password_matches(password@, hash) && final(store)@
                    == with_password_hash(old(store)@, user_id@, hash),
            Err(e) => e == AuthError::UnexpectedError && final(store)@ == old(store)@,
        },
{
    match compute_password_hash(password) {
        Ok(hash) => {
            let ghost new_hash = hash@;
            let changed = store.change_password(user_id, hash);
            assert(password_matches(password@, new_hash));
            Ok(changed)
        },
        Err(e) => Err(e),
    }
}

} // verus!
