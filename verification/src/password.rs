//! Password hashing with Argon2id: a fresh salt for every hash, and
//! verification against the salt and parameters the hash string carries.
//! A hash string that asks for more lanes or memory than are admitted
//! counts as malformed and is never handed to Argon2.

use argon2::password_hash::{PasswordHash, SaltString};
use argon2::{Algorithm, Argon2, Params, PasswordHasher, PasswordVerifier, Version};
use vstd::prelude::*;

use crate::errors::{text_result, AuthError, HashFormatError};
use crate::phc::{costs_admitted, hash_is_admitted};
use crate::text::optional_text;

verus! {

/// Memory cost of a new hash, in KiB.
pub const ARGON2_MEMORY_KIB: u32 = 15000;

/// Number of passes over the memory for a new hash.
pub const ARGON2_PASSES: u32 = 2;

/// Degree of parallelism of a new hash.
pub const ARGON2_LANES: u32 = 1;

/// What Argon2 says of a password held against a hash string: `None` when
/// the string does not parse as a PHC string, else whether the password
/// verifies against it.
pub uninterp spec fn argon2_verdict(password: Seq<char>, hash: Seq<char>) -> Option<bool>;

/// The PHC string that Argon2id, version 0x13, makes of a password under a
/// salt in B64 and the three costs: `None` where the salt or the costs
/// are not accepted.
pub uninterp spec fn argon2id_phc(
    password: Seq<char>,
    salt: Seq<char>,
    memory_kib: u32,
    passes: u32,
    lanes: u32,
) -> Option<Seq<char>>;

/// The hash of a password under a salt, with the costs of this library:
/// `None` where Argon2 gives none, or one that would not be admitted for
/// verification.
pub open spec fn salted_hash(password: Seq<char>, salt: Seq<char>) -> Option<Seq<char>> {
    match argon2id_phc(password, salt, ARGON2_MEMORY_KIB, ARGON2_PASSES, ARGON2_LANES) {
        Some(hash) => if costs_admitted(hash) {
            Some(hash)
        } else {
            None
        },
        None => None,
    }
}

/// What the verification of a password against a hash string gives: a
/// hash string that is not admitted is malformed; an admitted one is
/// malformed where Argon2 cannot parse it, and else matches or does not.
pub open spec fn verification(password: Seq<char>, hash: Seq<char>) -> Result<
    bool,
    HashFormatError,
> {
    if costs_admitted(hash) {
        verdict_result(argon2_verdict(password, hash))
    } else {
        Err(HashFormatError)
    }
}

/// The password is the one that `hash` was computed from.
pub open spec fn password_matches(password: Seq<char>, hash: Seq<char>) -> bool {
    verification(password, hash) == Ok::<bool, HashFormatError>(true)
}

/// What `verify_password_hash` returns for each verdict.
pub open spec fn verdict_result(verdict: Option<bool>) -> Result<bool, HashFormatError> {
    match verdict {
        Some(matches) => Ok(matches),
        None => Err(HashFormatError),
    }
}

/// `SaltString::generate` of password-hash, fed by `rand::thread_rng`: a
/// random salt in B64. Nothing is claimed of it.
#[verifier::external_body]
fn fresh_salt() -> (salt: String) {
    SaltString::generate(&mut rand::thread_rng()).as_str().to_owned()
}

/// `Argon2::hash_password` of argon2, as Argon2id version 0x13 with the given
/// costs and salt, rendered as a PHC string. Claimed: the string is a
/// function of the five arguments, and a hash that comes back verifies
/// against the password it was computed from, since verification recomputes
/// the hash with the salt and costs that the string records. `lanes` is
/// bounded because `Params::new` multiplies it by eight, `memory_kib`
/// because that much memory is allocated at once.
#[verifier::external_body]
fn argon2id_hash(password: &str, salt: &str, memory_kib: u32, passes: u32, lanes: u32) -> (hash:
    Option<String>)
    requires
        lanes <= 0x00ff_ffff,
        memory_kib <= 0x0010_0000,
    ensures
        optional_text(hash) == argon2id_phc(
            password@,
            salt@,
            memory_kib,
            passes,
            lanes,
        ),
        hash matches Some(h) ==> argon2_verdict(password@, h@) == Some(true),
{
    let params = Params::new(memory_kib, passes, lanes, None).ok()?;
    let salt = SaltString::from_b64(salt).ok()?;
    let hasher = Argon2::new(Algorithm::Argon2id, Version::V0x13, params);
    hasher.hash_password(password.as_bytes(), &salt).ok().map(|h| h.to_string())
}

/// `PasswordHash::new` of password-hash, then `Argon2::verify_password` of
/// argon2 with the default hasher. Claimed: the outcome is a function of the
/// two strings; `None` stands for a string that does not parse. The hash
/// string must be admitted: verification builds the costs from the decimals
/// behind `m=` and `p=`, multiplies the lanes by eight in `Params::new`, and
/// allocates the memory at once.
#[verifier::external_body]
fn argon2_verify(password: &str, hash: &str) -> (verdict: Option<bool>)
    requires
        costs_admitted(hash@),
    ensures
        verdict == argon2_verdict(password@, hash@),
{
    let parsed = PasswordHash::new(hash).ok()?;
    Some(Argon2::default().verify_password(password.as_bytes(), &parsed).is_ok())
}

/// Turns Argon2's verdict into the result of a verification: a mismatch is
/// an ordinary `Ok(false)`, only a malformed hash string is an error.
pub fn verdict_to_result(verdict: Option<bool>) -> (r: Result<bool, HashFormatError>)
    ensures
        r == verdict_result(verdict),
{
    match verdict {
        Some(matches) => Ok(matches),
        None => Err(HashFormatError),
    }
}

/// Hashes `password` under `salt`, a text in B64, with the costs of this
/// library. A hash is given out only if it is admitted for verification,
/// and then it verifies against the password.
pub fn hash_password_with_salt(password: &str, salt: &str) -> (r: Result<String, AuthError>)
    ensures
        text_result(r) == (match salted_hash(password@, salt@) {
            Some(hash) => Ok(hash),
            None => Err(AuthError::UnexpectedError),
        }),
        r matches Ok(hash) ==> password_matches(password@, hash@),
{
    match argon2id_hash(password, salt, ARGON2_MEMORY_KIB, ARGON2_PASSES, ARGON2_LANES) {
        Some(hash) => if hash_is_admitted(hash.as_str()) {
            Ok(hash)
        } else {
            Err(AuthError::UnexpectedError)
        },
        None => Err(AuthError::UnexpectedError),
    }
}

/// Hashes `password` under a fresh random salt, so that two hashes of one
/// password differ. Whatever the salt, the hash is the one that the costs
/// of this library give under it, and it verifies against the password.
pub fn compute_password_hash(password: &str) -> (r: Result<String, AuthError>)
    ensures
        r matches Ok(hash) ==> password_matches(password@, hash@) && exists|salt: Seq<char>|
            #[trigger] salted_hash(password@, salt) == Some(hash@),
        r matches Err(e) ==> e == AuthError::UnexpectedError,
{
    let salt = fresh_salt();
    hash_password_with_salt(password, salt.as_str())
}

/// Checks `password_candidate` against `expected_password_hash`, with the
/// salt and costs that the hash string records. A hash string that is not
/// admitted is malformed, and Argon2 is not asked.
pub fn verify_password_hash(expected_password_hash: &str, password_candidate: &str) -> (r: Result<
    bool,
    HashFormatError,
>)
    ensures
        r == verification(password_candidate@, expected_password_hash@),
{
    if !hash_is_admitted(expected_password_hash) {
        return Err(HashFormatError);
    }
    verdict_to_result(argon2_verify(password_candidate, expected_password_hash))
}

} // verus!
