use argon2::password_hash::SaltString;
use argon2::{Algorithm, Argon2, Params, PasswordHasher, Version};
use japonfou::errors::{AuthError, HashFormatError};
use japonfou::password::{
    compute_password_hash, hash_password_with_salt, verdict_to_result, verify_password_hash,
};

#[test]
fn a_fresh_hash_verifies_against_its_password() {
    let hash = compute_password_hash("s3cr3t!").expect("hashing failed");
    assert_eq!(verify_password_hash(&hash, "s3cr3t!"), Ok(true));
}

#[test]
fn a_wrong_password_is_an_ordinary_mismatch() {
    let hash = compute_password_hash("s3cr3t!").expect("hashing failed");
    assert_eq!(verify_password_hash(&hash, "wrong"), Ok(false));
}

#[test]
fn two_hashes_of_one_password_differ() {
    let first = compute_password_hash("s3cr3t!").expect("hashing failed");
    let second = compute_password_hash("s3cr3t!").expect("hashing failed");
    assert_ne!(first, second);
    assert!(first.starts_with("$argon2id$v=19$m=15000,t=2,p=1$"));
}

#[test]
fn a_malformed_hash_is_a_format_error() {
    assert_eq!(verify_password_hash("not a hash", "s3cr3t!"), Err(HashFormatError));
    assert_eq!(verify_password_hash("", "s3cr3t!"), Err(HashFormatError));
}

#[test]
fn a_verdict_becomes_a_result() {
    assert_eq!(verdict_to_result(Some(true)), Ok(true));
    assert_eq!(verdict_to_result(Some(false)), Ok(false));
    assert_eq!(verdict_to_result(None), Err(HashFormatError));
}

#[test]
fn a_hash_of_the_usual_costs_made_elsewhere_verifies() {
    let salt = SaltString::generate(&mut rand::thread_rng());
    let password_hash = Argon2::new(
        Algorithm::Argon2id,
        Version::V0x13,
        Params::new(15000, 2, 1, None).unwrap(),
    )
    .hash_password("s3cr3t!".as_bytes(), &salt)
    .unwrap()
    .to_string();
    assert_eq!(verify_password_hash(&password_hash, "s3cr3t!"), Ok(true));
    assert_eq!(verify_password_hash(&password_hash, "s3cr3t"), Ok(false));
}

#[test]
fn a_salted_hash_is_a_function_of_password_and_salt() {
    let salt = "gZiV/M1gPc22ElAH/Jh1Hw";
    let first = hash_password_with_salt("s3cr3t!", salt).expect("hashing failed");
    let second = hash_password_with_salt("s3cr3t!", salt).expect("hashing failed");
    assert_eq!(first, second);
    assert!(first.starts_with("$argon2id$v=19$m=15000,t=2,p=1$gZiV/M1gPc22ElAH/Jh1Hw$"));
    assert_ne!(first, hash_password_with_salt("s3cr3t", salt).expect("hashing failed"));
    assert_ne!(
        first,
        hash_password_with_salt("s3cr3t!", "c29tZXNhbHRzb21lc2FsdA").expect("hashing failed")
    );
    assert_eq!(verify_password_hash(&first, "s3cr3t!"), Ok(true));
}

#[test]
fn a_salted_hash_is_the_one_that_argon2_gives() {
    let salt = SaltString::from_b64("gZiV/M1gPc22ElAH/Jh1Hw").unwrap();
    let expected = Argon2::new(
        Algorithm::Argon2id,
        Version::V0x13,
        Params::new(15000, 2, 1, None).unwrap(),
    )
    .hash_password("s3cr3t!".as_bytes(), &salt)
    .unwrap()
    .to_string();
    assert_eq!(hash_password_with_salt("s3cr3t!", "gZiV/M1gPc22ElAH/Jh1Hw"), Ok(expected));
}

#[test]
fn a_salt_that_is_no_salt_is_an_unexpected_error() {
    assert_eq!(
        hash_password_with_salt("s3cr3t!", "no salt!"),
        Err(AuthError::UnexpectedError)
    );
    assert_eq!(hash_password_with_salt("s3cr3t!", ""), Err(AuthError::UnexpectedError));
    assert_eq!(hash_password_with_salt("s3cr3t!", "abc"), Err(AuthError::UnexpectedError));
}
