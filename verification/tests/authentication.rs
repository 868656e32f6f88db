use japonfou::authentication::{
    change_password, check_credentials, decide_credentials, validate_credentials, Credentials,
    Login, FALLBACK_PASSWORD_HASH,
};
use japonfou::errors::{AuthError, HashFormatError};
use japonfou::password::{compute_password_hash, verify_password_hash};
use japonfou::users::{CredentialStore, User};

fn store_with(username: &str, id: &str, password: &str) -> CredentialStore {
    let mut store = CredentialStore::new();
    let password_hash = compute_password_hash(password).expect("hashing failed");
    assert!(store.insert(User {
        id: id.to_string(),
        username: username.to_string(),
        password_hash,
    }));
    store
}

fn credentials(username: &str, password: &str) -> Credentials {
    Credentials { username: username.to_string(), password: password.to_string() }
}

#[test]
fn the_exact_pair_gives_the_identifier() {
    let store = store_with("alice", "id-alice", "s3cr3t!");
    assert_eq!(
        validate_credentials(credentials("alice", "s3cr3t!"), &store),
        Ok("id-alice".to_string())
    );
}

#[test]
fn a_wrong_password_and_an_unknown_user_fail_alike() {
    let store = store_with("alice", "id-alice", "s3cr3t!");
    let wrong = validate_credentials(credentials("alice", "wrong"), &store);
    let unknown = validate_credentials(credentials("bob", "s3cr3t!"), &store);
    assert_eq!(wrong, Err(AuthError::InvalidCredentials));
    assert_eq!(unknown, wrong);
    assert_eq!(unknown.unwrap_err().message(), wrong.unwrap_err().message());
}

#[test]
fn the_password_of_another_user_is_wrong() {
    let mut store = store_with("alice", "id-alice", "s3cr3t!");
    let password_hash = compute_password_hash("hunter2").expect("hashing failed");
    assert!(store.insert(User {
        id: "id-bob".to_string(),
        username: "bob".to_string(),
        password_hash,
    }));
    assert_eq!(
        validate_credentials(credentials("alice", "hunter2"), &store),
        Err(AuthError::InvalidCredentials)
    );
    assert_eq!(
        validate_credentials(credentials("bob", "hunter2"), &store),
        Ok("id-bob".to_string())
    );
}

#[test]
fn a_stored_hash_that_cannot_be_read_is_no_fault_of_the_caller() {
    let mut store = CredentialStore::new();
    assert!(store.insert(User {
        id: "id-alice".to_string(),
        username: "alice".to_string(),
        password_hash: "plain text".to_string(),
    }));
    assert_eq!(
        validate_credentials(credentials("alice", "plain text"), &store),
        Err(AuthError::UnexpectedError)
    );
}

#[test]
fn the_fallback_hash_is_well_formed_and_matches_no_usual_password() {
    assert_eq!(verify_password_hash(FALLBACK_PASSWORD_HASH, "s3cr3t!"), Ok(false));
    assert_eq!(verify_password_hash(FALLBACK_PASSWORD_HASH, ""), Ok(false));
}

#[test]
fn the_decision_goes_by_the_lookup_first() {
    assert_eq!(decide_credentials(None, Ok(true)), Err(AuthError::InvalidCredentials));
    assert_eq!(decide_credentials(None, Ok(false)), Err(AuthError::InvalidCredentials));
    assert_eq!(
        decide_credentials(None, Err(HashFormatError)),
        Err(AuthError::InvalidCredentials)
    );
    assert_eq!(decide_credentials(Some("id".to_string()), Ok(true)), Ok("id".to_string()));
    assert_eq!(
        decide_credentials(Some("id".to_string()), Ok(false)),
        Err(AuthError::InvalidCredentials)
    );
    assert_eq!(
        decide_credentials(Some("id".to_string()), Err(HashFormatError)),
        Err(AuthError::UnexpectedError)
    );
}

#[test]
fn a_looked_up_user_is_checked_against_its_own_hash() {
    let password_hash = compute_password_hash("s3cr3t!").expect("hashing failed");
    let stored = Some(("id-alice".to_string(), password_hash.clone()));
    assert_eq!(check_credentials("s3cr3t!", stored), Ok("id-alice".to_string()));
    let stored = Some(("id-alice".to_string(), password_hash));
    assert_eq!(check_credentials("wrong", stored), Err(AuthError::InvalidCredentials));
    assert_eq!(check_credentials("s3cr3t!", None), Err(AuthError::InvalidCredentials));
}

#[test]
fn credentials_are_what_the_login_carries() {
    let login = Login { username: "alice".to_string(), password: "s3cr3t!".to_string() };
    let credentials = Credentials::from(login);
    assert_eq!(credentials.username, "alice");
    assert_eq!(credentials.password, "s3cr3t!");
}

#[test]
fn a_changed_password_is_the_one_that_is_accepted() {
    let mut store = store_with("alice", "id-alice", "s3cr3t!");
    assert_eq!(change_password("id-alice", "n3wPass!", &mut store), Ok(true));
    assert_eq!(
        validate_credentials(credentials("alice", "n3wPass!"), &store),
        Ok("id-alice".to_string())
    );
    assert_eq!(
        validate_credentials(credentials("alice", "s3cr3t!"), &store),
        Err(AuthError::InvalidCredentials)
    );
}

#[test]
fn changing_the_password_of_an_unknown_user_changes_nothing() {
    let mut store = store_with("alice", "id-alice", "s3cr3t!");
    assert_eq!(change_password("id-bob", "n3wPass!", &mut store), Ok(false));
    assert_eq!(
        validate_credentials(credentials("alice", "s3cr3t!"), &store),
        Ok("id-alice".to_string())
    );
}

#[test]
fn a_registered_user_is_accepted_under_its_password() {
    let mut store = CredentialStore::new();
    assert_eq!(
        japonfou::authentication::register(
            &mut store,
            "id-alice".to_string(),
            "alice".to_string(),
            "s3cr3t!"
        ),
        Ok(true)
    );
    assert_eq!(
        validate_credentials(credentials("alice", "s3cr3t!"), &store),
        Ok("id-alice".to_string())
    );
    let (_, stored_hash) = store.get_store_credentials("alice").expect("no such user");
    assert_ne!(stored_hash, "s3cr3t!");
    assert!(stored_hash.starts_with("$argon2id$"));
}

#[test]
fn a_name_that_is_taken_cannot_be_registered_again() {
    let mut store = store_with("alice", "id-alice", "s3cr3t!");
    assert_eq!(
        japonfou::authentication::register(
            &mut store,
            "id-other".to_string(),
            "alice".to_string(),
            "hunter2"
        ),
        Ok(false)
    );
    assert_eq!(
        japonfou::authentication::register(
            &mut store,
            "id-alice".to_string(),
            "other".to_string(),
            "hunter2"
        ),
        Ok(false)
    );
    assert_eq!(
        validate_credentials(credentials("alice", "hunter2"), &store),
        Err(AuthError::InvalidCredentials)
    );
    assert_eq!(store.get_store_credentials("other"), None);
}

#[test]
fn a_stored_hash_that_asks_for_too_many_lanes_is_no_fault_of_the_caller() {
    let mut store = CredentialStore::new();
    assert!(store.insert(User {
        id: "id-alice".to_string(),
        username: "alice".to_string(),
        password_hash:
            "$argon2id$v=19$m=65536,t=2,p=536870912$c29tZXNhbHQ$RdescudvJCsgt3ub+b+dWRWJTmaaJObG"
                .to_string(),
    }));
    assert_eq!(
        validate_credentials(credentials("alice", "password"), &store),
        Err(AuthError::UnexpectedError)
    );
}
