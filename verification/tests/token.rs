use japonfou::errors::AuthError;
use japonfou::token::{check_claims, Claims, JwtKey};

const SECRET: &[u8] = b"a-secret-of-the-tests";

#[test]
fn a_token_verifies_to_the_claims_it_was_issued_for() {
    let key = JwtKey::new(SECRET);
    let token = key.issue("7b1f4c1e-user", 2_000).expect("signing failed");
    let claims = key.verify(&token, 1_000).expect("verification failed");
    assert_eq!(claims.sub, "7b1f4c1e-user");
    assert_eq!(claims.exp, 2_000);
}

#[test]
fn a_subject_with_quotes_and_other_alphabets_comes_back_unchanged() {
    let key = JwtKey::new(SECRET);
    let subject = "a \"quoted\" \\ subject / \u{4f60}\u{597d}";
    let token = key.issue(subject, 10).expect("signing failed");
    let claims = key.verify(&token, 9).expect("verification failed");
    assert_eq!(claims.sub, subject);
    assert_eq!(claims.exp, 10);
}

#[test]
fn issuing_is_a_function_of_its_arguments() {
    let key = JwtKey::new(SECRET);
    let first = key.issue("alice", 2_000).expect("signing failed");
    let second = key.issue("alice", 2_000).expect("signing failed");
    assert_eq!(first, second);
    assert_ne!(first, key.issue("alice", 2_001).expect("signing failed"));
    assert_ne!(first, key.issue("bob", 2_000).expect("signing failed"));
}

#[test]
fn a_token_has_three_parts_and_is_not_its_subject() {
    let key = JwtKey::new(SECRET);
    let token = key.issue("alice", 2_000).expect("signing failed");
    assert_eq!(token.split('.').count(), 3);
    assert_ne!(token, "alice");
}

#[test]
fn the_library_claims_are_what_jsonwebtoken_reads() {
    let key = JwtKey::new(SECRET);
    let token = key.issue("alice", 4_102_444_800).expect("signing failed");
    let data = jsonwebtoken::decode::<serde_json::Value>(
        &token,
        &jsonwebtoken::DecodingKey::from_secret(SECRET),
        &jsonwebtoken::Validation::new(jsonwebtoken::Algorithm::HS256),
    )
    .expect("jsonwebtoken turned the token down");
    assert_eq!(data.claims.get("sub").and_then(|v| v.as_str()), Some("alice"));
    assert_eq!(
        data.claims.get("exp").and_then(|v| v.as_u64()),
        Some(4_102_444_800)
    );
}

#[test]
fn a_token_signed_with_another_key_is_invalid() {
    let token = JwtKey::new(b"another secret")
        .issue("alice", 2_000)
        .expect("signing failed");
    let r = JwtKey::new(SECRET).verify(&token, 1_000);
    assert_eq!(r.err(), Some(AuthError::InvalidCredentials));
}

#[test]
fn a_malformed_token_is_invalid() {
    let key = JwtKey::new(SECRET);
    assert_eq!(key.verify("", 0).err(), Some(AuthError::InvalidCredentials));
    assert_eq!(key.verify("a.b.c", 0).err(), Some(AuthError::InvalidCredentials));
    assert_eq!(
        key.verify("not a token", 0).err(),
        Some(AuthError::InvalidCredentials)
    );
}

#[test]
fn a_tampered_token_is_invalid() {
    let key = JwtKey::new(SECRET);
    let token = key.issue("alice", 2_000).expect("signing failed");
    let other = key.issue("mallory", 2_000).expect("signing failed");
    let signature = token.rsplit('.').next().unwrap();
    let mut parts: Vec<&str> = other.split('.').collect();
    parts[2] = signature;
    let forged = parts.join(".");
    assert_eq!(
        key.verify(&forged, 1_000).err(),
        Some(AuthError::InvalidCredentials)
    );
}

#[test]
fn a_token_has_run_out_at_its_expiry() {
    let key = JwtKey::new(SECRET);
    let token = key.issue("alice", 2_000).expect("signing failed");
    assert!(key.verify(&token, 1_999).is_ok());
    assert_eq!(
        key.verify(&token, 2_000).err(),
        Some(AuthError::ExpiredCredentials)
    );
    assert_eq!(
        key.verify(&token, 2_001).err(),
        Some(AuthError::ExpiredCredentials)
    );
}

#[test]
fn the_signature_counts_before_the_expiry() {
    let token = JwtKey::new(b"another secret")
        .issue("alice", 2_000)
        .expect("signing failed");
    let r = JwtKey::new(SECRET).verify(&token, 5_000);
    assert_eq!(r.err(), Some(AuthError::InvalidCredentials));
}

#[test]
fn claims_that_were_not_read_are_invalid_credentials() {
    assert_eq!(
        check_claims(None, 0).err(),
        Some(AuthError::InvalidCredentials)
    );
    let claims = Claims { sub: "alice".to_string(), exp: 5 };
    assert_eq!(
        check_claims(Some(claims), 5).err(),
        Some(AuthError::ExpiredCredentials)
    );
    let claims = Claims { sub: "alice".to_string(), exp: 5 };
    let accepted = check_claims(Some(claims), 4).expect("claims were turned down");
    assert_eq!((accepted.sub.as_str(), accepted.exp), ("alice", 5));
}

#[test]
fn a_token_without_expiry_is_invalid() {
    let mut claims = serde_json::Map::new();
    claims.insert("sub".to_string(), serde_json::Value::from("alice"));
    let token = jsonwebtoken::encode(
        &jsonwebtoken::Header::default(),
        &serde_json::Value::Object(claims),
        &jsonwebtoken::EncodingKey::from_secret(SECRET),
    )
    .expect("signing failed");
    assert_eq!(
        JwtKey::new(SECRET).verify(&token, 0).err(),
        Some(AuthError::InvalidCredentials)
    );
}
