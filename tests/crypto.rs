use users_service::credential::{Model, NewCredential};
use users_service::crypto::{generate_salt, hash_password};

#[test]
fn hash_is_deterministic() {
    let a = hash_password("pw123".to_string(), "salt".to_string());
    let b = hash_password("pw123".to_string(), "salt".to_string());
    assert_eq!(a, b);
}

#[test]
fn hash_is_sha256_of_password_then_salt() {
    assert_eq!(
        hash_password("pw123".to_string(), "salt".to_string()),
        "61073cedd471a7aad83dbd93d2302477038915d70e0c0fbbdc9c78990f4d7a30"
    );
    assert_eq!(
        hash_password(String::new(), String::new()),
        "e3b0c44298fc1c149afbf4c8996fb92427ae41e4649b934ca495991b7852b855"
    );
}

#[test]
fn hash_depends_on_order_and_salt() {
    let a = hash_password("pw".to_string(), "s1".to_string());
    let b = hash_password("pw".to_string(), "s2".to_string());
    let c = hash_password("s1".to_string(), "pw".to_string());
    assert_ne!(a, b);
    assert_ne!(a, c);
}

#[test]
fn hash_is_sixty_four_lower_hex_digits() {
    let h = hash_password("anything".to_string(), generate_salt());
    assert_eq!(h.len(), 64);
    assert!(h.chars().all(|c| c.is_ascii_digit() || ('a'..='f').contains(&c)));
}

#[test]
fn salt_is_thirty_two_alphanumerics() {
    let s = generate_salt();
    assert_eq!(s.chars().count(), 32);
    assert!(s.chars().all(|c| c.is_ascii_alphanumeric()));
}

#[test]
fn salts_differ() {
    assert_ne!(generate_salt(), generate_salt());
}

#[test]
fn credential_verifies_its_password() {
    let salt = generate_salt();
    let c = Model {
        id: 1,
        user_id: 2,
        password: hash_password("pw123".to_string(), salt.clone()),
        salt,
    };
    assert!(c.verify_password("pw123".to_string()));
    assert!(!c.verify_password("wrong".to_string()));
    assert!(!c.verify_password(String::new()));
}

#[test]
fn with_password_replaces_salt_and_digest_together() {
    let c = Model {
        id: 4,
        user_id: 9,
        password: hash_password("old".to_string(), "s0".to_string()),
        salt: "s0".to_string(),
    };
    let n = c.with_password("new".to_string(), "s1".to_string());
    assert_eq!(n.id, 4);
    assert_eq!(n.user_id, 9);
    assert_eq!(n.salt, "s1");
    assert_eq!(n.password, hash_password("new".to_string(), "s1".to_string()));
    assert!(n.verify_password("new".to_string()));
    assert!(!n.verify_password("old".to_string()));
}

#[test]
fn new_credential_hashes_the_password() {
    let n = NewCredential::new(3, "x".to_string(), "abc".to_string());
    assert_eq!(n.user_id, 3);
    assert_eq!(n.salt, "abc");
    assert_eq!(n.password, hash_password("x".to_string(), "abc".to_string()));
    assert_ne!(n.password, "x");
}

#[test]
fn only_the_concatenation_is_hashed() {
    assert_eq!(
        hash_password("ab".to_string(), "c".to_string()),
        hash_password("a".to_string(), "bc".to_string())
    );
}
