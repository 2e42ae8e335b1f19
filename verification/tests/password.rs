use backend::error::AppError;
use backend::password::{hash_password, verify_password};

#[test]
fn hashed_password_verifies() {
    let digest = hash_password("secret1").expect("hashing works");
    assert_ne!(digest, "secret1");
    assert_eq!(digest.len(), 60);
    assert!(digest.starts_with("$2b$12$"));
    assert_eq!(verify_password("secret1", &digest).ok(), Some(true));
}

#[test]
fn hashing_salts() {
    let one = hash_password("secret1").expect("hashing works");
    let two = hash_password("secret1").expect("hashing works");
    assert_ne!(one, two);
}

#[test]
fn known_digest_verifies() {
    let digest = "$2b$04$EGdrhbKUv8Oc9vGiXX0HQOxSg445d458Muh7DAHskb6QbtCvdxcie";
    assert_eq!(verify_password("correctbatteryhorsestapler", digest).ok(), Some(true));
}

#[test]
fn wrong_password_is_false_not_an_error() {
    let digest = "$2b$04$EGdrhbKUv8Oc9vGiXX0HQOxSg445d458Muh7DAHskb6QbtCvdxcie";
    assert_eq!(verify_password("wrong", digest).ok(), Some(false));
    assert_eq!(verify_password("", digest).ok(), Some(false));
}

#[test]
fn unreadable_digest_is_an_internal_error() {
    for digest in ["", "plain", "$2a$04$n4Uy0eSnMfvnESYL.bLwuuj0U/ETSsoTpRT9GVk$5bektyVVa5xnIi"] {
        match verify_password("correctbatteryhorsestapler", digest) {
            Err(AppError::HttpError(status, detail)) => {
                assert_eq!(status, 500);
                assert_eq!(detail, "Failed to verify password");
            }
            other => panic!("unexpected result {:?}", other),
        }
    }
}
