use workspace_kit::errors::ErrorMessage;
use workspace_kit::password::{compare, hash_password};

#[test]
fn hash_then_compare_matches() {
    let hash = hash_password(b"Sup3r$ecret").unwrap();
    assert_eq!(compare(b"Sup3r$ecret", &hash).unwrap(), true);
}

#[test]
fn compare_rejects_wrong_password() {
    let hash = hash_password(b"Sup3r$ecret").unwrap();
    assert_eq!(compare(b"Wr0ng#pass!", &hash).unwrap(), false);
}

#[test]
fn empty_password_is_rejected() {
    assert_eq!(hash_password(b"").unwrap_err(), ErrorMessage::EmptyPassword);
    assert_eq!(
        compare(b"", &"$argon2id$x".to_string()).unwrap_err(),
        ErrorMessage::EmptyPassword
    );
}

#[test]
fn short_password_is_rejected() {
    assert_eq!(
        hash_password(b"short1!").unwrap_err(),
        ErrorMessage::PasswordTooShort(7)
    );
}

#[test]
fn long_password_is_rejected() {
    let long = [b'a'; 65];
    assert_eq!(
        hash_password(&long).unwrap_err(),
        ErrorMessage::ExceededMaxPasswordLength(65)
    );
}

#[test]
fn malformed_hash_is_its_own_error() {
    assert_eq!(
        compare(b"Sup3r$ecret", &"not-a-phc-string".to_string()).unwrap_err(),
        ErrorMessage::InvalidHashFormat
    );
}
