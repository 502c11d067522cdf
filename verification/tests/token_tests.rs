use workspace_kit::errors::ErrorMessage;
use workspace_kit::token::{create_token, decode_token};

const SECRET1: &[u8] = b"first-signing-secret";
const SECRET2: &[u8] = b"second-signing-secret";

#[test]
fn issue_then_verify_returns_subject() {
    let now = 1_700_000_000u64;
    let token = create_token(&"42".to_string(), SECRET1, 3600, now).unwrap();
    let subject = decode_token(&token, SECRET1, now).unwrap();
    assert_eq!(subject, "42");
}

#[test]
fn issue_then_verify_returns_subject_for_text_subject() {
    let now = 1_700_000_000u64;
    let token = create_token(&"user-abc".to_string(), SECRET1, 60, now).unwrap();
    let subject = decode_token(&token, SECRET1, now + 60).unwrap();
    assert_eq!(subject, "user-abc");
}

#[test]
fn token_signed_with_other_secret_never_verifies() {
    let now = 1_700_000_000u64;
    for subject in ["1", "42", "someone", "a-long-subject-payload"] {
        let token = create_token(&subject.to_string(), SECRET2, 3600, now).unwrap();
        let r = decode_token(&token, SECRET1, now);
        assert_eq!(r.unwrap_err(), ErrorMessage::InvalidToken);
    }
}

#[test]
fn expired_token_fails_even_with_correct_secret() {
    let now = 1_700_000_000u64;
    let token = create_token(&"42".to_string(), SECRET1, 10, now).unwrap();
    // Ten seconds of validity: one second past the expiry must fail.
    let r = decode_token(&token, SECRET1, now + 11);
    assert_eq!(r.unwrap_err(), ErrorMessage::InvalidToken);
    // At the embedded expiry itself the token still verifies.
    assert_eq!(decode_token(&token, SECRET1, now + 10).unwrap(), "42");
}

#[test]
fn empty_subject_is_rejected() {
    let r = create_token(&String::new(), SECRET1, 3600, 1_700_000_000);
    assert_eq!(r.unwrap_err(), ErrorMessage::InvalidToken);
}

#[test]
fn malformed_token_fails() {
    let r = decode_token(&"not.a.token".to_string(), SECRET1, 1_700_000_000);
    assert_eq!(r.unwrap_err(), ErrorMessage::InvalidToken);
}

#[test]
fn tampered_token_fails() {
    let now = 1_700_000_000u64;
    let token = create_token(&"42".to_string(), SECRET1, 3600, now).unwrap();
    // Change the first character of the payload segment.
    let dot = token.find('.').unwrap();
    let mut chars: Vec<char> = token.chars().collect();
    chars[dot + 1] = if chars[dot + 1] == 'A' { 'B' } else { 'A' };
    let tampered: String = chars.into_iter().collect();
    assert!(decode_token(&tampered, SECRET1, now).is_err());
}
