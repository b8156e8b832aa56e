use bearer_auth::auth::{PasswordAuth, PasswordError};
use bearer_auth::user::PublicUser;

#[test]
fn password_round_trip() {
    let auth = PasswordAuth::new();
    let record = auth.hash_password(b"hunter2").expect("hashing succeeds");
    auth.verify_password(b"hunter2", &record).expect("same password verifies");
}

#[test]
fn wrong_password_is_incorrect() {
    let auth = PasswordAuth::new();
    let record = auth.hash_password(b"hunter2").expect("hashing succeeds");
    assert!(matches!(
        auth.verify_password(b"hunter3", &record),
        Err(PasswordError::IncorrectPassword)
    ));
}

#[test]
fn two_hashes_of_one_password_differ() {
    // Each hash draws a fresh random salt, so both the salt field and the
    // digest field of the records differ.
    let auth = PasswordAuth::new();
    let first = auth.hash_password(b"hunter2").expect("hashing succeeds");
    let second = auth.hash_password(b"hunter2").expect("hashing succeeds");
    assert_ne!(first, second);

    let first_parts: Vec<&str> = first.split('$').collect();
    let second_parts: Vec<&str> = second.split('$').collect();
    // PHC form: $argon2id$v=..$m=..,t=..,p=..$<salt>$<digest>
    assert_eq!(first_parts.len(), 6);
    assert_eq!(second_parts.len(), 6);
    assert_ne!(first_parts[4], second_parts[4], "salts must differ");
    assert_ne!(first_parts[5], second_parts[5], "digests must differ");
    // Both records still verify the password they were made from.
    auth.verify_password(b"hunter2", &first).unwrap();
    auth.verify_password(b"hunter2", &second).unwrap();
}

#[test]
fn unreadable_record_is_invalid() {
    let auth = PasswordAuth::new();
    assert!(matches!(
        auth.verify_password(b"hunter2", "not-a-hash-record"),
        Err(PasswordError::InvalidPasswordHash(_))
    ));
}

#[test]
fn user_without_stored_hash_has_no_password() {
    let auth = PasswordAuth::new();
    let user = PublicUser::new("a@b.c".to_string(), "a".to_string());
    assert!(matches!(
        user.verify_password(None, &auth, "hunter2"),
        Err(PasswordError::NoPasswordFound)
    ));
}

#[test]
fn user_with_stored_hash_verifies() {
    let auth = PasswordAuth::new();
    let user = PublicUser::new("a@b.c".to_string(), "a".to_string());
    let record = auth.hash_password(b"hunter2").expect("hashing succeeds");
    user.verify_password(Some(&record), &auth, "hunter2").expect("verifies");
    assert!(matches!(
        user.verify_password(Some(&record), &auth, "other"),
        Err(PasswordError::IncorrectPassword)
    ));
}
