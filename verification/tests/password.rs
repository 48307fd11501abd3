use aardwolf_models::user::local_auth::password::{
    judge, Create, CreationError, Password, PasswordPolicy, PlaintextPassword, ValidationError,
    VerificationError, Verify, MAX_PASSWORD_BYTES, REDACTION,
};

fn plain(text: &str) -> PlaintextPassword {
    PlaintextPassword::new(text.to_owned())
}

#[test]
fn empty_password_is_rejected() {
    let result = plain("").validate();
    assert!(matches!(result, Err(ValidationError::Empty)));
}

#[test]
fn one_byte_password_passes_the_standard_policy() {
    let validated = plain("x").validate();
    assert!(validated.is_ok());
    assert_eq!(validated.unwrap().byte_len(), 1);
}

#[test]
fn password_of_the_maximum_length_passes() {
    let text = "a".repeat(MAX_PASSWORD_BYTES);
    let validated = plain(&text).validate().unwrap();
    assert_eq!(validated.byte_len(), 72);
}

#[test]
fn password_over_the_maximum_length_is_rejected() {
    let text = "a".repeat(MAX_PASSWORD_BYTES + 1);
    assert!(matches!(plain(&text).validate(), Err(ValidationError::TooLong)));
}

#[test]
fn length_is_counted_in_bytes() {
    // 36 characters of two bytes each pass, 37 do not.
    let fits = "é".repeat(36);
    let too_long = "é".repeat(37);
    assert!(plain(&fits).validate().is_ok());
    assert!(matches!(plain(&too_long).validate(), Err(ValidationError::TooLong)));
}

#[test]
fn short_password_is_rejected_by_a_stricter_policy() {
    let policy = PasswordPolicy::new(8, 64);
    assert!(matches!(
        plain("short").validate_with(&policy),
        Err(ValidationError::TooShort)
    ));
    assert!(plain("longenough").validate_with(&policy).is_ok());
    assert!(matches!(
        plain(&"b".repeat(65)).validate_with(&policy),
        Err(ValidationError::TooLong)
    ));
}

#[test]
fn policy_cannot_raise_the_ceiling() {
    let policy = PasswordPolicy::new(1, 500);
    assert!(matches!(
        plain(&"c".repeat(73)).validate_with(&policy),
        Err(ValidationError::TooLong)
    ));
    assert_eq!(policy.check(&"c".repeat(72)), Ok(()));
}

#[test]
fn policy_cannot_admit_the_empty_password() {
    let policy = PasswordPolicy::new(0, 10);
    assert_eq!(policy.check(""), Err(ValidationError::Empty));
}

#[test]
fn compare_accepts_the_same_text() {
    let validated = plain("correcthorse").validate().unwrap();
    assert!(validated.compare(plain("correcthorse")).is_ok());
}

#[test]
fn compare_rejects_another_text() {
    let validated = plain("correcthorse").validate().unwrap();
    assert!(matches!(
        validated.compare(plain("correcthorsE")),
        Err(ValidationError::Mismatch)
    ));
}

#[test]
fn created_password_accepts_its_plaintext() {
    let validated = plain("correcthorse").validate().unwrap();
    let stored = Password::create(validated).ok().unwrap();
    assert_eq!(stored.verify(plain("correcthorse")), Ok(()));
}

#[test]
fn created_password_rejects_another_plaintext() {
    let validated = plain("correcthorse").validate().unwrap();
    let stored = Password::create(validated).ok().unwrap();
    assert_eq!(
        stored.verify(plain("batterystaple")),
        Err(VerificationError::Password)
    );
}

#[test]
fn created_hash_is_not_the_plaintext() {
    let validated = plain("correcthorse").validate().unwrap();
    let stored = Password::create(validated).ok().unwrap();
    assert_ne!(stored.as_hash(), "correcthorse");
    assert_eq!(stored.as_hash().len(), 60);
    assert!(stored.as_hash().starts_with("$2b$12$"));
}

#[test]
fn two_hashes_of_one_password_differ_and_both_accept_it() {
    let first = Password::create(plain("correcthorse").validate().unwrap())
        .ok()
        .unwrap();
    let second = Password::create(plain("correcthorse").validate().unwrap())
        .ok()
        .unwrap();
    assert_ne!(first.as_hash(), second.as_hash());
    assert_eq!(first.verify(plain("correcthorse")), Ok(()));
    assert_eq!(second.verify(plain("correcthorse")), Ok(()));
}

#[test]
fn known_password_hash_is_verified() {
    // A bcrypt test vector: the password "a", cost 6.
    let stored = Password::from_hash(
        "$2a$06$m0CrhHm10qJ3lXRY.5zDGO3rS2KdeeWLuGmsfGlMfOxih58VYVfxe".to_owned(),
    );
    assert_eq!(stored.verify(plain("a")), Ok(()));
    assert_eq!(stored.verify(plain("b")), Err(VerificationError::Password));
}

#[test]
fn malformed_hash_is_a_process_error() {
    let stored = Password::from_hash("not a bcrypt hash".to_owned());
    assert_eq!(
        stored.verify(plain("correcthorse")),
        Err(VerificationError::Process)
    );
}

#[test]
fn hash_with_a_cost_out_of_range_is_a_process_error() {
    let stored = Password::from_hash(
        "$2a$99$m0CrhHm10qJ3lXRY.5zDGO3rS2KdeeWLuGmsfGlMfOxih58VYVfxe".to_owned(),
    );
    assert_eq!(stored.verify(plain("a")), Err(VerificationError::Process));
}

#[test]
fn judge_maps_each_verdict() {
    assert_eq!(judge(Some(true)), Ok(()));
    assert_eq!(judge(Some(false)), Err(VerificationError::Password));
    assert_eq!(judge(None), Err(VerificationError::Process));
}

#[test]
fn failed_hashing_is_a_creation_error() {
    let result = Password::from_hashing(None);
    assert!(matches!(result, Err(CreationError { rejected: None })));
    let stored = Password::from_hashing(Some("stored".to_owned())).ok().unwrap();
    assert_eq!(stored.as_hash(), "stored");
}

#[test]
fn passwords_are_shown_redacted() {
    assert_eq!(REDACTION, "********");
    assert_eq!(plain("correcthorse").redacted(), "********");
    assert_eq!(
        plain("correcthorse").validate().unwrap().redacted(),
        "********"
    );
    assert_eq!(
        Password::from_hash("$2b$12$abc".to_owned()).redacted(),
        "********"
    );
}

#[test]
fn duplicate_keeps_the_hash() {
    let stored = Password::from_hash("$2b$12$abc".to_owned());
    assert_eq!(stored.duplicate().as_hash(), "$2b$12$abc");
}
