use aardwolf_models::store::StoreError;
use aardwolf_models::user::email::token::{CreationError as TokenCreationError, EmailToken};
use aardwolf_models::user::local_auth::{CreationError, ValidationError, VerificationError};
use aardwolf_models::user::{UpdateFieldError, UserVerifyError};

#[test]
fn missing_random_bytes_are_an_entropy_error() {
    assert!(matches!(
        EmailToken::from_drawn(None),
        Err(TokenCreationError::Entropy)
    ));
    let token = EmailToken::from_drawn(Some([0x10u8; 32])).ok().unwrap();
    assert_eq!(token.as_str(), "10".repeat(32));
    assert_eq!(TokenCreationError::Entropy.message(), "Error creating token");
}

#[test]
fn update_errors_carry_over_to_verification_errors() {
    assert_eq!(
        UserVerifyError::from(UpdateFieldError::Relation),
        UserVerifyError::IdMismatch
    );
    assert_eq!(
        UserVerifyError::from(UpdateFieldError::Store(StoreError::NotFound)),
        UserVerifyError::Store(StoreError::NotFound)
    );
    assert_eq!(
        UserVerifyError::from_update(UpdateFieldError::Store(StoreError::Conflict)),
        UserVerifyError::Store(StoreError::Conflict)
    );
    assert_eq!(
        UserVerifyError::from_update(UpdateFieldError::Relation),
        UserVerifyError::IdMismatch
    );
}

#[test]
fn store_errors_carry_over() {
    assert_eq!(
        UserVerifyError::from(StoreError::OutOfIds),
        UserVerifyError::Store(StoreError::OutOfIds)
    );
    assert_eq!(
        UpdateFieldError::from(StoreError::UniqueViolation),
        UpdateFieldError::Store(StoreError::UniqueViolation)
    );
}

#[test]
fn errors_have_their_messages() {
    assert_eq!(
        VerificationError::Process.message(),
        "Error validating password"
    );
    assert_eq!(VerificationError::Password.message(), "Invalid password");
    assert_eq!(
        CreationError { rejected: None }.message(),
        "Error creating password"
    );
    assert_eq!(
        CreationError { rejected: Some(ValidationError::Empty) }.message(),
        "Error creating password"
    );
    assert_eq!(
        UserVerifyError::IdMismatch.message(),
        "Cannot verify user with other user's ID"
    );
    assert_eq!(
        UserVerifyError::Store(StoreError::NotFound).message(),
        "Error in the store"
    );
    assert_eq!(
        UpdateFieldError::Relation.message(),
        "Provided records are not related"
    );
    assert_eq!(
        UpdateFieldError::Store(StoreError::NotFound).message(),
        "Error updating record"
    );
}
