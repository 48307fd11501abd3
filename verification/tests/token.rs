use aardwolf_models::user::email::token::{
    create_token, pair_with_hash, CreationError, EmailToken, EmailVerificationToken,
    HashedEmailToken, TOKEN_BYTES, TOKEN_LENGTH,
};
use aardwolf_models::user::email::VerificationError;

fn returned(token: &EmailToken) -> EmailVerificationToken {
    EmailVerificationToken::new(token.as_str().to_owned())
}

#[test]
fn token_text_is_the_hex_of_its_bytes() {
    let mut bytes = [0u8; 32];
    bytes[0] = 0x00;
    bytes[1] = 0x0f;
    bytes[2] = 0xa5;
    bytes[31] = 0xff;
    let token = EmailToken::from_bytes(&bytes);
    let mut expected = String::from("000fa5");
    expected.push_str(&"00".repeat(28));
    expected.push_str("ff");
    assert_eq!(token.as_str(), expected);
}

#[test]
fn token_text_is_lower_case_and_high_digit_first() {
    let mut bytes = [0u8; 32];
    for (i, byte) in bytes.iter_mut().enumerate() {
        *byte = (i as u8) * 8 + 1;
    }
    let token = EmailToken::from_bytes(&bytes);
    assert_eq!(
        token.as_str(),
        "0109111921293139414951596169717981899199a1a9b1b9c1c9d1d9e1e9f1f9"
    );
}

#[test]
fn token_has_two_characters_per_byte() {
    assert_eq!(TOKEN_BYTES, 32);
    assert_eq!(TOKEN_LENGTH, 64);
    let token = EmailToken::from_bytes(&[0xabu8; 32]);
    assert_eq!(token.as_str().len(), TOKEN_LENGTH);
    assert_eq!(token.as_str(), "ab".repeat(32));
}

#[test]
fn created_token_is_verified_by_its_own_hash() {
    let (token, hashed) = create_token().ok().unwrap();
    assert_eq!(token.as_str().len(), TOKEN_LENGTH);
    assert!(token
        .as_str()
        .chars()
        .all(|c| c.is_ascii_digit() || ('a'..='f').contains(&c)));
    assert_eq!(hashed.verify_email(&returned(&token)), Ok(()));
}

#[test]
fn tokens_of_two_calls_do_not_verify_each_other() {
    let (first, first_hash) = create_token().ok().unwrap();
    let (second, second_hash) = create_token().ok().unwrap();
    assert_ne!(first.as_str(), second.as_str());
    assert_eq!(
        first_hash.verify_email(&returned(&second)),
        Err(VerificationError::Password)
    );
    assert_eq!(
        second_hash.verify_email(&returned(&first)),
        Err(VerificationError::Password)
    );
}

#[test]
fn hash_of_a_token_is_not_its_plaintext() {
    let (token, hashed) = create_token().ok().unwrap();
    assert_ne!(token.as_str(), hashed.as_hash());
    assert_eq!(hashed.as_hash().len(), 60);
}

#[test]
fn unusable_token_hash_is_a_process_error() {
    let hashed = HashedEmailToken::from_hash("garbage".to_owned());
    assert_eq!(
        hashed.verify_email(&EmailVerificationToken::new("00".repeat(32))),
        Err(VerificationError::Process)
    );
}

#[test]
fn known_token_hash_is_checked() {
    let hash = bcrypt::hash("ab".repeat(32), 4).unwrap();
    let hashed = HashedEmailToken::from_hash(hash);
    assert_eq!(
        hashed.verify_email(&EmailVerificationToken::new("ab".repeat(32))),
        Ok(())
    );
    assert_eq!(
        hashed.verify_email(&EmailVerificationToken::new("ac".repeat(32))),
        Err(VerificationError::Password)
    );
    assert_eq!(hashed.duplicate().as_hash(), hashed.as_hash());
}

#[test]
fn failed_token_hashing_is_a_creation_error() {
    let token = EmailToken::from_bytes(&[1u8; 32]);
    assert!(matches!(
        pair_with_hash(token, None),
        Err(CreationError::Hashing)
    ));
}

#[test]
fn token_is_paired_with_its_hash() {
    let token = EmailToken::from_bytes(&[1u8; 32]);
    let (token, hashed) = pair_with_hash(token, Some("the hash".to_owned()))
        .ok()
        .unwrap();
    assert_eq!(token.as_str(), "01".repeat(32));
    assert_eq!(hashed.as_hash(), "the hash");
}
