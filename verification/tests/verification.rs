use aardwolf_models::sql_types::Role as RoleName;
use aardwolf_models::store::{Store, StoreError};
use aardwolf_models::timestamp::Timestamp;
use aardwolf_models::user::email::token::HashedEmailToken;
use aardwolf_models::user::email::{
    Email, EmailToken, EmailVerificationToken, NewEmail, UnverifiedEmail, VerificationError,
};
use aardwolf_models::user::local_auth::password::{Password, Verify};
use aardwolf_models::user::local_auth::{
    CreationError, LocalAuth, NewLocalAuth, PlaintextPassword, ValidationError,
};
use aardwolf_models::user::role::user_role::UserRole;
use aardwolf_models::user::role::Role;
use aardwolf_models::user::{
    AuthenticatedUser, NewUser, QueriedUser, UnauthenticatedUser, UnverifiedUser,
    UpdateFieldError, UserLike, UserVerifyError,
};

const VERIFIED: i32 = 10;

fn at(seconds: i64) -> Timestamp {
    Timestamp::new(seconds, 0)
}

fn plain(text: &str) -> PlaintextPassword {
    PlaintextPassword::new(text.to_owned())
}

fn returned(token: &str) -> EmailVerificationToken {
    EmailVerificationToken::new(token.to_owned())
}

/// The text of the token that `cheap_email` sends.
fn cheap_token() -> String {
    "5a".repeat(32)
}

/// An address whose token is hashed at the lowest cost, to keep tests quick.
fn cheap_email(address: &str, user: &impl UserLike) -> NewEmail {
    let token = EmailToken::from_bytes(&[0x5au8; 32]);
    let hash = bcrypt::hash(token.as_str(), 4).unwrap();
    NewEmail::with_token(
        address.to_owned(),
        user,
        (token, HashedEmailToken::from_hash(hash)),
    )
    .0
}

fn store_with_verified_role() -> Store {
    let mut store = Store::new();
    store.load_role(Role::new(VERIFIED, RoleName::Verified, at(1))).unwrap();
    store
}

fn unverified(user: UnauthenticatedUser, store: &Store) -> UnverifiedUser {
    match user.to_verified(store) {
        Ok(_) => panic!("unexpected verified user"),
        Err(user) => user,
    }
}

fn log_in(user: UnauthenticatedUser) -> AuthenticatedUser {
    let hash = bcrypt::hash("pw", 4).unwrap();
    let auth = LocalAuth::new(1, Password::from_hash(hash), user.id(), at(2));
    user.log_in_local(auth, plain("pw")).ok().unwrap()
}

#[test]
fn end_to_end_registration_login_and_verification() {
    let mut store = store_with_verified_role();

    // Register: a user, a password entered twice, an address with its token.
    let token = {
        let user = unverified(store.insert_user(NewUser::new()).unwrap(), &store);
        let auth = NewLocalAuth::new_from_two(&user, plain("correcthorse"), plain("correcthorse"))
            .ok()
            .unwrap();
        store.insert_local_auth(auth).ok().unwrap();
        let (new_email, token) = NewEmail::new("a@example.com".to_owned(), &user)
            .ok()
            .unwrap();
        store.insert_email(new_email).unwrap();
        token
    };
    let email_id = store.find_email_by_address("a@example.com").unwrap().id();

    // Logging in with the right password gives an unverified, authenticated user.
    {
        let (user, _email, auth) = store.lookup_user_by_email("a@example.com").unwrap();
        let user = user.log_in_local(auth, plain("correcthorse")).ok().unwrap();
        assert!(!user.is_verified(&store));
        assert_eq!(user.primary_email(), None);
    }

    // Logging in with a wrong password fails with `Password`.
    {
        let (user, _email, auth) = store.lookup_user_by_email("a@example.com").unwrap();
        assert!(matches!(
            user.log_in_local(auth, plain("wronghorse")),
            Err(VerificationError::Password)
        ));
    }

    // Verifying with the token that was issued at registration.
    {
        let (user, email, _auth) = store.lookup_user_by_email("a@example.com").unwrap();
        let user = unverified(user, &store);
        let email = match email.to_verified() {
            Ok(_) => panic!("unexpected verified email"),
            Err(email) => email,
        };
        let (user, verified) = user
            .verify(email, returned(token.as_str()))
            .ok()
            .unwrap()
            .store_verify(&mut store)
            .ok()
            .unwrap();
        assert!(user.is_verified(&store));
        assert_eq!(user.primary_email(), Some(email_id));
        assert_eq!(verified.id(), email_id);
        assert_eq!(verified.email(), "a@example.com");
        assert_eq!(verified.user_id(), user.id());
    }

    // The user is verified from now on, with the address as the primary one.
    {
        let (user, email, auth) = store.lookup_user_by_email("a@example.com").unwrap();
        assert_eq!(user.primary_email(), Some(email_id));
        assert!(email.is_verified());
        assert!(email.verification_token().is_none());
        let user = user.log_in_local(auth, plain("correcthorse")).ok().unwrap();
        assert!(user.is_verified(&store));
        assert_eq!(user.primary_email(), Some(email_id));
    }

    // A second attempt with the same token finds the address verified.
    {
        let (user, email, _auth) = store.lookup_user_by_email("a@example.com").unwrap();
        assert!(user.to_verified(&store).is_ok());
        assert!(email.to_verified().is_ok());
    }
}

/// Registers a user with an address and hands back what verification needs.
fn registered(store: &mut Store, address: &str) -> (UnverifiedUser, UnverifiedEmail) {
    let user = unverified(store.insert_user(NewUser::created(at(3))).unwrap(), store);
    let email = store.insert_email(cheap_email(address, &user)).unwrap();
    (user, email)
}

/// A second copy of an unverified address, as the store holds it.
fn reread(store: &Store, id: i32) -> UnverifiedEmail {
    match store.find_email(id).unwrap().to_verified() {
        Ok(_) => panic!("unexpected verified email"),
        Err(email) => email,
    }
}

#[test]
fn stored_verification_marks_the_email_and_the_user() {
    let mut store = store_with_verified_role();
    let (user, email) = registered(&mut store, "a@example.com");
    let user_id = user.id();
    let email_id = email.id();

    let pending = user.verify(email, returned(&cheap_token())).ok().unwrap();
    // Nothing is stored before the verification is.
    assert!(!store.has_role(user_id, RoleName::Verified));
    assert!(!store.find_email(email_id).unwrap().is_verified());

    let (user, verified) = pending.store_verify_at(at(9), &mut store).ok().unwrap();
    assert_eq!(user.id(), user_id);
    assert_eq!(user.primary_email(), Some(email_id));
    assert_eq!(user.created_at(), at(3));
    assert_eq!(verified.id(), email_id);
    assert!(user.is_verified(&store));

    let row = store.find_email(email_id).unwrap();
    assert!(row.is_verified());
    assert!(row.verification_token().is_none());
    assert_eq!(row.email(), "a@example.com");
    assert_eq!(store.find_user(user_id).unwrap().primary_email(), Some(email_id));
    let grants = store.user_role_rows();
    assert_eq!(grants.len(), 1);
    assert_eq!(grants[0].user_id(), user_id);
    assert_eq!(grants[0].role_id(), VERIFIED);
    assert_eq!(grants[0].created_at(), at(9));
}

#[test]
fn wrong_token_is_rejected_and_stores_nothing() {
    let mut store = store_with_verified_role();
    let (user, email) = registered(&mut store, "a@example.com");
    let email_id = email.id();
    assert!(matches!(
        user.verify(email, returned(&"00".repeat(32))),
        Err(VerificationError::Password)
    ));
    assert!(!store.find_email(email_id).unwrap().is_verified());
    assert!(store.user_role_rows().is_empty());
}

#[test]
fn email_without_a_token_cannot_be_verified() {
    let email = Email::new(4, "a@example.com".to_owned(), 1, false, None).unwrap();
    let email = match email.to_verified() {
        Ok(_) => panic!("unexpected verified email"),
        Err(email) => email,
    };
    assert!(matches!(
        email.verify(returned(&cheap_token())),
        Err(VerificationError::Process)
    ));
}

#[test]
fn email_with_an_unusable_token_hash_cannot_be_verified() {
    let hash = Some(HashedEmailToken::from_hash("garbage".to_owned()));
    let email = Email::new(4, "a@example.com".to_owned(), 1, false, hash).unwrap();
    let email = match email.to_verified() {
        Ok(_) => panic!("unexpected verified email"),
        Err(email) => email,
    };
    assert!(matches!(
        email.verify(returned(&cheap_token())),
        Err(VerificationError::Process)
    ));
}

#[test]
fn verified_email_record_is_split_off_as_verified() {
    let email = Email::new(4, "a@example.com".to_owned(), 1, true, None).unwrap();
    let verified = email.to_verified().ok().unwrap();
    assert_eq!(verified.id(), 4);
    assert_eq!(verified.email(), "a@example.com");
    assert_eq!(verified.user_id(), 1);
}

#[test]
fn unverified_email_record_keeps_its_values() {
    let hash = Some(HashedEmailToken::from_hash("hash".to_owned()));
    let email = Email::new(4, "a@example.com".to_owned(), 1, false, hash).unwrap();
    assert_eq!(email.duplicate().verification_token().unwrap().as_hash(), "hash");
    let unverified = match email.to_verified() {
        Ok(_) => panic!("unexpected verified email"),
        Err(email) => email,
    };
    assert_eq!(unverified.id(), 4);
    assert_eq!(unverified.email(), "a@example.com");
    assert_eq!(unverified.user_id(), 1);
}

#[test]
fn second_verification_of_a_stored_verification_is_a_conflict() {
    let mut store = store_with_verified_role();
    let (user, email) = registered(&mut store, "a@example.com");
    let user_id = user.id();
    let email_id = email.id();
    // Two requests read the address before either is stored.
    let stale = reread(&store, email_id);
    let stale_user = unverified(UnauthenticatedUser::new(user_id, at(3), None), &store);

    let first = user.verify(email, returned(&cheap_token())).ok().unwrap();
    let second = stale_user.verify(stale, returned(&cheap_token())).ok().unwrap();
    assert!(first.store_verify_at(at(9), &mut store).is_ok());
    assert!(matches!(
        second.store_verify_at(at(10), &mut store),
        Err(UserVerifyError::Store(StoreError::Conflict))
    ));
    assert_eq!(store.user_role_rows().len(), 1);
    assert_eq!(store.user_role_rows()[0].created_at(), at(9));
    assert!(store.find_email(email_id).unwrap().is_verified());
}

#[test]
fn verification_for_another_user_is_an_id_mismatch() {
    let mut store = store_with_verified_role();
    let (_owner, email) = registered(&mut store, "a@example.com");
    let email_id = email.id();
    let other = unverified(store.insert_user(NewUser::created(at(4))).unwrap(), &store);
    let other_id = other.id();

    let pending = other.verify(email, returned(&cheap_token())).ok().unwrap();
    assert!(matches!(
        pending.store_verify_at(at(9), &mut store),
        Err(UserVerifyError::IdMismatch)
    ));
    assert!(!store.find_email(email_id).unwrap().is_verified());
    assert!(store.find_email(email_id).unwrap().verification_token().is_some());
    assert!(!store.has_role(other_id, RoleName::Verified));
    assert!(store.user_role_rows().is_empty());
    assert_eq!(store.find_user(other_id).unwrap().primary_email(), None);
}

#[test]
fn verification_without_the_role_record_stores_nothing() {
    let mut store = Store::new();
    let (user, email) = registered(&mut store, "a@example.com");
    let user_id = user.id();
    let email_id = email.id();
    let pending = user.verify(email, returned(&cheap_token())).ok().unwrap();
    assert!(matches!(
        pending.store_verify_at(at(9), &mut store),
        Err(UserVerifyError::Store(StoreError::NotFound))
    ));
    assert!(!store.find_email(email_id).unwrap().is_verified());
    assert_eq!(store.find_user(user_id).unwrap().primary_email(), None);
    assert!(store.user_role_rows().is_empty());
}

#[test]
fn verification_of_an_unrecorded_user_stores_nothing() {
    let mut store = store_with_verified_role();
    let ghost = unverified(UnauthenticatedUser::new(500, at(3), None), &store);
    let email = store.insert_email(cheap_email("a@example.com", &ghost)).unwrap();
    let email_id = email.id();
    let pending = ghost.verify(email, returned(&cheap_token())).ok().unwrap();
    assert!(matches!(
        pending.store_verify_at(at(9), &mut store),
        Err(UserVerifyError::Store(StoreError::NotFound))
    ));
    assert!(!store.find_email(email_id).unwrap().is_verified());
    assert!(store.user_role_rows().is_empty());
}

#[test]
fn verification_of_an_unrecorded_email_stores_nothing() {
    let mut store = store_with_verified_role();
    let mut elsewhere = Store::new();
    let user = unverified(store.insert_user(NewUser::created(at(3))).unwrap(), &store);
    let user_id = user.id();
    let email = elsewhere
        .insert_email(cheap_email("a@example.com", &user))
        .unwrap();
    let pending = user.verify(email, returned(&cheap_token())).ok().unwrap();
    assert!(matches!(
        pending.store_verify_at(at(9), &mut store),
        Err(UserVerifyError::Store(StoreError::NotFound))
    ));
    assert!(!store.has_role(user_id, RoleName::Verified));
    assert_eq!(store.find_user(user_id).unwrap().primary_email(), None);
}

#[test]
fn verification_when_grant_ids_are_used_up_stores_nothing() {
    let mut store = store_with_verified_role();
    store
        .load_user_role(UserRole::new(i32::MAX, 900, VERIFIED, at(1)))
        .unwrap();
    let (user, email) = registered(&mut store, "a@example.com");
    let email_id = email.id();
    let pending = user.verify(email, returned(&cheap_token())).ok().unwrap();
    assert!(matches!(
        pending.store_verify_at(at(9), &mut store),
        Err(UserVerifyError::Store(StoreError::OutOfIds))
    ));
    assert!(!store.find_email(email_id).unwrap().is_verified());
    assert_eq!(store.user_role_rows().len(), 1);
}

#[test]
fn verification_of_a_user_who_holds_the_role_adds_no_grant() {
    let mut store = store_with_verified_role();
    let row = store.insert_user(NewUser::created(at(3))).unwrap();
    let user_id = row.id();
    let user = unverified(row, &store);
    let email = store.insert_email(cheap_email("a@example.com", &user)).unwrap();
    let email_id = email.id();
    let pending = user.verify(email, returned(&cheap_token())).ok().unwrap();
    store
        .load_user_role(UserRole::new(1, user_id, VERIFIED, at(5)))
        .unwrap();
    let (user, _verified) = pending.store_verify_at(at(9), &mut store).ok().unwrap();
    assert_eq!(store.user_role_rows().len(), 1);
    assert_eq!(store.user_role_rows()[0].created_at(), at(5));
    assert_eq!(user.primary_email(), Some(email_id));
    assert!(store.find_email(email_id).unwrap().is_verified());
}

#[test]
fn primary_email_of_another_user_is_refused_and_nothing_is_written() {
    let mut store = store_with_verified_role();
    let row = store.insert_user(NewUser::created(at(3))).unwrap();
    let user_id = row.id();
    let mut user = log_in(row);
    let foreign = Email::new(8, "b@example.com".to_owned(), user_id + 1, true, None)
        .unwrap()
        .to_verified()
        .ok()
        .unwrap();
    assert!(matches!(
        user.set_default_email(&foreign, &mut store),
        Err(UpdateFieldError::Relation)
    ));
    assert_eq!(user.primary_email(), None);
    assert_eq!(store.find_user(user_id).unwrap().primary_email(), None);
}

#[test]
fn primary_email_of_the_user_is_set_in_the_store_and_in_memory() {
    let mut store = store_with_verified_role();
    store.load_user(QueriedUser::new(70, at(1), Some(2))).unwrap();
    let row = store.insert_user(NewUser::created(at(3))).unwrap();
    let user_id = row.id();
    let mut user = log_in(row);
    let own = Email::new(8, "b@example.com".to_owned(), user_id, true, None)
        .unwrap()
        .to_verified()
        .ok()
        .unwrap();
    assert!(matches!(user.set_default_email(&own, &mut store), Ok(())));
    assert_eq!(user.primary_email(), Some(8));
    assert_eq!(store.find_user(user_id).unwrap().primary_email(), Some(8));
    assert_eq!(store.find_user(70).unwrap().primary_email(), Some(2));
}

#[test]
fn primary_email_of_an_unrecorded_user_is_not_found() {
    let mut store = Store::new();
    let mut user = log_in(UnauthenticatedUser::new(3, at(1), None));
    let own = Email::new(8, "b@example.com".to_owned(), 3, true, None)
        .unwrap()
        .to_verified()
        .ok()
        .unwrap();
    assert!(matches!(
        user.set_default_email(&own, &mut store),
        Err(UpdateFieldError::Store(StoreError::NotFound))
    ));
    assert_eq!(user.primary_email(), None);
}

#[test]
fn password_record_of_another_user_is_a_process_error() {
    let hash = bcrypt::hash("pw", 4).unwrap();
    let auth = LocalAuth::new(1, Password::from_hash(hash), 2, at(2));
    let user = UnauthenticatedUser::new(3, at(1), None);
    assert!(matches!(
        user.log_in_local(auth, plain("pw")),
        Err(VerificationError::Process)
    ));
}

#[test]
fn login_keeps_the_values_of_the_user() {
    let hash = bcrypt::hash("pw", 4).unwrap();
    let auth = LocalAuth::new(1, Password::from_hash(hash), 3, at(2));
    let user = UnauthenticatedUser::new(3, at(1), Some(12));
    let user = user.log_in_local(auth, plain("pw")).ok().unwrap();
    assert_eq!(user.id(), 3);
    assert_eq!(user.created_at(), at(1));
    assert_eq!(user.primary_email(), Some(12));
}

#[test]
fn login_with_a_corrupted_hash_is_a_process_error() {
    let auth = LocalAuth::new(1, Password::from_hash("corrupted".to_owned()), 3, at(2));
    let user = UnauthenticatedUser::new(3, at(1), None);
    assert!(matches!(
        user.log_in_local(auth, plain("pw")),
        Err(VerificationError::Process)
    ));
}

#[test]
fn unverified_user_shows_no_primary_email() {
    let store = store_with_verified_role();
    let user = unverified(UnauthenticatedUser::new(3, at(1), Some(12)), &store);
    assert_eq!(user.id(), 3);
    assert_eq!(user.created_at(), at(1));
    assert_eq!(user.primary_email(), None);
}

#[test]
fn verified_user_stays_as_looked_up() {
    let mut store = store_with_verified_role();
    store.load_user_role(UserRole::new(1, 3, VERIFIED, at(2))).unwrap();
    let user = UnauthenticatedUser::new(3, at(1), Some(12));
    let user = user.to_verified(&store).ok().unwrap();
    assert_eq!(user.id(), 3);
    assert_eq!(user.primary_email(), Some(12));
}

#[test]
fn new_password_record_is_validated() {
    let user = QueriedUser::new(3, at(1), None);
    assert!(matches!(
        NewLocalAuth::new(&user, plain("")),
        Err(CreationError { rejected: Some(ValidationError::Empty) })
    ));
    assert!(matches!(
        NewLocalAuth::new(&user, plain(&"x".repeat(73))),
        Err(CreationError { rejected: Some(ValidationError::TooLong) })
    ));
    assert!(matches!(
        NewLocalAuth::new_from_two(&user, plain("correcthorse"), plain("correcthorsf")),
        Err(CreationError { rejected: Some(ValidationError::Mismatch) })
    ));
    assert!(matches!(
        NewLocalAuth::new_from_two(&user, plain(""), plain("")),
        Err(CreationError { rejected: Some(ValidationError::Empty) })
    ));
}

#[test]
fn new_password_record_belongs_to_the_user_and_accepts_the_password() {
    let user = QueriedUser::new(3, at(1), None);
    let made = NewLocalAuth::new(&user, plain("correcthorse")).ok().unwrap();
    assert_eq!(made.user_id(), 3);
    assert_eq!(made.password().verify(plain("correcthorse")), Ok(()));
    assert!(Timestamp::new(1_577_836_800, 0).is_before(&made.created_at()));
}

#[test]
fn new_email_belongs_to_the_user_and_its_hash_accepts_the_token() {
    let user = QueriedUser::new(3, at(1), None);
    let (new_email, token) = NewEmail::new("a@example.com".to_owned(), &user)
        .ok()
        .unwrap();
    assert_eq!(new_email.email(), "a@example.com");
    assert_eq!(new_email.user_id(), 3);
    assert_eq!(token.as_str().len(), 64);
    assert!(token
        .as_str()
        .chars()
        .all(|c| c.is_ascii_digit() || ('a'..='f').contains(&c)));
    assert_eq!(
        new_email
            .verification_token()
            .verify_email(&returned(&"00".repeat(32))),
        Err(VerificationError::Password)
    );
    assert_eq!(
        new_email.verification_token().verify_email(&returned(token.as_str())),
        Ok(())
    );
}
