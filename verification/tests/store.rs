use aardwolf_models::sql_types::{Permission as PermissionName, Role as RoleName};
use aardwolf_models::store::{Store, StoreError};
use aardwolf_models::timestamp::Timestamp;
use aardwolf_models::user::email::token::HashedEmailToken;
use aardwolf_models::user::email::{Email, EmailToken, NewEmail};
use aardwolf_models::user::local_auth::password::Password;
use aardwolf_models::user::local_auth::{LocalAuth, NewLocalAuth};
use aardwolf_models::user::role::permission::Permission;
use aardwolf_models::user::role::user_role::UserRole;
use aardwolf_models::user::role::Role;
use aardwolf_models::user::{NewUser, QueriedUser, UserLike};

fn at(seconds: i64) -> Timestamp {
    Timestamp::new(seconds, 0)
}

fn new_email(address: &str, user: &QueriedUser) -> NewEmail {
    let token = (
        EmailToken::from_bytes(&[7u8; 32]),
        HashedEmailToken::from_hash("hash".to_owned()),
    );
    NewEmail::with_token(address.to_owned(), user, token).0
}

fn email(id: i32, address: &str, user_id: i32, verified: bool) -> Email {
    Email::new(id, address.to_owned(), user_id, verified, None).unwrap()
}

#[test]
fn new_store_is_empty() {
    let store = Store::new();
    assert!(store.user_rows().is_empty());
    assert!(store.email_rows().is_empty());
    assert!(store.user_role_rows().is_empty());
    assert!(store.find_user(1).is_none());
    assert!(store.find_email(1).is_none());
    assert!(store.role_id(RoleName::Admin).is_none());
}

#[test]
fn users_get_the_next_id() {
    let mut store = Store::new();
    let first = store.insert_user(NewUser::created(at(5))).unwrap();
    let second = store.insert_user(NewUser::created(at(6))).unwrap();
    assert_eq!(first.id(), 1);
    assert_eq!(second.id(), 2);
    assert_eq!(first.created_at(), at(5));
    assert_eq!(first.primary_email(), None);
    store.load_user(QueriedUser::new(40, at(7), Some(3))).unwrap();
    let third = store.insert_user(NewUser::created(at(8))).unwrap();
    assert_eq!(third.id(), 41);
    let found = store.find_user(40).unwrap();
    assert_eq!(found.primary_email(), Some(3));
    assert_eq!(store.user_rows().len(), 4);
}

#[test]
fn new_user_is_created_now_without_an_email() {
    let user = NewUser::new();
    assert_eq!(user.primary_email(), None);
    // The clock is past the year 2020.
    assert!(Timestamp::new(1_577_836_800, 0).is_before(&user.created_at()));
    assert!(user.created_at().nanoseconds() < 2_000_000_000);
}

#[test]
fn two_users_cannot_share_an_id() {
    let mut store = Store::new();
    store.load_user(QueriedUser::new(4, at(1), None)).unwrap();
    assert_eq!(
        store.load_user(QueriedUser::new(4, at(2), Some(1))),
        Err(StoreError::UniqueViolation)
    );
    assert_eq!(store.user_rows().len(), 1);
    assert_eq!(store.find_user(4).unwrap().created_at(), at(1));
}

#[test]
fn user_ids_run_out() {
    let mut store = Store::new();
    store.load_user(QueriedUser::new(i32::MAX, at(1), None)).unwrap();
    assert!(matches!(
        store.insert_user(NewUser::created(at(2))),
        Err(StoreError::OutOfIds)
    ));
    assert_eq!(store.user_rows().len(), 1);
}

#[test]
fn emails_are_found_by_id_and_by_address() {
    let mut store = Store::new();
    let owner = QueriedUser::new(1, at(1), None);
    let stored = store.insert_email(new_email("a@example.com", &owner)).unwrap();
    assert_eq!(stored.id(), 1);
    assert_eq!(stored.email(), "a@example.com");
    assert_eq!(stored.user_id(), 1);
    store.load_email(email(9, "b@example.com", 2, true)).unwrap();
    store.load_email(email(12, "a@example.com", 3, false)).unwrap();

    let found = store.find_email(9).unwrap();
    assert_eq!(found.email(), "b@example.com");
    assert!(found.is_verified());
    let first = store.find_email_by_address("a@example.com").unwrap();
    assert_eq!(first.id(), 1);
    assert_eq!(first.verification_token().unwrap().as_hash(), "hash");
    assert!(store.find_email_by_address("c@example.com").is_none());
    assert!(store.find_email(2).is_none());
    let next = store.insert_email(new_email("d@example.com", &owner)).unwrap();
    assert_eq!(next.id(), 13);
    assert_eq!(store.email_rows().len(), 4);
}

#[test]
fn two_emails_cannot_share_an_id() {
    let mut store = Store::new();
    store.load_email(email(9, "b@example.com", 2, true)).unwrap();
    assert_eq!(
        store.load_email(email(9, "c@example.com", 2, false)),
        Err(StoreError::UniqueViolation)
    );
    assert_eq!(store.find_email(9).unwrap().email(), "b@example.com");
}

#[test]
fn email_ids_run_out() {
    let mut store = Store::new();
    let owner = QueriedUser::new(1, at(1), None);
    store.load_email(email(i32::MAX, "b@example.com", 2, true)).unwrap();
    assert!(matches!(
        store.insert_email(new_email("a@example.com", &owner)),
        Err(StoreError::OutOfIds)
    ));
}

#[test]
fn verified_email_keeps_no_token() {
    let token = Some(HashedEmailToken::from_hash("hash".to_owned()));
    assert!(Email::new(1, "a@example.com".to_owned(), 1, true, token).is_none());
    let token = Some(HashedEmailToken::from_hash("hash".to_owned()));
    assert!(Email::new(1, "a@example.com".to_owned(), 1, false, token).is_some());
    assert!(Email::new(1, "a@example.com".to_owned(), 1, true, None).is_some());
    assert!(Email::new(1, "a@example.com".to_owned(), 1, false, None).is_some());
}

#[test]
fn a_user_has_one_password_at_most() {
    let mut store = Store::new();
    let user = QueriedUser::new(1, at(1), None);
    let first = NewLocalAuth::hashed(&user, Password::from_hash("h1".to_owned()), at(2));
    let second = NewLocalAuth::hashed(&user, Password::from_hash("h2".to_owned()), at(3));
    let stored = store.insert_local_auth(first).ok().unwrap();
    assert_eq!(stored.id(), 1);
    assert_eq!(stored.user_id(), 1);
    assert_eq!(stored.created_at(), at(2));
    assert_eq!(stored.password().as_hash(), "h1");
    assert!(matches!(
        store.insert_local_auth(second),
        Err(StoreError::UniqueViolation)
    ));
    assert!(matches!(
        store.load_local_auth(LocalAuth::new(5, Password::from_hash("h3".to_owned()), 1, at(3))),
        Err(StoreError::UniqueViolation)
    ));
    assert!(matches!(
        store.load_local_auth(LocalAuth::new(1, Password::from_hash("h3".to_owned()), 2, at(3))),
        Err(StoreError::UniqueViolation)
    ));
    store
        .load_local_auth(LocalAuth::new(5, Password::from_hash("h3".to_owned()), 2, at(3)))
        .unwrap();
    assert_eq!(store.find_local_auth_for(2).unwrap().id(), 5);
    assert_eq!(store.find_local_auth_for(1).unwrap().password().as_hash(), "h1");
    assert!(store.find_local_auth_for(3).is_none());
}

#[test]
fn password_ids_run_out() {
    let mut store = Store::new();
    store
        .load_local_auth(LocalAuth::new(
            i32::MAX,
            Password::from_hash("h".to_owned()),
            2,
            at(3),
        ))
        .unwrap();
    let user = QueriedUser::new(1, at(1), None);
    let new = NewLocalAuth::hashed(&user, Password::from_hash("h1".to_owned()), at(2));
    assert!(matches!(
        store.insert_local_auth(new),
        Err(StoreError::OutOfIds)
    ));
}

#[test]
fn roles_are_unique_by_id_and_by_name() {
    let mut store = Store::new();
    store.load_role(Role::new(1, RoleName::Admin, at(1))).unwrap();
    assert_eq!(
        store.load_role(Role::new(1, RoleName::Moderator, at(1))),
        Err(StoreError::UniqueViolation)
    );
    assert_eq!(
        store.load_role(Role::new(2, RoleName::Admin, at(1))),
        Err(StoreError::UniqueViolation)
    );
    store.load_role(Role::new(2, RoleName::Moderator, at(1))).unwrap();
    assert_eq!(store.role_id(RoleName::Admin), Some(1));
    assert_eq!(store.role_id(RoleName::Moderator), Some(2));
    assert_eq!(store.role_id(RoleName::Verified), None);
    assert_eq!(store.find_role(2).unwrap().name(), RoleName::Moderator);
    assert!(store.find_role(3).is_none());
}

#[test]
fn permissions_are_unique_by_id_and_by_name() {
    let mut store = Store::new();
    store
        .load_permission(Permission::new(1, PermissionName::MakePost, at(1)))
        .unwrap();
    assert_eq!(
        store.load_permission(Permission::new(1, PermissionName::BanUser, at(1))),
        Err(StoreError::UniqueViolation)
    );
    assert_eq!(
        store.load_permission(Permission::new(2, PermissionName::MakePost, at(1))),
        Err(StoreError::UniqueViolation)
    );
    assert_eq!(
        store.load_permission(Permission::new(2, PermissionName::BanUser, at(1))),
        Ok(())
    );
}

#[test]
fn a_role_is_granted_once_per_user() {
    let mut store = Store::new();
    store.load_user_role(UserRole::new(1, 5, 10, at(1))).unwrap();
    assert_eq!(
        store.load_user_role(UserRole::new(2, 5, 10, at(2))),
        Err(StoreError::UniqueViolation)
    );
    store.load_user_role(UserRole::new(2, 5, 11, at(2))).unwrap();
    store.load_user_role(UserRole::new(3, 6, 10, at(2))).unwrap();
    assert_eq!(store.user_role_rows().len(), 3);
}

#[test]
fn login_lookup_joins_user_email_and_password() {
    let mut store = Store::new();
    let user = store.insert_user(NewUser::created(at(1))).unwrap();
    let row = QueriedUser::new(user.id(), user.created_at(), None);
    // An address of a user without a password comes first and is passed over.
    store.load_email(email(1, "a@example.com", 50, false)).unwrap();
    store.insert_email(new_email("a@example.com", &row)).unwrap();
    assert!(store.lookup_user_by_email("a@example.com").is_none());
    let new = NewLocalAuth::hashed(&row, Password::from_hash("h1".to_owned()), at(2));
    store.insert_local_auth(new).ok().unwrap();

    let (found, found_email, auth) = store.lookup_user_by_email("a@example.com").unwrap();
    assert_eq!(found.id(), user.id());
    assert_eq!(found_email.id(), 2);
    assert_eq!(found_email.user_id(), user.id());
    assert_eq!(auth.user_id(), user.id());
    assert!(store.lookup_user_by_email("b@example.com").is_none());
}
