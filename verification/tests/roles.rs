use aardwolf_models::sql_types::{Permission as PermissionName, Role as RoleName};
use aardwolf_models::store::{Store, StoreError};
use aardwolf_models::timestamp::Timestamp;
use aardwolf_models::user::local_auth::password::Password;
use aardwolf_models::user::local_auth::{LocalAuth, PlaintextPassword};
use aardwolf_models::user::permissions::{PermissionError, PermissionedUser};
use aardwolf_models::user::role::permission::Permission;
use aardwolf_models::user::role::role_permission::RolePermission;
use aardwolf_models::user::role::user_role::UserRole;
use aardwolf_models::user::role::Role;
use aardwolf_models::user::{
    AdminUser, AuthenticatedUser, NewUser, QueriedUser, UnauthenticatedUser, UserLike,
};

const VERIFIED: i32 = 10;
const MODERATOR: i32 = 20;
const ADMIN: i32 = 30;

fn at(seconds: i64) -> Timestamp {
    Timestamp::new(seconds, 0)
}

/// A store with the three roles; the admin role may grant and revoke.
fn store_with_roles() -> Store {
    let mut store = Store::new();
    store.load_role(Role::new(VERIFIED, RoleName::Verified, at(1))).unwrap();
    store.load_role(Role::new(MODERATOR, RoleName::Moderator, at(1))).unwrap();
    store.load_role(Role::new(ADMIN, RoleName::Admin, at(1))).unwrap();
    store
        .load_permission(Permission::new(1, PermissionName::GrantRole, at(1)))
        .unwrap();
    store
        .load_permission(Permission::new(2, PermissionName::RevokeRole, at(1)))
        .unwrap();
    store
        .load_permission(Permission::new(3, PermissionName::MakePost, at(1)))
        .unwrap();
    store.load_role_permission(RolePermission::new(1, ADMIN, 1, at(1)));
    store.load_role_permission(RolePermission::new(2, ADMIN, 2, at(1)));
    store.load_role_permission(RolePermission::new(3, VERIFIED, 3, at(1)));
    store
}

/// Logs a user in with a password record made for the purpose.
fn log_in(user: UnauthenticatedUser) -> AuthenticatedUser {
    let hash = bcrypt::hash("pw", 4).unwrap();
    let auth = LocalAuth::new(1, Password::from_hash(hash), user.id(), at(2));
    user.log_in_local(auth, PlaintextPassword::new("pw".to_owned()))
        .ok()
        .unwrap()
}

/// Records a user who holds the admin role, logged in and elevated.
fn admin(store: &mut Store) -> AdminUser {
    let user = store.insert_user(NewUser::created(at(2))).unwrap();
    store
        .load_user_role(UserRole::new(1, user.id(), ADMIN, at(2)))
        .unwrap();
    log_in(user).elevate_if_admin(store).ok().unwrap()
}

fn grants_of(store: &Store, user_id: i32, role_id: i32) -> usize {
    store
        .user_role_rows()
        .iter()
        .filter(|row| row.user_id() == user_id && row.role_id() == role_id)
        .count()
}

#[test]
fn granting_twice_leaves_one_grant() {
    let mut store = store_with_roles();
    let admin = admin(&mut store);
    let target = QueriedUser::new(77, at(3), None);
    store.load_user(target).unwrap();

    assert!(!target.is_moderator(&store));
    assert_eq!(admin.grant_role(&target, RoleName::Moderator, &mut store), Ok(()));
    assert!(target.is_moderator(&store));
    assert_eq!(grants_of(&store, 77, MODERATOR), 1);
    let rows_after_first = store.user_role_rows().len();

    assert_eq!(admin.grant_role(&target, RoleName::Moderator, &mut store), Ok(()));
    assert!(target.is_moderator(&store));
    assert_eq!(grants_of(&store, 77, MODERATOR), 1);
    assert_eq!(store.user_role_rows().len(), rows_after_first);
}

#[test]
fn grant_records_the_given_time_and_the_next_id() {
    let mut store = store_with_roles();
    let admin = admin(&mut store);
    let target = QueriedUser::new(77, at(3), None);
    assert_eq!(
        admin.grant_role_at(&target, RoleName::Verified, at(99), &mut store),
        Ok(())
    );
    let rows = store.user_role_rows();
    let row = rows.last().unwrap();
    assert_eq!(row.id(), 2);
    assert_eq!(row.user_id(), 77);
    assert_eq!(row.role_id(), VERIFIED);
    assert_eq!(row.created_at(), at(99));
}

#[test]
fn revoking_a_role_that_is_not_held_changes_nothing() {
    let mut store = store_with_roles();
    let admin = admin(&mut store);
    let target = QueriedUser::new(77, at(3), None);
    let before = store.user_role_rows().len();
    assert_eq!(admin.revoke_role(&target, RoleName::Moderator, &mut store), Ok(()));
    assert_eq!(store.user_role_rows().len(), before);
    assert!(!target.is_moderator(&store));
}

#[test]
fn revoking_takes_the_role_and_no_other() {
    let mut store = store_with_roles();
    let admin = admin(&mut store);
    let target = QueriedUser::new(77, at(3), None);
    let other = QueriedUser::new(78, at(3), None);
    admin.grant_role(&target, RoleName::Moderator, &mut store).unwrap();
    admin.grant_role(&target, RoleName::Verified, &mut store).unwrap();
    admin.grant_role(&other, RoleName::Moderator, &mut store).unwrap();

    assert_eq!(admin.revoke_role(&target, RoleName::Moderator, &mut store), Ok(()));
    assert!(!target.is_moderator(&store));
    assert!(target.is_verified(&store));
    assert!(other.is_moderator(&store));
    assert!(admin.is_admin(&store));
    assert_eq!(grants_of(&store, 77, MODERATOR), 0);

    assert_eq!(admin.revoke_role(&target, RoleName::Moderator, &mut store), Ok(()));
    assert!(!target.is_moderator(&store));
    assert_eq!(store.user_role_rows().len(), 3);
}

#[test]
fn granting_an_unrecorded_role_is_not_found() {
    let mut store = Store::new();
    store.load_role(Role::new(ADMIN, RoleName::Admin, at(1))).unwrap();
    let admin = admin(&mut store);
    let target = QueriedUser::new(77, at(3), None);
    assert_eq!(
        admin.grant_role(&target, RoleName::Moderator, &mut store),
        Err(StoreError::NotFound)
    );
    assert_eq!(store.user_role_rows().len(), 1);
    assert_eq!(
        admin.revoke_role(&target, RoleName::Moderator, &mut store),
        Ok(())
    );
}

#[test]
fn granting_fails_when_the_ids_are_used_up() {
    let mut store = store_with_roles();
    let admin = admin(&mut store);
    store
        .load_user_role(UserRole::new(i32::MAX, 5, VERIFIED, at(2)))
        .unwrap();
    let target = QueriedUser::new(77, at(3), None);
    assert_eq!(
        admin.grant_role(&target, RoleName::Moderator, &mut store),
        Err(StoreError::OutOfIds)
    );
    assert!(!target.is_moderator(&store));
    // A role that is held already needs no id.
    let holder = QueriedUser::new(5, at(3), None);
    assert_eq!(admin.grant_role(&holder, RoleName::Verified, &mut store), Ok(()));
}

#[test]
fn role_queries_read_the_grants() {
    let mut store = store_with_roles();
    let user = QueriedUser::new(5, at(3), None);
    assert!(!user.is_verified(&store));
    assert!(!user.is_moderator(&store));
    assert!(!user.is_admin(&store));
    store.load_user_role(UserRole::new(1, 5, MODERATOR, at(2))).unwrap();
    assert!(!user.is_verified(&store));
    assert!(user.is_moderator(&store));
    assert!(!user.is_admin(&store));
    assert!(user.has_role(RoleName::Moderator, &store));
    assert!(store.has_role(5, RoleName::Moderator));
    assert!(!store.has_role(6, RoleName::Moderator));
}

#[test]
fn grant_to_an_unrecorded_role_id_gives_no_role() {
    let mut store = store_with_roles();
    store.load_user_role(UserRole::new(1, 5, 999, at(2))).unwrap();
    let user = QueriedUser::new(5, at(3), None);
    assert!(!user.is_verified(&store));
    assert!(!user.is_moderator(&store));
    assert!(!user.is_admin(&store));
    assert!(!store.has_permission(5, PermissionName::MakePost));
}

#[test]
fn permission_follows_the_roles_of_the_user() {
    let mut store = store_with_roles();
    assert!(!store.has_permission(5, PermissionName::MakePost));
    store.load_user_role(UserRole::new(1, 5, VERIFIED, at(2))).unwrap();
    assert!(store.has_permission(5, PermissionName::MakePost));
    assert!(!store.has_permission(5, PermissionName::GrantRole));
    assert!(!store.has_permission(6, PermissionName::MakePost));
    // A permission that no record names is had by nobody.
    assert!(!store.has_permission(5, PermissionName::BanUser));
}

#[test]
fn permission_needs_the_permission_record() {
    let mut store = Store::new();
    store.load_role(Role::new(VERIFIED, RoleName::Verified, at(1))).unwrap();
    store.load_role_permission(RolePermission::new(1, VERIFIED, 3, at(1)));
    store.load_user_role(UserRole::new(1, 5, VERIFIED, at(2))).unwrap();
    assert!(!store.has_permission(5, PermissionName::MakePost));
    store
        .load_permission(Permission::new(3, PermissionName::MakePost, at(1)))
        .unwrap();
    assert!(store.has_permission(5, PermissionName::MakePost));
}

#[test]
fn only_an_admin_is_elevated() {
    let mut store = store_with_roles();
    let user = store.insert_user(NewUser::created(at(2))).unwrap();
    let id = user.id();
    let user = log_in(user);
    let user = match user.elevate_if_admin(&store) {
        Ok(_) => panic!("a user without the admin role was elevated"),
        Err(user) => user,
    };
    assert_eq!(user.id(), id);
    store.load_user_role(UserRole::new(1, id, ADMIN, at(2))).unwrap();
    let admin = user.elevate_if_admin(&store).ok().unwrap();
    assert_eq!(admin.id(), id);
    assert_eq!(admin.created_at(), at(2));
    assert_eq!(admin.primary_email(), None);
}

#[test]
fn role_capabilities_need_their_permissions() {
    let mut store = store_with_roles();
    let plain = log_in(store.insert_user(NewUser::created(at(2))).unwrap());
    assert!(matches!(
        plain.can_grant_role(&store),
        Err(PermissionError::Permission)
    ));
    assert!(matches!(
        plain.can_revoke_role(&store),
        Err(PermissionError::Permission)
    ));

    let admin = admin(&mut store);
    let target = QueriedUser::new(77, at(3), None);
    let granter = admin.can_grant_role(&store).ok().unwrap();
    assert_eq!(granter.grant_role(&target, RoleName::Moderator, &mut store), Ok(()));
    assert_eq!(granter.grant_role(&target, RoleName::Moderator, &mut store), Ok(()));
    assert_eq!(grants_of(&store, 77, MODERATOR), 1);
    assert_eq!(
        granter.grant_role_at(&target, RoleName::Verified, at(50), &mut store),
        Ok(())
    );
    assert_eq!(store.user_role_rows().last().unwrap().created_at(), at(50));

    let revoker = admin.can_revoke_role(&store).ok().unwrap();
    assert_eq!(revoker.revoke_role(&target, RoleName::Moderator, &mut store), Ok(()));
    assert_eq!(grants_of(&store, 77, MODERATOR), 0);
    assert!(target.is_verified(&store));
    assert!(admin.has_permission(PermissionName::GrantRole, &store));
    assert!(!admin.has_permission(PermissionName::MakePost, &store));
}
