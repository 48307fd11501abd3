//! The state of the store as contracts speak of it: the records of each
//! table, in the order in which they were stored.

use crate::sql_types::Permission as PermissionName;
use crate::sql_types::Role as RoleName;
use crate::user::email::EmailView;
use crate::user::local_auth::LocalAuthView;
use crate::user::role::permission::PermissionView;
use crate::user::role::role_permission::RolePermissionView;
use crate::user::role::user_role::UserRoleView;
use crate::user::role::RoleView;
use crate::user::UserView;
use vstd::prelude::*;

verus! {

/// Why the store turned an operation down.
#[derive(Clone, Copy, Debug, PartialEq, Eq, Structural)]
pub enum StoreError {
    /// The record that the operation names is not there.
    NotFound,
    /// The operation would store a second record where only one may be.
    UniqueViolation,
    /// The table has handed out its last id.
    OutOfIds,
    /// The record is no longer as the caller read it.
    Conflict,
}

impl StoreError {
    /// What to tell a reader about this error.
    pub fn message(&self) -> (text: &'static str)
        ensures
            text@ == (match self {
                StoreError::NotFound => "Record not found"@,
                StoreError::UniqueViolation => "Record exists already"@,
                StoreError::OutOfIds => "Table has no id left"@,
                StoreError::Conflict => "Record has changed"@,
            }),
    {
        match self {
            StoreError::NotFound => "Record not found",
            StoreError::UniqueViolation => "Record exists already",
            StoreError::OutOfIds => "Table has no id left",
            StoreError::Conflict => "Record has changed",
        }
    }
}

/// The larger of two ids.
pub open spec fn later_id(a: i32, b: i32) -> i32 {
    if a >= b {
        a
    } else {
        b
    }
}

/// The test that a grant passes unless it is the grant of the role with this
/// id to this user.
pub open spec fn is_other_grant(user_id: i32, role_id: i32) -> spec_fn(UserRoleView) -> bool {
    |row: UserRoleView| !(row.user_id == user_id && row.role_id == role_id)
}

/// The tables of the store.
pub struct StoreView {
    pub users: Seq<UserView>,
    pub emails: Seq<EmailView>,
    pub local_auth: Seq<LocalAuthView>,
    pub roles: Seq<RoleView>,
    pub permissions: Seq<PermissionView>,
    pub role_permissions: Seq<RolePermissionView>,
    pub user_roles: Seq<UserRoleView>,
    /// The highest id that the `users` table has seen.
    pub last_user_id: i32,
    /// The highest id that the `emails` table has seen.
    pub last_email_id: i32,
    /// The highest id that the `local_auth` table has seen.
    pub last_local_auth_id: i32,
    /// The highest id that the `user_roles` table has seen.
    pub last_user_role_id: i32,
}

impl StoreView {
    /// The store with no records.
    pub open spec fn empty() -> StoreView {
        StoreView {
            users: Seq::empty(),
            emails: Seq::empty(),
            local_auth: Seq::empty(),
            roles: Seq::empty(),
            permissions: Seq::empty(),
            role_permissions: Seq::empty(),
            user_roles: Seq::empty(),
            last_user_id: 0,
            last_email_id: 0,
            last_local_auth_id: 0,
            last_user_role_id: 0,
        }
    }

    // ----- users -----
    /// Whether a user with this id is recorded.
    pub open spec fn has_user(self, id: i32) -> bool {
        exists|i: int| 0 <= i < self.users.len() && (#[trigger] self.users[i]).id == id
    }

    /// No two users share an id, and no id is beyond the last one seen.
    pub open spec fn users_wf(self) -> bool {
        &&& forall|i: int, j: int|
            0 <= i < j < self.users.len() ==> (#[trigger] self.users[i]).id != (
            #[trigger] self.users[j]).id
        &&& forall|i: int|
            0 <= i < self.users.len() ==> (#[trigger] self.users[i]).id <= self.last_user_id
    }

    /// The store with one more user.
    pub open spec fn with_user(self, row: UserView) -> StoreView {
        StoreView {
            users: self.users.push(row),
            last_user_id: later_id(self.last_user_id, row.id),
            ..self
        }
    }

    /// The store in which the user with this id has this primary email
    /// address, and every other user is as before.
    pub open spec fn with_primary_email(self, user_id: i32, email_id: i32) -> StoreView {
        StoreView {
            users: Seq::new(
                self.users.len(),
                |i: int|
                    if self.users[i].id == user_id {
                        UserView { primary_email: Some(email_id), ..self.users[i] }
                    } else {
                        self.users[i]
                    },
            ),
            ..self
        }
    }

    // ----- emails -----
    /// Whether an email address with this id is recorded.
    pub open spec fn has_email(self, id: i32) -> bool {
        exists|i: int| 0 <= i < self.emails.len() && (#[trigger] self.emails[i]).id == id
    }

    /// Whether `i` is the place of the first record with this address.
    pub open spec fn is_first_with_address(self, i: int, address: Seq<char>) -> bool {
        &&& 0 <= i < self.emails.len()
        &&& self.emails[i].email == address
        &&& forall|j: int| 0 <= j < i ==> (#[trigger] self.emails[j]).email != address
    }

    /// Whether any record has this address.
    pub open spec fn has_address(self, address: Seq<char>) -> bool {
        exists|i: int| 0 <= i < self.emails.len() && (#[trigger] self.emails[i]).email == address
    }

    /// No two addresses share an id, no id is beyond the last one seen, and
    /// a verified address keeps no token.
    pub open spec fn emails_wf(self) -> bool {
        &&& forall|i: int, j: int|
            0 <= i < j < self.emails.len() ==> (#[trigger] self.emails[i]).id != (
            #[trigger] self.emails[j]).id
        &&& forall|i: int|
            0 <= i < self.emails.len() ==> (#[trigger] self.emails[i]).id <= self.last_email_id
        &&& forall|i: int|
            0 <= i < self.emails.len() ==> (#[trigger] self.emails[i]).consistent()
    }

    /// The store with one more email address.
    pub open spec fn with_email(self, row: EmailView) -> StoreView {
        StoreView {
            emails: self.emails.push(row),
            last_email_id: later_id(self.last_email_id, row.id),
            ..self
        }
    }

    /// The store in which the record with the id of `row` has become `row`,
    /// and every other address is as before.
    pub open spec fn with_email_replaced(self, row: EmailView) -> StoreView {
        StoreView {
            emails: Seq::new(
                self.emails.len(),
                |i: int|
                    if self.emails[i].id == row.id {
                        row
                    } else {
                        self.emails[i]
                    },
            ),
            ..self
        }
    }

    /// Whether the store holds, unverified, the record that `change` marks
    /// verified.
    pub open spec fn awaits(self, change: EmailView) -> bool {
        exists|i: int|
            0 <= i < self.emails.len() && !(#[trigger] self.emails[i]).verified
                && self.emails[i].verified() == change
    }

    // ----- local_auth -----
    /// Whether a password with this id is recorded.
    pub open spec fn has_local_auth(self, id: i32) -> bool {
        exists|i: int| 0 <= i < self.local_auth.len() && (#[trigger] self.local_auth[i]).id == id
    }

    /// Whether a password is recorded for this user.
    pub open spec fn has_local_auth_for(self, user_id: i32) -> bool {
        exists|i: int|
            0 <= i < self.local_auth.len() && (#[trigger] self.local_auth[i]).user_id == user_id
    }

    /// No two passwords share an id or a user, and no id is beyond the last
    /// one seen.
    pub open spec fn local_auth_wf(self) -> bool {
        &&& forall|i: int, j: int|
            0 <= i < j < self.local_auth.len() ==> (#[trigger] self.local_auth[i]).id != (
            #[trigger] self.local_auth[j]).id
        &&& forall|i: int, j: int|
            0 <= i < j < self.local_auth.len() ==> (#[trigger] self.local_auth[i]).user_id != (
            #[trigger] self.local_auth[j]).user_id
        &&& forall|i: int|
            0 <= i < self.local_auth.len() ==> (#[trigger] self.local_auth[i]).id
                <= self.last_local_auth_id
    }

    /// The store with one more password.
    pub open spec fn with_local_auth(self, row: LocalAuthView) -> StoreView {
        StoreView {
            local_auth: self.local_auth.push(row),
            last_local_auth_id: later_id(self.last_local_auth_id, row.id),
            ..self
        }
    }

    /// Whether the email address at `i` has this address and belongs to a
    /// recorded user who has a password.
    pub open spec fn can_log_in_at(self, i: int, address: Seq<char>) -> bool {
        &&& 0 <= i < self.emails.len()
        &&& self.emails[i].email == address
        &&& self.has_user(self.emails[i].user_id)
        &&& self.has_local_auth_for(self.emails[i].user_id)
    }

    /// Whether `i` is the place of the first email address that
    /// [`can_log_in_at`](Self::can_log_in_at).
    pub open spec fn is_login_record(self, i: int, address: Seq<char>) -> bool {
        &&& self.can_log_in_at(i, address)
        &&& forall|j: int| 0 <= j < i ==> !#[trigger] self.can_log_in_at(j, address)
    }

    // ----- roles and permissions -----
    /// Whether a role with this id is recorded.
    pub open spec fn has_role_id(self, role_id: i32) -> bool {
        exists|j: int| 0 <= j < self.roles.len() && (#[trigger] self.roles[j]).id == role_id
    }

    /// Whether this role is recorded.
    pub open spec fn has_role_named(self, role: RoleName) -> bool {
        exists|j: int| 0 <= j < self.roles.len() && (#[trigger] self.roles[j]).name == role
    }

    /// Whether the record with this id is the record of this role.
    pub open spec fn role_is(self, role_id: i32, role: RoleName) -> bool {
        exists|j: int|
            0 <= j < self.roles.len() && (#[trigger] self.roles[j]).id == role_id
                && self.roles[j].name == role
    }

    /// The id under which this role is recorded. It says nothing of a role
    /// that is not recorded.
    pub open spec fn id_of_role(self, role: RoleName) -> i32 {
        choose|id: i32| self.role_is(id, role)
    }

    /// No two roles share an id or a name.
    pub open spec fn roles_wf(self) -> bool {
        &&& forall|i: int, j: int|
            0 <= i < j < self.roles.len() ==> (#[trigger] self.roles[i]).id != (
            #[trigger] self.roles[j]).id
        &&& forall|i: int, j: int|
            0 <= i < j < self.roles.len() ==> (#[trigger] self.roles[i]).name != (
            #[trigger] self.roles[j]).name
    }

    /// The store with one more role.
    pub open spec fn with_role(self, row: RoleView) -> StoreView {
        StoreView { roles: self.roles.push(row), ..self }
    }

    /// Whether a permission with this id is recorded.
    pub open spec fn has_permission_id(self, permission_id: i32) -> bool {
        exists|j: int|
            0 <= j < self.permissions.len() && (#[trigger] self.permissions[j]).id
                == permission_id
    }

    /// Whether this permission is recorded.
    pub open spec fn has_permission_named(self, permission: PermissionName) -> bool {
        exists|j: int|
            0 <= j < self.permissions.len() && (#[trigger] self.permissions[j]).name
                == permission
    }

    /// Whether the record with this id is the record of this permission.
    pub open spec fn permission_is(self, permission_id: i32, permission: PermissionName) -> bool {
        exists|j: int|
            0 <= j < self.permissions.len() && (#[trigger] self.permissions[j]).id
                == permission_id && self.permissions[j].name == permission
    }

    /// No two permissions share an id or a name.
    pub open spec fn permissions_wf(self) -> bool {
        &&& forall|i: int, j: int|
            0 <= i < j < self.permissions.len() ==> (#[trigger] self.permissions[i]).id != (
            #[trigger] self.permissions[j]).id
        &&& forall|i: int, j: int|
            0 <= i < j < self.permissions.len() ==> (#[trigger] self.permissions[i]).name != (
            #[trigger] self.permissions[j]).name
    }

    /// The store with one more permission.
    pub open spec fn with_permission(self, row: PermissionView) -> StoreView {
        StoreView { permissions: self.permissions.push(row), ..self }
    }

    /// The store with one more permission of a role.
    pub open spec fn with_role_permission(self, row: RolePermissionView) -> StoreView {
        StoreView { role_permissions: self.role_permissions.push(row), ..self }
    }

    /// Whether the role with this id allows this action.
    pub open spec fn role_permits(self, role_id: i32, permission: PermissionName) -> bool {
        exists|k: int|
            0 <= k < self.role_permissions.len() && (#[trigger] self.role_permissions[k]).role_id
                == role_id && self.permission_is(
                self.role_permissions[k].permission_id,
                permission,
            )
    }

    // ----- user_roles -----
    /// Whether the record at `i` grants the role with this id to this user.
    pub open spec fn grants_at(self, i: int, user_id: i32, role_id: i32) -> bool {
        &&& 0 <= i < self.user_roles.len()
        &&& self.user_roles[i].user_id == user_id
        &&& self.user_roles[i].role_id == role_id
    }

    /// Whether some record grants the role with this id to this user.
    pub open spec fn has_grant(self, user_id: i32, role_id: i32) -> bool {
        exists|i: int| #[trigger] self.grants_at(i, user_id, role_id)
    }

    /// Whether exactly one record grants the role with this id to this user.
    pub open spec fn has_exactly_one_grant(self, user_id: i32, role_id: i32) -> bool {
        exists|i: int|
            #[trigger] self.grants_at(i, user_id, role_id) && forall|j: int|
                #[trigger] self.grants_at(j, user_id, role_id) ==> j == i
    }

    /// No role is granted twice to one user, and no id is beyond the last
    /// one seen.
    pub open spec fn user_roles_wf(self) -> bool {
        &&& forall|i: int, j: int|
            0 <= i < j < self.user_roles.len() ==> !((#[trigger] self.user_roles[i]).user_id == (
            #[trigger] self.user_roles[j]).user_id && self.user_roles[i].role_id
                == self.user_roles[j].role_id)
        &&& forall|i: int|
            0 <= i < self.user_roles.len() ==> (#[trigger] self.user_roles[i]).id
                <= self.last_user_role_id
    }

    /// The store with one more grant.
    pub open spec fn with_user_role(self, row: UserRoleView) -> StoreView {
        StoreView {
            user_roles: self.user_roles.push(row),
            last_user_role_id: later_id(self.last_user_role_id, row.id),
            ..self
        }
    }

    /// The store without the grants of the role with this id to this user.
    pub open spec fn without_user_role(self, user_id: i32, role_id: i32) -> StoreView {
        StoreView { user_roles: self.user_roles.filter(is_other_grant(user_id, role_id)), ..self }
    }

    // ----- authorization -----
    /// Whether the user holds the role: some grant to the user names the
    /// record of that role.
    pub open spec fn has_role(self, user_id: i32, role: RoleName) -> bool {
        exists|i: int|
            0 <= i < self.user_roles.len() && (#[trigger] self.user_roles[i]).user_id == user_id
                && self.role_is(self.user_roles[i].role_id, role)
    }

    /// Whether the user may take the action: the user holds a recorded role
    /// that allows it.
    pub open spec fn has_permission(self, user_id: i32, permission: PermissionName) -> bool {
        exists|i: int|
            0 <= i < self.user_roles.len() && (#[trigger] self.user_roles[i]).user_id == user_id
                && self.has_role_id(self.user_roles[i].role_id) && self.role_permits(
                self.user_roles[i].role_id,
                permission,
            )
    }

    /// Everything that the store keeps true of its tables.
    pub open spec fn wf(self) -> bool {
        &&& self.users_wf()
        &&& self.emails_wf()
        &&& self.local_auth_wf()
        &&& self.roles_wf()
        &&& self.permissions_wf()
        &&& self.user_roles_wf()
    }
}

} // verus!
