//! Which user holds which role.

use crate::timestamp::Timestamp;
use vstd::prelude::*;

verus! {

/// One grant of a role to a user, as the `user_roles` table records it.
#[derive(Clone, Copy, Debug)]
pub struct UserRole {
    id: i32,
    user_id: i32,
    role_id: i32,
    created_at: Timestamp,
}

/// What a [`UserRole`] holds.
pub struct UserRoleView {
    pub id: i32,
    pub user_id: i32,
    pub role_id: i32,
    pub created_at: Timestamp,
}

impl View for UserRole {
    type V = UserRoleView;

    closed spec fn view(&self) -> UserRoleView {
        UserRoleView {
            id: self.id,
            user_id: self.user_id,
            role_id: self.role_id,
            created_at: self.created_at,
        }
    }
}

impl UserRole {
    /// The record with these values.
    pub fn new(id: i32, user_id: i32, role_id: i32, created_at: Timestamp) -> (made: UserRole)
        ensures
            made@ == (UserRoleView {
                id,
                user_id,
                role_id,
                created_at,
            }),
    {
        UserRole { id, user_id, role_id, created_at }
    }

    /// The record's id.
    pub fn id(&self) -> (r: i32)
        ensures
            r == self@.id,
    {
        self.id
    }

    /// The id of the user who holds the role.
    pub fn user_id(&self) -> (r: i32)
        ensures
            r == self@.user_id,
    {
        self.user_id
    }

    /// The id of the role.
    pub fn role_id(&self) -> (r: i32)
        ensures
            r == self@.role_id,
    {
        self.role_id
    }

    /// When the role was granted.
    pub fn created_at(&self) -> (r: Timestamp)
        ensures
            r == self@.created_at,
    {
        self.created_at
    }
}

} // verus!
