//! Roles, and the records that tie them to users and permissions.

pub mod permission;
pub mod role_permission;
pub mod user_role;

use crate::sql_types::Role as RoleName;
use crate::timestamp::Timestamp;
use vstd::prelude::*;

verus! {

/// A role as the `roles` table records it.
#[derive(Clone, Copy, Debug)]
pub struct Role {
    id: i32,
    name: RoleName,
    created_at: Timestamp,
}

/// What a [`Role`] holds.
pub struct RoleView {
    pub id: i32,
    pub name: RoleName,
    pub created_at: Timestamp,
}

impl View for Role {
    type V = RoleView;

    closed spec fn view(&self) -> RoleView {
        RoleView {
            id: self.id,
            name: self.name,
            created_at: self.created_at,
        }
    }
}

impl Role {
    /// The record with these values.
    pub fn new(id: i32, name: RoleName, created_at: Timestamp) -> (made: Role)
        ensures
            made@ == (RoleView {
                id,
                name,
                created_at,
            }),
    {
        Role { id, name, created_at }
    }

    /// The record's id.
    pub fn id(&self) -> (r: i32)
        ensures
            r == self@.id,
    {
        self.id
    }

    /// Which role this is.
    pub fn name(&self) -> (r: RoleName)
        ensures
            r == self@.name,
    {
        self.name
    }

    /// When the role was recorded.
    pub fn created_at(&self) -> (r: Timestamp)
        ensures
            r == self@.created_at,
    {
        self.created_at
    }
}

} // verus!
