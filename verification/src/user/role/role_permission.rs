//! Which role allows which action.

use crate::timestamp::Timestamp;
use vstd::prelude::*;

verus! {

/// One permission of one role, as the `role_permissions` table records it.
#[derive(Clone, Copy, Debug)]
pub struct RolePermission {
    id: i32,
    role_id: i32,
    permission_id: i32,
    created_at: Timestamp,
}

/// What a [`RolePermission`] holds.
pub struct RolePermissionView {
    pub id: i32,
    pub role_id: i32,
    pub permission_id: i32,
    pub created_at: Timestamp,
}

impl View for RolePermission {
    type V = RolePermissionView;

    closed spec fn view(&self) -> RolePermissionView {
        RolePermissionView {
            id: self.id,
            role_id: self.role_id,
            permission_id: self.permission_id,
            created_at: self.created_at,
        }
    }
}

impl RolePermission {
    /// The record with these values.
    pub fn new(
        id: i32,
        role_id: i32,
        permission_id: i32,
        created_at: Timestamp,
    ) -> (made: RolePermission)
        ensures
            made@ == (RolePermissionView {
                id,
                role_id,
                permission_id,
                created_at,
            }),
    {
        RolePermission { id, role_id, permission_id, created_at }
    }

    /// The record's id.
    pub fn id(&self) -> (r: i32)
        ensures
            r == self@.id,
    {
        self.id
    }

    /// The id of the role.
    pub fn role_id(&self) -> (r: i32)
        ensures
            r == self@.role_id,
    {
        self.role_id
    }

    /// The id of the permission that the role has.
    pub fn permission_id(&self) -> (r: i32)
        ensures
            r == self@.permission_id,
    {
        self.permission_id
    }

    /// When the permission was given to the role.
    pub fn created_at(&self) -> (r: Timestamp)
        ensures
            r == self@.created_at,
    {
        self.created_at
    }
}

} // verus!
