//! Permissions as they are recorded.

use crate::sql_types::Permission as PermissionName;
use crate::timestamp::Timestamp;
use vstd::prelude::*;

verus! {

/// A permission as the `permissions` table records it.
#[derive(Clone, Copy, Debug)]
pub struct Permission {
    id: i32,
    name: PermissionName,
    created_at: Timestamp,
}

/// What a [`Permission`] holds.
pub struct PermissionView {
    pub id: i32,
    pub name: PermissionName,
    pub created_at: Timestamp,
}

impl View for Permission {
    type V = PermissionView;

    closed spec fn view(&self) -> PermissionView {
        PermissionView {
            id: self.id,
            name: self.name,
            created_at: self.created_at,
        }
    }
}

impl Permission {
    /// The record with these values.
    pub fn new(id: i32, name: PermissionName, created_at: Timestamp) -> (made: Permission)
        ensures
            made@ == (PermissionView {
                id,
                name,
                created_at,
            }),
    {
        Permission { id, name, created_at }
    }

    /// The record's id.
    pub fn id(&self) -> (r: i32)
        ensures
            r == self@.id,
    {
        self.id
    }

    /// Which action this permission allows.
    pub fn name(&self) -> (r: PermissionName)
        ensures
            r == self@.name,
    {
        self.name
    }

    /// When the permission was recorded.
    pub fn created_at(&self) -> (r: Timestamp)
        ensures
            r == self@.created_at,
    {
        self.created_at
    }
}

} // verus!
