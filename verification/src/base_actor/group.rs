//! Groups of actors.

use crate::base_actor::BaseActor;
use vstd::prelude::*;

verus! {

/// A group as the `groups` table records it.
#[derive(Clone, Copy, Debug)]
pub struct Group {
    id: i32,
    base_actor_id: i32,
}

/// What a [`Group`] holds.
pub struct GroupView {
    pub id: i32,
    pub base_actor_id: i32,
}

impl View for Group {
    type V = GroupView;

    closed spec fn view(&self) -> GroupView {
        GroupView {
            id: self.id,
            base_actor_id: self.base_actor_id,
        }
    }
}

impl Group {
    /// The record with these values.
    pub fn new(id: i32, base_actor_id: i32) -> (made: Group)
        ensures
            made@ == (GroupView {
                id,
                base_actor_id,
            }),
    {
        Group { id, base_actor_id }
    }

    /// The record's id.
    pub fn id(&self) -> (r: i32)
        ensures
            r == self@.id,
    {
        self.id
    }

    /// The id of the actor that stands for the group.
    pub fn base_actor_id(&self) -> (r: i32)
        ensures
            r == self@.base_actor_id,
    {
        self.base_actor_id
    }
}

/// A group that is about to be recorded.
#[derive(Clone, Copy, Debug)]
pub struct NewGroup {
    base_actor_id: i32,
}

/// What a [`NewGroup`] holds.
pub struct NewGroupView {
    pub base_actor_id: i32,
}

impl View for NewGroup {
    type V = NewGroupView;

    closed spec fn view(&self) -> NewGroupView {
        NewGroupView {
            base_actor_id: self.base_actor_id,
        }
    }
}

impl NewGroup {
    /// The id of the actor that stands for the group.
    pub fn base_actor_id(&self) -> (r: i32)
        ensures
            r == self@.base_actor_id,
    {
        self.base_actor_id
    }

    /// The group that an actor stands for.
    pub fn new(actor: &BaseActor) -> (made: NewGroup)
        ensures
            made@ == (NewGroupView {
                base_actor_id: actor@.id,
            }),
    {
        NewGroup {
            base_actor_id: actor.id(),
        }
    }
}

} // verus!
