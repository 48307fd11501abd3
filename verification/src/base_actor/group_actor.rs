//! Which actor belongs to which group.

use crate::base_actor::group::Group;
use crate::base_actor::BaseActor;
use vstd::prelude::*;

verus! {

/// A membership as the `group_actors` table records it.
#[derive(Clone, Copy, Debug)]
pub struct GroupActor {
    id: i32,
    group_id: i32,
    base_actor_id: i32,
}

/// What a [`GroupActor`] holds.
pub struct GroupActorView {
    pub id: i32,
    pub group_id: i32,
    pub base_actor_id: i32,
}

impl View for GroupActor {
    type V = GroupActorView;

    closed spec fn view(&self) -> GroupActorView {
        GroupActorView {
            id: self.id,
            group_id: self.group_id,
            base_actor_id: self.base_actor_id,
        }
    }
}

impl GroupActor {
    /// The record with these values.
    pub fn new(id: i32, group_id: i32, base_actor_id: i32) -> (made: GroupActor)
        ensures
            made@ == (GroupActorView {
                id,
                group_id,
                base_actor_id,
            }),
    {
        GroupActor { id, group_id, base_actor_id }
    }

    /// The record's id.
    pub fn id(&self) -> (r: i32)
        ensures
            r == self@.id,
    {
        self.id
    }

    /// The id of the group.
    pub fn group_id(&self) -> (r: i32)
        ensures
            r == self@.group_id,
    {
        self.group_id
    }

    /// The id of the actor who belongs to the group.
    pub fn base_actor_id(&self) -> (r: i32)
        ensures
            r == self@.base_actor_id,
    {
        self.base_actor_id
    }
}

/// A membership that is about to be recorded.
#[derive(Clone, Copy, Debug)]
pub struct NewGroupActor {
    group_id: i32,
    base_actor_id: i32,
}

/// What a [`NewGroupActor`] holds.
pub struct NewGroupActorView {
    pub group_id: i32,
    pub base_actor_id: i32,
}

impl View for NewGroupActor {
    type V = NewGroupActorView;

    closed spec fn view(&self) -> NewGroupActorView {
        NewGroupActorView {
            group_id: self.group_id,
            base_actor_id: self.base_actor_id,
        }
    }
}

impl NewGroupActor {
    /// The id of the group.
    pub fn group_id(&self) -> (r: i32)
        ensures
            r == self@.group_id,
    {
        self.group_id
    }

    /// The id of the actor who belongs to the group.
    pub fn base_actor_id(&self) -> (r: i32)
        ensures
            r == self@.base_actor_id,
    {
        self.base_actor_id
    }

    /// The membership of an actor in a group.
    pub fn new(group: &Group, base_actor: &BaseActor) -> (made: NewGroupActor)
        ensures
            made@ == (NewGroupActorView {
                group_id: group@.id,
                base_actor_id: base_actor@.id,
            }),
    {
        NewGroupActor {
            group_id: group.id(),
            base_actor_id: base_actor.id(),
        }
    }
}

} // verus!
