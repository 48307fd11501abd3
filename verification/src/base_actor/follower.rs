//! Who follows whom.

use crate::base_actor::BaseActor;
use vstd::prelude::*;

verus! {

/// One actor following another, as the `followers` table records it.
#[derive(Clone, Copy, Debug)]
pub struct Follower {
    id: i32,
    follower: i32,
    follows: i32,
}

/// What a [`Follower`] holds.
pub struct FollowerView {
    pub id: i32,
    pub follower: i32,
    pub follows: i32,
}

impl View for Follower {
    type V = FollowerView;

    closed spec fn view(&self) -> FollowerView {
        FollowerView {
            id: self.id,
            follower: self.follower,
            follows: self.follows,
        }
    }
}

impl Follower {
    /// The record with these values.
    pub fn new(id: i32, follower: i32, follows: i32) -> (made: Follower)
        ensures
            made@ == (FollowerView {
                id,
                follower,
                follows,
            }),
    {
        Follower { id, follower, follows }
    }

    /// The record's id.
    pub fn id(&self) -> (r: i32)
        ensures
            r == self@.id,
    {
        self.id
    }

    /// The id of the actor who follows.
    pub fn follower(&self) -> (r: i32)
        ensures
            r == self@.follower,
    {
        self.follower
    }

    /// The id of the actor who is followed.
    pub fn follows(&self) -> (r: i32)
        ensures
            r == self@.follows,
    {
        self.follows
    }
}

/// A following that is about to be recorded.
#[derive(Clone, Copy, Debug)]
pub struct NewFollower {
    follower: i32,
    follows: i32,
}

/// What a [`NewFollower`] holds.
pub struct NewFollowerView {
    pub follower: i32,
    pub follows: i32,
}

impl View for NewFollower {
    type V = NewFollowerView;

    closed spec fn view(&self) -> NewFollowerView {
        NewFollowerView {
            follower: self.follower,
            follows: self.follows,
        }
    }
}

impl NewFollower {
    /// The id of the actor who follows.
    pub fn follower(&self) -> (r: i32)
        ensures
            r == self@.follower,
    {
        self.follower
    }

    /// The id of the actor who is followed.
    pub fn follows(&self) -> (r: i32)
        ensures
            r == self@.follows,
    {
        self.follows
    }

    /// The following of one actor by another.
    pub fn new(follower: &BaseActor, follows: &BaseActor) -> (made: NewFollower)
        ensures
            made@ == (NewFollowerView {
                follower: follower@.id,
                follows: follows@.id,
            }),
    {
        NewFollower {
            follower: follower.id(),
            follows: follows.id(),
        }
    }
}

} // verus!
