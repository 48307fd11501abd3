//! Posts that are handed to an actor directly.

use crate::base_actor::BaseActor;
use crate::base_post::BasePost;
use vstd::prelude::*;

verus! {

/// A post handed to an actor, as the `direct_posts` table records it.
#[derive(Clone, Copy, Debug)]
pub struct DirectPost {
    id: i32,
    base_post_id: i32,
    base_actor_id: i32,
}

/// What a [`DirectPost`] holds.
pub struct DirectPostView {
    pub id: i32,
    pub base_post_id: i32,
    pub base_actor_id: i32,
}

impl View for DirectPost {
    type V = DirectPostView;

    closed spec fn view(&self) -> DirectPostView {
        DirectPostView {
            id: self.id,
            base_post_id: self.base_post_id,
            base_actor_id: self.base_actor_id,
        }
    }
}

impl DirectPost {
    /// The record with these values.
    pub fn new(id: i32, base_post_id: i32, base_actor_id: i32) -> (made: DirectPost)
        ensures
            made@ == (DirectPostView {
                id,
                base_post_id,
                base_actor_id,
            }),
    {
        DirectPost { id, base_post_id, base_actor_id }
    }

    /// The record's id.
    pub fn id(&self) -> (r: i32)
        ensures
            r == self@.id,
    {
        self.id
    }

    /// The id of the post.
    pub fn base_post_id(&self) -> (r: i32)
        ensures
            r == self@.base_post_id,
    {
        self.base_post_id
    }

    /// The id of the actor who gets the post.
    pub fn base_actor_id(&self) -> (r: i32)
        ensures
            r == self@.base_actor_id,
    {
        self.base_actor_id
    }
}

/// A handing-over that is about to be recorded.
#[derive(Clone, Copy, Debug)]
pub struct NewDirectPost {
    base_post_id: i32,
    base_actor_id: i32,
}

/// What a [`NewDirectPost`] holds.
pub struct NewDirectPostView {
    pub base_post_id: i32,
    pub base_actor_id: i32,
}

impl View for NewDirectPost {
    type V = NewDirectPostView;

    closed spec fn view(&self) -> NewDirectPostView {
        NewDirectPostView {
            base_post_id: self.base_post_id,
            base_actor_id: self.base_actor_id,
        }
    }
}

impl NewDirectPost {
    /// The id of the post.
    pub fn base_post_id(&self) -> (r: i32)
        ensures
            r == self@.base_post_id,
    {
        self.base_post_id
    }

    /// The id of the actor who gets the post.
    pub fn base_actor_id(&self) -> (r: i32)
        ensures
            r == self@.base_actor_id,
    {
        self.base_actor_id
    }

    /// The handing of a post to an actor.
    pub fn new(post: &BasePost, actor: &BaseActor) -> (made: NewDirectPost)
        ensures
            made@ == (NewDirectPostView {
                base_post_id: post@.id,
                base_actor_id: actor@.id,
            }),
    {
        NewDirectPost {
            base_post_id: post.id(),
            base_actor_id: actor.id(),
        }
    }
}

} // verus!
