//! Posts of every kind, as far as they are alike.

pub mod direct_post;
pub mod post;
pub mod reaction;

use self::direct_post::{DirectPost, DirectPostView};
use crate::base_actor::BaseActor;
use crate::file::image::Image;
use crate::sql_types::PostVisibility;
use vstd::prelude::*;

verus! {

/// A post as the `base_posts` table records it.
pub struct BasePost {
    id: i32,
    name: Option<String>,
    media_type: String,
    posted_by: i32,
    icon: Option<i32>,
    visibility: PostVisibility,
    original_json: serde_json::Value,
}

/// What a [`BasePost`] holds.
pub struct BasePostView {
    pub id: i32,
    pub name: Option<Seq<char>>,
    pub media_type: Seq<char>,
    pub posted_by: i32,
    pub icon: Option<i32>,
    pub visibility: PostVisibility,
    pub original_json: serde_json::Value,
}

impl View for BasePost {
    type V = BasePostView;

    closed spec fn view(&self) -> BasePostView {
        BasePostView {
            id: self.id,
            name: match self.name { Some(text) => Some(text@), None => None },
            media_type: self.media_type@,
            posted_by: self.posted_by,
            icon: self.icon,
            visibility: self.visibility,
            original_json: self.original_json,
        }
    }
}

impl BasePost {
    /// The record with these values.
    pub fn new(
        id: i32,
        name: Option<String>,
        media_type: String,
        posted_by: i32,
        icon: Option<i32>,
        visibility: PostVisibility,
        original_json: serde_json::Value,
    ) -> (made: BasePost)
        ensures
            made@ == (BasePostView {
                id,
                name: match name { Some(text) => Some(text@), None => None },
                media_type: media_type@,
                posted_by,
                icon,
                visibility,
                original_json,
            }),
    {
        BasePost { id, name, media_type, posted_by, icon, visibility, original_json }
    }

    /// The record's id.
    pub fn id(&self) -> (r: i32)
        ensures
            r == self@.id,
    {
        self.id
    }

    /// The title of the post, if it has one.
    pub fn name(&self) -> (r: Option<&str>)
        ensures
            match r {
                Some(text) => self@.name == Some(text@),
                None => self@.name is None,
            },
    {
        match &self.name {
            Some(text) => Some(text.as_str()),
            None => None,
        }
    }

    /// The media type of the post's content.
    pub fn media_type(&self) -> (r: &str)
        ensures
            r@ == self@.media_type,
    {
        self.media_type.as_str()
    }

    /// The id of the actor who posted.
    pub fn posted_by(&self) -> (r: i32)
        ensures
            r == self@.posted_by,
    {
        self.posted_by
    }

    /// The id of the post's image, if it has one.
    pub fn icon(&self) -> (r: Option<i32>)
        ensures
            r == self@.icon,
    {
        self.icon
    }

    /// Who gets to see the post.
    pub fn visibility(&self) -> (r: PostVisibility)
        ensures
            r == self@.visibility,
    {
        self.visibility
    }

    /// The document the post was read from.
    pub fn original_json(&self) -> (r: &serde_json::Value)
        ensures
            *r == self@.original_json,
    {
        &self.original_json
    }

    /// Whether a direct post to the actor is among the given ones.
    pub open spec fn addressed_to(
        post_id: i32,
        actor_id: i32,
        direct_posts: Seq<DirectPostView>,
    ) -> bool {
        exists|i: int|
            0 <= i < direct_posts.len() && (#[trigger] direct_posts[i]).base_post_id == post_id
                && direct_posts[i].base_actor_id == actor_id
    }

    /// Whether the actor may view the post: whether one of the recorded
    /// direct posts hands this post to the actor.
    pub fn is_viewable_by(&self, base_actor: &BaseActor, direct_posts: &Vec<DirectPost>) -> (b:
        bool)
        ensures
            b == BasePost::addressed_to(
                self@.id,
                base_actor@.id,
                direct_posts@.map_values(|row: DirectPost| row@),
            ),
    {
        let actor_id = base_actor.id();
        let mut i: usize = 0;
        while i < direct_posts.len()
            invariant
                i <= direct_posts@.len(),
                actor_id == base_actor@.id,
                forall|k: int|
                    0 <= k < i ==> !(direct_posts@[k]@.base_post_id == self@.id
                        && direct_posts@[k]@.base_actor_id == actor_id),
            decreases direct_posts@.len() - i,
        {
            if direct_posts[i].base_post_id() == self.id && direct_posts[i].base_actor_id()
                == actor_id {
                assert(direct_posts@.map_values(|row: DirectPost| row@)[i as int]
                    == direct_posts@[i as int]@);
                return true;
            }
            i += 1;
        }
        proof {
            let views = direct_posts@.map_values(|row: DirectPost| row@);
            assert forall|k: int| 0 <= k < views.len() implies !((#[trigger] views[k]).base_post_id
                == self@.id && views[k].base_actor_id == actor_id) by {
                assert(views[k] == direct_posts@[k]@);
            }
        }
        false
    }
}

/// A post that is about to be recorded.
pub struct NewBasePost {
    name: Option<String>,
    media_type: String,
    posted_by: i32,
    icon: Option<i32>,
    visibility: PostVisibility,
    original_json: serde_json::Value,
}

/// What a [`NewBasePost`] holds.
pub struct NewBasePostView {
    pub name: Option<Seq<char>>,
    pub media_type: Seq<char>,
    pub posted_by: i32,
    pub icon: Option<i32>,
    pub visibility: PostVisibility,
    pub original_json: serde_json::Value,
}

impl View for NewBasePost {
    type V = NewBasePostView;

    closed spec fn view(&self) -> NewBasePostView {
        NewBasePostView {
            name: match self.name { Some(text) => Some(text@), None => None },
            media_type: self.media_type@,
            posted_by: self.posted_by,
            icon: self.icon,
            visibility: self.visibility,
            original_json: self.original_json,
        }
    }
}

impl NewBasePost {
    /// The title of the post, if it has one.
    pub fn name(&self) -> (r: Option<&str>)
        ensures
            match r {
                Some(text) => self@.name == Some(text@),
                None => self@.name is None,
            },
    {
        match &self.name {
            Some(text) => Some(text.as_str()),
            None => None,
        }
    }

    /// The media type of the post's content.
    pub fn media_type(&self) -> (r: &str)
        ensures
            r@ == self@.media_type,
    {
        self.media_type.as_str()
    }

    /// The id of the actor who posted.
    pub fn posted_by(&self) -> (r: i32)
        ensures
            r == self@.posted_by,
    {
        self.posted_by
    }

    /// The id of the post's image, if it has one.
    pub fn icon(&self) -> (r: Option<i32>)
        ensures
            r == self@.icon,
    {
        self.icon
    }

    /// Who gets to see the post.
    pub fn visibility(&self) -> (r: PostVisibility)
        ensures
            r == self@.visibility,
    {
        self.visibility
    }

    /// The document the post was read from.
    pub fn original_json(&self) -> (r: &serde_json::Value)
        ensures
            *r == self@.original_json,
    {
        &self.original_json
    }

    /// The post of an actor, with an image if one is given.
    pub fn new(
        name: Option<String>,
        media_type: String,
        posted_by: &BaseActor,
        icon: Option<&Image>,
        visibility: PostVisibility,
        original_json: serde_json::Value,
    ) -> (made: NewBasePost)
        ensures
            made@ == (NewBasePostView {
                name: match name {
                    Some(text) => Some(text@),
                    None => None,
                },
                media_type: media_type@,
                posted_by: posted_by@.id,
                icon: match icon {
                    Some(record) => Some(record@.id),
                    None => None,
                },
                visibility,
                original_json,
            }),
    {
        NewBasePost {
            name,
            media_type,
            posted_by: posted_by.id(),
            icon: match icon {
                Some(record) => Some(record.id()),
                None => None,
            },
            visibility,
            original_json,
        }
    }
}

} // verus!
