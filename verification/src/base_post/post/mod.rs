//! Posts with a text.

pub mod comment;
pub mod media_post;

use crate::base_post::BasePost;
use vstd::prelude::*;

verus! {

/// A post as the `posts` table records it.
pub struct Post {
    id: i32,
    content: String,
    source: Option<String>,
    base_post: i32,
}

/// What a [`Post`] holds.
pub struct PostView {
    pub id: i32,
    pub content: Seq<char>,
    pub source: Option<Seq<char>>,
    pub base_post: i32,
}

impl View for Post {
    type V = PostView;

    closed spec fn view(&self) -> PostView {
        PostView {
            id: self.id,
            content: self.content@,
            source: match self.source { Some(text) => Some(text@), None => None },
            base_post: self.base_post,
        }
    }
}

impl Post {
    /// The record with these values.
    pub fn new(id: i32, content: String, source: Option<String>, base_post: i32) -> (made: Post)
        ensures
            made@ == (PostView {
                id,
                content: content@,
                source: match source { Some(text) => Some(text@), None => None },
                base_post,
            }),
    {
        Post { id, content, source, base_post }
    }

    /// The record's id.
    pub fn id(&self) -> (r: i32)
        ensures
            r == self@.id,
    {
        self.id
    }

    /// The text of the post as it is shown.
    pub fn content(&self) -> (r: &str)
        ensures
            r@ == self@.content,
    {
        self.content.as_str()
    }

    /// The text of the post as it was written, if that is kept.
    pub fn source(&self) -> (r: Option<&str>)
        ensures
            match r {
                Some(text) => self@.source == Some(text@),
                None => self@.source is None,
            },
    {
        match &self.source {
            Some(text) => Some(text.as_str()),
            None => None,
        }
    }

    /// The id of the post's record in `base_posts`.
    pub fn base_post(&self) -> (r: i32)
        ensures
            r == self@.base_post,
    {
        self.base_post
    }

    /// A second record with the same values.
    pub fn duplicate(&self) -> (copy: Post)
        ensures
            copy@ == self@,
    {
        Post {
            id: self.id,
            content: self.content.clone(),
            source: match &self.source {
                Some(text) => Some(text.clone()),
                None => None,
            },
            base_post: self.base_post,
        }
    }
}

/// A post that is about to be recorded.
pub struct NewPost {
    content: String,
    source: Option<String>,
    base_post: i32,
}

/// What a [`NewPost`] holds.
pub struct NewPostView {
    pub content: Seq<char>,
    pub source: Option<Seq<char>>,
    pub base_post: i32,
}

impl View for NewPost {
    type V = NewPostView;

    closed spec fn view(&self) -> NewPostView {
        NewPostView {
            content: self.content@,
            source: match self.source { Some(text) => Some(text@), None => None },
            base_post: self.base_post,
        }
    }
}

impl NewPost {
    /// The text of the post as it is shown.
    pub fn content(&self) -> (r: &str)
        ensures
            r@ == self@.content,
    {
        self.content.as_str()
    }

    /// The text of the post as it was written, if that is kept.
    pub fn source(&self) -> (r: Option<&str>)
        ensures
            match r {
                Some(text) => self@.source == Some(text@),
                None => self@.source is None,
            },
    {
        match &self.source {
            Some(text) => Some(text.as_str()),
            None => None,
        }
    }

    /// The id of the post's record in `base_posts`.
    pub fn base_post(&self) -> (r: i32)
        ensures
            r == self@.base_post,
    {
        self.base_post
    }

    /// A second record with the same values.
    pub fn duplicate(&self) -> (copy: NewPost)
        ensures
            copy@ == self@,
    {
        NewPost {
            content: self.content.clone(),
            source: match &self.source {
                Some(text) => Some(text.clone()),
                None => None,
            },
            base_post: self.base_post,
        }
    }

    /// The text of a post whose common part is recorded.
    pub fn new(content: String, source: Option<String>, base_post: &BasePost) -> (made: NewPost)
        ensures
            made@ == (NewPostView {
                content: content@,
                source: match source {
                    Some(text) => Some(text@),
                    None => None,
                },
                base_post: base_post@.id,
            }),
    {
        NewPost {
            content,
            source,
            base_post: base_post.id(),
        }
    }
}

} // verus!
