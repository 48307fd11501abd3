//! Posts that carry a media file.

use crate::base_post::post::Post;
use crate::file::File;
use vstd::prelude::*;

verus! {

/// A media post as the `media_posts` table records it.
#[derive(Clone, Copy, Debug)]
pub struct MediaPost {
    id: i32,
    file_id: i32,
    post_id: i32,
}

/// What a [`MediaPost`] holds.
pub struct MediaPostView {
    pub id: i32,
    pub file_id: i32,
    pub post_id: i32,
}

impl View for MediaPost {
    type V = MediaPostView;

    closed spec fn view(&self) -> MediaPostView {
        MediaPostView {
            id: self.id,
            file_id: self.file_id,
            post_id: self.post_id,
        }
    }
}

impl MediaPost {
    /// The record with these values.
    pub fn new(id: i32, file_id: i32, post_id: i32) -> (made: MediaPost)
        ensures
            made@ == (MediaPostView {
                id,
                file_id,
                post_id,
            }),
    {
        MediaPost { id, file_id, post_id }
    }

    /// The record's id.
    pub fn id(&self) -> (r: i32)
        ensures
            r == self@.id,
    {
        self.id
    }

    /// The id of the file.
    pub fn file_id(&self) -> (r: i32)
        ensures
            r == self@.file_id,
    {
        self.file_id
    }

    /// The id of the post.
    pub fn post_id(&self) -> (r: i32)
        ensures
            r == self@.post_id,
    {
        self.post_id
    }
}

/// A media post that is about to be recorded.
#[derive(Clone, Copy, Debug)]
pub struct NewMediaPost {
    file_id: i32,
    post_id: i32,
}

/// What a [`NewMediaPost`] holds.
pub struct NewMediaPostView {
    pub file_id: i32,
    pub post_id: i32,
}

impl View for NewMediaPost {
    type V = NewMediaPostView;

    closed spec fn view(&self) -> NewMediaPostView {
        NewMediaPostView {
            file_id: self.file_id,
            post_id: self.post_id,
        }
    }
}

impl NewMediaPost {
    /// The id of the file.
    pub fn file_id(&self) -> (r: i32)
        ensures
            r == self@.file_id,
    {
        self.file_id
    }

    /// The id of the post.
    pub fn post_id(&self) -> (r: i32)
        ensures
            r == self@.post_id,
    {
        self.post_id
    }

    /// The media post that ties the file with one id to the post with the other.
    pub(crate) fn from_ids(file_id: i32, post_id: i32) -> (made: NewMediaPost)
        ensures
            made@ == (NewMediaPostView {
                file_id,
                post_id,
            }),
    {
        NewMediaPost {
            file_id,
            post_id,
        }
    }

    /// The media post that ties a file to a post.
    pub fn new(file: &File, post: &Post) -> (made: NewMediaPost)
        ensures
            made@ == (NewMediaPostView {
                file_id: file@.id,
                post_id: post@.id,
            }),
    {
        NewMediaPost {
            file_id: file.id(),
            post_id: post.id(),
        }
    }
}

} // verus!
