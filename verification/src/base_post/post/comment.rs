//! Comments.

use crate::base_post::post::Post;
use vstd::prelude::*;

verus! {

/// A comment as the `comments` table records it.
#[derive(Clone, Copy, Debug)]
pub struct Comment {
    id: i32,
    conversation: i32,
    parent: i32,
    post: i32,
}

/// What a [`Comment`] holds.
pub struct CommentView {
    pub id: i32,
    pub conversation: i32,
    pub parent: i32,
    pub post: i32,
}

impl View for Comment {
    type V = CommentView;

    closed spec fn view(&self) -> CommentView {
        CommentView {
            id: self.id,
            conversation: self.conversation,
            parent: self.parent,
            post: self.post,
        }
    }
}

impl Comment {
    /// The record with these values.
    pub fn new(id: i32, conversation: i32, parent: i32, post: i32) -> (made: Comment)
        ensures
            made@ == (CommentView {
                id,
                conversation,
                parent,
                post,
            }),
    {
        Comment { id, conversation, parent, post }
    }

    /// The record's id.
    pub fn id(&self) -> (r: i32)
        ensures
            r == self@.id,
    {
        self.id
    }

    /// The id of the post that started the conversation.
    pub fn conversation(&self) -> (r: i32)
        ensures
            r == self@.conversation,
    {
        self.conversation
    }

    /// The id of the post that the comment answers.
    pub fn parent(&self) -> (r: i32)
        ensures
            r == self@.parent,
    {
        self.parent
    }

    /// The id of the post that holds the comment's text.
    pub fn post(&self) -> (r: i32)
        ensures
            r == self@.post,
    {
        self.post
    }
}

/// A comment that is about to be recorded.
#[derive(Clone, Copy, Debug)]
pub struct NewComment {
    conversation: i32,
    parent: i32,
    post: i32,
}

/// What a [`NewComment`] holds.
pub struct NewCommentView {
    pub conversation: i32,
    pub parent: i32,
    pub post: i32,
}

impl View for NewComment {
    type V = NewCommentView;

    closed spec fn view(&self) -> NewCommentView {
        NewCommentView {
            conversation: self.conversation,
            parent: self.parent,
            post: self.post,
        }
    }
}

impl NewComment {
    /// The id of the post that started the conversation.
    pub fn conversation(&self) -> (r: i32)
        ensures
            r == self@.conversation,
    {
        self.conversation
    }

    /// The id of the post that the comment answers.
    pub fn parent(&self) -> (r: i32)
        ensures
            r == self@.parent,
    {
        self.parent
    }

    /// The id of the post that holds the comment's text.
    pub fn post(&self) -> (r: i32)
        ensures
            r == self@.post,
    {
        self.post
    }

    /// The comment made of the posts with these ids.
    pub(crate) fn from_ids(conversation: i32, parent: i32, post: i32) -> (made: NewComment)
        ensures
            made@ == (NewCommentView {
                conversation,
                parent,
                post,
            }),
    {
        NewComment {
            conversation,
            parent,
            post,
        }
    }

    /// The comment that a post makes on another, within a conversation.
    pub fn new(conversation: &Post, parent: &Post, post: &Post) -> (made: NewComment)
        ensures
            made@ == (NewCommentView {
                conversation: conversation@.id,
                parent: parent@.id,
                post: post@.id,
            }),
    {
        NewComment {
            conversation: conversation.id(),
            parent: parent.id(),
            post: post.id(),
        }
    }
}

} // verus!
