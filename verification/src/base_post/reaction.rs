//! Reactions to comments.

use crate::base_post::post::comment::Comment;
pub use crate::sql_types::reaction_type::{ReactionType, ReactionTypeParseError};
use vstd::prelude::*;

verus! {

/// A reaction as the `reactions` table records it.
#[derive(Clone, Copy, Debug)]
pub struct Reaction {
    id: i32,
    reaction_type: ReactionType,
    comment_id: i32,
}

/// What a [`Reaction`] holds.
pub struct ReactionView {
    pub id: i32,
    pub reaction_type: ReactionType,
    pub comment_id: i32,
}

impl View for Reaction {
    type V = ReactionView;

    closed spec fn view(&self) -> ReactionView {
        ReactionView {
            id: self.id,
            reaction_type: self.reaction_type,
            comment_id: self.comment_id,
        }
    }
}

impl Reaction {
    /// The record with these values.
    pub fn new(id: i32, reaction_type: ReactionType, comment_id: i32) -> (made: Reaction)
        ensures
            made@ == (ReactionView {
                id,
                reaction_type,
                comment_id,
            }),
    {
        Reaction { id, reaction_type, comment_id }
    }

    /// The record's id.
    pub fn id(&self) -> (r: i32)
        ensures
            r == self@.id,
    {
        self.id
    }

    /// How the actor reacted.
    pub fn reaction_type(&self) -> (r: ReactionType)
        ensures
            r == self@.reaction_type,
    {
        self.reaction_type
    }

    /// The id of the comment that was reacted to.
    pub fn comment_id(&self) -> (r: i32)
        ensures
            r == self@.comment_id,
    {
        self.comment_id
    }
}

/// A reaction that is about to be recorded.
#[derive(Clone, Copy, Debug)]
pub struct NewReaction {
    reaction_type: ReactionType,
    comment_id: i32,
}

/// What a [`NewReaction`] holds.
pub struct NewReactionView {
    pub reaction_type: ReactionType,
    pub comment_id: i32,
}

impl View for NewReaction {
    type V = NewReactionView;

    closed spec fn view(&self) -> NewReactionView {
        NewReactionView {
            reaction_type: self.reaction_type,
            comment_id: self.comment_id,
        }
    }
}

impl NewReaction {
    /// How the actor reacted.
    pub fn reaction_type(&self) -> (r: ReactionType)
        ensures
            r == self@.reaction_type,
    {
        self.reaction_type
    }

    /// The id of the comment that was reacted to.
    pub fn comment_id(&self) -> (r: i32)
        ensures
            r == self@.comment_id,
    {
        self.comment_id
    }

    /// The reaction to a comment.
    pub fn new(reaction_type: ReactionType, comment: &Comment) -> (made: NewReaction)
        ensures
            made@ == (NewReactionView {
                reaction_type,
                comment_id: comment@.id,
            }),
    {
        NewReaction {
            reaction_type,
            comment_id: comment.id(),
        }
    }
}

} // verus!
