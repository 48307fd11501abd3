//! The kinds of reaction.

use crate::text::same_text;
use vstd::prelude::*;

verus! {

/// How an actor reacted to a comment.
#[derive(Clone, Copy, Debug, PartialEq, Eq, Hash, Structural)]
pub enum ReactionType {
    /// The actor liked it.
    Like,
    /// The actor disliked it.
    Dislike,
    /// The actor has seen it.
    Seen,
}

/// Error parsing ReactionType.
#[derive(Clone, Copy, Debug, PartialEq, Eq, Structural)]
pub struct ReactionTypeParseError;

impl ReactionTypeParseError {
    /// What to tell a reader about this error.
    pub fn message(&self) -> (text: &'static str)
        ensures
            text@ == "Error parsing ReactionType"@,
    {
        "Error parsing ReactionType"
    }
}

impl ReactionType {
    /// The text that stands for this value in a record.
    pub open spec fn text(self) -> Seq<char> {
        match self {
            ReactionType::Like => "LIKE"@,
            ReactionType::Dislike => "DISLIKE"@,
            ReactionType::Seen => "SEEN"@,
        }
    }

    /// The value that a text stands for, if it stands for one.
    pub open spec fn of_text(text: Seq<char>) -> Option<ReactionType> {
        if text == "LIKE"@ {
            Some(ReactionType::Like)
        } else if text == "DISLIKE"@ {
            Some(ReactionType::Dislike)
        } else if text == "SEEN"@ {
            Some(ReactionType::Seen)
        } else {
            None
        }
    }

    /// The text that stands for this value in a record.
    pub fn as_str(&self) -> (text: &'static str)
        ensures
            text@ == self.text(),
    {
        match self {
            ReactionType::Like => "LIKE",
            ReactionType::Dislike => "DISLIKE",
            ReactionType::Seen => "SEEN",
        }
    }

    /// Reads a value from the text that stands for it. Any other text is
    /// turned down.
    pub fn parse(text: &str) -> (r: Result<ReactionType, ReactionTypeParseError>)
        ensures
            match ReactionType::of_text(text@) {
                Some(value) => r == Ok::<ReactionType, ReactionTypeParseError>(value),
                None => r == Err::<ReactionType, ReactionTypeParseError>(ReactionTypeParseError),
            },
    {
        if same_text(text, "LIKE") {
            Ok(ReactionType::Like)
        } else if same_text(text, "DISLIKE") {
            Ok(ReactionType::Dislike)
        } else if same_text(text, "SEEN") {
            Ok(ReactionType::Seen)
        } else {
            Err(ReactionTypeParseError)
        }
    }

    /// Reading back the text of a value gives that value.
    pub proof fn lemma_text_round_trip(self)
        ensures
            ReactionType::of_text(self.text()) == Some(self),
    {
        reveal_strlit("LIKE");
        reveal_strlit("DISLIKE");
        reveal_strlit("SEEN");
        assert("LIKE"@.len() == 4);
        assert("DISLIKE"@.len() == 7);
        assert("SEEN"@.len() == 4);
        assert("LIKE"@[0] != "SEEN"@[0]);
    }
}

impl core::str::FromStr for ReactionType {
    type Err = ReactionTypeParseError;

    /// Reads a value from the text that stands for it, as
    /// [`ReactionType::parse`] does.
    fn from_str(s: &str) -> (r: Result<ReactionType, ReactionTypeParseError>)
        ensures
            match ReactionType::of_text(s@) {
                Some(value) => r == Ok::<ReactionType, ReactionTypeParseError>(value),
                None => r == Err::<ReactionType, ReactionTypeParseError>(ReactionTypeParseError),
            },
    {
        ReactionType::parse(s)
    }
}

} // verus!
