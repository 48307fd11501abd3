//! The audiences of a post.

use crate::text::same_text;
use vstd::prelude::*;

verus! {

/// Who gets to see a post or a persona's posts.
#[derive(Clone, Copy, Debug, PartialEq, Eq, Hash, Structural)]
pub enum Visibility {
    /// Everyone.
    Public,
    /// Those who follow the author.
    FollowersOnly,
    /// Those who follow the author and are followed back.
    FriendsOnly,
    /// Those whom the author has listed.
    ListedPeopleOnly,
}

/// Failed to parse Visibility.
#[derive(Clone, Copy, Debug, PartialEq, Eq, Structural)]
pub struct VisibilityParseError;

impl VisibilityParseError {
    /// What to tell a reader about this error.
    pub fn message(&self) -> (text: &'static str)
        ensures
            text@ == "Failed to parse Visibility"@,
    {
        "Failed to parse Visibility"
    }
}

impl Visibility {
    /// The text that stands for this value in a record.
    pub open spec fn text(self) -> Seq<char> {
        match self {
            Visibility::Public => "PUB"@,
            Visibility::FollowersOnly => "FL"@,
            Visibility::FriendsOnly => "MUT"@,
            Visibility::ListedPeopleOnly => "LIST"@,
        }
    }

    /// The value that a text stands for, if it stands for one.
    pub open spec fn of_text(text: Seq<char>) -> Option<Visibility> {
        if text == "PUB"@ {
            Some(Visibility::Public)
        } else if text == "FL"@ {
            Some(Visibility::FollowersOnly)
        } else if text == "MUT"@ {
            Some(Visibility::FriendsOnly)
        } else if text == "LIST"@ {
            Some(Visibility::ListedPeopleOnly)
        } else {
            None
        }
    }

    /// The text that stands for this value in a record.
    pub fn as_str(&self) -> (text: &'static str)
        ensures
            text@ == self.text(),
    {
        match self {
            Visibility::Public => "PUB",
            Visibility::FollowersOnly => "FL",
            Visibility::FriendsOnly => "MUT",
            Visibility::ListedPeopleOnly => "LIST",
        }
    }

    /// Reads a value from the text that stands for it. Any other text is
    /// turned down.
    pub fn parse(text: &str) -> (r: Result<Visibility, VisibilityParseError>)
        ensures
            match Visibility::of_text(text@) {
                Some(value) => r == Ok::<Visibility, VisibilityParseError>(value),
                None => r == Err::<Visibility, VisibilityParseError>(VisibilityParseError),
            },
    {
        if same_text(text, "PUB") {
            Ok(Visibility::Public)
        } else if same_text(text, "FL") {
            Ok(Visibility::FollowersOnly)
        } else if same_text(text, "MUT") {
            Ok(Visibility::FriendsOnly)
        } else if same_text(text, "LIST") {
            Ok(Visibility::ListedPeopleOnly)
        } else {
            Err(VisibilityParseError)
        }
    }

    /// Reading back the text of a value gives that value.
    pub proof fn lemma_text_round_trip(self)
        ensures
            Visibility::of_text(self.text()) == Some(self),
    {
        reveal_strlit("PUB");
        reveal_strlit("FL");
        reveal_strlit("MUT");
        reveal_strlit("LIST");
        assert("PUB"@.len() == 3);
        assert("FL"@.len() == 2);
        assert("MUT"@.len() == 3);
        assert("LIST"@.len() == 4);
        assert("PUB"@[0] != "MUT"@[0]);
    }
}

impl core::str::FromStr for Visibility {
    type Err = VisibilityParseError;

    /// Reads a value from the text that stands for it, as
    /// [`Visibility::parse`] does.
    fn from_str(s: &str) -> (r: Result<Visibility, VisibilityParseError>)
        ensures
            match Visibility::of_text(s@) {
                Some(value) => r == Ok::<Visibility, VisibilityParseError>(value),
                None => r == Err::<Visibility, VisibilityParseError>(VisibilityParseError),
            },
    {
        Visibility::parse(s)
    }
}

} // verus!
