//! The roles that a user can hold.

use crate::text::same_text;
use vstd::prelude::*;

verus! {

/// A named group of permissions that a user can hold.
#[derive(Clone, Copy, Debug, PartialEq, Eq, Hash, Structural)]
pub enum Role {
    /// Held by a user who has confirmed an email address.
    Verified,
    /// Held by a user who moderates the instance.
    Moderator,
    /// Held by a user who administers the instance.
    Admin,
}

/// Failed to parse Role.
#[derive(Clone, Copy, Debug, PartialEq, Eq, Structural)]
pub struct RoleParseError;

impl RoleParseError {
    /// What to tell a reader about this error.
    pub fn message(&self) -> (text: &'static str)
        ensures
            text@ == "Failed to parse Role"@,
    {
        "Failed to parse Role"
    }
}

impl Role {
    /// The text that stands for this value in a record.
    pub open spec fn text(self) -> Seq<char> {
        match self {
            Role::Verified => "verified"@,
            Role::Moderator => "moderator"@,
            Role::Admin => "admin"@,
        }
    }

    /// The value that a text stands for, if it stands for one.
    pub open spec fn of_text(text: Seq<char>) -> Option<Role> {
        if text == "verified"@ {
            Some(Role::Verified)
        } else if text == "moderator"@ {
            Some(Role::Moderator)
        } else if text == "admin"@ {
            Some(Role::Admin)
        } else {
            None
        }
    }

    /// The text that stands for this value in a record.
    pub fn as_str(&self) -> (text: &'static str)
        ensures
            text@ == self.text(),
    {
        match self {
            Role::Verified => "verified",
            Role::Moderator => "moderator",
            Role::Admin => "admin",
        }
    }

    /// Reads a value from the text that stands for it. Any other text is
    /// turned down.
    pub fn parse(text: &str) -> (r: Result<Role, RoleParseError>)
        ensures
            match Role::of_text(text@) {
                Some(value) => r == Ok::<Role, RoleParseError>(value),
                None => r == Err::<Role, RoleParseError>(RoleParseError),
            },
    {
        if same_text(text, "verified") {
            Ok(Role::Verified)
        } else if same_text(text, "moderator") {
            Ok(Role::Moderator)
        } else if same_text(text, "admin") {
            Ok(Role::Admin)
        } else {
            Err(RoleParseError)
        }
    }

    /// Reading back the text of a value gives that value.
    pub proof fn lemma_text_round_trip(self)
        ensures
            Role::of_text(self.text()) == Some(self),
    {
        reveal_strlit("verified");
        reveal_strlit("moderator");
        reveal_strlit("admin");
        assert("verified"@.len() == 8);
        assert("moderator"@.len() == 9);
        assert("admin"@.len() == 5);
    }
}

impl core::str::FromStr for Role {
    type Err = RoleParseError;

    /// Reads a value from the text that stands for it, as
    /// [`Role::parse`] does.
    fn from_str(s: &str) -> (r: Result<Role, RoleParseError>)
        ensures
            match Role::of_text(s@) {
                Some(value) => r == Ok::<Role, RoleParseError>(value),
                None => r == Err::<Role, RoleParseError>(RoleParseError),
            },
    {
        Role::parse(s)
    }
}

} // verus!
