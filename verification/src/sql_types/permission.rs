//! The actions that a role can allow.

use crate::text::same_text;
use vstd::prelude::*;

verus! {

/// An action that a role can allow.
#[derive(Clone, Copy, Debug, PartialEq, Eq, Hash, Structural)]
pub enum Permission {
    /// Publishing a post.
    MakePost,
    /// Publishing a post that carries a media file.
    MakeMediaPost,
    /// Commenting on a post.
    MakeComment,
    /// Following another actor.
    FollowUser,
    /// Creating a persona.
    MakePersona,
    /// Acting as another of one's personas.
    SwitchPersona,
    /// Deleting a persona.
    DeletePersona,
    /// Answering requests to follow.
    ManageFollowRequest,
    /// Changing the settings of the instance.
    ConfigureInstance,
    /// Banning a user from the instance.
    BanUser,
    /// Blocking another instance.
    BlockInstance,
    /// Granting a role to a user.
    GrantRole,
    /// Taking a role from a user.
    RevokeRole,
}

/// Failed to parse Permission.
#[derive(Clone, Copy, Debug, PartialEq, Eq, Structural)]
pub struct PermissionParseError;

impl PermissionParseError {
    /// What to tell a reader about this error.
    pub fn message(&self) -> (text: &'static str)
        ensures
            text@ == "Failed to parse Permission"@,
    {
        "Failed to parse Permission"
    }
}

impl Permission {
    /// The text that stands for this value in a record.
    pub open spec fn text(self) -> Seq<char> {
        match self {
            Permission::MakePost => "make-post"@,
            Permission::MakeMediaPost => "make-media-post"@,
            Permission::MakeComment => "make-comment"@,
            Permission::FollowUser => "follow-user"@,
            Permission::MakePersona => "make-persona"@,
            Permission::SwitchPersona => "switch-persona"@,
            Permission::DeletePersona => "delete-persona"@,
            Permission::ManageFollowRequest => "manage-follow-request"@,
            Permission::ConfigureInstance => "configure-instance"@,
            Permission::BanUser => "ban-user"@,
            Permission::BlockInstance => "block-instance"@,
            Permission::GrantRole => "grant-role"@,
            Permission::RevokeRole => "revoke-role"@,
        }
    }

    /// The value that a text stands for, if it stands for one.
    pub open spec fn of_text(text: Seq<char>) -> Option<Permission> {
        if text == "make-post"@ {
            Some(Permission::MakePost)
        } else if text == "make-media-post"@ {
            Some(Permission::MakeMediaPost)
        } else if text == "make-comment"@ {
            Some(Permission::MakeComment)
        } else if text == "follow-user"@ {
            Some(Permission::FollowUser)
        } else if text == "make-persona"@ {
            Some(Permission::MakePersona)
        } else if text == "switch-persona"@ {
            Some(Permission::SwitchPersona)
        } else if text == "delete-persona"@ {
            Some(Permission::DeletePersona)
        } else if text == "manage-follow-request"@ {
            Some(Permission::ManageFollowRequest)
        } else if text == "configure-instance"@ {
            Some(Permission::ConfigureInstance)
        } else if text == "ban-user"@ {
            Some(Permission::BanUser)
        } else if text == "block-instance"@ {
            Some(Permission::BlockInstance)
        } else if text == "grant-role"@ {
            Some(Permission::GrantRole)
        } else if text == "revoke-role"@ {
            Some(Permission::RevokeRole)
        } else {
            None
        }
    }

    /// The text that stands for this value in a record.
    pub fn as_str(&self) -> (text: &'static str)
        ensures
            text@ == self.text(),
    {
        match self {
            Permission::MakePost => "make-post",
            Permission::MakeMediaPost => "make-media-post",
            Permission::MakeComment => "make-comment",
            Permission::FollowUser => "follow-user",
            Permission::MakePersona => "make-persona",
            Permission::SwitchPersona => "switch-persona",
            Permission::DeletePersona => "delete-persona",
            Permission::ManageFollowRequest => "manage-follow-request",
            Permission::ConfigureInstance => "configure-instance",
            Permission::BanUser => "ban-user",
            Permission::BlockInstance => "block-instance",
            Permission::GrantRole => "grant-role",
            Permission::RevokeRole => "revoke-role",
        }
    }

    /// Reads a value from the text that stands for it. Any other text is
    /// turned down.
    pub fn parse(text: &str) -> (r: Result<Permission, PermissionParseError>)
        ensures
            match Permission::of_text(text@) {
                Some(value) => r == Ok::<Permission, PermissionParseError>(value),
                None => r == Err::<Permission, PermissionParseError>(PermissionParseError),
            },
    {
        if same_text(text, "make-post") {
            Ok(Permission::MakePost)
        } else if same_text(text, "make-media-post") {
            Ok(Permission::MakeMediaPost)
        } else if same_text(text, "make-comment") {
            Ok(Permission::MakeComment)
        } else if same_text(text, "follow-user") {
            Ok(Permission::FollowUser)
        } else if same_text(text, "make-persona") {
            Ok(Permission::MakePersona)
        } else if same_text(text, "switch-persona") {
            Ok(Permission::SwitchPersona)
        } else if same_text(text, "delete-persona") {
            Ok(Permission::DeletePersona)
        } else if same_text(text, "manage-follow-request") {
            Ok(Permission::ManageFollowRequest)
        } else if same_text(text, "configure-instance") {
            Ok(Permission::ConfigureInstance)
        } else if same_text(text, "ban-user") {
            Ok(Permission::BanUser)
        } else if same_text(text, "block-instance") {
            Ok(Permission::BlockInstance)
        } else if same_text(text, "grant-role") {
            Ok(Permission::GrantRole)
        } else if same_text(text, "revoke-role") {
            Ok(Permission::RevokeRole)
        } else {
            Err(PermissionParseError)
        }
    }

    /// Reading back the text of a value gives that value.
    pub proof fn lemma_text_round_trip(self)
        ensures
            Permission::of_text(self.text()) == Some(self),
    {
        reveal_strlit("make-post");
        reveal_strlit("make-media-post");
        reveal_strlit("make-comment");
        reveal_strlit("follow-user");
        reveal_strlit("make-persona");
        reveal_strlit("switch-persona");
        reveal_strlit("delete-persona");
        reveal_strlit("manage-follow-request");
        reveal_strlit("configure-instance");
        reveal_strlit("ban-user");
        reveal_strlit("block-instance");
        reveal_strlit("grant-role");
        reveal_strlit("revoke-role");
        assert("make-post"@.len() == 9);
        assert("make-media-post"@.len() == 15);
        assert("make-comment"@.len() == 12);
        assert("follow-user"@.len() == 11);
        assert("make-persona"@.len() == 12);
        assert("switch-persona"@.len() == 14);
        assert("delete-persona"@.len() == 14);
        assert("manage-follow-request"@.len() == 21);
        assert("configure-instance"@.len() == 18);
        assert("ban-user"@.len() == 8);
        assert("block-instance"@.len() == 14);
        assert("grant-role"@.len() == 10);
        assert("revoke-role"@.len() == 11);
        assert("make-comment"@[5] != "make-persona"@[5]);
        assert("switch-persona"@[0] != "delete-persona"@[0]);
        assert("switch-persona"@[0] != "block-instance"@[0]);
        assert("delete-persona"@[0] != "block-instance"@[0]);
        assert("follow-user"@[0] != "revoke-role"@[0]);
    }
}

impl core::str::FromStr for Permission {
    type Err = PermissionParseError;

    /// Reads a value from the text that stands for it, as
    /// [`Permission::parse`] does.
    fn from_str(s: &str) -> (r: Result<Permission, PermissionParseError>)
        ensures
            match Permission::of_text(s@) {
                Some(value) => r == Ok::<Permission, PermissionParseError>(value),
                None => r == Err::<Permission, PermissionParseError>(PermissionParseError),
            },
    {
        Permission::parse(s)
    }
}

} // verus!
