//! Actors: the identities, local or remote, that own posts.

pub mod follower;
pub mod group;
pub mod group_actor;
pub mod persona;

use crate::sql_types::Url;
use crate::user::UserLike;
use vstd::prelude::*;

verus! {

/// A JSON document, as `serde_json` holds it. Nothing is read from it here:
/// records carry it along.
#[verifier::external_type_specification]
#[verifier::external_body]
pub struct ExJsonValue(serde_json::Value);

/// An actor whose name and addresses are being changed.
pub struct ModifiedBaseActor {
    id: i32,
    display_name: String,
    profile_url: Url,
    inbox_url: Url,
    outbox_url: Url,
    original_json: serde_json::Value,
}

/// What a [`ModifiedBaseActor`] holds.
pub struct ModifiedBaseActorView {
    pub id: i32,
    pub display_name: Seq<char>,
    pub profile_url: Seq<char>,
    pub inbox_url: Seq<char>,
    pub outbox_url: Seq<char>,
    pub original_json: serde_json::Value,
}

impl View for ModifiedBaseActor {
    type V = ModifiedBaseActorView;

    closed spec fn view(&self) -> ModifiedBaseActorView {
        ModifiedBaseActorView {
            id: self.id,
            display_name: self.display_name@,
            profile_url: self.profile_url@,
            inbox_url: self.inbox_url@,
            outbox_url: self.outbox_url@,
            original_json: self.original_json,
        }
    }
}

impl ModifiedBaseActor {
    /// The record's id.
    pub fn id(&self) -> (r: i32)
        ensures
            r == self@.id,
    {
        self.id
    }

    /// The name the actor shows.
    pub fn display_name(&self) -> (r: &str)
        ensures
            r@ == self@.display_name,
    {
        self.display_name.as_str()
    }

    /// Where the actor's profile is.
    pub fn profile_url(&self) -> (r: &Url)
        ensures
            r@ == self@.profile_url,
    {
        &self.profile_url
    }

    /// Where the actor takes deliveries.
    pub fn inbox_url(&self) -> (r: &Url)
        ensures
            r@ == self@.inbox_url,
    {
        &self.inbox_url
    }

    /// Where the actor publishes.
    pub fn outbox_url(&self) -> (r: &Url)
        ensures
            r@ == self@.outbox_url,
    {
        &self.outbox_url
    }

    /// The document the actor was read from.
    pub fn original_json(&self) -> (r: &serde_json::Value)
        ensures
            *r == self@.original_json,
    {
        &self.original_json
    }

    /// Changes the name the actor shows.
    pub fn set_display_name(&mut self, display_name: String)
        ensures
            final(self)@ == (ModifiedBaseActorView { display_name: display_name@, ..old(self)@ }),
    {
        self.display_name = display_name;
    }

    /// Changes where the actor's profile is.
    pub fn set_profile_url(&mut self, profile_url: Url)
        ensures
            final(self)@ == (ModifiedBaseActorView { profile_url: profile_url@, ..old(self)@ }),
    {
        self.profile_url = profile_url;
    }

    /// Changes where the actor takes deliveries.
    pub fn set_inbox_url(&mut self, inbox_url: Url)
        ensures
            final(self)@ == (ModifiedBaseActorView { inbox_url: inbox_url@, ..old(self)@ }),
    {
        self.inbox_url = inbox_url;
    }

    /// Changes where the actor publishes.
    pub fn set_outbox_url(&mut self, outbox_url: Url)
        ensures
            final(self)@ == (ModifiedBaseActorView { outbox_url: outbox_url@, ..old(self)@ }),
    {
        self.outbox_url = outbox_url;
    }

    /// The record as it stands with the changes, for the local user that
    /// the record had.
    pub fn into_base_actor(self, local_user: Option<i32>) -> (actor: BaseActor)
        ensures
            actor@ == (BaseActorView {
                id: self@.id,
                display_name: self@.display_name,
                profile_url: self@.profile_url,
                inbox_url: self@.inbox_url,
                outbox_url: self@.outbox_url,
                local_user,
                original_json: self@.original_json,
            }),
    {
        BaseActor {
            id: self.id,
            display_name: self.display_name,
            profile_url: self.profile_url,
            inbox_url: self.inbox_url,
            outbox_url: self.outbox_url,
            local_user,
            original_json: self.original_json,
        }
    }
}

/// An actor as the `base_actors` table records it.
pub struct BaseActor {
    id: i32,
    display_name: String,
    profile_url: Url,
    inbox_url: Url,
    outbox_url: Url,
    local_user: Option<i32>,
    original_json: serde_json::Value,
}

/// What a [`BaseActor`] holds.
pub struct BaseActorView {
    pub id: i32,
    pub display_name: Seq<char>,
    pub profile_url: Seq<char>,
    pub inbox_url: Seq<char>,
    pub outbox_url: Seq<char>,
    pub local_user: Option<i32>,
    pub original_json: serde_json::Value,
}

impl View for BaseActor {
    type V = BaseActorView;

    closed spec fn view(&self) -> BaseActorView {
        BaseActorView {
            id: self.id,
            display_name: self.display_name@,
            profile_url: self.profile_url@,
            inbox_url: self.inbox_url@,
            outbox_url: self.outbox_url@,
            local_user: self.local_user,
            original_json: self.original_json,
        }
    }
}

impl BaseActor {
    /// The record with these values.
    pub fn new(
        id: i32,
        display_name: String,
        profile_url: Url,
        inbox_url: Url,
        outbox_url: Url,
        local_user: Option<i32>,
        original_json: serde_json::Value,
    ) -> (made: BaseActor)
        ensures
            made@ == (BaseActorView {
                id,
                display_name: display_name@,
                profile_url: profile_url@,
                inbox_url: inbox_url@,
                outbox_url: outbox_url@,
                local_user,
                original_json,
            }),
    {
        BaseActor {
            id,
            display_name,
            profile_url,
            inbox_url,
            outbox_url,
            local_user,
            original_json,
        }
    }

    /// The record's id.
    pub fn id(&self) -> (r: i32)
        ensures
            r == self@.id,
    {
        self.id
    }

    /// The name the actor shows.
    pub fn display_name(&self) -> (r: &str)
        ensures
            r@ == self@.display_name,
    {
        self.display_name.as_str()
    }

    /// Where the actor's profile is.
    pub fn profile_url(&self) -> (r: &Url)
        ensures
            r@ == self@.profile_url,
    {
        &self.profile_url
    }

    /// Where the actor takes deliveries.
    pub fn inbox_url(&self) -> (r: &Url)
        ensures
            r@ == self@.inbox_url,
    {
        &self.inbox_url
    }

    /// Where the actor publishes.
    pub fn outbox_url(&self) -> (r: &Url)
        ensures
            r@ == self@.outbox_url,
    {
        &self.outbox_url
    }

    /// The id of the local user behind the actor, if there is one.
    pub fn local_user(&self) -> (r: Option<i32>)
        ensures
            r == self@.local_user,
    {
        self.local_user
    }

    /// The document the actor was read from.
    pub fn original_json(&self) -> (r: &serde_json::Value)
        ensures
            *r == self@.original_json,
    {
        &self.original_json
    }

    /// Turns the record into one whose name and addresses can be changed.
    /// The id and the document stay; who the local user is cannot change.
    pub fn modify(self) -> (changes: ModifiedBaseActor)
        ensures
            changes@ == (ModifiedBaseActorView {
                id: self@.id,
                display_name: self@.display_name,
                profile_url: self@.profile_url,
                inbox_url: self@.inbox_url,
                outbox_url: self@.outbox_url,
                original_json: self@.original_json,
            }),
    {
        ModifiedBaseActor {
            id: self.id,
            display_name: self.display_name,
            profile_url: self.profile_url,
            inbox_url: self.inbox_url,
            outbox_url: self.outbox_url,
            original_json: self.original_json,
        }
    }

    /// Whether the user is the local user behind this actor.
    pub fn is_local_user<U: UserLike>(&self, user: &U) -> (b: bool)
        ensures
            b == (self@.local_user == Some(user.profile().id)),
    {
        match self.local_user {
            Some(id) => id == user.id(),
            None => false,
        }
    }
}

/// An actor that is about to be recorded.
pub struct NewBaseActor {
    display_name: String,
    profile_url: Url,
    inbox_url: Url,
    local_user: Option<i32>,
    original_json: serde_json::Value,
}

/// What a [`NewBaseActor`] holds.
pub struct NewBaseActorView {
    pub display_name: Seq<char>,
    pub profile_url: Seq<char>,
    pub inbox_url: Seq<char>,
    pub local_user: Option<i32>,
    pub original_json: serde_json::Value,
}

impl View for NewBaseActor {
    type V = NewBaseActorView;

    closed spec fn view(&self) -> NewBaseActorView {
        NewBaseActorView {
            display_name: self.display_name@,
            profile_url: self.profile_url@,
            inbox_url: self.inbox_url@,
            local_user: self.local_user,
            original_json: self.original_json,
        }
    }
}

impl NewBaseActor {
    /// The name the actor shows.
    pub fn display_name(&self) -> (r: &str)
        ensures
            r@ == self@.display_name,
    {
        self.display_name.as_str()
    }

    /// Where the actor's profile is.
    pub fn profile_url(&self) -> (r: &Url)
        ensures
            r@ == self@.profile_url,
    {
        &self.profile_url
    }

    /// Where the actor takes deliveries.
    pub fn inbox_url(&self) -> (r: &Url)
        ensures
            r@ == self@.inbox_url,
    {
        &self.inbox_url
    }

    /// The id of the local user behind the actor, if there is one.
    pub fn local_user(&self) -> (r: Option<i32>)
        ensures
            r == self@.local_user,
    {
        self.local_user
    }

    /// The document the actor was read from.
    pub fn original_json(&self) -> (r: &serde_json::Value)
        ensures
            *r == self@.original_json,
    {
        &self.original_json
    }

    /// The actor to record, for the local user behind it if there is one.
    pub fn new<U: UserLike>(
        display_name: String,
        profile_url: Url,
        inbox_url: Url,
        local_user: Option<&U>,
        original_json: serde_json::Value,
    ) -> (made: NewBaseActor)
        ensures
            made@ == (NewBaseActorView {
                display_name: display_name@,
                profile_url: profile_url@,
                inbox_url: inbox_url@,
                local_user: match local_user {
                    Some(user) => Some(user.profile().id),
                    None => None,
                },
                original_json,
            }),
    {
        NewBaseActor {
            display_name,
            profile_url,
            inbox_url,
            local_user: match local_user {
                Some(user) => Some(user.id()),
                None => None,
            },
            original_json,
        }
    }
}

} // verus!
