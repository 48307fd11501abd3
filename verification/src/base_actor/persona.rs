//! Personas: the faces under which a local actor posts.

use crate::base_actor::BaseActor;
use crate::file::image::Image;
pub use crate::sql_types::post_visibility::{Visibility, VisibilityParseError};
use vstd::prelude::*;

verus! {

/// A persona as the `personas` table records it.
pub struct Persona {
    id: i32,
    default_visibility: Visibility,
    is_searchable: bool,
    avatar: Option<i32>,
    shortname: String,
    base_actor: i32,
}

/// What a [`Persona`] holds.
pub struct PersonaView {
    pub id: i32,
    pub default_visibility: Visibility,
    pub is_searchable: bool,
    pub avatar: Option<i32>,
    pub shortname: Seq<char>,
    pub base_actor: i32,
}

impl View for Persona {
    type V = PersonaView;

    closed spec fn view(&self) -> PersonaView {
        PersonaView {
            id: self.id,
            default_visibility: self.default_visibility,
            is_searchable: self.is_searchable,
            avatar: self.avatar,
            shortname: self.shortname@,
            base_actor: self.base_actor,
        }
    }
}

impl Persona {
    /// The record with these values.
    pub fn new(
        id: i32,
        default_visibility: Visibility,
        is_searchable: bool,
        avatar: Option<i32>,
        shortname: String,
        base_actor: i32,
    ) -> (made: Persona)
        ensures
            made@ == (PersonaView {
                id,
                default_visibility,
                is_searchable,
                avatar,
                shortname: shortname@,
                base_actor,
            }),
    {
        Persona { id, default_visibility, is_searchable, avatar, shortname, base_actor }
    }

    /// The record's id.
    pub fn id(&self) -> (r: i32)
        ensures
            r == self@.id,
    {
        self.id
    }

    /// Who sees the persona's posts unless a post says otherwise.
    pub fn default_visibility(&self) -> (r: Visibility)
        ensures
            r == self@.default_visibility,
    {
        self.default_visibility
    }

    /// Whether a search may find the persona.
    pub fn is_searchable(&self) -> (r: bool)
        ensures
            r == self@.is_searchable,
    {
        self.is_searchable
    }

    /// The id of the persona's image, if it has one.
    pub fn avatar(&self) -> (r: Option<i32>)
        ensures
            r == self@.avatar,
    {
        self.avatar
    }

    /// The short name of the persona.
    pub fn shortname(&self) -> (r: &str)
        ensures
            r@ == self@.shortname,
    {
        self.shortname.as_str()
    }

    /// The id of the actor behind the persona.
    pub fn base_actor(&self) -> (r: i32)
        ensures
            r == self@.base_actor,
    {
        self.base_actor
    }

    /// A second record with the same values.
    pub fn duplicate(&self) -> (copy: Persona)
        ensures
            copy@ == self@,
    {
        Persona {
            id: self.id,
            default_visibility: self.default_visibility,
            is_searchable: self.is_searchable,
            avatar: self.avatar,
            shortname: self.shortname.clone(),
            base_actor: self.base_actor,
        }
    }
}

/// A persona that is about to be recorded.
pub struct NewPersona {
    default_visibility: Visibility,
    is_searchable: bool,
    avatar: Option<i32>,
    shortname: String,
    base_actor: i32,
}

/// What a [`NewPersona`] holds.
pub struct NewPersonaView {
    pub default_visibility: Visibility,
    pub is_searchable: bool,
    pub avatar: Option<i32>,
    pub shortname: Seq<char>,
    pub base_actor: i32,
}

impl View for NewPersona {
    type V = NewPersonaView;

    closed spec fn view(&self) -> NewPersonaView {
        NewPersonaView {
            default_visibility: self.default_visibility,
            is_searchable: self.is_searchable,
            avatar: self.avatar,
            shortname: self.shortname@,
            base_actor: self.base_actor,
        }
    }
}

impl NewPersona {
    /// Who sees the persona's posts unless a post says otherwise.
    pub fn default_visibility(&self) -> (r: Visibility)
        ensures
            r == self@.default_visibility,
    {
        self.default_visibility
    }

    /// Whether a search may find the persona.
    pub fn is_searchable(&self) -> (r: bool)
        ensures
            r == self@.is_searchable,
    {
        self.is_searchable
    }

    /// The id of the persona's image, if it has one.
    pub fn avatar(&self) -> (r: Option<i32>)
        ensures
            r == self@.avatar,
    {
        self.avatar
    }

    /// The short name of the persona.
    pub fn shortname(&self) -> (r: &str)
        ensures
            r@ == self@.shortname,
    {
        self.shortname.as_str()
    }

    /// The id of the actor behind the persona.
    pub fn base_actor(&self) -> (r: i32)
        ensures
            r == self@.base_actor,
    {
        self.base_actor
    }

    /// A second record with the same values.
    pub fn duplicate(&self) -> (copy: NewPersona)
        ensures
            copy@ == self@,
    {
        NewPersona {
            default_visibility: self.default_visibility,
            is_searchable: self.is_searchable,
            avatar: self.avatar,
            shortname: self.shortname.clone(),
            base_actor: self.base_actor,
        }
    }

    /// The persona of an actor, with an image if one is given.
    pub fn new(
        default_visibility: Visibility,
        is_searchable: bool,
        avatar: Option<&Image>,
        shortname: String,
        base_actor: &BaseActor,
    ) -> (made: NewPersona)
        ensures
            made@ == (NewPersonaView {
                default_visibility,
                is_searchable,
                avatar: match avatar {
                    Some(record) => Some(record@.id),
                    None => None,
                },
                shortname: shortname@,
                base_actor: base_actor@.id,
            }),
    {
        NewPersona {
            default_visibility,
            is_searchable,
            avatar: match avatar {
                Some(record) => Some(record.id()),
                None => None,
            },
            shortname,
            base_actor: base_actor.id(),
        }
    }
}

} // verus!
