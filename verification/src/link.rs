//! Links that a post carries.

use crate::base_post::BasePost;
pub use crate::sql_types::lang::{Lang, LangParseError};
use crate::sql_types::Url;
use vstd::prelude::*;

verus! {

/// A link as the `links` table records it.
pub struct Link {
    id: i32,
    href: Url,
    href_lang: Lang,
    height: u32,
    width: u32,
    preview: String,
    base_post: i32,
}

/// What a [`Link`] holds.
pub struct LinkView {
    pub id: i32,
    pub href: Seq<char>,
    pub href_lang: Lang,
    pub height: u32,
    pub width: u32,
    pub preview: Seq<char>,
    pub base_post: i32,
}

impl View for Link {
    type V = LinkView;

    closed spec fn view(&self) -> LinkView {
        LinkView {
            id: self.id,
            href: self.href@,
            href_lang: self.href_lang,
            height: self.height,
            width: self.width,
            preview: self.preview@,
            base_post: self.base_post,
        }
    }
}

impl Link {
    /// The record with these values.
    pub fn new(
        id: i32,
        href: Url,
        href_lang: Lang,
        height: u32,
        width: u32,
        preview: String,
        base_post: i32,
    ) -> (made: Link)
        ensures
            made@ == (LinkView {
                id,
                href: href@,
                href_lang,
                height,
                width,
                preview: preview@,
                base_post,
            }),
    {
        Link { id, href, href_lang, height, width, preview, base_post }
    }

    /// The record's id.
    pub fn id(&self) -> (r: i32)
        ensures
            r == self@.id,
    {
        self.id
    }

    /// Where the link leads.
    pub fn href(&self) -> (r: &Url)
        ensures
            r@ == self@.href,
    {
        &self.href
    }

    /// The language of what the link leads to.
    pub fn href_lang(&self) -> (r: Lang)
        ensures
            r == self@.href_lang,
    {
        self.href_lang
    }

    /// The height of the preview.
    pub fn height(&self) -> (r: u32)
        ensures
            r == self@.height,
    {
        self.height
    }

    /// The width of the preview.
    pub fn width(&self) -> (r: u32)
        ensures
            r == self@.width,
    {
        self.width
    }

    /// The text of the preview.
    pub fn preview(&self) -> (r: &str)
        ensures
            r@ == self@.preview,
    {
        self.preview.as_str()
    }

    /// The id of the post that carries the link.
    pub fn base_post(&self) -> (r: i32)
        ensures
            r == self@.base_post,
    {
        self.base_post
    }

    /// A second record with the same values.
    pub fn duplicate(&self) -> (copy: Link)
        ensures
            copy@ == self@,
    {
        Link {
            id: self.id,
            href: self.href.duplicate(),
            href_lang: self.href_lang,
            height: self.height,
            width: self.width,
            preview: self.preview.clone(),
            base_post: self.base_post,
        }
    }
}

/// A link that is about to be recorded.
pub struct NewLink {
    href: String,
    href_lang: Lang,
    height: i32,
    width: i32,
    preview: String,
    base_post: i32,
}

/// What a [`NewLink`] holds.
pub struct NewLinkView {
    pub href: Seq<char>,
    pub href_lang: Lang,
    pub height: i32,
    pub width: i32,
    pub preview: Seq<char>,
    pub base_post: i32,
}

impl View for NewLink {
    type V = NewLinkView;

    closed spec fn view(&self) -> NewLinkView {
        NewLinkView {
            href: self.href@,
            href_lang: self.href_lang,
            height: self.height,
            width: self.width,
            preview: self.preview@,
            base_post: self.base_post,
        }
    }
}

impl NewLink {
    /// Where the link leads.
    pub fn href(&self) -> (r: &str)
        ensures
            r@ == self@.href,
    {
        self.href.as_str()
    }

    /// The language of what the link leads to.
    pub fn href_lang(&self) -> (r: Lang)
        ensures
            r == self@.href_lang,
    {
        self.href_lang
    }

    /// The height of the preview, as the record keeps it.
    pub fn height(&self) -> (r: i32)
        ensures
            r == self@.height,
    {
        self.height
    }

    /// The width of the preview, as the record keeps it.
    pub fn width(&self) -> (r: i32)
        ensures
            r == self@.width,
    {
        self.width
    }

    /// The text of the preview.
    pub fn preview(&self) -> (r: &str)
        ensures
            r@ == self@.preview,
    {
        self.preview.as_str()
    }

    /// The id of the post that carries the link.
    pub fn base_post(&self) -> (r: i32)
        ensures
            r == self@.base_post,
    {
        self.base_post
    }

    /// A second record with the same values.
    pub fn duplicate(&self) -> (copy: NewLink)
        ensures
            copy@ == self@,
    {
        NewLink {
            href: self.href.clone(),
            href_lang: self.href_lang,
            height: self.height,
            width: self.width,
            preview: self.preview.clone(),
            base_post: self.base_post,
        }
    }

    /// The number that a record keeps for a size: the size itself up to the
    /// largest signed number, and for a larger size the negative number with
    /// the same 32 bits.
    pub open spec fn stored_size(size: u32) -> i32 {
        if size <= i32::MAX {
            size as i32
        } else {
            (size - 0x1_0000_0000) as i32
        }
    }

    /// The number that a record keeps for a size.
    pub fn size_to_store(size: u32) -> (stored: i32)
        ensures
            stored == NewLink::stored_size(size),
    {
        if size <= 0x7fff_ffff {
            size as i32
        } else {
            let over: u32 = size - 0x8000_0000;
            (over as i32) - 0x7fff_ffff - 1
        }
    }

    /// The link that a post carries.
    pub fn new(
        href: Url,
        href_lang: Lang,
        height: u32,
        width: u32,
        preview: String,
        base_post: &BasePost,
    ) -> (made: NewLink)
        ensures
            made@ == (NewLinkView {
                href: href@,
                href_lang,
                height: NewLink::stored_size(height),
                width: NewLink::stored_size(width),
                preview: preview@,
                base_post: base_post@.id,
            }),
    {
        NewLink {
            href: href.into_string(),
            href_lang,
            height: NewLink::size_to_store(height),
            width: NewLink::size_to_store(width),
            preview,
            base_post: base_post.id(),
        }
    }
}

} // verus!
