//! Images.

use crate::file::File;
use vstd::prelude::*;

verus! {

/// An image as the `images` table records it.
#[derive(Clone, Copy, Debug)]
pub struct Image {
    id: i32,
    width: i32,
    height: i32,
    file_id: i32,
}

/// What a [`Image`] holds.
pub struct ImageView {
    pub id: i32,
    pub width: i32,
    pub height: i32,
    pub file_id: i32,
}

impl View for Image {
    type V = ImageView;

    closed spec fn view(&self) -> ImageView {
        ImageView {
            id: self.id,
            width: self.width,
            height: self.height,
            file_id: self.file_id,
        }
    }
}

impl Image {
    /// The record with these values.
    pub fn new(id: i32, width: i32, height: i32, file_id: i32) -> (made: Image)
        ensures
            made@ == (ImageView {
                id,
                width,
                height,
                file_id,
            }),
    {
        Image { id, width, height, file_id }
    }

    /// The record's id.
    pub fn id(&self) -> (r: i32)
        ensures
            r == self@.id,
    {
        self.id
    }

    /// The width in pixels.
    pub fn width(&self) -> (r: i32)
        ensures
            r == self@.width,
    {
        self.width
    }

    /// The height in pixels.
    pub fn height(&self) -> (r: i32)
        ensures
            r == self@.height,
    {
        self.height
    }

    /// The id of the file that holds the image.
    pub fn file_id(&self) -> (r: i32)
        ensures
            r == self@.file_id,
    {
        self.file_id
    }
}

/// An image that is about to be recorded.
#[derive(Clone, Copy, Debug)]
pub struct NewImage {
    width: i32,
    height: i32,
    file_id: i32,
}

/// What a [`NewImage`] holds.
pub struct NewImageView {
    pub width: i32,
    pub height: i32,
    pub file_id: i32,
}

impl View for NewImage {
    type V = NewImageView;

    closed spec fn view(&self) -> NewImageView {
        NewImageView {
            width: self.width,
            height: self.height,
            file_id: self.file_id,
        }
    }
}

impl NewImage {
    /// The width in pixels.
    pub fn width(&self) -> (r: i32)
        ensures
            r == self@.width,
    {
        self.width
    }

    /// The height in pixels.
    pub fn height(&self) -> (r: i32)
        ensures
            r == self@.height,
    {
        self.height
    }

    /// The id of the file that holds the image.
    pub fn file_id(&self) -> (r: i32)
        ensures
            r == self@.file_id,
    {
        self.file_id
    }

    /// The image that a file holds.
    pub fn new(width: i32, height: i32, file: &File) -> (made: NewImage)
        ensures
            made@ == (NewImageView {
                width,
                height,
                file_id: file@.id,
            }),
    {
        NewImage {
            width,
            height,
            file_id: file.id(),
        }
    }
}

} // verus!
