//! Files that the instance keeps.

pub mod image;

use vstd::prelude::*;

verus! {

/// Why a file was not recorded.
#[derive(Clone, Copy, Debug, PartialEq, Eq, Structural)]
pub enum FileCreationError {
    /// There is no file at the path.
    Missing,
    /// The path is no UTF-8 text.
    Utf8,
}

impl FileCreationError {
    /// What to tell a reader about this error.
    pub fn message(&self) -> (text: &'static str)
        ensures
            text@ == (match self {
                FileCreationError::Missing => "File is missing"@,
                FileCreationError::Utf8 => "File path contains invalid utf8"@,
            }),
    {
        match self {
            FileCreationError::Missing => "File is missing",
            FileCreationError::Utf8 => "File path contains invalid utf8",
        }
    }
}

/// A file as the `files` table records it.
pub struct File {
    id: i32,
    file_path: String,
}

/// What a [`File`] holds.
pub struct FileView {
    pub id: i32,
    pub file_path: Seq<char>,
}

impl View for File {
    type V = FileView;

    closed spec fn view(&self) -> FileView {
        FileView {
            id: self.id,
            file_path: self.file_path@,
        }
    }
}

impl File {
    /// The record with these values.
    pub fn new(id: i32, file_path: String) -> (made: File)
        ensures
            made@ == (FileView {
                id,
                file_path: file_path@,
            }),
    {
        File { id, file_path }
    }

    /// The record's id.
    pub fn id(&self) -> (r: i32)
        ensures
            r == self@.id,
    {
        self.id
    }

    /// Where the file is.
    pub fn path(&self) -> (r: &str)
        ensures
            r@ == self@.file_path,
    {
        self.file_path.as_str()
    }

    /// A second record with the same values.
    pub fn duplicate(&self) -> (copy: File)
        ensures
            copy@ == self@,
    {
        File {
            id: self.id,
            file_path: self.file_path.clone(),
        }
    }
}

/// A file that is about to be recorded.
pub struct Newfile {
    file_path: String,
}

/// What a [`Newfile`] holds.
pub struct NewfileView {
    pub file_path: Seq<char>,
}

impl View for Newfile {
    type V = NewfileView;

    closed spec fn view(&self) -> NewfileView {
        NewfileView {
            file_path: self.file_path@,
        }
    }
}

impl Newfile {
    /// Where the file is.
    pub fn file_path(&self) -> (r: &str)
        ensures
            r@ == self@.file_path,
    {
        self.file_path.as_str()
    }

    /// A second record with the same values.
    pub fn duplicate(&self) -> (copy: Newfile)
        ensures
            copy@ == self@,
    {
        Newfile {
            file_path: self.file_path.clone(),
        }
    }

    /// What recording a path is to give, from what the file system says of
    /// it: a path at which there is no file is [`FileCreationError::Missing`],
    /// a path that is no UTF-8 text is [`FileCreationError::Utf8`].
    pub open spec fn outcome(path: Option<Seq<char>>, is_file: bool) -> Result<
        NewfileView,
        FileCreationError,
    > {
        if !is_file {
            Err(FileCreationError::Missing)
        } else {
            match path {
                Some(text) => Ok(NewfileView { file_path: text }),
                None => Err(FileCreationError::Utf8),
            }
        }
    }

    /// The file to record for a path. `path` is the path as text, if it is
    /// UTF-8 text; `is_file` says whether there is a file at the path.
    pub fn new(path: Option<&str>, is_file: bool) -> (r: Result<Newfile, FileCreationError>)
        ensures
            match Newfile::outcome(
                match path {
                    Some(text) => Some(text@),
                    None => None,
                },
                is_file,
            ) {
                Ok(view) => r matches Ok(made) && made@ == view,
                Err(e) => r matches Err(got) && got == e,
            },
    {
        if is_file {
            match path {
                Some(text) => Ok(Newfile { file_path: text.to_owned() }),
                None => Err(FileCreationError::Utf8),
            }
        } else {
            Err(FileCreationError::Missing)
        }
    }
}

} // verus!
