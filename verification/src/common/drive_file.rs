//! What the client knows of one remote object.

use vstd::prelude::*;
use vstd::string::StringExecFns;

verus! {

/// The MIME type by which the remote store marks a folder.
pub const MIME_TYPE_DRIVE_FOLDER: &'static str = "application/vnd.google-apps.folder";

/// Metadata of a remote object, as the remote store reports it. Any field may be missing.
#[derive(Clone, Debug)]
pub struct FileHandle {
    /// The identifier under which the remote store knows the object.
    pub id: Option<String>,
    /// The name the object is displayed under.
    pub name: Option<String>,
    /// The MIME type of the object.
    pub mime_type: Option<String>,
}

/// The mathematical content of a [`FileHandle`].
pub struct FileHandleView {
    pub id: Option<Seq<char>>,
    pub name: Option<Seq<char>>,
    pub mime_type: Option<Seq<char>>,
}

/// The characters of an optional string.
pub open spec fn text_of(value: Option<String>) -> Option<Seq<char>> {
    match value {
        Some(text) => Some(text@),
        None => None,
    }
}

impl View for FileHandle {
    type V = FileHandleView;

    open spec fn view(&self) -> FileHandleView {
        FileHandleView {
            id: text_of(self.id),
            name: text_of(self.name),
            mime_type: text_of(self.mime_type),
        }
    }
}

impl FileHandleView {
    /// A handle denotes a folder exactly when it carries the folder MIME type.
    pub open spec fn is_directory(self) -> bool {
        self.mime_type == Some(MIME_TYPE_DRIVE_FOLDER@)
    }
}

/// The views of a sequence of handles, in the same order.
pub open spec fn handles_view(handles: Seq<FileHandle>) -> Seq<FileHandleView> {
    handles.map_values(|handle: FileHandle| handle@)
}

/// Tells whether `file` is a folder.
pub fn is_directory(file: &FileHandle) -> (directory: bool)
    ensures
        directory == file@.is_directory(),
{
    match &file.mime_type {
        Some(mime_type) => {
            let folder = String::from_str(MIME_TYPE_DRIVE_FOLDER);
            *mime_type == folder
        },
        None => false,
    }
}

} // verus!
