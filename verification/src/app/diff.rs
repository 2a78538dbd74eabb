use vstd::prelude::*;
use crate::app::commit::copy_bytes;

verus! {

/// What a change did to a file, as git reports it.
#[derive(Clone, Copy, Debug, PartialEq, Eq, Structural)]
pub enum ChangeStatus {
    Unmodified,
    Added,
    Deleted,
    Modified,
    Renamed,
    Copied,
    Ignored,
    Untracked,
    Typechange,
    Unreadable,
    Conflicted,
}

/// The abstract content of a [`FileSide`].
pub struct FileSideView {
    pub id: Seq<u8>,
    pub path: Option<Seq<u8>>,
}

/// One side of a change: the object id of the file's content and the file's
/// path (as bytes), when git reports one.
pub struct FileSide {
    pub id: Vec<u8>,
    pub path: Option<Vec<u8>>,
}

pub open spec fn opt_bytes_view(b: Option<Vec<u8>>) -> Option<Seq<u8>> {
    match b {
        Some(v) => Some(v@),
        None => None,
    }
}

impl View for FileSide {
    type V = FileSideView;

    open spec fn view(&self) -> FileSideView {
        FileSideView { id: self.id@, path: opt_bytes_view(self.path) }
    }
}

impl FileSide {
    /// A file side with the given object id and path.
    pub fn new(id: Vec<u8>, path: Option<Vec<u8>>) -> (r: FileSide)
        ensures
            r@ == (FileSideView { id: id@, path: opt_bytes_view(path) }),
    {
        FileSide { id, path }
    }

    /// A copy of the file side.
    pub fn copy(&self) -> (r: FileSide)
        ensures
            r@ == self@,
    {
        let path = match &self.path {
            Some(p) => Some(copy_bytes(p)),
            None => None,
        };
        FileSide { id: copy_bytes(&self.id), path }
    }
}

/// The abstract content of a [`Change`].
pub struct ChangeView {
    pub status: ChangeStatus,
    pub old_file: FileSideView,
    pub new_file: FileSideView,
}

/// The change that a commit made to one file: its status and the file before
/// (`old_file`) and after (`new_file`) the commit.
pub struct Change {
    pub status: ChangeStatus,
    pub old_file: FileSide,
    pub new_file: FileSide,
}

impl View for Change {
    type V = ChangeView;

    open spec fn view(&self) -> ChangeView {
        ChangeView { status: self.status, old_file: self.old_file@, new_file: self.new_file@ }
    }
}

impl Change {
    /// A change with the given status and sides.
    pub fn new(status: ChangeStatus, old_file: FileSide, new_file: FileSide) -> (r: Change)
        ensures
            r@ == (ChangeView { status, old_file: old_file@, new_file: new_file@ }),
    {
        Change { status, old_file, new_file }
    }

    /// The status of the change.
    pub fn status(&self) -> (r: ChangeStatus)
        ensures
            r == self@.status,
    {
        self.status
    }

    /// The file before the change.
    pub fn old_file(&self) -> (r: &FileSide)
        ensures
            r@ == self@.old_file,
    {
        &self.old_file
    }

    /// The file after the change.
    pub fn new_file(&self) -> (r: &FileSide)
        ensures
            r@ == self@.new_file,
    {
        &self.new_file
    }

    /// A copy of the change.
    pub fn copy(&self) -> (r: Change)
        ensures
            r@ == self@,
    {
        Change { status: self.status, old_file: self.old_file.copy(), new_file: self.new_file.copy() }
    }
}

} // verus!
