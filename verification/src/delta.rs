//! The model of one tree-to-tree diff entry: a status tag and up to two
//! resolved file references (the before and after side of the entry).

use vstd::prelude::*;

verus! {

/// The status a diff assigns to one of its entries.
#[derive(PartialEq, Eq, Structural, Clone, Copy, Debug)]
pub enum DeltaStatus {
    /// No change between the two sides.
    Unmodified,
    /// The entry does not exist on the old side.
    Added,
    /// The entry does not exist on the new side.
    Deleted,
    /// The content changed between the two sides.
    Modified,
    /// The entry moved to another path between the two sides.
    Renamed,
    /// The entry was copied from another old entry.
    Copied,
    /// The entry is an ignored item in the working directory.
    Ignored,
    /// The entry is an untracked item in the working directory.
    Untracked,
    /// The type of the entry changed between the two sides.
    Typechange,
    /// The entry is unreadable.
    Unreadable,
    /// The entry is conflicted in the index.
    Conflicted,
}

/// A resolved file reference on one side of a delta: the path of the
/// entry and the byte length of its content in the object store.
#[derive(PartialEq, Eq, Clone, Debug)]
pub struct FileRef {
    /// The path of the entry, relative to the repository root.
    pub path: String,
    /// The byte length of the entry's content.
    pub size: usize,
}

/// The mathematical value of a [`FileRef`].
pub struct FileRefView {
    pub path: Seq<char>,
    pub size: nat,
}

impl View for FileRef {
    type V = FileRefView;

    open spec fn view(&self) -> FileRefView {
        FileRefView { path: self.path@, size: self.size as nat }
    }
}

/// One entry of a tree-to-tree diff, as handed to the change
/// classifier: the status tag and the two resolved sides. A side is
/// `None` when the entry does not exist there or its object could not
/// be resolved in the store.
#[derive(PartialEq, Eq, Clone, Debug)]
pub struct Delta {
    /// The status tag the diff assigned to this entry.
    pub status: DeltaStatus,
    /// The resolved old side, if any.
    pub old_file: Option<FileRef>,
    /// The resolved new side, if any.
    pub new_file: Option<FileRef>,
}

/// The mathematical value of a [`Delta`].
pub struct DeltaView {
    pub status: DeltaStatus,
    pub old_file: Option<FileRefView>,
    pub new_file: Option<FileRefView>,
}

impl View for Delta {
    type V = DeltaView;

    open spec fn view(&self) -> DeltaView {
        DeltaView {
            status: self.status,
            old_file: match self.old_file {
                Some(f) => Some(f@),
                None => None,
            },
            new_file: match self.new_file {
                Some(f) => Some(f@),
                None => None,
            },
        }
    }
}

} // verus!
