//! The canonical file-change data model: a closed set of change kinds
//! and a tagged union with one variant per kind, each variant carrying
//! only the fields meaningful for that kind.

use vstd::prelude::*;

verus! {

/// The kind of a [`Change`]: a closed enumeration with no identity
/// beyond its tag.
#[derive(PartialEq, Eq, Structural, Hash, Clone, Copy, Debug)]
pub enum ChangeKind {
    Added,
    Modified,
    Deleted,
    Renamed,
}

impl ChangeKind {
    /// The conventional status letter of this kind.
    pub open spec fn spec_letter(self) -> char {
        match self {
            ChangeKind::Added => 'A',
            ChangeKind::Modified => 'M',
            ChangeKind::Deleted => 'D',
            ChangeKind::Renamed => 'R',
        }
    }

    /// The symbolic glyph of this kind, for compact display.
    pub open spec fn spec_symbol(self) -> char {
        match self {
            ChangeKind::Added => '+',
            ChangeKind::Modified => '~',
            ChangeKind::Deleted => '-',
            ChangeKind::Renamed => '>',
        }
    }

    /// Returns the single-letter tag of this kind (`A`/`M`/`D`/`R`).
    pub fn letter(self) -> (c: char)
        ensures
            c == self.spec_letter(),
    {
        match self {
            ChangeKind::Added => 'A',
            ChangeKind::Modified => 'M',
            ChangeKind::Deleted => 'D',
            ChangeKind::Renamed => 'R',
        }
    }

    /// Returns the symbolic glyph of this kind (`+`/`~`/`-`/`>`).
    pub fn symbol(self) -> (c: char)
        ensures
            c == self.spec_symbol(),
    {
        match self {
            ChangeKind::Added => '+',
            ChangeKind::Modified => '~',
            ChangeKind::Deleted => '-',
            ChangeKind::Renamed => '>',
        }
    }

    pub fn is_added(self) -> (r: bool)
        ensures
            r == (self is Added),
    {
        matches!(self, ChangeKind::Added)
    }

    pub fn is_modified(self) -> (r: bool)
        ensures
            r == (self is Modified),
    {
        matches!(self, ChangeKind::Modified)
    }

    pub fn is_deleted(self) -> (r: bool)
        ensures
            r == (self is Deleted),
    {
        matches!(self, ChangeKind::Deleted)
    }

    pub fn is_renamed(self) -> (r: bool)
        ensures
            r == (self is Renamed),
    {
        matches!(self, ChangeKind::Renamed)
    }
}

/// A file added to the tree.
#[derive(PartialEq, Eq, Clone, Debug)]
pub struct Added {
    /// The path of the added file.
    pub path: String,
    /// Total size in bytes of the new content.
    pub size: usize,
}

/// A file whose content changed at a stable path.
#[derive(PartialEq, Eq, Clone, Debug)]
pub struct Modified {
    /// The path of the modified file.
    pub path: String,
    /// Total size in bytes before the change.
    pub old_size: usize,
    /// Total size in bytes after the change.
    pub new_size: usize,
}

/// A file removed from the tree.
#[derive(PartialEq, Eq, Clone, Debug)]
pub struct Deleted {
    /// The path of the deleted file.
    pub path: String,
    /// Total size in bytes of the removed content.
    pub size: usize,
}

/// A file moved from one path to another.
#[derive(PartialEq, Eq, Clone, Debug)]
pub struct Renamed {
    /// The path before the renaming.
    pub old_path: String,
    /// The path after the renaming.
    pub new_path: String,
    /// Total size in bytes of the content at the new path.
    pub size: usize,
}

/// The mathematical value of a [`Change`]: paths as character
/// sequences, sizes as unbounded naturals.
pub enum ChangeView {
    Added { path: Seq<char>, size: nat },
    Modified { path: Seq<char>, old_size: nat, new_size: nat },
    Deleted { path: Seq<char>, size: nat },
    Renamed { old_path: Seq<char>, new_path: Seq<char>, size: nat },
}

impl ChangeView {
    pub open spec fn kind(self) -> ChangeKind {
        match self {
            ChangeView::Added { .. } => ChangeKind::Added,
            ChangeView::Modified { .. } => ChangeKind::Modified,
            ChangeView::Deleted { .. } => ChangeKind::Deleted,
            ChangeView::Renamed { .. } => ChangeKind::Renamed,
        }
    }

    /// The path of the file after the change (for a rename, the new path).
    pub open spec fn path(self) -> Seq<char> {
        match self {
            ChangeView::Added { path, .. } => path,
            ChangeView::Modified { path, .. } => path,
            ChangeView::Deleted { path, .. } => path,
            ChangeView::Renamed { new_path, .. } => new_path,
        }
    }

    /// The path of the file before the change; only a rename has one.
    pub open spec fn old_path(self) -> Option<Seq<char>> {
        match self {
            ChangeView::Renamed { old_path, .. } => Some(old_path),
            _ => None,
        }
    }

    /// The size in bytes of the file after the change.
    pub open spec fn size(self) -> nat {
        match self {
            ChangeView::Added { size, .. } => size,
            ChangeView::Modified { new_size, .. } => new_size,
            ChangeView::Deleted { size, .. } => size,
            ChangeView::Renamed { size, .. } => size,
        }
    }

    /// The size in bytes of the file before the change; only a content
    /// modification has one.
    pub open spec fn old_size(self) -> Option<nat> {
        match self {
            ChangeView::Modified { old_size, .. } => Some(old_size),
            _ => None,
        }
    }

    /// The invariants of an emitted change: every relevant path is
    /// non-empty, and a rename never maps a path to itself.
    pub open spec fn wf(self) -> bool {
        match self {
            ChangeView::Added { path, .. } => path.len() > 0,
            ChangeView::Modified { path, .. } => path.len() > 0,
            ChangeView::Deleted { path, .. } => path.len() > 0,
            ChangeView::Renamed { old_path, new_path, .. } => {
                &&& old_path.len() > 0
                &&& new_path.len() > 0
                &&& old_path != new_path
            },
        }
    }
}

/// A single canonical file-level change: a pure, self-contained value
/// with no back-reference to the repository that produced it.
#[derive(PartialEq, Eq, Clone, Debug)]
pub enum Change {
    Added(Added),
    Modified(Modified),
    Deleted(Deleted),
    Renamed(Renamed),
}

impl View for Change {
    type V = ChangeView;

    open spec fn view(&self) -> ChangeView {
        match self {
            Change::Added(c) => ChangeView::Added { path: c.path@, size: c.size as nat },
            Change::Modified(c) => ChangeView::Modified {
                path: c.path@,
                old_size: c.old_size as nat,
                new_size: c.new_size as nat,
            },
            Change::Deleted(c) => ChangeView::Deleted { path: c.path@, size: c.size as nat },
            Change::Renamed(c) => ChangeView::Renamed {
                old_path: c.old_path@,
                new_path: c.new_path@,
                size: c.size as nat,
            },
        }
    }
}

impl Change {
    /// Returns the kind of this change.
    pub fn kind(&self) -> (k: ChangeKind)
        ensures
            k == self@.kind(),
    {
        match self {
            Change::Added(_) => ChangeKind::Added,
            Change::Modified(_) => ChangeKind::Modified,
            Change::Deleted(_) => ChangeKind::Deleted,
            Change::Renamed(_) => ChangeKind::Renamed,
        }
    }

    /// Returns the path of the file, after the change.
    pub fn path(&self) -> (p: &String)
        ensures
            p@ == self@.path(),
    {
        match self {
            Change::Added(c) => &c.path,
            Change::Modified(c) => &c.path,
            Change::Deleted(c) => &c.path,
            Change::Renamed(c) => &c.new_path,
        }
    }

    /// Returns the path of the file, after the change.
    pub fn into_path(self) -> (p: String)
        ensures
            p@ == self@.path(),
    {
        match self {
            Change::Added(c) => c.path,
            Change::Modified(c) => c.path,
            Change::Deleted(c) => c.path,
            Change::Renamed(c) => c.new_path,
        }
    }

    /// Returns the path of the file before the change.
    ///
    /// Only a renamed change has an old path.
    pub fn old_path(&self) -> (p: Option<&String>)
        ensures
            (p is Some) == (self@ is Renamed),
            p matches Some(q) ==> self@.old_path() matches Some(v) && q@ == v,
    {
        match self {
            Change::Renamed(c) => Some(&c.old_path),
            _ => None,
        }
    }

    /// Returns the `(old_path, path)`.
    ///
    /// Only a renamed change has an old path.
    pub fn paths(&self) -> (r: (Option<&String>, &String))
        ensures
            r.1@ == self@.path(),
            (r.0 is Some) == (self@ is Renamed),
            r.0 matches Some(q) ==> self@.old_path() matches Some(v) && q@ == v,
    {
        match self {
            Change::Added(c) => (None, &c.path),
            Change::Modified(c) => (None, &c.path),
            Change::Deleted(c) => (None, &c.path),
            Change::Renamed(c) => (Some(&c.old_path), &c.new_path),
        }
    }

    /// Returns the `(old_path, path)`, by value.
    ///
    /// Only a renamed change has an old path.
    pub fn into_paths(self) -> (r: (Option<String>, String))
        ensures
            r.1@ == self@.path(),
            (r.0 is Some) == (self@ is Renamed),
            r.0 matches Some(q) ==> self@.old_path() matches Some(v) && q@ == v,
    {
        match self {
            Change::Added(c) => (None, c.path),
            Change::Modified(c) => (None, c.path),
            Change::Deleted(c) => (None, c.path),
            Change::Renamed(c) => (Some(c.old_path), c.new_path),
        }
    }

    /// Returns the total size in bytes of the file, after the change.
    pub fn size(&self) -> (s: usize)
        ensures
            s as nat == self@.size(),
    {
        match self {
            Change::Added(c) => c.size,
            Change::Modified(c) => c.new_size,
            Change::Deleted(c) => c.size,
            Change::Renamed(c) => c.size,
        }
    }

    /// Returns the total size in bytes of the file, before the change.
    ///
    /// Only a content modification has an old size.
    pub fn old_size(&self) -> (s: Option<usize>)
        ensures
            (s is Some) == (self@ is Modified),
            s matches Some(n) ==> self@.old_size() matches Some(v) && n as nat == v,
    {
        match self {
            Change::Modified(c) => Some(c.old_size),
            _ => None,
        }
    }

    /// Returns the `(old_size, size)`.
    ///
    /// Only a content modification has an old size.
    pub fn sizes(&self) -> (r: (Option<usize>, usize))
        ensures
            r.1 as nat == self@.size(),
            (r.0 is Some) == (self@ is Modified),
            r.0 matches Some(n) ==> self@.old_size() matches Some(v) && n as nat == v,
    {
        match self {
            Change::Added(c) => (None, c.size),
            Change::Modified(c) => (Some(c.old_size), c.new_size),
            Change::Deleted(c) => (None, c.size),
            Change::Renamed(c) => (None, c.size),
        }
    }

    /// Returns the inner value if this change is an addition.
    pub fn as_added(&self) -> (r: Option<&Added>)
        ensures
            (r is Some) == (self@ is Added),
            r matches Some(c) ==> self@ == (ChangeView::Added { path: c.path@, size: c.size as nat }),
    {
        match self {
            Change::Added(c) => Some(c),
            _ => None,
        }
    }

    /// Returns the inner value if this change is a content modification.
    pub fn as_modified(&self) -> (r: Option<&Modified>)
        ensures
            (r is Some) == (self@ is Modified),
            r matches Some(c) ==> self@ == (ChangeView::Modified {
                path: c.path@,
                old_size: c.old_size as nat,
                new_size: c.new_size as nat,
            }),
    {
        match self {
            Change::Modified(c) => Some(c),
            _ => None,
        }
    }

    /// Returns the inner value if this change is a deletion.
    pub fn as_deleted(&self) -> (r: Option<&Deleted>)
        ensures
            (r is Some) == (self@ is Deleted),
            r matches Some(c) ==> self@ == (ChangeView::Deleted { path: c.path@, size: c.size as nat }),
    {
        match self {
            Change::Deleted(c) => Some(c),
            _ => None,
        }
    }

    /// Returns the inner value if this change is a rename.
    pub fn as_renamed(&self) -> (r: Option<&Renamed>)
        ensures
            (r is Some) == (self@ is Renamed),
            r matches Some(c) ==> self@ == (ChangeView::Renamed {
                old_path: c.old_path@,
                new_path: c.new_path@,
                size: c.size as nat,
            }),
    {
        match self {
            Change::Renamed(c) => Some(c),
            _ => None,
        }
    }

    pub fn is_added(&self) -> (r: bool)
        ensures
            r == (self@ is Added),
    {
        matches!(self, Change::Added(_))
    }

    pub fn is_modified(&self) -> (r: bool)
        ensures
            r == (self@ is Modified),
    {
        matches!(self, Change::Modified(_))
    }

    pub fn is_deleted(&self) -> (r: bool)
        ensures
            r == (self@ is Deleted),
    {
        matches!(self, Change::Deleted(_))
    }

    pub fn is_renamed(&self) -> (r: bool)
        ensures
            r == (self@ is Renamed),
    {
        matches!(self, Change::Renamed(_))
    }
}

impl Added {
    /// The kind of this change: always [`ChangeKind::Added`].
    pub fn kind(&self) -> (k: ChangeKind)
        ensures
            k == ChangeKind::Added,
    {
        ChangeKind::Added
    }

    /// Returns the path of the file.
    pub fn path(&self) -> (p: &String)
        ensures
            p@ == self.path@,
    {
        &self.path
    }

    /// Returns the path of the file, by value.
    pub fn into_path(self) -> (p: String)
        ensures
            p@ == self.path@,
    {
        self.path
    }

    /// Returns the total size in bytes of the new content.
    pub fn size(&self) -> (s: usize)
        ensures
            s == self.size,
    {
        self.size
    }
}

impl Modified {
    /// The kind of this change: always [`ChangeKind::Modified`].
    pub fn kind(&self) -> (k: ChangeKind)
        ensures
            k == ChangeKind::Modified,
    {
        ChangeKind::Modified
    }

    /// Returns the path of the file.
    pub fn path(&self) -> (p: &String)
        ensures
            p@ == self.path@,
    {
        &self.path
    }

    /// Returns the path of the file, by value.
    pub fn into_path(self) -> (p: String)
        ensures
            p@ == self.path@,
    {
        self.path
    }

    /// Returns the total size in bytes of the file, before the change.
    pub fn old_size(&self) -> (s: usize)
        ensures
            s == self.old_size,
    {
        self.old_size
    }

    /// Returns the total size in bytes of the file, after the change.
    pub fn new_size(&self) -> (s: usize)
        ensures
            s == self.new_size,
    {
        self.new_size
    }

    /// Returns the `(old_size, new_size)`.
    pub fn sizes(&self) -> (r: (usize, usize))
        ensures
            r == (self.old_size, self.new_size),
    {
        (self.old_size, self.new_size)
    }
}

impl Deleted {
    /// The kind of this change: always [`ChangeKind::Deleted`].
    pub fn kind(&self) -> (k: ChangeKind)
        ensures
            k == ChangeKind::Deleted,
    {
        ChangeKind::Deleted
    }

    /// Returns the path of the file.
    pub fn path(&self) -> (p: &String)
        ensures
            p@ == self.path@,
    {
        &self.path
    }

    /// Returns the path of the file, by value.
    pub fn into_path(self) -> (p: String)
        ensures
            p@ == self.path@,
    {
        self.path
    }

    /// Returns the total size in bytes of the removed content.
    pub fn size(&self) -> (s: usize)
        ensures
            s == self.size,
    {
        self.size
    }
}

impl Renamed {
    /// The kind of this change: always [`ChangeKind::Renamed`].
    pub fn kind(&self) -> (k: ChangeKind)
        ensures
            k == ChangeKind::Renamed,
    {
        ChangeKind::Renamed
    }

    /// Returns the path of the file, before the change.
    pub fn old_path(&self) -> (p: &String)
        ensures
            p@ == self.old_path@,
    {
        &self.old_path
    }

    /// Returns the path of the file, after the change.
    pub fn new_path(&self) -> (p: &String)
        ensures
            p@ == self.new_path@,
    {
        &self.new_path
    }

    /// Returns the `(old_path, new_path)`.
    pub fn paths(&self) -> (r: (&String, &String))
        ensures
            r.0@ == self.old_path@,
            r.1@ == self.new_path@,
    {
        (&self.old_path, &self.new_path)
    }

    /// Returns the `(old_path, new_path)`, by value.
    pub fn into_paths(self) -> (r: (String, String))
        ensures
            r.0@ == self.old_path@,
            r.1@ == self.new_path@,
    {
        (self.old_path, self.new_path)
    }

    /// Returns the total size in bytes of the content at the new path.
    pub fn size(&self) -> (s: usize)
        ensures
            s == self.size,
    {
        self.size
    }
}

impl From<Added> for Change {
    fn from(change: Added) -> (r: Self) {
        Change::Added(change)
    }
}

impl vstd::std_specs::convert::FromSpecImpl<Added> for Change {
    open spec fn obeys_from_spec() -> bool {
        true
    }

    open spec fn from_spec(change: Added) -> Change {
        Change::Added(change)
    }
}

impl From<Modified> for Change {
    fn from(change: Modified) -> (r: Self) {
        Change::Modified(change)
    }
}

impl vstd::std_specs::convert::FromSpecImpl<Modified> for Change {
    open spec fn obeys_from_spec() -> bool {
        true
    }

    open spec fn from_spec(change: Modified) -> Change {
        Change::Modified(change)
    }
}

impl From<Deleted> for Change {
    fn from(change: Deleted) -> (r: Self) {
        Change::Deleted(change)
    }
}

impl vstd::std_specs::convert::FromSpecImpl<Deleted> for Change {
    open spec fn obeys_from_spec() -> bool {
        true
    }

    open spec fn from_spec(change: Deleted) -> Change {
        Change::Deleted(change)
    }
}

impl From<Renamed> for Change {
    fn from(change: Renamed) -> (r: Self) {
        Change::Renamed(change)
    }
}

impl vstd::std_specs::convert::FromSpecImpl<Renamed> for Change {
    open spec fn obeys_from_spec() -> bool {
        true
    }

    open spec fn from_spec(change: Renamed) -> Change {
        Change::Renamed(change)
    }
}

} // verus!
