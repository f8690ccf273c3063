//! A simple, read-only view over a Git repository's commit history:
//! for each commit its metadata, and the file-level changes it
//! introduced relative to its first parent.
//!
//! The heart of the crate is the change classifier: it turns the raw
//! deltas of a tree-to-tree diff into a canonical sequence of typed
//! [`Change`] values, and its behaviour is specified and machine-checked
//! down to the exact sequence produced for every delta.

use vstd::prelude::*;

mod change;
mod changes;
mod commit;
mod datetime;
mod delta;
mod ext;
mod git;
mod render;
mod text;

pub use crate::change::{Added, Change, ChangeKind, ChangeView, Deleted, Modified, Renamed};
pub use crate::changes::{
    change_net, change_views, changes_of_delta, changes_of_deltas, classify_all, classify_delta,
    delta_net, delta_views, emitted_of_pair, file_ok, lemma_change_net_of_delta,
    lemma_changes_well_formed, lemma_classification_deterministic, lemma_net_size,
    lemma_root_commit_all_added, lemma_skipped_status_is_silent, net_of_changes, net_of_deltas,
    pending_views, Changes, DeltaChanges,
};
pub use crate::commit::{Commit, Signature, SignatureView};
pub use crate::datetime::{datetime_from_epoch, DateTimeFixed, DateTimeLocal, DateTimeUtc};
pub use crate::delta::{Delta, DeltaStatus, DeltaView, FileRef, FileRefView};
pub use crate::ext::{resolve_walk_outcome, WalkOutput};
pub use crate::git::GitError;
pub use crate::render::{dec_digit, dec_str, display_of, usize_to_decimal};
pub use crate::text::lossy_utf8;

verus! {

/// The order in which a commit walk yields commits. Each field maps to
/// one ordering flag of the underlying walker; with all fields false
/// the walker uses its default, implementation-specific order.
#[derive(PartialEq, Eq, Structural, Clone, Copy, Debug)]
pub struct Sort {
    /// Sort children before parents.
    pub topological: bool,
    /// Sort by commit time.
    pub time: bool,
    /// Reverse the chosen order.
    pub reverse: bool,
}

impl Sort {
    /// No particular ordering: the walker's default.
    pub fn unsorted() -> (s: Sort)
        ensures
            s == (Sort { topological: false, time: false, reverse: false }),
    {
        Sort { topological: false, time: false, reverse: false }
    }

    /// Commit-time order, newest first.
    pub fn by_time() -> (s: Sort)
        ensures
            s == (Sort { topological: false, time: true, reverse: false }),
    {
        Sort { topological: false, time: true, reverse: false }
    }

    /// Commit-time order, oldest first.
    pub fn by_time_reversed() -> (s: Sort)
        ensures
            s == (Sort { topological: false, time: true, reverse: true }),
    {
        Sort { topological: false, time: true, reverse: true }
    }
}

/// Attempts to open an already-existing repository at `path`.
pub fn open(path: &str) -> Result<Repo, GitError> {
    Repo::open(path)
}

/// An opened repository: the sole long-lived owner of the underlying
/// object store; commit handles and change sequences borrow it.
pub struct Repo {
    repo: git2::Repository,
}

impl Repo {
    /// Attempts to open an already-existing repository at `path`.
    ///
    /// The path can point to either a normal or a bare repository.
    pub fn open(path: &str) -> Result<Repo, GitError> {
        match git::repo_open(path) {
            Ok(repo) => Ok(Repo { repo }),
            Err(e) => Err(e),
        }
    }

    /// Attempts to open an already-existing repository at or above
    /// `path`, looking up the filesystem hierarchy.
    pub fn discover(path: &str) -> Result<Repo, GitError> {
        match git::repo_discover(path) {
            Ok(repo) => Ok(Repo { repo }),
            Err(e) => Err(e),
        }
    }

    /// Returns a walker that produces all commits reachable from the
    /// repository's head, in the walker's default order.
    pub fn commits(&self) -> Result<Commits<'_>, GitError> {
        self.commits_ext(Sort::unsorted())
    }

    /// Returns a walker that produces all commits reachable from the
    /// repository's head, in the given order.
    pub fn commits_ext(&self, sort: Sort) -> Result<Commits<'_>, GitError> {
        Commits::new(&self.repo, sort)
    }
}

/// A single-pass walk over the commits reachable from the repository's
/// head. Each element is independently fallible: a corrupt object
/// mid-walk yields an error element at that position.
pub struct Commits<'repo> {
    repo: &'repo git2::Repository,
    revwalk: git2::Revwalk<'repo>,
}

impl<'repo> Commits<'repo> {
    pub(crate) fn new(repo: &'repo git2::Repository, sort: Sort) -> Result<Self, GitError> {
        let mut revwalk = match git::repo_revwalk(repo) {
            Ok(w) => w,
            Err(e) => {
                return Err(e);
            },
        };
        match git::revwalk_push_head(&mut revwalk) {
            Ok(()) => {},
            Err(e) => {
                return Err(e);
            },
        }
        match git::revwalk_set_sorting(&mut revwalk, sort) {
            Ok(()) => {},
            Err(e) => {
                return Err(e);
            },
        }
        Ok(Commits { repo, revwalk })
    }

    /// Advances the walk: the next commit handle, an error element for
    /// this position, or nothing once the walk is exhausted.
    pub fn next(&mut self) -> Option<Result<Commit<'repo>, GitError>> {
        let oid = match git::revwalk_next(&mut self.revwalk) {
            Some(Ok(oid)) => oid,
            Some(Err(e)) => {
                return Some(Err(e));
            },
            None => {
                return None;
            },
        };
        match git::repo_find_commit(self.repo, oid) {
            Ok(commit) => Some(Ok(Commit::new(self.repo, commit))),
            Err(e) => Some(Err(e)),
        }
    }
}

} // verus!
