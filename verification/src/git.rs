//! Trusted bindings to the `git2` object store. Each function here
//! makes exactly one call into `git2` and converts its arguments and
//! result; the rest of the library is verified against these contracts.

use vstd::prelude::*;

use git2::Commit as RawCommit;
use git2::Signature as RawSignature;

use crate::delta::DeltaStatus;
use crate::Sort;

verus! {

#[verifier::external_type_specification]
#[verifier::external_body]
pub struct ExRepository(git2::Repository);

#[verifier::external_type_specification]
#[verifier::external_body]
pub struct ExGitCommit<'a>(RawCommit<'a>);

#[verifier::external_type_specification]
#[verifier::external_body]
pub struct ExGitSignature<'a>(RawSignature<'a>);

#[verifier::external_type_specification]
#[verifier::external_body]
pub struct ExGitTime(git2::Time);

#[verifier::external_type_specification]
#[verifier::external_body]
pub struct ExOid(git2::Oid);

#[verifier::external_type_specification]
#[verifier::external_body]
pub struct ExRevwalk<'a>(git2::Revwalk<'a>);

#[verifier::external_type_specification]
#[verifier::external_body]
pub struct ExTree<'a>(git2::Tree<'a>);

#[verifier::external_type_specification]
#[verifier::external_body]
pub struct ExDiff<'a>(git2::Diff<'a>);

#[verifier::external_type_specification]
#[verifier::external_body]
pub struct ExDiffDelta<'a>(git2::DiffDelta<'a>);

#[verifier::external_type_specification]
#[verifier::external_body]
pub struct ExDiffFile<'a>(git2::DiffFile<'a>);

#[verifier::external_type_specification]
#[verifier::external_body]
pub struct ExBlob<'a>(git2::Blob<'a>);

#[verifier::external_type_specification]
#[verifier::external_body]
pub struct ExGitRawError(git2::Error);

/// An error reported by the underlying object store: repository access,
/// traversal, or diff computation. The raw error value is kept opaque.
#[derive(Debug)]
pub struct GitError {
    raw: git2::Error,
}

impl GitError {
    /// Wraps a raw object-store error.
    pub fn from_raw(raw: git2::Error) -> (r: GitError) {
        GitError { raw }
    }

    /// Returns a human-readable description of the error.
    pub fn message(&self) -> String {
        error_message(&self.raw)
    }

    /// Returns true when the error was raised by a caller's callback
    /// asking the underlying walk to stop.
    pub fn is_user_cancel(&self) -> (r: bool) {
        error_is_user(&self.raw)
    }
}

/// Relies on git2::Error::message: a human-readable description.
#[verifier::external_body]
fn error_message(e: &git2::Error) -> String {
    e.message().to_string()
}

/// Relies on git2::Error::code: tells the `User` code, raised only on
/// behalf of a caller's callback, apart from every other code.
#[verifier::external_body]
fn error_is_user(e: &git2::Error) -> bool {
    match e.code() {
        git2::ErrorCode::User => true,
        _ => false,
    }
}

/// Relies on git2::Repository::open: opens an existing repository
/// (normal or bare) at exactly the given path.
#[verifier::external_body]
pub(crate) fn repo_open(path: &str) -> Result<git2::Repository, GitError> {
    match git2::Repository::open(path) {
        Ok(repo) => Ok(repo),
        Err(e) => Err(GitError { raw: e }),
    }
}

/// Relies on git2::Repository::discover: walks up the filesystem
/// hierarchy from the given path until it finds a repository.
#[verifier::external_body]
pub(crate) fn repo_discover(path: &str) -> Result<git2::Repository, GitError> {
    match git2::Repository::discover(path) {
        Ok(repo) => Ok(repo),
        Err(e) => Err(GitError { raw: e }),
    }
}

/// Relies on git2::Repository::revwalk: creates a new, empty
/// commit-graph walker over this repository.
#[verifier::external_body]
pub(crate) fn repo_revwalk<'r>(repo: &'r git2::Repository) -> Result<git2::Revwalk<'r>, GitError> {
    match repo.revwalk() {
        Ok(w) => Ok(w),
        Err(e) => Err(GitError { raw: e }),
    }
}

/// Relies on git2::Revwalk::push_head: roots the walk at the
/// repository's current head reference.
#[verifier::external_body]
pub(crate) fn revwalk_push_head(walk: &mut git2::Revwalk<'_>) -> Result<(), GitError> {
    match walk.push_head() {
        Ok(()) => Ok(()),
        Err(e) => Err(GitError { raw: e }),
    }
}

/// Relies on git2::Revwalk::set_sorting: each field of the library's
/// [`Sort`] maps to exactly one of the walker's ordering flags.
#[verifier::external_body]
pub(crate) fn revwalk_set_sorting(walk: &mut git2::Revwalk<'_>, sort: Sort) -> Result<(), GitError> {
    let mut flags = git2::Sort::NONE;
    if sort.topological {
        flags |= git2::Sort::TOPOLOGICAL;
    }
    if sort.time {
        flags |= git2::Sort::TIME;
    }
    if sort.reverse {
        flags |= git2::Sort::REVERSE;
    }
    match walk.set_sorting(flags) {
        Ok(()) => Ok(()),
        Err(e) => Err(GitError { raw: e }),
    }
}

/// Relies on the Iterator impl of git2::Revwalk: yields the id of the
/// next commit of the walk, an error for that position, or nothing once
/// the walk is exhausted.
#[verifier::external_body]
pub(crate) fn revwalk_next(walk: &mut git2::Revwalk<'_>) -> Option<Result<git2::Oid, GitError>> {
    match walk.next() {
        Some(Ok(oid)) => Some(Ok(oid)),
        Some(Err(e)) => Some(Err(GitError { raw: e })),
        None => None,
    }
}

/// Relies on git2::Repository::find_commit: looks the commit object up
/// in the store by its id.
#[verifier::external_body]
pub(crate) fn repo_find_commit<'r>(
    repo: &'r git2::Repository,
    oid: git2::Oid,
) -> Result<git2::Commit<'r>, GitError> {
    match repo.find_commit(oid) {
        Ok(c) => Ok(c),
        Err(e) => Err(GitError { raw: e }),
    }
}

/// Relies on git2::Commit::id and git2::Oid's hex formatting.
#[verifier::external_body]
pub(crate) fn commit_id_hex(commit: &git2::Commit<'_>) -> String {
    commit.id().to_string()
}

/// Relies on git2::Commit::message_bytes: the raw message, not
/// guaranteed to be valid UTF-8.
#[verifier::external_body]
pub(crate) fn commit_message_bytes(commit: &git2::Commit<'_>) -> Vec<u8> {
    commit.message_bytes().to_vec()
}

/// Relies on git2::Commit::author: the signature of the person who
/// wrote the commit.
#[verifier::external_body]
pub(crate) fn commit_author<'a>(commit: &'a git2::Commit<'_>) -> git2::Signature<'a> {
    commit.author()
}

/// Relies on git2::Commit::committer: the signature of the person who
/// committed the commit.
#[verifier::external_body]
pub(crate) fn commit_committer<'a>(commit: &'a git2::Commit<'_>) -> git2::Signature<'a> {
    commit.committer()
}

/// Relies on git2::Commit::time: the committer time of the commit.
#[verifier::external_body]
pub(crate) fn commit_time(commit: &git2::Commit<'_>) -> git2::Time {
    commit.time()
}

/// Relies on git2::Commit::tree: the tree snapshot this commit points to.
#[verifier::external_body]
pub(crate) fn commit_tree<'r>(commit: &git2::Commit<'r>) -> Result<git2::Tree<'r>, GitError> {
    match commit.tree() {
        Ok(t) => Ok(t),
        Err(e) => Err(GitError { raw: e }),
    }
}

/// Relies on git2::Commit::parent: the i-th parent of this commit.
#[verifier::external_body]
pub(crate) fn commit_parent<'r>(
    commit: &git2::Commit<'r>,
    i: usize,
) -> Result<git2::Commit<'r>, GitError> {
    match commit.parent(i) {
        Ok(c) => Ok(c),
        Err(e) => Err(GitError { raw: e }),
    }
}

/// Relies on git2::Commit::parent_count.
#[verifier::external_body]
pub(crate) fn commit_parent_count(commit: &git2::Commit<'_>) -> usize {
    commit.parent_count()
}

/// Relies on git2::Signature::name_bytes: the raw name, not guaranteed
/// to be valid UTF-8.
#[verifier::external_body]
pub(crate) fn sig_name_bytes(sig: &git2::Signature<'_>) -> Vec<u8> {
    sig.name_bytes().to_vec()
}

/// Relies on git2::Signature::email_bytes: the raw email, not
/// guaranteed to be valid UTF-8.
#[verifier::external_body]
pub(crate) fn sig_email_bytes(sig: &git2::Signature<'_>) -> Vec<u8> {
    sig.email_bytes().to_vec()
}

/// Relies on git2::Signature::when: the timestamp of the signature.
#[verifier::external_body]
pub(crate) fn sig_when(sig: &git2::Signature<'_>) -> git2::Time {
    sig.when()
}

/// Relies on git2::Time::seconds: seconds since the epoch.
#[verifier::external_body]
pub(crate) fn time_seconds(time: &git2::Time) -> i64 {
    time.seconds()
}

/// Relies on git2::Time::offset_minutes: the timezone offset in minutes.
#[verifier::external_body]
pub(crate) fn time_offset_minutes(time: &git2::Time) -> i32 {
    time.offset_minutes()
}

/// Relies on git2::Repository::diff_tree_to_tree: computes the diff
/// between the two tree snapshots; an absent tree stands for the empty
/// tree.
#[verifier::external_body]
pub(crate) fn diff_tree_to_tree<'r>(
    repo: &'r git2::Repository,
    old_tree: Option<&git2::Tree<'r>>,
    new_tree: Option<&git2::Tree<'r>>,
) -> Result<git2::Diff<'r>, GitError> {
    match repo.diff_tree_to_tree(old_tree, new_tree, None) {
        Ok(d) => Ok(d),
        Err(e) => Err(GitError { raw: e }),
    }
}

/// Relies on git2::Diff::find_similar: with default options, pairs
/// deleted and added entries of similar content into rename deltas.
#[verifier::external_body]
pub(crate) fn diff_find_similar(diff: &mut git2::Diff<'_>) -> Result<(), GitError> {
    match diff.find_similar(None) {
        Ok(()) => Ok(()),
        Err(e) => Err(GitError { raw: e }),
    }
}

/// Relies on git2::Diff::get_delta: the i-th entry of the diff exactly
/// while i is below the diff's delta count, which `git2` reports as a
/// `usize`.
#[verifier::external_body]
pub(crate) fn diff_get_delta<'d>(diff: &'d git2::Diff<'_>, i: usize) -> (r: Option<
    git2::DiffDelta<'d>,
>)
    ensures
        (r is Some) == ((i as nat) < crate::changes::diff_delta_count(*diff)),
        r is Some ==> crate::changes::diff_delta_count(*diff) <= usize::MAX as nat,
{
    diff.get_delta(i)
}

/// Relies on git2::DiffDelta::status: each status of the store's diff
/// maps to exactly one [`DeltaStatus`] of the library, one arm each.
#[verifier::external_body]
pub(crate) fn delta_status(delta: &git2::DiffDelta<'_>) -> DeltaStatus {
    match delta.status() {
        git2::Delta::Unmodified => DeltaStatus::Unmodified,
        git2::Delta::Added => DeltaStatus::Added,
        git2::Delta::Deleted => DeltaStatus::Deleted,
        git2::Delta::Modified => DeltaStatus::Modified,
        git2::Delta::Renamed => DeltaStatus::Renamed,
        git2::Delta::Copied => DeltaStatus::Copied,
        git2::Delta::Ignored => DeltaStatus::Ignored,
        git2::Delta::Untracked => DeltaStatus::Untracked,
        git2::Delta::Typechange => DeltaStatus::Typechange,
        git2::Delta::Unreadable => DeltaStatus::Unreadable,
        git2::Delta::Conflicted => DeltaStatus::Conflicted,
    }
}

/// Relies on git2::DiffDelta::old_file: the "from" side of the entry.
#[verifier::external_body]
pub(crate) fn delta_old_file<'a>(delta: &git2::DiffDelta<'a>) -> git2::DiffFile<'a> {
    delta.old_file()
}

/// Relies on git2::DiffDelta::new_file: the "to" side of the entry.
#[verifier::external_body]
pub(crate) fn delta_new_file<'a>(delta: &git2::DiffDelta<'a>) -> git2::DiffFile<'a> {
    delta.new_file()
}

/// Relies on git2::DiffFile::exists: whether a file exists on this side
/// of the entry.
#[verifier::external_body]
pub(crate) fn file_exists(file: &git2::DiffFile<'_>) -> bool {
    file.exists()
}

/// Relies on git2::DiffFile::path: the path of the entry relative to
/// the repository root, decoded lossily into text.
#[verifier::external_body]
pub(crate) fn file_path_string(file: &git2::DiffFile<'_>) -> Option<String> {
    match file.path() {
        Some(p) => Some(p.to_string_lossy().into_owned()),
        None => None,
    }
}

/// Relies on git2::DiffFile::id: the object id of the content on this
/// side; all zeroes for an absent side.
#[verifier::external_body]
pub(crate) fn file_oid(file: &git2::DiffFile<'_>) -> git2::Oid {
    file.id()
}

/// Relies on git2::Repository::find_blob: looks the blob object up in
/// the store by its id.
#[verifier::external_body]
pub(crate) fn repo_find_blob<'r>(
    repo: &'r git2::Repository,
    oid: git2::Oid,
) -> Result<git2::Blob<'r>, GitError> {
    match repo.find_blob(oid) {
        Ok(b) => Ok(b),
        Err(e) => Err(GitError { raw: e }),
    }
}

/// Relies on git2::Blob::size: the byte length of the blob's content,
/// read from the object store without materializing the content.
#[verifier::external_body]
pub(crate) fn blob_size(blob: &git2::Blob<'_>) -> usize {
    blob.size()
}

} // verus!
