//! Commit handles and signatures: the metadata of one commit, with raw
//! bytes kept lossless and text offered as a lossy decoding beside them.

use vstd::prelude::*;
use vstd::utf8::{decode_utf8, valid_utf8};

use crate::changes::Changes;
use crate::datetime;
use crate::git;
use crate::git::GitError;
use crate::text;
use crate::text::lossy_utf8;

verus! {

/// An identity and timestamp attached to a commit, as author or
/// committer. Name and email are raw bytes, possibly not valid UTF-8;
/// the timestamp is seconds since the epoch plus a timezone offset in
/// minutes.
#[derive(PartialEq, Eq, Clone, Debug)]
pub struct Signature {
    name: Vec<u8>,
    email: Vec<u8>,
    seconds: i64,
    offset_minutes: i32,
}

/// The mathematical value of a [`Signature`].
pub struct SignatureView {
    pub name: Seq<u8>,
    pub email: Seq<u8>,
    pub seconds: int,
    pub offset_minutes: int,
}

impl View for Signature {
    type V = SignatureView;

    closed spec fn view(&self) -> SignatureView {
        SignatureView {
            name: self.name@,
            email: self.email@,
            seconds: self.seconds as int,
            offset_minutes: self.offset_minutes as int,
        }
    }
}

impl Signature {
    /// Builds a signature from its parts.
    pub fn new(name: Vec<u8>, email: Vec<u8>, seconds: i64, offset_minutes: i32) -> (s: Signature)
        ensures
            s@ == (SignatureView {
                name: name@,
                email: email@,
                seconds: seconds as int,
                offset_minutes: offset_minutes as int,
            }),
    {
        Signature { name, email, seconds, offset_minutes }
    }

    /// Reads one signature out of the object store's representation.
    pub(crate) fn from_git(sig: &git2::Signature<'_>) -> Signature {
        let name = git::sig_name_bytes(sig);
        let email = git::sig_email_bytes(sig);
        let when = git::sig_when(sig);
        let seconds = git::time_seconds(&when);
        let offset_minutes = git::time_offset_minutes(&when);
        Signature { name, email, seconds, offset_minutes }
    }

    /// Returns the name, or nothing if it is not valid UTF-8.
    pub fn name(&self) -> (r: Option<String>)
        ensures
            (r is Some) == valid_utf8(self@.name),
            r matches Some(s) ==> s@ == decode_utf8(self@.name),
    {
        text::utf8_string(self.name.as_slice())
    }

    /// Returns the raw bytes of the name.
    pub fn name_bytes(&self) -> (r: &[u8])
        ensures
            r@ == self@.name,
    {
        self.name.as_slice()
    }

    /// Returns the name, lossily decoded.
    pub fn name_lossy(&self) -> (r: String)
        ensures
            r@ == lossy_utf8(self@.name),
    {
        text::lossy_string(self.name.as_slice())
    }

    /// Returns the email, or nothing if it is not valid UTF-8.
    pub fn email(&self) -> (r: Option<String>)
        ensures
            (r is Some) == valid_utf8(self@.email),
            r matches Some(s) ==> s@ == decode_utf8(self@.email),
    {
        text::utf8_string(self.email.as_slice())
    }

    /// Returns the raw bytes of the email.
    pub fn email_bytes(&self) -> (r: &[u8])
        ensures
            r@ == self@.email,
    {
        self.email.as_slice()
    }

    /// Returns the email, lossily decoded.
    pub fn email_lossy(&self) -> (r: String)
        ensures
            r@ == lossy_utf8(self@.email),
    {
        text::lossy_string(self.email.as_slice())
    }

    /// Returns the timestamp as `(seconds, offset_minutes)`.
    pub fn when(&self) -> (r: (i64, i32))
        ensures
            r.0 == self@.seconds,
            r.1 == self@.offset_minutes,
    {
        (self.seconds, self.offset_minutes)
    }

    /// Returns the timestamp as a calendar moment carrying its original
    /// timezone offset, or nothing for an invalid timestamp.
    pub fn time(&self) -> (r: Option<datetime::DateTimeFixed>)
        ensures
            (self@.offset_minutes <= -1440 || self@.offset_minutes >= 1440) ==> r is None,
    {
        datetime::datetime_from_epoch(self.seconds, self.offset_minutes)
    }

    /// Returns the timestamp as a calendar moment in UTC, or nothing
    /// for an invalid timestamp.
    pub fn time_utc(&self) -> Option<datetime::DateTimeUtc> {
        match self.time() {
            Some(t) => Some(datetime::with_utc(&t)),
            None => None,
        }
    }

    /// Returns the timestamp as a calendar moment in the machine's
    /// local timezone, or nothing for an invalid timestamp.
    pub fn time_local(&self) -> Option<datetime::DateTimeLocal> {
        match self.time() {
            Some(t) => Some(datetime::with_local(&t)),
            None => None,
        }
    }
}

/// An opaque handle to one commit of the repository's object store.
pub struct Commit<'repo> {
    pub(crate) repo: &'repo git2::Repository,
    pub(crate) commit: git2::Commit<'repo>,
}

impl<'repo> Commit<'repo> {
    pub(crate) fn new(repo: &'repo git2::Repository, commit: git2::Commit<'repo>) -> Self {
        Commit { repo, commit }
    }

    /// Returns the commit's stable identifier: its content hash, in hex.
    pub fn sha(&self) -> String {
        git::commit_id_hex(&self.commit)
    }

    /// Returns the raw bytes of the commit message.
    pub fn message_bytes(&self) -> Vec<u8> {
        git::commit_message_bytes(&self.commit)
    }

    /// Returns the commit message, or nothing if it is not valid UTF-8.
    pub fn message(&self) -> Option<String> {
        let bytes = git::commit_message_bytes(&self.commit);
        text::utf8_string(bytes.as_slice())
    }

    /// Returns the commit message, lossily decoded.
    pub fn message_lossy(&self) -> String {
        let bytes = git::commit_message_bytes(&self.commit);
        text::lossy_string(bytes.as_slice())
    }

    /// The author is the person who wrote the code.
    pub fn author(&self) -> Signature {
        let sig = git::commit_author(&self.commit);
        Signature::from_git(&sig)
    }

    /// The committer is the person who committed the code, on behalf of
    /// the author.
    pub fn committer(&self) -> Signature {
        let sig = git::commit_committer(&self.commit);
        Signature::from_git(&sig)
    }

    /// Returns the commit time (the committer time) as
    /// `(seconds, offset_minutes)`.
    pub fn when(&self) -> (i64, i32) {
        let time = git::commit_time(&self.commit);
        let seconds = git::time_seconds(&time);
        let offset_minutes = git::time_offset_minutes(&time);
        (seconds, offset_minutes)
    }

    /// Returns the commit time as a calendar moment carrying its
    /// original timezone offset, or nothing for an invalid timestamp.
    pub fn time(&self) -> Option<datetime::DateTimeFixed> {
        let (seconds, offset_minutes) = self.when();
        datetime::datetime_from_epoch(seconds, offset_minutes)
    }

    /// Returns the commit time as a calendar moment in UTC, or nothing
    /// for an invalid timestamp.
    pub fn time_utc(&self) -> Option<datetime::DateTimeUtc> {
        match self.time() {
            Some(t) => Some(datetime::with_utc(&t)),
            None => None,
        }
    }

    /// Returns the commit time as a calendar moment in the machine's
    /// local timezone, or nothing for an invalid timestamp.
    pub fn time_local(&self) -> Option<datetime::DateTimeLocal> {
        match self.time() {
            Some(t) => Some(datetime::with_local(&t)),
            None => None,
        }
    }

    /// Returns the sequence of canonical changes this commit introduced
    /// relative to its first parent, or relative to the empty tree for
    /// a root commit. The diff is computed lazily, on this request.
    pub fn changes(&self) -> (r: Result<Changes<'repo>, GitError>)
        ensures
            r matches Ok(c) ==> c.pending() is None && c.position() == 0,
    {
        Changes::from_commit(self)
    }
}

} // verus!
