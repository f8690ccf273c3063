//! Adapters for callback-driven walks: the meaning of a walk callback's
//! return value, and the resolution of a callback-driven walk's
//! outcome.

use vstd::prelude::*;

use crate::git::GitError;

verus! {

/// What a walk callback's return value means for the walk.
pub trait WalkOutput: Sized {
    /// Whether this value carries an error that aborts the walk.
    spec fn is_failure(self) -> bool;

    /// Whether this value asks the walk to stop cleanly.
    spec fn stops(self) -> bool;

    /// Returns `Ok(true)` to signal that the iteration should stop
    /// without any error occurring.
    fn finished(self) -> (r: Result<bool, GitError>)
        ensures
            (r is Err) == self.is_failure(),
            r matches Ok(b) ==> b == self.stops(),
    ;
}

impl WalkOutput for () {
    open spec fn is_failure(self) -> bool {
        false
    }

    open spec fn stops(self) -> bool {
        false
    }

    fn finished(self) -> (r: Result<bool, GitError>) {
        Ok(false)
    }
}

impl WalkOutput for bool {
    open spec fn is_failure(self) -> bool {
        false
    }

    open spec fn stops(self) -> bool {
        self
    }

    fn finished(self) -> (r: Result<bool, GitError>) {
        Ok(self)
    }
}

impl WalkOutput for core::ops::ControlFlow<()> {
    open spec fn is_failure(self) -> bool {
        false
    }

    open spec fn stops(self) -> bool {
        self is Break
    }

    fn finished(self) -> (r: Result<bool, GitError>) {
        match self {
            core::ops::ControlFlow::Continue(()) => Ok(false),
            core::ops::ControlFlow::Break(()) => Ok(true),
        }
    }
}

impl<T: WalkOutput> WalkOutput for Result<T, GitError> {
    open spec fn is_failure(self) -> bool {
        match self {
            Ok(t) => t.is_failure(),
            Err(_) => true,
        }
    }

    open spec fn stops(self) -> bool {
        match self {
            Ok(t) => t.stops(),
            Err(_) => false,
        }
    }

    fn finished(self) -> (r: Result<bool, GitError>) {
        match self {
            Ok(t) => t.finished(),
            Err(e) => Err(e),
        }
    }
}

/// Resolves the outcome of a callback-driven walk. `res` is what the
/// underlying walk returned; `res_is_user` says whether its error code
/// is the one raised only on behalf of a callback; `captured` is the
/// error the callback itself stored, if any. An error raised for the
/// callback is resolved to the captured error if one exists, else to a
/// clean stop. Any other error is the walk's own and is kept.
pub fn resolve_walk_outcome(
    res: Result<(), GitError>,
    res_is_user: bool,
    captured: Option<GitError>,
) -> (r: Result<(), GitError>)
    ensures
        res is Ok ==> r is Ok,
        (res is Err && res_is_user && captured is Some) ==> (r matches Err(e) && captured matches
            Some(c) && e == c),
        (res is Err && res_is_user && captured is None) ==> r is Ok,
        (res is Err && !res_is_user) ==> (r matches Err(e) && res matches Err(e2) && e == e2),
{
    match res {
        Ok(()) => Ok(()),
        Err(err) => {
            if res_is_user {
                match captured {
                    Some(cb_err) => Err(cb_err),
                    None => Ok(()),
                }
            } else {
                Err(err)
            }
        },
    }
}

} // verus!
