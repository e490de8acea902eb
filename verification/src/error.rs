//! The failure kinds, deliberately kept apart.
//!
//! A [`Throw`] is the throwable-failure channel: it unwinds the current
//! activation, carrying only a human-readable message. A [`Utf8Error`] is an
//! ordinary recoverable result at the call site: it records only the fact
//! that a byte range is not valid UTF-8, with no position or detail. The
//! third failure kind — an out-of-range index — is a caller contract
//! violation and therefore appears nowhere as a value: it is excluded by the
//! preconditions of the indexing operations.

use vstd::prelude::*;

verus! {

/// A throwable failure: to be propagated up the stack, not handled here.
#[derive(Debug)]
pub struct Throw {
    pub msg: String,
}

impl Throw {
    /// The message the failure carries.
    pub fn message(&self) -> (r: &str)
        ensures
            r@ == self.msg@,
    {
        self.msg.as_str()
    }
}

/// A recoverable encoding failure: the bytes were not valid UTF-8.
#[derive(Clone, Copy, PartialEq, Eq, Structural, Debug)]
pub struct Utf8Error;

} // verus!
