//! Failures that address resolution raises itself, before any system call.

use vstd::prelude::*;

verus! {

/// Why an address was refused without the operating system being asked.
#[derive(Clone, Copy, Debug, PartialEq, Eq, Structural)]
pub enum ResolveError {
    /// The address denotes an endpoint that already exists, such as the
    /// address of a connected peer, and so cannot be bound anew.
    AlreadyExists,
    /// The address is an unnamed local endpoint: it has no path to dial.
    NotFound,
}

impl ResolveError {
    /// The text that accompanies this failure.
    pub open spec fn spec_message(self) -> Seq<char> {
        match self {
            ResolveError::AlreadyExists => "cannot bind to an existing address"@,
            ResolveError::NotFound => "cannot connect to unnamed address"@,
        }
    }

    /// The text that accompanies this failure.
    pub fn message(&self) -> (text: &'static str)
        ensures
            text@ == self.spec_message(),
    {
        match self {
            ResolveError::AlreadyExists => "cannot bind to an existing address",
            ResolveError::NotFound => "cannot connect to unnamed address",
        }
    }
}

} // verus!
