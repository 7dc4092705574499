//! The classes of failure that a caller has to tell apart.

use vstd::prelude::*;

verus! {

/// What a failure means for the caller, whatever call produced it.
#[derive(Clone, Copy, Debug, PartialEq, Eq, Structural)]
pub enum ErrorKind {
    /// The identifier has the wrong shape for the resolver: a caller error.
    UnsupportedIdentifier,
    /// The identified file or volume can no longer be located: stop.
    NotFound,
    /// One operating-system call failed: a retry may help.
    TransientOsFailure,
    /// The operating system's output is not valid text.
    DecodeFailure,
    /// The result is larger than the fixed buffer.
    CapacityExceeded,
}

} // verus!
