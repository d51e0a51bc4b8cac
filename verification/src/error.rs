//! Error conditions reported by the device and pseudo-filesystem nodes.

use vstd::prelude::*;

verus! {

/// The ways an operation of this layer can fail. Each failure concerns the
/// single call that reports it; none is fatal to the system.
#[derive(Clone, Copy, Debug, PartialEq, Eq, Structural)]
pub enum IoError {
    /// Wrong-direction I/O on a role-restricted node.
    PermissionDenied,
    /// A null or otherwise unusable ioctl argument.
    InvalidInput,
    /// An ioctl command code that the dispatcher does not know.
    Unsupported,
    /// A pseudo-filesystem lookup outside the fixed entry set.
    NotFound,
}

} // verus!
