//! Error kinds reported by the verified core.
//!
//! Filesystem and subprocess failures belong to the unverified front end;
//! the kinds here are the ones the core logic itself can detect.

use vstd::prelude::*;

verus! {

/// Which half of the jobserver descriptor pair an error refers to.
#[derive(Clone, Copy, Debug, PartialEq, Eq, Structural)]
pub enum FdHalf {
    Read,
    Write,
}

/// Errors detected by the verified core.
#[derive(Clone, Copy, Debug, PartialEq, Eq, Structural)]
pub enum Error {
    /// The jobserver handshake string does not match the expected grammar.
    HandshakeMatch,
    /// The `--jobserver-fds` pair differs from the `--jobserver-auth` pair.
    FileDescriptorMismatch { what: FdHalf },
    /// A descriptor number in the handshake does not fit a 32-bit signed integer.
    FileDescriptorParse,
    /// A brokered message carried the wrong number of descriptors.
    FileDescriptorCount { expected: usize, actual: usize },
    /// A received descriptor lies in the range reserved for stdio.
    FileDescriptorBelowMinimum { fd: i32 },
    /// The descriptor could not be duplicated clear of close-on-exec.
    FileDescriptorDuplicate { fd: i32 },
}

} // verus!
