//! The client side of descriptor brokering.
//!
//! A helper inside the container connects to a broker's abstract socket
//! and receives one message carrying descriptors (the socket work lives in
//! the unverified front end). The received batch is checked here: it must
//! hold exactly the requested count, no descriptor may lie in the stdio
//! range, and every descriptor is republished by duplication so that the
//! copy survives `exec` with close-on-exec clear.

use vstd::prelude::*;

use crate::error::Error;

verus! {

/// Descriptors 0, 1 and 2 are reserved for stdio and never served.
pub const MIN_FD: i32 = 3;

/// Relies on `nix::fcntl::fcntl` with `F_DUPFD`: duplicates `fd` onto the
/// lowest free descriptor numbered at least `min`; the duplicate has
/// close-on-exec clear.
#[verifier::external_body]
fn dup_fd_at_least(fd: i32, min: i32) -> (r: Option<i32>)
    ensures
        r matches Some(nfd) ==> nfd >= min,
{
    match nix::fcntl::fcntl(fd, nix::fcntl::FcntlArg::F_DUPFD(min)) {
        Ok(nfd) => Some(nfd),
        Err(_) => None,
    }
}

/// Checks a received descriptor batch and republishes it clear of
/// close-on-exec.
///
/// The batch must hold exactly `wanted` descriptors; a received
/// descriptor below [`MIN_FD`] is a protocol error. Each descriptor is
/// duplicated to a fresh number at or above [`MIN_FD`], in receive order,
/// so no returned descriptor can shadow stdio.
pub fn duplicate_received_fds(fds: &Vec<i32>, wanted: usize) -> (r: Result<Vec<i32>, Error>)
    ensures
        fds@.len() != wanted ==> r == Err::<Vec<i32>, Error>(
            Error::FileDescriptorCount { expected: wanted, actual: fds@.len() as usize },
        ),
        r matches Ok(v) ==> {
            &&& fds@.len() == wanted
            &&& v@.len() == fds@.len()
            &&& forall|i: int| 0 <= i < v@.len() ==> #[trigger] v@[i] >= MIN_FD
        },
        fds@.len() == wanted && (exists|i: int|
            0 <= i < fds@.len() && #[trigger] fds@[i] < MIN_FD) ==> match r {
            Ok(_) => false,
            Err(e) => (e matches Error::FileDescriptorBelowMinimum { fd } && fd < MIN_FD) || (
            e matches Error::FileDescriptorDuplicate { .. }),
        },
        fds@.len() == wanted && (forall|i: int|
            0 <= i < fds@.len() ==> #[trigger] fds@[i] >= MIN_FD) ==> match r {
            Ok(_) => true,
            Err(e) => e matches Error::FileDescriptorDuplicate { .. },
        },
{
    if fds.len() != wanted {
        return Err(Error::FileDescriptorCount { expected: wanted, actual: fds.len() });
    }
    let mut out: Vec<i32> = Vec::new();
    let mut i: usize = 0;
    while i < fds.len()
        invariant
            fds@.len() == wanted,
            i <= fds@.len(),
            out@.len() == i,
            forall|k: int| 0 <= k < out@.len() ==> #[trigger] out@[k] >= MIN_FD,
            forall|k: int| 0 <= k < i ==> #[trigger] fds@[k] >= MIN_FD,
        decreases fds@.len() - i,
    {
        let fd = fds[i];
        if fd < MIN_FD {
            return Err(Error::FileDescriptorBelowMinimum { fd });
        }
        match dup_fd_at_least(fd, MIN_FD) {
            Some(nfd) => {
                out.push(nfd);
            },
            None => {
                return Err(Error::FileDescriptorDuplicate { fd });
            },
        }
        i += 1;
    }
    Ok(out)
}

} // verus!
