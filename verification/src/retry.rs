//! The retry policy for the container build command.
//!
//! The container builder collapses many causes to a generic nonzero exit,
//! so eligibility for a retry is decided by matching the captured output
//! against known transient-failure signatures. Only the build command is
//! ever retried; any other failure is reported at once.

use vstd::prelude::*;

use crate::text::{contains_line, contains_line_str, contains_seq, contains_str};

verus! {

/// How many times the container build command may be attempted.
pub const DOCKER_BUILD_MAX_ATTEMPTS: u16 = 10;

/// A build-frontend crash seen during parallel builds.
pub open spec fn frontend_signature() -> Seq<char> {
    "failed to solve with frontend dockerfile.v0: failed to solve with frontend gateway.v0: frontend grpc server closed unexpectedly"@
}

/// A stale-record failure from the same frontend.
pub open spec fn dead_record_signature() -> Seq<char> {
    "failed to solve with frontend dockerfile.v0: failed to solve with frontend gateway.v0: rpc error: code = Unknown desc = failed to build LLB: failed to get dead record"@
}

/// A bare connection drop, reported on a line of its own.
pub open spec fn unexpected_eof_signature() -> Seq<char> {
    "unexpected EOF"@
}

/// A repository-metadata warning caused by partially-written packages.
pub open spec fn createrepo_signature() -> Seq<char> {
    "C_CREATEREPOLIB: Warning: read_header: rpmReadPackageFile() error"@
}

/// Whether captured output carries one of the known transient-failure
/// signatures.
pub open spec fn spec_transient_failure(out: Seq<char>) -> bool {
    ||| contains_seq(out, frontend_signature())
    ||| contains_seq(out, dead_record_signature())
    ||| contains_line(out, unexpected_eof_signature())
    ||| contains_seq(out, createrepo_signature())
}

/// Scans captured output for the known transient-failure signatures.
pub fn is_transient_failure(output: &str) -> (b: bool)
    ensures
        b == spec_transient_failure(output@),
{
    if contains_str(
        output,
        "failed to solve with frontend dockerfile.v0: failed to solve with frontend gateway.v0: frontend grpc server closed unexpectedly",
    ) {
        return true;
    }
    if contains_str(
        output,
        "failed to solve with frontend dockerfile.v0: failed to solve with frontend gateway.v0: rpc error: code = Unknown desc = failed to build LLB: failed to get dead record",
    ) {
        return true;
    }
    if contains_line_str(output, "unexpected EOF") {
        return true;
    }
    if contains_str(output, "C_CREATEREPOLIB: Warning: read_header: rpmReadPackageFile() error") {
        return true;
    }
    false
}

/// What to do after one invocation of the build command.
#[derive(Clone, Copy, Debug, PartialEq, Eq, Structural)]
pub enum RetryDecision {
    /// The command exited successfully; the build goes on.
    Succeeded,
    /// The command failed with a transient signature and attempts remain.
    Retry,
    /// The command failed for good; report the failure.
    Failed,
}

/// The decision owed after an invocation: success ends the loop, a
/// transient failure with attempts remaining earns a retry, and anything
/// else is fatal.
pub open spec fn spec_retry_decision(
    success: bool,
    out: Seq<char>,
    attempt: u16,
    max_attempts: u16,
) -> RetryDecision {
    if success {
        RetryDecision::Succeeded
    } else if spec_transient_failure(out) && attempt < max_attempts {
        RetryDecision::Retry
    } else {
        RetryDecision::Failed
    }
}

/// Decides whether the `attempt`-th invocation (counted from one) of the
/// build command ends the loop, is retried, or is reported as fatal.
/// The exit status is authoritative; output is scanned only on failure.
pub fn retry_decision(success: bool, output: &str, attempt: u16, max_attempts: u16) -> (d:
    RetryDecision)
    ensures
        d == spec_retry_decision(success, output@, attempt, max_attempts),
{
    if success {
        RetryDecision::Succeeded
    } else if attempt < max_attempts && is_transient_failure(output) {
        RetryDecision::Retry
    } else {
        RetryDecision::Failed
    }
}

} // verus!
