//! Core logic of a containerized build orchestrator.
//!
//! The crate verifies the decision-making heart of the orchestrator: the
//! jobserver handshake grammar, the per-checkout token and build-argument
//! construction, the retry policy for transient container-builder failures,
//! the marker-file accounting that tracks build artifacts, and the
//! descriptor-brokering rules. Process, socket and filesystem side effects
//! are performed by a thin unverified front end that consumes the plans and
//! decisions produced here.

pub mod args;
pub mod broker;
pub mod driver;
pub mod error;
pub mod fetch;
pub mod makeflags;
pub mod markers;
pub mod retry;
pub mod text;
pub mod token;
