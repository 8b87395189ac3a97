//! Core logic of a remote-build service: it accepts a manifest of source
//! files, screens it for unsafe or malformed entries, stages it into an
//! isolated workspace, runs an external build tool under resource bounds,
//! and returns the produced artifact, tearing the workspace down on every
//! exit path.
//!
//! This crate holds the decision logic, verified: manifest validation, the
//! request state machine, the slot pool bounding concurrent builds, and the
//! mapping from every outcome to a protocol response. The surrounding I/O
//! (network transport, filesystem, process control) lives outside.

pub mod bytescan;
pub mod http;
pub mod manifest;
pub mod pipeline;
pub mod slots;
pub mod workspace;
