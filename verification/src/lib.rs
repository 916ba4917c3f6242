//! Failure-reporting core of a multi-threaded source-analysis pipeline.
//!
//! Every fallible stage of the pipeline (directory traversal, coverage-JSON
//! decoding, metric computation, concurrent job dispatch, report rendering)
//! resolves into one closed failure taxonomy, [`error::FailureKind`], and returns
//! the generic carrier [`error::Outcome`]. Foreign failures are adapted at
//! the boundary where they are first consumed ([`adapt`]): each foreign
//! error shape maps to exactly one failure kind, and a wrapped cause's own
//! message is preserved verbatim inside the rendered text.

pub mod adapt;
pub mod error;
