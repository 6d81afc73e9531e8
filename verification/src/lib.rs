//! Decides, for local version-controlled directory clones, whether each is
//! safe to irrecoverably discard: the working copy must hold no uncommitted
//! or conflicted changes outside what is explicitly ignored, and every remote
//! counterpart must be fully synchronized (no local-only commits).
//!
//! The crate verifies the cleanliness classification engine and the
//! interactive convergence loop: per-file status classification, per-remote
//! synchronization analysis by commit-graph ancestry, aggregation into a
//! single verdict, the bounded remediation state machine, and the batch
//! coordination of destructive decisions.

pub mod batch;
pub mod branch;
pub mod cleanliness;
pub mod controller;
pub mod git_ops;
pub mod numfmt;
pub mod preference;
pub mod preview;
pub mod remote;
pub mod report;
pub mod status;
pub mod sync;
pub mod utils;
