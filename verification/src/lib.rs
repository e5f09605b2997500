//! A minimal one-shot container runner, split into verified decision logic and
//! a thin unverified shell.
//!
//! The library parses image references, builds registry URLs, validates the
//! registry's token and manifest responses, decodes gzip-compressed layer
//! blobs, sequences the pull of an image as an explicit state machine, models
//! layer materialization as map overlay, tracks the one-way isolation
//! transitions, and resolves the final exit code. All network and filesystem
//! work is performed by the caller, which feeds the observed outcomes back in.

pub mod errors;
pub mod image;
pub mod registry;
pub mod layers;
pub mod pull;
pub mod rootprep;
pub mod isolate;
pub mod executor;
pub mod session;
