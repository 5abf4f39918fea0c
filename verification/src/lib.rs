//! Process-supervision core of a desktop application shell.
//!
//! The crate decides; it performs no input or output itself. A driver hands it
//! plain values (paths, file contents, probe results) and carries out the
//! actions that it answers with.

pub mod env;
pub mod error;
pub mod launcher;
pub mod model;
pub mod opener;
pub mod paths;
pub mod platform;
pub mod protocol;
pub mod readiness;
pub mod report;
pub mod resolver;
pub mod sequences;
pub mod snapshot;
pub mod supervisor;
pub mod text;
