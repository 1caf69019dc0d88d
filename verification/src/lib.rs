//! Unattended, ordered builds of a fixed set of third-party source libraries.
//!
//! The crate holds the decisions of the build run: the catalog of libraries,
//! the arguments handed to the external tools, the choice of the extracted
//! source directory, and the state machine that sequences one run. Processes
//! and the file system stay with the caller, which performs each [`orchestrator::Action`]
//! and reports back an [`orchestrator::Event`].

pub mod text;
pub mod types;
pub mod error;
pub mod toolset;
pub mod catalog;
pub mod workspace;
pub mod strategy;
pub mod orchestrator;
pub mod laws;
pub mod driver;
