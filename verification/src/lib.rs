//! A minimal container bootstrap library.
//!
//! The library isolates a new process tree with kernel namespaces, switches
//! the filesystem root of that process to a prepared directory tree, mounts a
//! fresh process-information filesystem, and hands control to a target
//! executable.  Every ordering decision of that sequence is stated and
//! verified here; the thin process plumbing (argument parsing, the raw
//! process-creation call, the final image replacement) lives outside.

pub mod config;
pub mod errors;
pub mod flags;
pub mod launch;
pub mod model;
pub mod stack;

pub use config::LaunchConfig;
pub use errors::ErrorKind;
pub use errors::LaunchError;
pub use errors::Stage;
pub use flags::NamespaceFlagSet;
pub use launch::LaunchPlan;
pub use stack::StackRegion;
