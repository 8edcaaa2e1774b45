//! Keeps a configured set of local files synchronized with a version-controlled
//! repository, protecting local edits behind a disposable backup branch.
//!
//! The crate holds the decision logic of the tool: command-line parsing, the
//! mirrored-file configuration, mirror-path computation and copy planning,
//! branch resolution, the fast-forward rule, backup-branch naming, and the
//! pull/push protocol as an explicit state machine. A thin driver performs
//! the actual repository and filesystem operations that the machine requests.

pub mod backup;
pub mod config;
pub mod controller;
pub mod error;
pub mod files;
pub mod git;
pub mod mirror;
pub mod options;
pub mod resolve;
pub mod session;
pub mod time;
pub mod validate;
