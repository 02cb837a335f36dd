//! Pool initializer for a local SQLite database inside a host application's
//! per-user data directory.
//!
//! The library holds the decision logic of the initializer: resolving the
//! database file path inside the data directory, classifying the outcomes of
//! the directory-preparation and connect-or-create steps, and the shared-state
//! registry that the resulting pool is stored in. The host-facing adapter that
//! performs the filesystem and driver calls drives these functions.

pub mod error;
pub mod options;
pub mod paths;
pub mod registry;
pub mod setup;
