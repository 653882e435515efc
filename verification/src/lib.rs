//! Startup logic for a small task-management application: a directory
//! bootstrapper that makes sure the per-user application directory exists,
//! and a migration runner that brings the local database schema up to the
//! highest known version, one ordered step at a time.

pub mod bootstrap;
pub mod error;
pub mod home;
pub mod laws;
pub mod migration;
pub mod paths;
pub mod runner;
pub mod startup;

pub use bootstrap::DirAction;
pub use error::StartupError;
pub use migration::Migration;
pub use migration::MigrationKind;
