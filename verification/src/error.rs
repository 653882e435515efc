//! The startup error taxonomy: every way the bootstrap sequence can fail.

use vstd::prelude::*;

verus! {

/// A fatal startup error. None of these is recoverable: the process entry
/// point maps each variant to immediate termination with its message.
#[derive(Clone, Copy, Debug, PartialEq, Eq, Structural)]
pub enum StartupError {
    /// The user's home directory could not be resolved.
    Configuration,
    /// The application directory could not be created.
    Filesystem,
    /// The script of the migration with this version failed to apply.
    MigrationFailed(u64),
}

impl StartupError {
    /// The diagnostic shown when startup aborts with this error.
    pub fn message(&self) -> (r: &'static str)
        ensures
            *self == StartupError::Configuration ==> r@ == "failed to get home directory"@,
            *self == StartupError::Filesystem ==> r@ == "failed to create the application directory"@,
            (self matches StartupError::MigrationFailed(_)) ==> r@ == "failed to apply a schema migration"@,
    {
        match self {
            StartupError::Configuration => "failed to get home directory",
            StartupError::Filesystem => "failed to create the application directory",
            StartupError::MigrationFailed(_) => "failed to apply a schema migration",
        }
    }
}

} // verus!
