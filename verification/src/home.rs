//! Resolving the user's home directory, the one environment lookup the
//! startup sequence makes.

use vstd::prelude::*;

use crate::error::StartupError;

verus! {

/// Relies on dirs::home_dir: the home directory the system reports for the
/// current user, if any. Its source returns `None` rather than an empty
/// path (an empty `HOME` and an empty password-database entry are both
/// filtered out), so a returned path is never the empty string. Which path
/// comes back depends on the environment, so nothing more is promised.
#[verifier::external_body]
fn home_dir_string() -> (r: Option<String>)
    ensures
        r matches Some(h) ==> h@.len() > 0,
{
    match dirs::home_dir() {
        Some(p) => Some(p.to_string_lossy().into_owned()),
        None => None,
    }
}

/// Resolve the current user's home directory. Whatever the environment
/// answers: a resolved path is non-empty, and an unresolvable home is the
/// fatal configuration error, never anything else.
pub fn resolve_home() -> (r: Result<String, StartupError>)
    ensures
        r matches Ok(h) ==> h@.len() > 0,
        r matches Err(e) ==> e == StartupError::Configuration,
{
    match home_dir_string() {
        Some(h) => Ok(h),
        None => Err(StartupError::Configuration),
    }
}

} // verus!
