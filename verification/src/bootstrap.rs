//! The directory bootstrapper: decide whether the per-user application
//! directory must be created, and model the effect of that decision.
//!
//! The filesystem itself is outside this library; the caller observes
//! whether the directory exists, asks [`bootstrap_action`] what to do, and
//! reports back whether creation succeeded. The model here is what the
//! idempotence law and the startup composition are proved over.

use vstd::prelude::*;

use crate::error::StartupError;

verus! {

/// What the bootstrapper does to the application directory.
#[derive(Clone, Copy, Debug, PartialEq, Eq, Structural)]
pub enum DirAction {
    /// The directory is missing and must be created.
    Create,
    /// The directory already exists; nothing is touched.
    AlreadyPresent,
}

/// The action the bootstrapper takes when the directory's existence is as given.
pub open spec fn action_for(dir_exists: bool) -> DirAction {
    if dir_exists {
        DirAction::AlreadyPresent
    } else {
        DirAction::Create
    }
}

/// Decide what must happen to the application directory: create it exactly
/// when it does not yet exist.
pub fn bootstrap_action(dir_exists: bool) -> (a: DirAction)
    ensures
        a == action_for(dir_exists),
{
    if dir_exists {
        DirAction::AlreadyPresent
    } else {
        DirAction::Create
    }
}

/// The bootstrapper's effect on the directory: `Ok` holds whether the
/// directory exists afterwards; `Err` is the fatal filesystem error.
/// `create_ok` stands for the outcome the filesystem would give a creation
/// attempt; it is consulted only when the directory is missing.
pub open spec fn spec_ensure_dir(dir_exists: bool, create_ok: bool) -> Result<bool, StartupError> {
    if dir_exists {
        Ok(true)
    } else if create_ok {
        Ok(true)
    } else {
        Err(StartupError::Filesystem)
    }
}

/// Run the bootstrapper against an observed directory state. A missing
/// directory is created (successfully exactly when `create_ok`); an existing
/// one is left alone. On success the directory exists.
pub fn ensure_dir_model(dir_exists: bool, create_ok: bool) -> (r: Result<bool, StartupError>)
    ensures
        r == spec_ensure_dir(dir_exists, create_ok),
        r matches Ok(e) ==> e,
{
    match bootstrap_action(dir_exists) {
        DirAction::AlreadyPresent => Ok(true),
        DirAction::Create => {
            if create_ok {
                Ok(true)
            } else {
                Err(StartupError::Filesystem)
            }
        },
    }
}

/// Law: the bootstrapper is idempotent. After any successful run the
/// directory exists, so a second run observes it, chooses no mutation, and
/// succeeds with the state unchanged — whatever the filesystem would have
/// answered to a second creation attempt.
pub proof fn lemma_bootstrap_idempotent(dir_exists: bool, create_ok: bool, create_ok2: bool)
    ensures
        spec_ensure_dir(dir_exists, create_ok) matches Ok(e) ==> {
            &&& action_for(e) == DirAction::AlreadyPresent
            &&& spec_ensure_dir(e, create_ok2) == Ok::<bool, StartupError>(e)
        },
{
}

} // verus!
