//! The whole startup sequence over a modelled machine state: ensure the
//! application directory, open the database at its recorded version (0 for
//! a database that does not exist yet), and run the migration pass.

use vstd::prelude::*;

use crate::bootstrap::ensure_dir_model;
use crate::bootstrap::spec_ensure_dir;
use crate::error::StartupError;
use crate::migration::Migration;
use crate::runner::run_model;
use crate::runner::spec_run;

verus! {

/// What startup observes and leaves behind on the machine: whether the
/// application directory and the database file exist, and the schema
/// version the database records (meaningful once it exists).
#[derive(Clone, Copy, Debug, PartialEq, Eq, Structural)]
pub struct StartupState {
    pub dir_exists: bool,
    pub db_exists: bool,
    pub recorded: u64,
}

/// One startup's outcome: the machine state it leaves, the migration
/// versions it applied in order, and the fatal error it stopped at, if any.
pub struct StartupReport {
    pub state: StartupState,
    pub applied: Vec<u64>,
    pub error: Option<StartupError>,
}

/// The recorded version startup works from: what the database records if it
/// exists, and 0 for a fresh one.
pub open spec fn initial_version(st: StartupState) -> u64 {
    if st.db_exists {
        st.recorded
    } else {
        0
    }
}

/// Run the startup sequence against an observed machine state. `create_ok`
/// is the outcome the filesystem would give a directory creation; `ok[i]`
/// whether the `i`th migration's script would apply. A failed directory
/// creation aborts before the database is touched; a failed script leaves
/// the database recorded at the last success.
pub fn startup_model(
    st: StartupState,
    create_ok: bool,
    list: &Vec<Migration>,
    ok: &Vec<bool>,
) -> (r: StartupReport)
    requires
        ok@.len() == list@.len(),
    ensures
        spec_ensure_dir(st.dir_exists, create_ok) is Err ==> {
            &&& r.state == st
            &&& r.applied@ == Seq::<u64>::empty()
            &&& r.error == Some(StartupError::Filesystem)
        },
        spec_ensure_dir(st.dir_exists, create_ok) is Ok ==> {
            &&& r.state.dir_exists
            &&& r.state.db_exists
            &&& r.state.recorded == spec_run(list@, ok@, initial_version(st), 0).0
            &&& r.applied@ == spec_run(list@, ok@, initial_version(st), 0).1
            &&& r.error == match spec_run(list@, ok@, initial_version(st), 0).2 {
                Some(v) => Some(StartupError::MigrationFailed(v)),
                None => None::<StartupError>,
            }
        },
{
    match ensure_dir_model(st.dir_exists, create_ok) {
        Err(e) => StartupReport { state: st, applied: Vec::new(), error: Some(e) },
        Ok(_) => {
            let recorded0 = if st.db_exists {
                st.recorded
            } else {
                0
            };
            let run = run_model(list, recorded0, ok);
            let error = match run.failed {
                Some(v) => Some(StartupError::MigrationFailed(v)),
                None => None,
            };
            StartupReport {
                state: StartupState {
                    dir_exists: true,
                    db_exists: true,
                    recorded: run.recorded,
                },
                applied: run.applied,
                error,
            }
        },
    }
}

} // verus!
