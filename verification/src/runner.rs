//! The migration runner: one ascending pass over the migration list,
//! applying every script whose version is above the database's recorded
//! version, advancing the watermark after each success, and stopping at the
//! first failure without advancing past it.
//!
//! Executing a script is the database driver's work, outside this library;
//! the runner is modelled against an outcome per list entry (would that
//! entry's script apply successfully). [`next_pending`] and [`apply_step`]
//! are the step-at-a-time interface a driver loop uses; [`run_model`] is the
//! whole pass, and what the runner's laws and scenarios are stated over.

use vstd::prelude::*;

use crate::error::StartupError;
use crate::migration::Migration;
use crate::migration::versions_ascending;

verus! {

/// The runner's result from cursor `i` onwards, starting at recorded version
/// `recorded`, when entry `j`'s script would succeed exactly when `ok[j]`:
/// the final recorded version, the versions applied in order, and the
/// version whose script failed, if any.
pub open spec fn spec_run(
    list: Seq<Migration>,
    ok: Seq<bool>,
    recorded: u64,
    i: int,
) -> (u64, Seq<u64>, Option<u64>)
    decreases list.len() - i,
{
    if i < 0 || i >= list.len() {
        (recorded, Seq::<u64>::empty(), None::<u64>)
    } else if list[i].version <= recorded {
        spec_run(list, ok, recorded, i + 1)
    } else if ok[i] {
        let rest = spec_run(list, ok, list[i].version, i + 1);
        (rest.0, seq![list[i].version] + rest.1, rest.2)
    } else {
        (recorded, Seq::<u64>::empty(), Some(list[i].version))
    }
}

/// The versions still pending from cursor `i` onwards: those of the entries
/// whose version is above `recorded`, in list order.
pub open spec fn pending_versions(list: Seq<Migration>, recorded: u64, i: int) -> Seq<u64>
    decreases list.len() - i,
{
    if i < 0 || i >= list.len() {
        Seq::<u64>::empty()
    } else if list[i].version > recorded {
        seq![list[i].version] + pending_versions(list, recorded, i + 1)
    } else {
        pending_versions(list, recorded, i + 1)
    }
}

/// The last element of `s`, or `d` where `s` is empty.
pub open spec fn last_or(s: Seq<u64>, d: u64) -> u64 {
    if s.len() == 0 {
        d
    } else {
        s[s.len() - 1]
    }
}

/// What one whole run reports: the recorded version the database is left
/// at, the versions applied in order, and the failing version, if any.
pub struct RunReport {
    pub recorded: u64,
    pub applied: Vec<u64>,
    pub failed: Option<u64>,
}

/// Run the migration pass over the whole list: skip entries at or below
/// `recorded0`, apply the rest in list order — `ok[i]` says whether entry
/// `i`'s script would apply — and stop at the first failure, leaving the
/// watermark at the last success.
pub fn run_model(list: &Vec<Migration>, recorded0: u64, ok: &Vec<bool>) -> (r: RunReport)
    requires
        ok@.len() == list@.len(),
    ensures
        r.recorded == spec_run(list@, ok@, recorded0, 0).0,
        r.applied@ == spec_run(list@, ok@, recorded0, 0).1,
        r.failed == spec_run(list@, ok@, recorded0, 0).2,
{
    let ghost total = spec_run(list@, ok@, recorded0, 0);
    let mut recorded: u64 = recorded0;
    let mut applied: Vec<u64> = Vec::new();
    let mut failed: Option<u64> = None;
    let mut i: usize = 0;
    while i < list.len() && failed.is_none()
        invariant
            ok@.len() == list@.len(),
            0 <= i <= list@.len(),
            total == spec_run(list@, ok@, recorded0, 0),
            match failed {
                None => {
                    &&& total.0 == spec_run(list@, ok@, recorded, i as int).0
                    &&& total.1 == applied@ + spec_run(list@, ok@, recorded, i as int).1
                    &&& total.2 == spec_run(list@, ok@, recorded, i as int).2
                },
                Some(v) => {
                    &&& total.0 == recorded
                    &&& total.1 == applied@
                    &&& total.2 == Some(v)
                },
            },
        decreases list@.len() - i,
    {
        let version = list[i].version;
        if version <= recorded {
            // already recorded as applied: skipped
        } else if ok[i] {
            recorded = version;
            let ghost applied_old = applied@;
            applied.push(version);
            proof {
                let rest = spec_run(list@, ok@, version, i + 1);
                assert(applied_old + (seq![version] + rest.1) =~= applied@ + rest.1);
            }
        } else {
            failed = Some(version);
        }
        i = i + 1;
    }
    proof {
        if failed is None {
            assert(applied@ + Seq::<u64>::empty() =~= applied@);
        }
    }
    RunReport { recorded, applied, failed }
}

/// The first migration still pending: the entry with the lowest version
/// above `recorded`, as an index into the list. `None` exactly when every
/// entry is at or below `recorded`.
pub fn next_pending(list: &Vec<Migration>, recorded: u64) -> (r: Option<usize>)
    requires
        versions_ascending(list@),
    ensures
        match r {
            Some(i) => {
                &&& i < list@.len()
                &&& list@[i as int].version > recorded
                &&& forall|j: int| 0 <= j < i ==> list@[j].version <= recorded
            },
            None => forall|j: int| 0 <= j < list@.len() ==> list@[j].version <= recorded,
        },
{
    let mut i: usize = 0;
    while i < list.len()
        invariant
            0 <= i <= list@.len(),
            forall|j: int| 0 <= j < i ==> list@[j].version <= recorded,
        decreases list@.len() - i,
    {
        if list[i].version > recorded {
            return Some(i);
        }
        i = i + 1;
    }
    None
}

/// Record the outcome of one applied script: success advances the watermark
/// to the applied version, failure is the fatal migration error and leaves
/// the watermark where it was.
pub fn apply_step(recorded: u64, version: u64, succeeded: bool) -> (r: Result<u64, StartupError>)
    requires
        version > recorded,
    ensures
        succeeded ==> r == Ok::<u64, StartupError>(version),
        !succeeded ==> r == Err::<u64, StartupError>(StartupError::MigrationFailed(version)),
{
    if succeeded {
        Ok(version)
    } else {
        Err(StartupError::MigrationFailed(version))
    }
}

} // verus!
