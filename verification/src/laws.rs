//! The migration runner's laws: what one pass applies, that an up-to-date
//! database is untouched, that a second pass after a successful one is a
//! no-op, and that a failing script never lets the watermark advance past
//! itself.

use vstd::prelude::*;

use crate::migration::Migration;
use crate::migration::lemma_wf_list_ascending;
use crate::migration::versions_ascending;
use crate::migration::wf_migration_list;
use crate::runner::last_or;
use crate::runner::pending_versions;
use crate::runner::spec_run;

verus! {

/// A run over entries that are all at or below the recorded version touches
/// nothing: no script applied, no failure, the watermark unchanged.
proof fn lemma_run_skips_all(list: Seq<Migration>, ok: Seq<bool>, recorded: u64, i: int)
    requires
        forall|j: int| i <= j < list.len() ==> list[j].version <= recorded,
    ensures
        spec_run(list, ok, recorded, i).0 == recorded,
        spec_run(list, ok, recorded, i).1 == Seq::<u64>::empty(),
        spec_run(list, ok, recorded, i).2 == None::<u64>,
    decreases list.len() - i,
{
    if i < 0 || i >= list.len() {
    } else {
        lemma_run_skips_all(list, ok, recorded, i + 1);
    }
}

/// Two recorded versions that every remaining entry is above leave the same
/// entries pending.
proof fn lemma_pending_same(list: Seq<Migration>, r1: u64, r2: u64, i: int)
    requires
        forall|j: int| i <= j < list.len() ==> list[j].version > r1 && list[j].version > r2,
    ensures
        pending_versions(list, r1, i) == pending_versions(list, r2, i),
    decreases list.len() - i,
{
    if i < 0 || i >= list.len() {
    } else {
        lemma_pending_same(list, r1, r2, i + 1);
    }
}

/// When every script succeeds, a run applies exactly the pending versions,
/// in order, fails nowhere, and leaves the watermark at the last of them
/// (or where it was, if nothing was pending).
proof fn lemma_run_all_ok(list: Seq<Migration>, ok: Seq<bool>, recorded: u64, i: int)
    requires
        versions_ascending(list),
        forall|j: int| 0 <= j < list.len() ==> ok[j],
    ensures
        spec_run(list, ok, recorded, i).0 == last_or(pending_versions(list, recorded, i), recorded),
        spec_run(list, ok, recorded, i).1 == pending_versions(list, recorded, i),
        spec_run(list, ok, recorded, i).2 == None::<u64>,
    decreases list.len() - i,
{
    if i < 0 || i >= list.len() {
    } else if list[i].version <= recorded {
        lemma_run_all_ok(list, ok, recorded, i + 1);
    } else {
        let v = list[i].version;
        lemma_run_all_ok(list, ok, v, i + 1);
        assert forall|j: int| i + 1 <= j < list.len() implies list[j].version > v
            && list[j].version > recorded by {
            assert(list[i].version < list[j].version);
        };
        lemma_pending_same(list, v, recorded, i + 1);
        let p = pending_versions(list, recorded, i + 1);
        if p.len() == 0 {
            assert((seq![v] + p)[0] == v);
        } else {
            assert((seq![v] + p)[p.len() as int] == p[p.len() - 1]);
        }
    }
}

/// Under the list invariant, the entries pending above version `r` from
/// cursor `i` are exactly those at the indices from `max(i, r)` on, and
/// their versions count up from `max(i, r) + 1`.
proof fn lemma_pending_wf(list: Seq<Migration>, r: u64, i: int)
    requires
        wf_migration_list(list),
        0 <= i,
    ensures
        pending_versions(list, r, i) == ({
            let lo = if i >= r as int { i } else { r as int };
            if lo >= list.len() {
                Seq::<u64>::empty()
            } else {
                Seq::new((list.len() - lo) as nat, |k: int| (lo + 1 + k) as u64)
            }
        }),
    decreases list.len() - i,
{
    let lo = if i >= r as int { i } else { r as int };
    if i >= list.len() {
    } else {
        lemma_pending_wf(list, r, i + 1);
        assert(list[i].version == i + 1);
        if list[i].version > r {
            let rest = pending_versions(list, r, i + 1);
            assert(seq![list[i].version] + rest =~= Seq::new((list.len() - lo) as nat, |k: int| (lo + 1 + k) as u64));
        }
    }
}

/// Law: from a database recorded at version `v`, a run in which every
/// script succeeds applies exactly the migrations with versions `v + 1`
/// through the highest in the list, in ascending order — all of them when
/// the database is fresh (`v == 0`) — and leaves the recorded version at
/// the highest in the list (or at `v`, where nothing was pending).
pub proof fn lemma_run_applies_exactly_pending(list: Seq<Migration>, ok: Seq<bool>, v: u64)
    requires
        wf_migration_list(list),
        forall|j: int| 0 <= j < list.len() ==> ok[j],
    ensures
        spec_run(list, ok, v, 0).2 == None::<u64>,
        spec_run(list, ok, v, 0).1 == (if (v as int) < list.len() {
            Seq::new((list.len() - v) as nat, |k: int| (v + 1 + k) as u64)
        } else {
            Seq::<u64>::empty()
        }),
        spec_run(list, ok, v, 0).0 == (if (v as int) < list.len() {
            list.len() as u64
        } else {
            v
        }),
{
    lemma_wf_list_ascending(list);
    lemma_run_all_ok(list, ok, v, 0);
    lemma_pending_wf(list, v, 0);
    if (v as int) < list.len() {
        assert(list[list.len() - 1].version == list.len());
        let p = pending_versions(list, v, 0);
        assert(p[p.len() - 1] == list.len() as u64);
    }
}

/// Law: a database already recorded at the highest known version is left
/// entirely alone — zero scripts are executed, whatever their outcomes
/// would have been, no failure is reported, and the version is unchanged.
pub proof fn lemma_up_to_date_is_noop(list: Seq<Migration>, ok: Seq<bool>, recorded: u64)
    requires
        versions_ascending(list),
        list.len() > 0 ==> recorded >= list[list.len() - 1].version,
    ensures
        spec_run(list, ok, recorded, 0).0 == recorded,
        spec_run(list, ok, recorded, 0).1 == Seq::<u64>::empty(),
        spec_run(list, ok, recorded, 0).2 == None::<u64>,
{
    assert forall|j: int| 0 <= j < list.len() implies list[j].version <= recorded by {
        if j < list.len() - 1 {
            assert(list[j].version < list[list.len() - 1].version);
        }
    };
    lemma_run_skips_all(list, ok, recorded, 0);
}

/// Law: the runner is idempotent across whole runs. After a run in which
/// every script succeeded, a second run — whatever its scripts would do —
/// executes nothing and leaves the recorded version where the first run
/// left it.
pub proof fn lemma_rerun_is_noop(list: Seq<Migration>, ok: Seq<bool>, ok2: Seq<bool>, v: u64)
    requires
        wf_migration_list(list),
        forall|j: int| 0 <= j < list.len() ==> ok[j],
    ensures
        spec_run(list, ok2, spec_run(list, ok, v, 0).0, 0).0 == spec_run(list, ok, v, 0).0,
        spec_run(list, ok2, spec_run(list, ok, v, 0).0, 0).1 == Seq::<u64>::empty(),
        spec_run(list, ok2, spec_run(list, ok, v, 0).0, 0).2 == None::<u64>,
{
    lemma_wf_list_ascending(list);
    lemma_run_applies_exactly_pending(list, ok, v);
    let r1 = spec_run(list, ok, v, 0).0;
    if list.len() > 0 {
        assert(list[list.len() - 1].version == list.len());
    }
    assert forall|j: int| 0 <= j < list.len() implies list[j].version <= r1 by {
        assert(list[j].version == j + 1);
        assert(list[list.len() - 1].version == list.len());
    };
    lemma_run_skips_all(list, ok2, r1, 0);
}

/// The watermark facts from any cursor onwards, by induction over the pass.
proof fn lemma_watermark_helper(list: Seq<Migration>, ok: Seq<bool>, recorded: u64, i: int)
    ensures
        spec_run(list, ok, recorded, i).0 == last_or(spec_run(list, ok, recorded, i).1, recorded),
        spec_run(list, ok, recorded, i).0 >= recorded,
        forall|m: int| 0 <= m < spec_run(list, ok, recorded, i).1.len()
            ==> #[trigger] spec_run(list, ok, recorded, i).1[m] > recorded,
        forall|m1: int, m2: int| 0 <= m1 < m2 < spec_run(list, ok, recorded, i).1.len()
            ==> spec_run(list, ok, recorded, i).1[m1] < spec_run(list, ok, recorded, i).1[m2],
    decreases list.len() - i,
{
    if i < 0 || i >= list.len() {
    } else if list[i].version <= recorded {
        lemma_watermark_helper(list, ok, recorded, i + 1);
    } else if ok[i] {
        let v = list[i].version;
        lemma_watermark_helper(list, ok, v, i + 1);
        let rest = spec_run(list, ok, v, i + 1);
        let whole = seq![v] + rest.1;
        assert(whole[0] == v);
        assert forall|m: int| 0 < m < whole.len() implies whole[m] == rest.1[m - 1] by {};
        if rest.1.len() > 0 {
            assert(whole[whole.len() - 1] == rest.1[rest.1.len() - 1]);
        }
    }
}

/// Law: whatever each script's outcome, a run never applies a version at or
/// below the starting watermark, applies versions in strictly ascending
/// order, and leaves the watermark exactly at the last applied version —
/// in particular it never moves backwards.
pub proof fn lemma_watermark_is_last_applied(list: Seq<Migration>, ok: Seq<bool>, recorded: u64)
    ensures
        spec_run(list, ok, recorded, 0).0 == last_or(spec_run(list, ok, recorded, 0).1, recorded),
        spec_run(list, ok, recorded, 0).0 >= recorded,
        forall|m: int| 0 <= m < spec_run(list, ok, recorded, 0).1.len()
            ==> #[trigger] spec_run(list, ok, recorded, 0).1[m] > recorded,
        forall|m1: int, m2: int| 0 <= m1 < m2 < spec_run(list, ok, recorded, 0).1.len()
            ==> spec_run(list, ok, recorded, 0).1[m1] < spec_run(list, ok, recorded, 0).1[m2],
{
    lemma_watermark_helper(list, ok, recorded, 0);
}

/// The run up to a failing entry: every pending script before it is
/// applied, the failure is reported, and the watermark stays at the last
/// success before it.
proof fn lemma_run_fails_helper(list: Seq<Migration>, ok: Seq<bool>, r: u64, i: int, k: int)
    requires
        wf_migration_list(list),
        0 <= i <= k < list.len(),
        r as int <= k,
        !ok[k],
        forall|j: int| i <= j < k ==> ok[j],
    ensures
        spec_run(list, ok, r, i).2 == Some(list[k].version),
        spec_run(list, ok, r, i).0 == ({
            let lo = if i >= r as int { i } else { r as int };
            if lo < k {
                k as u64
            } else {
                r
            }
        }),
        spec_run(list, ok, r, i).1 == ({
            let lo = if i >= r as int { i } else { r as int };
            if lo < k {
                Seq::new((k - lo) as nat, |m: int| (lo + 1 + m) as u64)
            } else {
                Seq::<u64>::empty()
            }
        }),
    decreases list.len() - i,
{
    assert(list[i].version == i + 1);
    assert(list[k].version == k + 1);
    if i == k {
    } else if list[i].version <= r {
        lemma_run_fails_helper(list, ok, r, i + 1, k);
    } else {
        let v = list[i].version;
        lemma_run_fails_helper(list, ok, v, i + 1, k);
        let rest = spec_run(list, ok, v, i + 1);
        assert(seq![v] + rest.1 =~= Seq::new((k - i) as nat, |m: int| (i + 1 + m) as u64));
    }
}

/// Law: when the script of a pending migration fails and everything before
/// it succeeds, the run reports that version as the failure and leaves the
/// recorded version strictly below it — at the last successfully applied
/// version, or untouched if the failing script was the first pending one.
pub proof fn lemma_failure_keeps_watermark(list: Seq<Migration>, ok: Seq<bool>, v: u64, k: int)
    requires
        wf_migration_list(list),
        0 <= k < list.len(),
        v < list[k].version,
        !ok[k],
        forall|j: int| 0 <= j < k ==> ok[j],
    ensures
        spec_run(list, ok, v, 0).2 == Some(list[k].version),
        spec_run(list, ok, v, 0).0 < list[k].version,
        spec_run(list, ok, v, 0).0 == (if (v as int) < k {
            k as u64
        } else {
            v
        }),
{
    assert(list[k].version == k + 1);
    lemma_run_fails_helper(list, ok, v, 0, k);
}

} // verus!
