//! The migration record and the well-formedness of a migration list.

use vstd::prelude::*;

verus! {

/// Direction of a schema change. Only upgrades are ever assembled here;
/// the downgrade variant is recognised but unused.
#[derive(Clone, Copy, Debug, PartialEq, Eq, Structural)]
pub enum MigrationKind {
    Up,
    Down,
}

/// One versioned, one-way schema change: a script that brings the database
/// from structural version `version - 1` to structural version `version`.
#[derive(Debug)]
pub struct Migration {
    pub version: u64,
    pub description: String,
    pub sql: String,
    pub kind: MigrationKind,
}

/// Versions in the list are strictly increasing: each migration's version is
/// larger than every earlier one's.
pub open spec fn versions_ascending(list: Seq<Migration>) -> bool {
    forall|i: int, j: int|
        0 <= i < j < list.len() ==> list[i].version < list[j].version
}

/// The full invariant of an assembled migration list: versions start at 1
/// and rise without gaps, and every entry is an upgrade.
pub open spec fn wf_migration_list(list: Seq<Migration>) -> bool {
    &&& forall|i: int| 0 <= i < list.len() ==> #[trigger] list[i].version == i + 1
    &&& forall|i: int| 0 <= i < list.len() ==> #[trigger] list[i].kind == MigrationKind::Up
}

/// A gapless list that starts at 1 is in particular strictly ascending.
pub proof fn lemma_wf_list_ascending(list: Seq<Migration>)
    requires
        wf_migration_list(list),
    ensures
        versions_ascending(list),
{
}

/// Assemble the application's migration list: version 1 creates the tasks
/// table from the first script, version 2 adds the ordering column with the
/// second. The scripts themselves are external text assets handed in by the
/// caller; everything else about the two records is pinned here.
pub fn migration_list(initial_sql: String, add_order_sql: String) -> (r: Vec<Migration>)
    ensures
        wf_migration_list(r@),
        r@.len() == 2,
        r@[0].version == 1,
        r@[0].description@ == "create_tasks_table"@,
        r@[0].sql == initial_sql,
        r@[0].kind == MigrationKind::Up,
        r@[1].version == 2,
        r@[1].description@ == "add_order_column"@,
        r@[1].sql == add_order_sql,
        r@[1].kind == MigrationKind::Up,
{
    let mut list: Vec<Migration> = Vec::new();
    list.push(Migration {
        version: 1,
        description: "create_tasks_table".to_owned(),
        sql: initial_sql,
        kind: MigrationKind::Up,
    });
    list.push(Migration {
        version: 2,
        description: "add_order_column".to_owned(),
        sql: add_order_sql,
        kind: MigrationKind::Up,
    });
    list
}

} // verus!
