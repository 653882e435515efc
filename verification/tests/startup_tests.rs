//! Scenario tests for the startup library: the bootstrapper, the path
//! arithmetic, the migration list, and the migration runner's behaviour on
//! fresh, half-migrated, up-to-date and failing databases.

use act_bootstrap::bootstrap::ensure_dir_model;
use act_bootstrap::migration::migration_list;
use act_bootstrap::paths::{app_dir_path, db_file_path, db_url};
use act_bootstrap::runner::{apply_step, next_pending, run_model};
use act_bootstrap::startup::{startup_model, StartupState};
use act_bootstrap::{DirAction, Migration, MigrationKind, StartupError};

fn two_migrations() -> Vec<Migration> {
    migration_list(
        "CREATE TABLE tasks (id INTEGER PRIMARY KEY, title TEXT NOT NULL);".to_string(),
        "ALTER TABLE tasks ADD COLUMN sort_order INTEGER NOT NULL DEFAULT 0;".to_string(),
    )
}

#[test]
fn bootstrap_creates_missing_directory() {
    assert_eq!(
        act_bootstrap::bootstrap::bootstrap_action(false),
        DirAction::Create
    );
    assert_eq!(ensure_dir_model(false, true), Ok(true));
}

#[test]
fn bootstrap_failure_is_filesystem_error() {
    assert_eq!(ensure_dir_model(false, false), Err(StartupError::Filesystem));
}

#[test]
fn bootstrap_twice_is_idempotent() {
    // First run: the directory is missing and gets created.
    let after_first = ensure_dir_model(false, true).unwrap();
    assert!(after_first);
    // Second run: the directory is observed, nothing is mutated — it
    // succeeds even if the filesystem would refuse a creation attempt.
    assert_eq!(
        act_bootstrap::bootstrap::bootstrap_action(after_first),
        DirAction::AlreadyPresent
    );
    assert_eq!(ensure_dir_model(after_first, false), Ok(true));
}

#[test]
fn paths_are_fixed_children_of_home() {
    assert_eq!(app_dir_path("/home/u"), "/home/u/.act");
    assert_eq!(db_file_path("/home/u"), "/home/u/.act/act.db");
    assert_eq!(db_url("/home/u"), "sqlite:/home/u/.act/act.db");
}

#[test]
fn migration_list_is_two_ascending_upgrades() {
    let list = two_migrations();
    assert_eq!(list.len(), 2);
    assert_eq!(list[0].version, 1);
    assert_eq!(list[0].description, "create_tasks_table");
    assert_eq!(list[0].kind, MigrationKind::Up);
    assert!(list[0].sql.contains("CREATE TABLE"));
    assert_eq!(list[1].version, 2);
    assert_eq!(list[1].description, "add_order_column");
    assert_eq!(list[1].kind, MigrationKind::Up);
    assert!(list[1].sql.contains("ADD COLUMN"));
}

#[test]
fn fresh_database_gets_every_migration_in_order() {
    let list = two_migrations();
    let report = run_model(&list, 0, &vec![true, true]);
    assert_eq!(report.recorded, 2);
    assert_eq!(report.applied, vec![1, 2]);
    assert_eq!(report.failed, None);
}

#[test]
fn database_at_version_one_gets_only_version_two() {
    let list = two_migrations();
    let report = run_model(&list, 1, &vec![true, true]);
    assert_eq!(report.recorded, 2);
    assert_eq!(report.applied, vec![2]);
    assert_eq!(report.failed, None);
}

#[test]
fn up_to_date_database_is_untouched() {
    let list = two_migrations();
    let report = run_model(&list, 2, &vec![true, true]);
    assert_eq!(report.recorded, 2);
    assert_eq!(report.applied, Vec::<u64>::new());
    assert_eq!(report.failed, None);
    // Zero scripts run, so even scripts that would fail change nothing.
    let report = run_model(&list, 2, &vec![false, false]);
    assert_eq!(report.recorded, 2);
    assert_eq!(report.applied, Vec::<u64>::new());
    assert_eq!(report.failed, None);
}

#[test]
fn failing_second_script_keeps_watermark_at_one() {
    let list = two_migrations();
    let report = run_model(&list, 1, &vec![true, false]);
    assert_eq!(report.recorded, 1);
    assert_eq!(report.applied, Vec::<u64>::new());
    assert_eq!(report.failed, Some(2));
}

#[test]
fn failing_second_script_on_fresh_database_stops_after_one() {
    let list = two_migrations();
    let report = run_model(&list, 0, &vec![true, false]);
    assert_eq!(report.recorded, 1);
    assert_eq!(report.applied, vec![1]);
    assert_eq!(report.failed, Some(2));
}

#[test]
fn next_pending_walks_the_list_in_order() {
    let list = two_migrations();
    assert_eq!(next_pending(&list, 0), Some(0));
    assert_eq!(next_pending(&list, 1), Some(1));
    assert_eq!(next_pending(&list, 2), None);
    assert_eq!(next_pending(&list, 7), None);
}

#[test]
fn apply_step_advances_or_reports_the_version() {
    assert_eq!(apply_step(1, 2, true), Ok(2));
    assert_eq!(apply_step(1, 2, false), Err(StartupError::MigrationFailed(2)));
}

#[test]
fn startup_from_nothing_reaches_version_two() {
    // No application directory, no database file.
    let start = StartupState { dir_exists: false, db_exists: false, recorded: 0 };
    let list = two_migrations();
    let report = startup_model(start, true, &list, &vec![true, true]);
    assert!(report.state.dir_exists);
    assert!(report.state.db_exists);
    assert_eq!(report.state.recorded, 2);
    assert_eq!(report.applied, vec![1, 2]);
    assert_eq!(report.error, None);
}

#[test]
fn startup_stops_before_database_when_directory_fails() {
    let start = StartupState { dir_exists: false, db_exists: false, recorded: 0 };
    let list = two_migrations();
    let report = startup_model(start, false, &list, &vec![true, true]);
    assert_eq!(report.state, start);
    assert_eq!(report.applied, Vec::<u64>::new());
    assert_eq!(report.error, Some(StartupError::Filesystem));
}

#[test]
fn startup_failure_surfaces_the_failing_version() {
    let start = StartupState { dir_exists: true, db_exists: true, recorded: 1 };
    let list = two_migrations();
    let report = startup_model(start, true, &list, &vec![true, false]);
    assert_eq!(report.state.recorded, 1);
    assert_eq!(report.error, Some(StartupError::MigrationFailed(2)));
}

#[test]
fn error_messages_name_the_failure() {
    assert_eq!(
        StartupError::Configuration.message(),
        "failed to get home directory"
    );
    assert_eq!(
        StartupError::Filesystem.message(),
        "failed to create the application directory"
    );
    assert_eq!(
        StartupError::MigrationFailed(2).message(),
        "failed to apply a schema migration"
    );
}

#[test]
fn resolved_home_is_never_empty() {
    match act_bootstrap::home::resolve_home() {
        Ok(home) => assert!(!home.is_empty()),
        Err(e) => assert_eq!(e, StartupError::Configuration),
    }
}
