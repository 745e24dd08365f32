use linkblocks::db::migration_hooks::{self, MigrationHook};
use linkblocks::db::migrations;
use linkblocks::db::run_migrations::{
    bytes_eq, check_for_checksum_mismatches, check_for_missing_applied_migrations,
    contains_version, migrator_versions, plan_migrations, AppliedMigration, MigrateError, Migration,
    Migrator,
};

fn m(version: i64, checksum: u8, is_down: bool) -> Migration {
    Migration { version, checksum: vec![checksum], is_down }
}

fn a(version: i64, checksum: u8) -> AppliedMigration {
    AppliedMigration { version, checksum: vec![checksum] }
}

fn migrator(ignore_missing: bool) -> Migrator {
    Migrator { migrations: vec![m(1, 10, false), m(2, 20, false), m(2, 99, true)], ignore_missing, locking: true }
}

#[test]
fn missing_applied_migrations_are_reported() {
    let mig = migrator(false);
    let versions = migrator_versions(&mig);
    assert_eq!(versions, vec![1, 2, 2]);
    assert_eq!(
        check_for_missing_applied_migrations(&versions, &vec![a(1, 10), a(7, 0), a(8, 0)], &mig),
        Err(MigrateError::VersionMissing(7))
    );
    assert_eq!(check_for_missing_applied_migrations(&versions, &vec![a(1, 10)], &mig), Ok(()));
    let ignoring = migrator(true);
    assert_eq!(check_for_missing_applied_migrations(&versions, &vec![a(7, 0)], &ignoring), Ok(()));
}

#[test]
fn checksum_mismatches_are_reported() {
    let mig = migrator(false);
    assert_eq!(check_for_checksum_mismatches(&vec![a(1, 10), a(2, 20)], &mig), Ok(()));
    assert_eq!(
        check_for_checksum_mismatches(&vec![a(1, 11), a(2, 21)], &mig),
        Err(MigrateError::VersionMismatch(1))
    );
    // The last record of a version counts.
    assert_eq!(check_for_checksum_mismatches(&vec![a(2, 21), a(2, 20)], &mig), Ok(()));
    assert_eq!(
        check_for_checksum_mismatches(&vec![a(2, 20), a(2, 21)], &mig),
        Err(MigrateError::VersionMismatch(2))
    );
}

#[test]
fn migration_plan() {
    let mig = migrator(false);
    assert_eq!(plan_migrations(&mig, Some(4), &vec![]), Err(MigrateError::Dirty(4)));
    // Pending up migrations are planned in order; down migrations never.
    assert_eq!(plan_migrations(&mig, None, &vec![a(1, 10)]), Ok(vec![1]));
    assert_eq!(plan_migrations(&mig, None, &vec![]), Ok(vec![0, 1]));
    assert_eq!(plan_migrations(&mig, None, &vec![a(1, 10), a(2, 20)]), Ok(vec![]));
    assert_eq!(plan_migrations(&migrator(true), None, &vec![a(5, 1)]), Ok(vec![0, 1]));
    assert_eq!(plan_migrations(&mig, None, &vec![a(5, 1)]), Err(MigrateError::VersionMissing(5)));
    assert_eq!(plan_migrations(&mig, None, &vec![a(1, 3)]), Err(MigrateError::VersionMismatch(1)));
}

#[test]
fn small_collection_helpers() {
    assert!(contains_version(&vec![3, 4], 4));
    assert!(!contains_version(&vec![3, 4], 5));
    assert!(bytes_eq(&vec![1, 2], &vec![1, 2]));
    assert!(!bytes_eq(&vec![1, 2], &vec![1]));
    assert!(!bytes_eq(&vec![1, 2], &vec![1, 3]));
}

#[test]
fn migration_hooks_by_version() {
    assert_eq!(migration_hooks::run_before(2025_10_14_160454), Some(MigrationHook::GenerateMissingApUsers));
    assert_eq!(migration_hooks::run_before(2025_11_05_102754), Some(MigrationHook::GenerateBookmarkApIds));
    assert_eq!(migration_hooks::run_before(1), None);
    assert_eq!(migrations::run_before(2025_10_14_160454), Some(MigrationHook::GenerateMissingApUsers));
    assert_eq!(migrations::run_before(2025_11_05_102754), None);
}
