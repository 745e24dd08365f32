//! The first set of Rust-based migrations, interleaved with SQL migrations.
use crate::db::migration_hooks::{MigrationHook, GENERATE_MISSING_AP_USERS_AFTER};
use vstd::prelude::*;

verus! {

/// The hook to run after the migration with version `previous_version`.
pub fn run_before(previous_version: i64) -> (r: Option<MigrationHook>)
    ensures
        r == (if previous_version == GENERATE_MISSING_AP_USERS_AFTER {
            Some(MigrationHook::GenerateMissingApUsers)
        } else {
            None
        }),
{
    if previous_version == GENERATE_MISSING_AP_USERS_AFTER {
        Some(MigrationHook::GenerateMissingApUsers)
    } else {
        None
    }
}

} // verus!
