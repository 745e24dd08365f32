//! Rust-based hooks that run alongside SQL migrations.
use vstd::prelude::*;

verus! {

/// Work that must happen before a given SQL migration.
#[derive(Debug, PartialEq, Eq, Structural, Clone, Copy)]
pub enum MigrationHook {
    /// Give every user without an ActivityPub user a fresh local one.
    GenerateMissingApUsers,
    /// Give every bookmark without an ActivityPub id its local id.
    GenerateBookmarkApIds,
}

pub const GENERATE_MISSING_AP_USERS_AFTER: i64 = 20251014160454;

pub const GENERATE_BOOKMARK_AP_IDS_AFTER: i64 = 20251105102754;

/// The hook to run after the migration with version `previous_version`.
pub fn run_before(previous_version: i64) -> (r: Option<MigrationHook>)
    ensures
        r == (if previous_version == GENERATE_MISSING_AP_USERS_AFTER {
            Some(MigrationHook::GenerateMissingApUsers)
        } else if previous_version == GENERATE_BOOKMARK_AP_IDS_AFTER {
            Some(MigrationHook::GenerateBookmarkApIds)
        } else {
            None
        }),
{
    if previous_version == GENERATE_MISSING_AP_USERS_AFTER {
        Some(MigrationHook::GenerateMissingApUsers)
    } else if previous_version == GENERATE_BOOKMARK_AP_IDS_AFTER {
        Some(MigrationHook::GenerateBookmarkApIds)
    } else {
        None
    }
}

} // verus!
