//! Checks that run before database migrations are applied.
use vstd::prelude::*;

verus! {

/// A migration known to the application.
#[derive(Debug)]
pub struct Migration {
    pub version: i64,
    pub checksum: Vec<u8>,
    pub is_down: bool,
}

/// A migration recorded as applied in the database.
#[derive(Debug)]
pub struct AppliedMigration {
    pub version: i64,
    pub checksum: Vec<u8>,
}

/// The application's migrations and how to run them.
#[derive(Debug)]
pub struct Migrator {
    pub migrations: Vec<Migration>,
    pub ignore_missing: bool,
    pub locking: bool,
}

#[derive(Debug, PartialEq, Eq, Structural, Clone, Copy)]
pub enum MigrateError {
    /// An applied migration is not known to the application.
    VersionMissing(i64),
    /// An applied migration's checksum differs from the known one.
    VersionMismatch(i64),
    /// A migration was left partially applied.
    Dirty(i64),
}

pub open spec fn known_versions(m: Seq<Migration>) -> Seq<i64> {
    m.map_values(|x: Migration| x.version)
}

/// Index of the first applied migration whose version is not in `versions`.
pub open spec fn first_missing(versions: Seq<i64>, applied: Seq<AppliedMigration>, i: int) -> bool {
    &&& 0 <= i < applied.len()
    &&& !versions.contains(applied[i].version)
    &&& forall|k: int| 0 <= k < i ==> versions.contains(#[trigger] applied[k].version)
}

/// Fails with the version of the first applied migration that is not among
/// `applied_versions`, unless the migrator ignores missing migrations.
pub fn check_for_missing_applied_migrations(
    applied_versions: &Vec<i64>,
    applied_migrations: &Vec<AppliedMigration>,
    migrator: &Migrator,
) -> (r: Result<(), MigrateError>)
    ensures
        migrator.ignore_missing ==> r is Ok,
        !migrator.ignore_missing ==> {
            &&& r is Ok <==> forall|k: int|
                0 <= k < applied_migrations@.len() ==> applied_versions@.contains(
                    #[trigger] applied_migrations@[k].version,
                )
            &&& r is Err ==> exists|i: int|
                first_missing(applied_versions@, applied_migrations@, i) && r == Err::<
                    (),
                    MigrateError,
                >(MigrateError::VersionMissing(applied_migrations@[i].version))
        },
{
    if migrator.ignore_missing {
        return Ok(());
    }
    let mut i: usize = 0;
    while i < applied_migrations.len()
        invariant
            !migrator.ignore_missing,
            i <= applied_migrations@.len(),
            forall|k: int| 0 <= k < i ==> applied_versions@.contains(
                #[trigger] applied_migrations@[k].version,
            ),
        decreases applied_migrations@.len() - i,
    {
        let v = applied_migrations[i].version;
        if !contains_version(applied_versions, v) {
            assert(first_missing(applied_versions@, applied_migrations@, i as int));
            return Err(MigrateError::VersionMissing(v));
        }
        i = i + 1;
    }
    Ok(())
}

pub fn contains_version(versions: &Vec<i64>, v: i64) -> (r: bool)
    ensures
        r == versions@.contains(v),
{
    let mut i: usize = 0;
    while i < versions.len()
        invariant
            i <= versions@.len(),
            forall|k: int| 0 <= k < i ==> versions@[k] != v,
        decreases versions@.len() - i,
    {
        if versions[i] == v {
            assert(versions@[i as int] == v);
            return true;
        }
        i = i + 1;
    }
    false
}

pub fn bytes_eq(a: &Vec<u8>, b: &Vec<u8>) -> (r: bool)
    ensures
        r == (a@ == b@),
{
    if a.len() != b.len() {
        return false;
    }
    let mut i: usize = 0;
    while i < a.len()
        invariant
            i <= a@.len(),
            a@.len() == b@.len(),
            forall|k: int| 0 <= k < i ==> a@[k] == b@[k],
        decreases a@.len() - i,
    {
        if a[i] != b[i] {
            return false;
        }
        i = i + 1;
    }
    assert(a@ =~= b@);
    true
}

/// The applied migrations are looked up by version; where a version was
/// recorded more than once, the last record counts.
pub open spec fn last_applied_with(applied: Seq<AppliedMigration>, v: i64, i: int) -> bool {
    &&& 0 <= i < applied.len()
    &&& applied[i].version == v
    &&& forall|k: int| i < k < applied.len() ==> #[trigger] applied[k].version != v
}

/// Migration `j` is an up migration whose recorded checksum differs.
pub open spec fn mismatched(m: Seq<Migration>, applied: Seq<AppliedMigration>, j: int) -> bool {
    &&& !m[j].is_down
    &&& exists|i: int|
        last_applied_with(applied, m[j].version, i) && applied[i].checksum@ != m[j].checksum@
}

/// Index of the last applied record with version `v`, if any.
fn find_last_applied(applied: &Vec<AppliedMigration>, v: i64) -> (r: Option<usize>)
    ensures
        r matches Some(i) ==> last_applied_with(applied@, v, i as int),
        r is None ==> forall|k: int| 0 <= k < applied@.len() ==> #[trigger] applied@[k].version
            != v,
{
    let mut i: usize = applied.len();
    while i > 0
        invariant
            i <= applied@.len(),
            forall|k: int| i <= k < applied@.len() ==> #[trigger] applied@[k].version != v,
        decreases i,
    {
        i = i - 1;
        if applied[i].version == v {
            return Some(i);
        }
    }
    None
}

proof fn lemma_last_applied_unique(applied: Seq<AppliedMigration>, v: i64, i: int, j: int)
    requires
        last_applied_with(applied, v, i),
        last_applied_with(applied, v, j),
    ensures
        i == j,
{
    if i < j {
        assert(applied[j].version != v);
    } else if j < i {
        assert(applied[i].version != v);
    }
}

/// Fails with the version of the first up migration whose checksum differs
/// from the one recorded when it was applied.
pub fn check_for_checksum_mismatches(
    applied_migrations: &Vec<AppliedMigration>,
    migrator: &Migrator,
) -> (r: Result<(), MigrateError>)
    ensures
        r is Ok <==> forall|j: int|
            0 <= j < migrator.migrations@.len() ==> !#[trigger] mismatched(
                migrator.migrations@,
                applied_migrations@,
                j,
            ),
        r is Err ==> exists|j: int|
            0 <= j < migrator.migrations@.len() && mismatched(
                migrator.migrations@,
                applied_migrations@,
                j,
            ) && (forall|k: int|
                0 <= k < j ==> !#[trigger] mismatched(
                    migrator.migrations@,
                    applied_migrations@,
                    k,
                )) && r == Err::<(), MigrateError>(
                MigrateError::VersionMismatch(migrator.migrations@[j].version),
            ),
{
    let ms = &migrator.migrations;
    let mut j: usize = 0;
    while j < ms.len()
        invariant
            j <= ms@.len(),
            ms == &migrator.migrations,
            forall|k: int| 0 <= k < j ==> !#[trigger] mismatched(ms@, applied_migrations@, k),
        decreases ms@.len() - j,
    {
        let migration = &ms[j];
        if !migration.is_down {
            match find_last_applied(applied_migrations, migration.version) {
                Some(i) => {
                    if !bytes_eq(&migration.checksum, &applied_migrations[i].checksum) {
                        assert(mismatched(ms@, applied_migrations@, j as int));
                        return Err(MigrateError::VersionMismatch(migration.version));
                    }
                    assert forall|i2: int|
                        last_applied_with(
                            applied_migrations@,
                            ms@[j as int].version,
                            i2,
                        ) implies applied_migrations@[i2].checksum@ == ms@[j as int].checksum@ by {
                        lemma_last_applied_unique(
                            applied_migrations@,
                            ms@[j as int].version,
                            i as int,
                            i2,
                        );
                    }
                },
                None => {},
            }
        }
        j = j + 1;
    }
    Ok(())
}

/// Versions of all migrations that the migrator knows.
pub fn migrator_versions(migrator: &Migrator) -> (r: Vec<i64>)
    ensures
        r@ == known_versions(migrator.migrations@),
{
    let mut r: Vec<i64> = Vec::new();
    let mut i: usize = 0;
    while i < migrator.migrations.len()
        invariant
            i <= migrator.migrations@.len(),
            r@ == known_versions(migrator.migrations@.take(i as int)),
        decreases migrator.migrations@.len() - i,
    {
        r.push(migrator.migrations[i].version);
        proof {
            assert(migrator.migrations@.take(i + 1) == migrator.migrations@.take(i as int).push(
                migrator.migrations@[i as int],
            ));
        }
        i = i + 1;
    }
    assert(migrator.migrations@.take(i as int) == migrator.migrations@);
    r
}

/// Versions recorded as applied, in the order of the records.
pub open spec fn applied_versions(applied: Seq<AppliedMigration>) -> Seq<i64> {
    applied.map_values(|a: AppliedMigration| a.version)
}

/// Migration `j` is selected to run: an up migration whose version is not
/// among `versions`.
pub open spec fn selected(m: Seq<Migration>, versions: Seq<i64>, j: int) -> bool {
    !versions.contains(m[j].version) && !m[j].is_down
}

/// `plan` lists, in ascending order, exactly the indices of the up
/// migrations of `m` whose versions are not among `versions`.
pub open spec fn is_plan(plan: Seq<usize>, m: Seq<Migration>, versions: Seq<i64>) -> bool {
    &&& forall|k: int|
        0 <= k < plan.len() ==> #[trigger] plan[k] < m.len() && selected(m, versions, plan[k] as int)
    &&& forall|k1: int, k2: int| 0 <= k1 < k2 < plan.len() ==> #[trigger] plan[k1] < #[trigger] plan[k2]
    &&& forall|j: int| 0 <= j < m.len() && #[trigger] selected(m, versions, j) ==> plan.contains(j as usize)
}

/// `j` is the first up migration whose recorded checksum differs.
pub open spec fn first_mismatched(m: Seq<Migration>, applied: Seq<AppliedMigration>, j: int) -> bool {
    &&& 0 <= j < m.len()
    &&& mismatched(m, applied, j)
    &&& forall|k: int| 0 <= k < j ==> !#[trigger] mismatched(m, applied, k)
}

/// Every applied version is known to the migrator (or missing ones are
/// ignored).
pub open spec fn none_missing(migrator: Migrator, applied: Seq<AppliedMigration>) -> bool {
    migrator.ignore_missing || forall|k: int|
        0 <= k < applied.len() ==> known_versions(migrator.migrations@).contains(
            #[trigger] applied[k].version,
        )
}

/// No up migration's checksum differs from its record.
pub open spec fn none_mismatched(m: Seq<Migration>, applied: Seq<AppliedMigration>) -> bool {
    forall|j: int| 0 <= j < m.len() ==> !#[trigger] mismatched(m, applied, j)
}

/// Decides which migrations to apply, in the migrator's order (as indices).
/// `dirty_version` is a partially applied migration reported by the
/// database, which stops everything. Otherwise an applied migration unknown
/// to the migrator (unless those are ignored) and then a changed checksum are
/// reported; when neither occurs, the plan holds every up migration that has
/// not been applied yet.
pub fn plan_migrations(
    migrator: &Migrator,
    dirty_version: Option<i64>,
    applied_migrations: &Vec<AppliedMigration>,
) -> (r: Result<Vec<usize>, MigrateError>)
    ensures
        dirty_version matches Some(v) ==> r == Err::<Vec<usize>, MigrateError>(
            MigrateError::Dirty(v),
        ),
        dirty_version is None ==> {
            &&& r is Ok <==> (none_missing(*migrator, applied_migrations@) && none_mismatched(
                migrator.migrations@,
                applied_migrations@,
            ))
            &&& !none_missing(*migrator, applied_migrations@) ==> exists|i: int|
                first_missing(known_versions(migrator.migrations@), applied_migrations@, i) && r
                    == Err::<Vec<usize>, MigrateError>(
                    MigrateError::VersionMissing(applied_migrations@[i].version),
                )
            &&& none_missing(*migrator, applied_migrations@) && !none_mismatched(
                migrator.migrations@,
                applied_migrations@,
            ) ==> exists|j: int|
                first_mismatched(migrator.migrations@, applied_migrations@, j) && r == Err::<
                    Vec<usize>,
                    MigrateError,
                >(MigrateError::VersionMismatch(migrator.migrations@[j].version))
            &&& r matches Ok(plan) ==> is_plan(
                plan@,
                migrator.migrations@,
                applied_versions(applied_migrations@),
            )
        },
{
    if let Some(version) = dirty_version {
        return Err(MigrateError::Dirty(version));
    }
    let known = migrator_versions(migrator);
    if let Err(e) = check_for_missing_applied_migrations(&known, applied_migrations, migrator) {
        return Err(e);
    }
    let checked = check_for_checksum_mismatches(applied_migrations, migrator);
    if let Err(e) = checked {
        proof {
            let j = choose|j: int|
                0 <= j < migrator.migrations@.len() && mismatched(
                    migrator.migrations@,
                    applied_migrations@,
                    j,
                ) && (forall|k: int|
                    0 <= k < j ==> !#[trigger] mismatched(
                        migrator.migrations@,
                        applied_migrations@,
                        k,
                    )) && checked == Err::<(), MigrateError>(
                    MigrateError::VersionMismatch(migrator.migrations@[j].version),
                );
            assert(first_mismatched(migrator.migrations@, applied_migrations@, j));
            assert(!none_mismatched(migrator.migrations@, applied_migrations@));
        }
        return Err(e);
    }
    let ghost m = migrator.migrations@;
    let ghost av = applied_versions(applied_migrations@);
    let mut plan: Vec<usize> = Vec::new();
    let mut j: usize = 0;
    while j < migrator.migrations.len()
        invariant
            j <= m.len(),
            m == migrator.migrations@,
            av == applied_versions(applied_migrations@),
            forall|k: int|
                0 <= k < plan@.len() ==> #[trigger] plan@[k] < j && selected(m, av, plan@[k] as int),
            forall|k1: int, k2: int|
                0 <= k1 < k2 < plan@.len() ==> #[trigger] plan@[k1] < #[trigger] plan@[k2],
            forall|i: int| 0 <= i < j && #[trigger] selected(m, av, i) ==> plan@.contains(i as usize),
        decreases m.len() - j,
    {
        let mig = &migrator.migrations[j];
        let ghost prev = plan@;
        let applied = find_last_applied(applied_migrations, mig.version);
        proof {
            match applied {
                Some(i) => {
                    assert(av[i as int] == mig.version);
                    assert(av.contains(mig.version));
                },
                None => {
                    assert(!av.contains(mig.version)) by {
                        if av.contains(mig.version) {
                            let i = choose|i: int| 0 <= i < av.len() && av[i] == mig.version;
                            assert(applied_migrations@[i].version == mig.version);
                        }
                    }
                },
            }
        }
        if applied.is_none() && !mig.is_down {
            plan.push(j);
            proof {
                assert(plan@[prev.len() as int] == j);
                assert forall|i: int|
                    0 <= i < j + 1 && #[trigger] selected(m, av, i) implies plan@.contains(
                    i as usize,
                ) by {
                    if i < j {
                        let k = choose|k: int| 0 <= k < prev.len() && prev[k] == i as usize;
                        assert(plan@[k] == i as usize);
                    } else {
                        assert(plan@[prev.len() as int] == i as usize);
                    }
                }
            }
        } else {
            proof {
                assert(!selected(m, av, j as int));
            }
        }
        j = j + 1;
    }
    Ok(plan)
}

} // verus!
