//! What [`migrate`] asks of the host, event by event.

use crate::migrations::{
    applied_versions, bootnode_migrations, create_table_statement, insert_version_statement,
    migrate, next_pending, select_versions_statement, Action, Event, Migration, MigrationView,
    Migrator, Phase,
};
use crate::text::signed_decimal;
use std::collections::HashSet;
use vstd::prelude::*;
use vstd::string::*;

verus! {

broadcast use vstd::std_specs::hash::group_hash_axioms;

/// A run begins with the migrations that it was made for, nothing read and nothing asked.
pub proof fn a_new_run_has_its_migrations(migrations: Vec<Migration>, run: Migrator)
    requires
        call_ensures(Migrator::new, (migrations,), run),
    ensures
        run@.migrations.len() == migrations@.len(),
        forall|i: int|
            0 <= i < migrations@.len() ==> (#[trigger] run@.migrations[i]).version
                == migrations@[i].version && run@.migrations[i].sql == migrations@[i].sql@,
        run@.applied == Set::<i32>::empty(),
        run@.phase == Phase::Idle,
        run@.wf(),
{
}

/// The bootnode has one migration: its script, as the first version.
pub proof fn the_bootnode_has_one_migration(sql: String, migrations: Vec<Migration>)
    requires
        call_ensures(bootnode_migrations, (sql,), migrations),
    ensures
        migrations@.len() == 1,
        migrations@[0].version == 1,
        migrations@[0].sql@ == sql@,
{
    let list = crate::migrations::migration_views(migrations@);
    assert(list.len() == 1);
    assert(list[0] == migrations@[0]@);
}

/// The versions that are collected are those of the rows, each of them and no other.
pub proof fn every_row_is_an_applied_version(rows: &Vec<i32>, versions: HashSet<i32>, version: i32)
    requires
        call_ensures(applied_versions, (rows,), versions),
    ensures
        versions@.contains(version) <==> exists|i: int|
            0 <= i < rows@.len() && #[trigger] rows@[i] == version,
{
    if rows@.contains(version) {
        let i = choose|i: int| 0 <= i < rows@.len() && rows@[i] == version;
        assert(rows@[i] == version);
    }
}

/// All statements are about the one table of applied versions.
pub proof fn all_statements_name_one_table(create: String, select: String, insert: String)
    requires
        call_ensures(create_table_statement, (), create),
        call_ensures(select_versions_statement, (), select),
        call_ensures(insert_version_statement, (), insert),
    ensures
        ({
            let table = "bootnode_schema_migrations"@;
            &&& create@ == "\nCREATE TABLE IF NOT EXISTS "@ + table
                + " (\n  version INTEGER PRIMARY KEY,\n  applied_at TIMESTAMPTZ NOT NULL DEFAULT now()\n);\n"@
            &&& select@ == "SELECT version FROM "@ + table
            &&& insert@ == "INSERT INTO "@ + table + " (version) VALUES ($1)"@
        }),
{
}

/// A run first makes sure that there is a table of applied versions, then reads it, with
/// the statements for that.
pub proof fn a_run_creates_the_table_and_reads_it(
    run: &mut Migrator,
    event: Event,
    asked: Action,
    create: String,
    select: String,
)
    requires
        call_ensures(migrate, (run, event), asked),
        call_ensures(create_table_statement, (), create),
        call_ensures(select_versions_statement, (), select),
    ensures
        old(run)@.phase == Phase::Idle && event is Start ==> {
            &&& asked matches Action::Execute { sql } && sql@ == create@
            &&& final(run)@.phase == Phase::Creating
        },
        old(run)@.phase == Phase::Creating && event is Done ==> {
            &&& asked matches Action::Query { sql } && sql@ == select@
            &&& final(run)@.phase == Phase::Reading
        },
        final(run)@.migrations == old(run)@.migrations,
        !(event is Versions) ==> final(run)@.applied == old(run)@.applied,
{
}

proof fn lemma_first_pending(migrations: Seq<MigrationView>, applied: Set<i32>, from: int)
    requires
        0 <= from <= migrations.len(),
    ensures
        ({
            let at = next_pending(migrations, applied, from);
            &&& from <= at <= migrations.len()
            &&& forall|k: int|
                from <= k < at ==> applied.contains((#[trigger] migrations[k]).version)
            &&& at < migrations.len() ==> !applied.contains(migrations[at].version)
        }),
    decreases migrations.len() - from,
{
    if from < migrations.len() && applied.contains(migrations[from].version) {
        lemma_first_pending(migrations, applied, from + 1);
    }
}

/// Whether a run has gone on, from migration `from`, as it must: to a transaction for the
/// first migration from there on that is not among the applied versions, or, where all are,
/// to its end.
pub open spec fn goes_on(run: Migrator, asked: Action, from: int) -> bool {
    match run@.phase {
        Phase::Opening(i) => {
            &&& asked is Begin
            &&& from <= i < run@.migrations.len()
            &&& !run@.applied.contains(run@.migrations[i as int].version)
            &&& forall|k: int|
                from <= k < i ==> run@.applied.contains((#[trigger] run@.migrations[k]).version)
        },
        Phase::Finished => {
            &&& asked is Finish
            &&& forall|k: int|
                from <= k < run@.migrations.len() ==> run@.applied.contains(
                    (#[trigger] run@.migrations[k]).version,
                )
        },
        _ => false,
    }
}

/// Once the versions are read, in whatever order and however often each, the run goes on to
/// the first migration whose version is not among them.
pub proof fn the_first_pending_migration_is_next(
    run: &mut Migrator,
    event: Event,
    asked: Action,
    rows: Vec<i32>,
)
    requires
        call_ensures(migrate, (run, event), asked),
        old(run)@.phase == Phase::Reading,
        event == Event::Versions(rows),
        old(run)@.migrations.len() <= usize::MAX,
    ensures
        forall|version: i32|
            #[trigger] final(run)@.applied.contains(version) <==> exists|i: int|
                0 <= i < rows@.len() && #[trigger] rows@[i] == version,
        goes_on(*final(run), asked, 0),
{
    lemma_first_pending(final(run)@.migrations, final(run)@.applied, 0);
    assert forall|version: i32|
        #[trigger] final(run)@.applied.contains(version) <==> exists|i: int|
            0 <= i < rows@.len() && #[trigger] rows@[i] == version by {
        if rows@.contains(version) {
            let i = choose|i: int| 0 <= i < rows@.len() && rows@[i] == version;
            assert(rows@[i] == version);
        }
    }
}

/// Once a migration is committed, the run goes on to the first one behind it that is not
/// among the versions that were read.
pub proof fn the_next_pending_migration_is_next(
    run: &mut Migrator,
    event: Event,
    asked: Action,
    i: usize,
)
    requires
        call_ensures(migrate, (run, event), asked),
        old(run)@.phase == Phase::Committing(i),
        old(run)@.wf(),
        event is Done,
        old(run)@.migrations.len() <= usize::MAX,
    ensures
        goes_on(*final(run), asked, i + 1),
{
    lemma_first_pending(final(run)@.migrations, final(run)@.applied, i + 1);
}

/// Within its transaction a migration's own script is run, then its own version recorded,
/// then the transaction committed.
pub proof fn a_migration_is_applied_recorded_and_committed(
    run: &mut Migrator,
    event: Event,
    asked: Action,
    i: usize,
    insert: String,
)
    requires
        call_ensures(migrate, (run, event), asked),
        call_ensures(insert_version_statement, (), insert),
        event is Done,
    ensures
        old(run)@.phase == Phase::Opening(i) ==> {
            &&& final(run)@.phase == Phase::Applying(i)
            &&& asked matches Action::Apply { version, sql } && version
                == old(run)@.migrations[i as int].version && sql@ == old(
                run,
            )@.migrations[i as int].sql
        },
        old(run)@.phase == Phase::Applying(i) ==> {
            &&& final(run)@.phase == Phase::Recording(i)
            &&& asked matches Action::Record { sql, version } && version
                == old(run)@.migrations[i as int].version && sql@ == insert@
        },
        old(run)@.phase == Phase::Recording(i) ==> {
            &&& final(run)@.phase == Phase::Committing(i)
            &&& asked matches Action::Commit { version } && version
                == old(run)@.migrations[i as int].version
        },
{
}

/// The first failure, and any event out of place, ends a run that has not finished. Of a
/// script that was to be run it says which version it was of; of anything else nothing.
pub proof fn a_run_that_fails_says_which_script(
    run: &mut Migrator,
    event: Event,
    asked: Action,
)
    requires
        call_ensures(migrate, (run, event), asked),
        match old(run)@.phase {
            Phase::Idle => !(event is Start),
            Phase::Reading => !(event is Versions),
            Phase::Finished => false,
            Phase::Failed => true,
            _ => !(event is Done),
        },
    ensures
        final(run)@.phase == Phase::Failed,
        asked matches Action::Fail { context } && match old(run)@.phase {
            Phase::Applying(i) => context matches Some(said) && said@
                == "failed applying schema migration "@ + signed_decimal(
                old(run)@.migrations[i as int].version as int,
            ),
            _ => context is None,
        },
{
}

/// A run that has finished stays finished.
pub proof fn a_finished_run_stays_finished(run: &mut Migrator, event: Event, asked: Action)
    requires
        call_ensures(migrate, (run, event), asked),
        old(run)@.phase == Phase::Finished,
    ensures
        asked is Finish,
        final(run)@ == old(run)@,
{
}

} // verus!
