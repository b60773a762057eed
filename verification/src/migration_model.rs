//! What runs of [`crate::migrations::migrate`] do to a database that performs
//! what is asked of it.

use crate::migrations::{
    after, apply_context, create_table, insert_version, next_pending, request, resume, select_versions,
    ActionView, EventView, MigrationView, MigratorView, Phase,
};
use vstd::prelude::*;

verus! {

/// What an open transaction has done so far.
pub ghost struct Transaction {
    pub versions: Set<i32>,
    pub scripts: Seq<Seq<char>>,
}

/// A database: whether it has the table of applied versions, the versions in it,
/// the scripts whose effects are in it, in order, and the open transaction.
pub ghost struct Database {
    pub table: bool,
    pub versions: Set<i32>,
    pub scripts: Seq<Seq<char>>,
    pub open: Option<Transaction>,
}

/// The database once its open transaction has been rolled back.
pub open spec fn rolled_back(db: Database) -> Database {
    Database { open: None, ..db }
}

/// The database after it has performed an action.
pub open spec fn performed(db: Database, action: ActionView) -> Database {
    match (action, db.open) {
        (ActionView::Execute { sql }, _) => Database {
            table: db.table || sql == create_table(),
            ..db
        },
        (ActionView::Begin, _) => Database {
            open: Some(Transaction { versions: Set::empty(), scripts: Seq::empty() }),
            ..db
        },
        (ActionView::Apply { version, sql }, Some(t)) => Database {
            open: Some(Transaction { scripts: t.scripts.push(sql), ..t }),
            ..db
        },
        (ActionView::Record { sql, version }, Some(t)) => Database {
            open: Some(Transaction { versions: t.versions.insert(version), ..t }),
            ..db
        },
        (ActionView::Commit { version }, Some(t)) => Database {
            versions: db.versions.union(t.versions),
            scripts: db.scripts + t.scripts,
            open: None,
            ..db
        },
        _ => db,
    }
}

/// Whether the database has what an action needs: the table, an open transaction
/// or none, and no row yet with the version that is to be recorded.
pub open spec fn can_perform(db: Database, action: ActionView) -> bool {
    match action {
        ActionView::Execute { sql } => sql == create_table() && db.open is None,
        ActionView::Query { sql } => sql == select_versions() && db.table && db.open is None,
        ActionView::Begin => db.open is None,
        ActionView::Apply { version, sql } => db.open is Some,
        ActionView::Record { sql, version } => {
            &&& sql == insert_version()
            &&& db.table
            &&& db.open is Some
            &&& !db.versions.contains(version)
            &&& !db.open->0.versions.contains(version)
        },
        ActionView::Commit { version } => db.open is Some,
        ActionView::Finish => db.open is None,
        ActionView::Fail { context } => false,
    }
}

/// What the host reports of an action that the database performed.
pub open spec fn reply(db: Database, action: ActionView) -> EventView {
    match action {
        ActionView::Query { sql } => EventView::Versions(db.versions),
        _ => EventView::Done,
    }
}

/// What a run asks in its present phase.
pub open spec fn asked(run: MigratorView) -> ActionView {
    request(run.phase, run)
}

/// A fresh run over `migrations`, started.
pub open spec fn started(migrations: Seq<MigrationView>) -> MigratorView {
    after(
        MigratorView { migrations, applied: Set::empty(), phase: Phase::Idle },
        EventView::Start,
    )
}

/// A run and its database after `n` actions that were performed and reported.
pub open spec fn exchanged(
    migrations: Seq<MigrationView>,
    db: Database,
    n: nat,
) -> (MigratorView, Database)
    decreases n,
{
    if n == 0 {
        (started(migrations), db)
    } else {
        let (run, now) = exchanged(migrations, db, (n - 1) as nat);
        (after(run, reply(now, asked(run))), performed(now, asked(run)))
    }
}

/// The migrations whose version is not among `applied`, in order.
pub open spec fn pending(
    migrations: Seq<MigrationView>,
    applied: Set<i32>,
) -> Seq<MigrationView>
    decreases migrations.len(),
{
    if migrations.len() == 0 {
        Seq::empty()
    } else {
        let front = pending(migrations.drop_last(), applied);
        if applied.contains(migrations.last().version) {
            front
        } else {
            front.push(migrations.last())
        }
    }
}

/// The versions of a list of migrations.
pub open spec fn versions_of(list: Seq<MigrationView>) -> Set<i32>
    decreases list.len(),
{
    if list.len() == 0 {
        Set::empty()
    } else {
        versions_of(list.drop_last()).insert(list.last().version)
    }
}

/// The scripts of a list of migrations, in order.
pub open spec fn scripts_of(list: Seq<MigrationView>) -> Seq<Seq<char>> {
    Seq::new(list.len(), |i: int| list[i].sql)
}

/// The database with each migration of `list` applied and recorded.
pub open spec fn migrated(db: Database, list: Seq<MigrationView>) -> Database {
    Database {
        table: true,
        versions: db.versions.union(versions_of(list)),
        scripts: db.scripts + scripts_of(list),
        open: None,
    }
}

/// Whether no two migrations have the same version.
pub open spec fn distinct(migrations: Seq<MigrationView>) -> bool {
    forall|i: int, j: int|
        0 <= i < j < migrations.len() ==> (#[trigger] migrations[i]).version != (
        #[trigger] migrations[j]).version
}

/// Whether a run that began on `start` stands where its database says.
spec fn in_step(
    migrations: Seq<MigrationView>,
    start: Database,
    run: MigratorView,
    db: Database,
) -> bool {
    &&& run.migrations == migrations
    &&& match run.phase {
        Phase::Creating => db == start,
        Phase::Reading => db == (Database { table: true, ..start }),
        Phase::Opening(i) => {
            &&& run.wf()
            &&& run.applied == start.versions
            &&& db == migrated(start, pending(migrations.take(i as int), start.versions))
        },
        Phase::Applying(i) => {
            &&& run.wf()
            &&& run.applied == start.versions
            &&& db == (Database {
                open: Some(Transaction { versions: Set::empty(), scripts: Seq::empty() }),
                ..migrated(start, pending(migrations.take(i as int), start.versions))
            })
        },
        Phase::Recording(i) => {
            &&& run.wf()
            &&& run.applied == start.versions
            &&& db == (Database {
                open: Some(
                    Transaction {
                        versions: Set::empty(),
                        scripts: seq![migrations[i as int].sql],
                    },
                ),
                ..migrated(start, pending(migrations.take(i as int), start.versions))
            })
        },
        Phase::Committing(i) => {
            &&& run.wf()
            &&& run.applied == start.versions
            &&& db == (Database {
                open: Some(
                    Transaction {
                        versions: Set::empty().insert(migrations[i as int].version),
                        scripts: seq![migrations[i as int].sql],
                    },
                ),
                ..migrated(start, pending(migrations.take(i as int), start.versions))
            })
        },
        Phase::Finished => {
            &&& run.applied == start.versions
            &&& db == migrated(start, pending(migrations, start.versions))
        },
        Phase::Idle | Phase::Failed => false,
    }
}

proof fn lemma_next_pending(migrations: Seq<MigrationView>, applied: Set<i32>, from: int)
    requires
        0 <= from <= migrations.len(),
    ensures
        from <= next_pending(migrations, applied, from) <= migrations.len(),
        pending(migrations.take(next_pending(migrations, applied, from)), applied) == pending(
            migrations.take(from),
            applied,
        ),
        next_pending(migrations, applied, from) < migrations.len() ==> !applied.contains(
            migrations[next_pending(migrations, applied, from)].version,
        ),
    decreases migrations.len() - from,
{
    if from < migrations.len() && applied.contains(migrations[from].version) {
        lemma_next_pending(migrations, applied, from + 1);
        assert(migrations.take(from + 1).drop_last() =~= migrations.take(from));
    }
}

proof fn lemma_pending_next(migrations: Seq<MigrationView>, applied: Set<i32>, i: int)
    requires
        0 <= i < migrations.len(),
        !applied.contains(migrations[i].version),
    ensures
        pending(migrations.take(i + 1), applied) == pending(migrations.take(i), applied).push(
            migrations[i],
        ),
{
    assert(migrations.take(i + 1).drop_last() =~= migrations.take(i));
}

proof fn lemma_migrated_next(db: Database, list: Seq<MigrationView>, next: MigrationView)
    ensures
        migrated(db, list.push(next)) == (Database {
            table: true,
            versions: migrated(db, list).versions.union(Set::empty().insert(next.version)),
            scripts: migrated(db, list).scripts + seq![next.sql],
            open: None,
        }),
{
    assert(list.push(next).drop_last() =~= list);
    assert(scripts_of(list.push(next)) =~= scripts_of(list).push(next.sql));
    assert(migrated(db, list.push(next)).scripts =~= migrated(db, list).scripts + seq![next.sql]);
    assert(migrated(db, list.push(next)).versions =~= migrated(db, list).versions.union(
        Set::empty().insert(next.version),
    ));
}

proof fn lemma_migrated_nothing(db: Database)
    ensures
        migrated(db, Seq::empty()) == (Database { table: true, open: None, ..db }),
{
    assert(migrated(db, Seq::empty()).scripts =~= db.scripts);
    assert(migrated(db, Seq::empty()).versions =~= db.versions);
}

proof fn lemma_resume(
    migrations: Seq<MigrationView>,
    start: Database,
    run: MigratorView,
    db: Database,
    from: int,
)
    requires
        0 <= from <= migrations.len() <= usize::MAX,
        run.migrations == migrations,
        run.applied == start.versions,
        run.phase == resume(migrations, start.versions, from),
        db == migrated(start, pending(migrations.take(from), start.versions)),
    ensures
        in_step(migrations, start, run, db),
{
    lemma_next_pending(migrations, start.versions, from);
    assert(migrations.take(migrations.len() as int) =~= migrations);
}

proof fn lemma_in_step(migrations: Seq<MigrationView>, start: Database, n: nat)
    requires
        migrations.len() <= usize::MAX,
        start.open is None,
    ensures
        in_step(
            migrations,
            start,
            exchanged(migrations, start, n).0,
            exchanged(migrations, start, n).1,
        ),
    decreases n,
{
    if n > 0 {
        lemma_in_step(migrations, start, (n - 1) as nat);
        let (run, db) = exchanged(migrations, start, (n - 1) as nat);
        let (next, now) = exchanged(migrations, start, n);
        match run.phase {
            Phase::Reading => {
                assert(migrations.take(0) =~= Seq::empty());
                lemma_migrated_nothing(start);
                lemma_resume(migrations, start, next, now, 0);
            },
            Phase::Applying(i) => {
                assert(now.open->0.scripts =~= seq![migrations[i as int].sql]);
            },
            Phase::Committing(i) => {
                let list = pending(migrations.take(i as int), start.versions);
                lemma_pending_next(migrations, start.versions, i as int);
                lemma_migrated_next(start, list, migrations[i as int]);
                lemma_resume(migrations, start, next, now, i + 1);
            },
            _ => {},
        }
    }
}

/// Whether a migration of a list has a version.
spec fn holds_version(migrations: Seq<MigrationView>, version: i32) -> bool {
    exists|i: int| 0 <= i < migrations.len() && (#[trigger] migrations[i]).version == version
}

proof fn lemma_holds_version_front(migrations: Seq<MigrationView>, version: i32)
    requires
        migrations.len() > 0,
        holds_version(migrations.drop_last(), version),
    ensures
        holds_version(migrations, version),
{
    let front = migrations.drop_last();
    let i = choose|i: int| 0 <= i < front.len() && (#[trigger] front[i]).version == version;
    assert(migrations[i].version == version);
}

proof fn lemma_versions_of(list: Seq<MigrationView>, version: i32)
    ensures
        versions_of(list).contains(version) <==> holds_version(list, version),
    decreases list.len(),
{
    if list.len() > 0 {
        let front = list.drop_last();
        lemma_versions_of(front, version);
        if holds_version(front, version) {
            lemma_holds_version_front(list, version);
        }
        if list.last().version == version {
            assert(list[list.len() - 1].version == version);
        }
        if holds_version(list, version) && list.last().version != version {
            let i = choose|i: int| 0 <= i < list.len() && (#[trigger] list[i]).version == version;
            assert(front[i].version == version);
        }
    }
}

proof fn lemma_pending_from(migrations: Seq<MigrationView>, applied: Set<i32>, version: i32)
    requires
        holds_version(pending(migrations, applied), version),
    ensures
        holds_version(migrations, version),
    decreases migrations.len(),
{
    if migrations.len() > 0 {
        let front = migrations.drop_last();
        let all = pending(migrations, applied);
        let some = pending(front, applied);
        let i = choose|i: int| 0 <= i < all.len() && (#[trigger] all[i]).version == version;
        if i < some.len() {
            assert(some[i] == all[i]);
            lemma_pending_from(front, applied, version);
            lemma_holds_version_front(migrations, version);
        } else {
            assert(migrations[migrations.len() - 1].version == version);
        }
    }
}

proof fn lemma_pending_prefix(migrations: Seq<MigrationView>, applied: Set<i32>, i: int)
    requires
        0 <= i <= migrations.len(),
    ensures
        pending(migrations.take(i), applied).len() <= pending(migrations, applied).len(),
        pending(migrations.take(i), applied) == pending(migrations, applied).take(
            pending(migrations.take(i), applied).len() as int,
        ),
    decreases migrations.len(),
{
    if i == migrations.len() {
        assert(migrations.take(i) =~= migrations);
        assert(pending(migrations, applied) =~= pending(migrations, applied).take(
            pending(migrations, applied).len() as int,
        ));
    } else {
        let front = migrations.drop_last();
        assert(front.take(i) =~= migrations.take(i));
        lemma_pending_prefix(front, applied, i);
        let count = pending(front.take(i), applied).len() as int;
        assert(pending(migrations, applied).take(count) =~= pending(front, applied).take(count));
    }
}

/// How many exchanges a run still needs.
spec fn exchanges_left(
    migrations: Seq<MigrationView>,
    applied: Set<i32>,
    phase: Phase,
) -> int {
    let all = pending(migrations, applied).len() as int;
    match phase {
        Phase::Creating => 2 + 4 * all,
        Phase::Reading => 1 + 4 * all,
        Phase::Opening(i) => 4 * (all - pending(migrations.take(i as int), applied).len()),
        Phase::Applying(i) => 4 * (all - pending(migrations.take(i as int), applied).len()) - 1,
        Phase::Recording(i) => 4 * (all - pending(migrations.take(i as int), applied).len()) - 2,
        Phase::Committing(i) => 4 * (all - pending(migrations.take(i as int), applied).len()) - 3,
        _ => 0,
    }
}

proof fn lemma_resume_left(migrations: Seq<MigrationView>, applied: Set<i32>, from: int)
    requires
        0 <= from <= migrations.len() <= usize::MAX,
    ensures
        exchanges_left(migrations, applied, resume(migrations, applied, from)) == 4 * (pending(
            migrations,
            applied,
        ).len() - pending(migrations.take(from), applied).len()),
{
    lemma_next_pending(migrations, applied, from);
    assert(migrations.take(migrations.len() as int) =~= migrations);
}

proof fn lemma_exchanges_left(migrations: Seq<MigrationView>, start: Database, n: nat)
    requires
        migrations.len() <= usize::MAX,
        start.open is None,
        n <= 2 + 4 * pending(migrations, start.versions).len(),
    ensures
        exchanges_left(
            migrations,
            start.versions,
            exchanged(migrations, start, n).0.phase,
        ) == 2 + 4 * pending(migrations, start.versions).len() - n,
    decreases n,
{
    if n > 0 {
        lemma_exchanges_left(migrations, start, (n - 1) as nat);
        lemma_in_step(migrations, start, (n - 1) as nat);
        let (run, db) = exchanged(migrations, start, (n - 1) as nat);
        match run.phase {
            Phase::Reading => {
                assert(migrations.take(0) =~= Seq::empty());
                lemma_resume_left(migrations, start.versions, 0);
            },
            Phase::Committing(i) => {
                lemma_pending_next(migrations, start.versions, i as int);
                lemma_resume_left(migrations, start.versions, i + 1);
            },
            _ => {},
        }
    }
}

/// A run asks only for what the database can do: it reads the table after it has
/// made sure that there is one, runs scripts in a transaction only, and never
/// records a version twice.
pub proof fn every_request_can_be_met(
    migrations: Seq<MigrationView>,
    start: Database,
    n: nat,
)
    requires
        migrations.len() <= usize::MAX,
        distinct(migrations),
        start.open is None,
    ensures
        can_perform(
            exchanged(migrations, start, n).1,
            asked(exchanged(migrations, start, n).0),
        ),
{
    lemma_in_step(migrations, start, n);
    let (run, db) = exchanged(migrations, start, n);
    if let Phase::Recording(i) = run.phase {
        let version = migrations[i as int].version;
        let front = migrations.take(i as int);
        let list = pending(front, start.versions);
        if versions_of(list).contains(version) {
            lemma_versions_of(list, version);
            lemma_pending_from(front, start.versions, version);
            let k = choose|k: int| 0 <= k < front.len() && (#[trigger] front[k]).version == version;
            assert(migrations[k].version == migrations[i as int].version);
        }
    }
}

/// A run never runs the script of a migration whose version the database held
/// when the run began.
pub proof fn no_applied_script_runs_again(
    migrations: Seq<MigrationView>,
    start: Database,
    n: nat,
)
    requires
        migrations.len() <= usize::MAX,
        start.open is None,
    ensures
        asked(exchanged(migrations, start, n).0) matches ActionView::Apply { version, .. }
            ==> !start.versions.contains(version),
{
    lemma_in_step(migrations, start, n);
}

/// Once its transaction is rolled back, the database of a run that stopped
/// anywhere is as it was, or has a whole number of the pending migrations, the
/// first ones in order, each with its script and its version.
pub proof fn a_cut_run_leaves_whole_migrations(
    migrations: Seq<MigrationView>,
    start: Database,
    n: nat,
)
    requires
        migrations.len() <= usize::MAX,
        start.open is None,
    ensures
        ({
            let db = rolled_back(exchanged(migrations, start, n).1);
            let all = pending(migrations, start.versions);
            db == start || exists|k: int|
                0 <= k <= all.len() && db == migrated(start, #[trigger] all.take(k))
        }),
{
    lemma_in_step(migrations, start, n);
    let (run, now) = exchanged(migrations, start, n);
    let all = pending(migrations, start.versions);
    match run.phase {
        Phase::Reading => {
            lemma_migrated_nothing(start);
            assert(all.take(0) =~= Seq::empty());
        },
        Phase::Opening(i)
        | Phase::Applying(i)
        | Phase::Recording(i)
        | Phase::Committing(i) => {
            lemma_pending_prefix(migrations, start.versions, i as int);
            let k = pending(migrations.take(i as int), start.versions).len() as int;
            assert(rolled_back(now) == migrated(start, all.take(k)));
        },
        Phase::Finished => {
            assert(all.take(all.len() as int) =~= all);
        },
        _ => {},
    }
}

/// A run over a database that performs what it is asked finishes, after two
/// exchanges and four for each pending migration, with all of them applied in
/// order, and stays finished.
pub proof fn a_run_applies_all_pending(
    migrations: Seq<MigrationView>,
    start: Database,
    n: nat,
)
    requires
        migrations.len() <= usize::MAX,
        start.open is None,
        n >= 2 + 4 * pending(migrations, start.versions).len(),
    ensures
        exchanged(migrations, start, n).0.phase == Phase::Finished,
        exchanged(migrations, start, n).1 == migrated(start, pending(migrations, start.versions)),
    decreases n,
{
    let all = pending(migrations, start.versions);
    lemma_in_step(migrations, start, n);
    if n > 2 + 4 * all.len() {
        a_run_applies_all_pending(migrations, start, (n - 1) as nat);
    } else {
        lemma_exchanges_left(migrations, start, n);
        let run = exchanged(migrations, start, n).0;
        match run.phase {
            Phase::Opening(i)
            | Phase::Applying(i)
            | Phase::Recording(i)
            | Phase::Committing(i) => {
                lemma_pending_next(migrations, start.versions, i as int);
                lemma_pending_prefix(migrations, start.versions, i + 1);
            },
            _ => {},
        }
    }
}

proof fn lemma_pending_versions(migrations: Seq<MigrationView>, applied: Set<i32>)
    ensures
        applied.union(versions_of(pending(migrations, applied))) == applied.union(
            versions_of(migrations),
        ),
    decreases migrations.len(),
{
    let all = pending(migrations, applied);
    if migrations.len() > 0 {
        let front = pending(migrations.drop_last(), applied);
        lemma_pending_versions(migrations.drop_last(), applied);
        assert(front.push(migrations.last()).drop_last() =~= front);
        assert(applied.union(versions_of(all)) =~= applied.union(versions_of(front)).union(
            if applied.contains(migrations.last().version) {
                Set::empty()
            } else {
                Set::empty().insert(migrations.last().version)
            },
        ));
        assert(applied.union(versions_of(migrations)) =~= applied.union(
            versions_of(migrations.drop_last()),
        ).insert(migrations.last().version));
    }
    assert(applied.union(versions_of(all)) =~= applied.union(versions_of(migrations)));
}

/// The versions in the database of a run that has finished are those that were in
/// it and those of all migrations.
pub proof fn a_finished_run_has_every_version(
    migrations: Seq<MigrationView>,
    start: Database,
    n: nat,
)
    requires
        migrations.len() <= usize::MAX,
        start.open is None,
        exchanged(migrations, start, n).0.phase == Phase::Finished,
    ensures
        exchanged(migrations, start, n).1.versions == start.versions.union(
            versions_of(migrations),
        ),
{
    lemma_in_step(migrations, start, n);
    lemma_pending_versions(migrations, start.versions);
}

proof fn lemma_pending_ignores(migrations: Seq<MigrationView>, applied: Set<i32>, version: i32)
    requires
        !holds_version(migrations, version),
    ensures
        pending(migrations, applied.insert(version)) == pending(migrations, applied),
    decreases migrations.len(),
{
    if migrations.len() > 0 {
        let front = migrations.drop_last();
        if holds_version(front, version) {
            lemma_holds_version_front(migrations, version);
        }
        lemma_pending_ignores(front, applied, version);
        assert(migrations[migrations.len() - 1].version != version);
    }
}

proof fn lemma_pending_after(migrations: Seq<MigrationView>, applied: Set<i32>, k: int)
    requires
        distinct(migrations),
        0 <= k <= pending(migrations, applied).len(),
    ensures
        pending(
            migrations,
            applied.union(versions_of(pending(migrations, applied).take(k))),
        ) == pending(migrations, applied).skip(k),
    decreases migrations.len(),
{
    let all = pending(migrations, applied);
    let more = applied.union(versions_of(all.take(k)));
    if migrations.len() == 0 {
        assert(all.skip(k) =~= Seq::empty());
    } else {
        let front = migrations.drop_last();
        let last = migrations.last();
        let some = pending(front, applied);
        assert forall|i: int, j: int| 0 <= i < j < front.len() implies (#[trigger] front[i]).version
            != (#[trigger] front[j]).version by {
            assert(front[i] == migrations[i] && front[j] == migrations[j]);
        }
        assert(!holds_version(front, last.version)) by {
            assert forall|i: int| 0 <= i < front.len() implies (#[trigger] front[i]).version
                != last.version by {
                assert(front[i] == migrations[i]);
                assert(last == migrations[migrations.len() - 1]);
            }
        }
        if applied.contains(last.version) {
            lemma_pending_after(front, applied, k);
        } else if k <= some.len() {
            lemma_pending_after(front, applied, k);
            assert(all.take(k) =~= some.take(k));
            if versions_of(some.take(k)).contains(last.version) {
                lemma_versions_of(some.take(k), last.version);
                let list = some.take(k);
                let i = choose|i: int|
                    0 <= i < list.len() && (#[trigger] list[i]).version == last.version;
                assert(some[i].version == last.version);
                lemma_pending_from(front, applied, last.version);
            }
            assert(all.skip(k) =~= some.skip(k).push(last));
        } else {
            let length = some.len() as int;
            lemma_pending_after(front, applied, length);
            assert(some.take(length) =~= some);
            assert(all.take(k) =~= some.push(last));
            assert(some.push(last).drop_last() =~= some);
            let fewer = applied.union(versions_of(some));
            assert(more =~= fewer.insert(last.version));
            lemma_pending_ignores(front, fewer, last.version);
            assert(some.skip(length) =~= all.skip(k));
        }
    }
}

proof fn lemma_versions_of_join(first: Seq<MigrationView>, second: Seq<MigrationView>)
    ensures
        versions_of(first + second) == versions_of(first).union(versions_of(second)),
    decreases second.len(),
{
    if second.len() == 0 {
        assert(first + second =~= first);
        assert(versions_of(first).union(versions_of(second)) =~= versions_of(first));
    } else {
        lemma_versions_of_join(first, second.drop_last());
        assert((first + second).drop_last() =~= first + second.drop_last());
        assert(versions_of(first + second) =~= versions_of(first).union(versions_of(second)));
    }
}

/// A run that was cut anywhere is made good by the next one: what is pending then
/// brings the database to where the first run would have brought it.
pub proof fn a_cut_run_is_made_good(
    migrations: Seq<MigrationView>,
    start: Database,
    n: nat,
)
    requires
        migrations.len() <= usize::MAX,
        distinct(migrations),
        start.open is None,
    ensures
        ({
            let left = rolled_back(exchanged(migrations, start, n).1);
            migrated(left, pending(migrations, left.versions)) == migrated(
                start,
                pending(migrations, start.versions),
            )
        }),
{
    let left = rolled_back(exchanged(migrations, start, n).1);
    let all = pending(migrations, start.versions);
    a_cut_run_leaves_whole_migrations(migrations, start, n);
    if left != start {
        let k = choose|k: int|
            0 <= k <= all.len() && left == migrated(start, #[trigger] all.take(k));
        lemma_pending_after(migrations, start.versions, k);
        lemma_versions_of_join(all.take(k), all.skip(k));
        assert(all.take(k) + all.skip(k) =~= all);
        assert(migrated(left, all.skip(k)).scripts =~= migrated(start, all).scripts);
        assert(migrated(left, all.skip(k)).versions =~= migrated(start, all).versions);
    }
}

/// After a finished run nothing is pending: the next run leaves the database as
/// it is and finishes after two exchanges.
pub proof fn a_second_run_changes_nothing(migrations: Seq<MigrationView>, start: Database)
    requires
        migrations.len() <= usize::MAX,
        distinct(migrations),
        start.open is None,
    ensures
        ({
            let done = migrated(start, pending(migrations, start.versions));
            &&& pending(migrations, done.versions) == Seq::<MigrationView>::empty()
            &&& exchanged(migrations, done, 2).0.phase == Phase::Finished
            &&& exchanged(migrations, done, 2).1 == done
        }),
{
    let all = pending(migrations, start.versions);
    let done = migrated(start, all);
    lemma_pending_after(migrations, start.versions, all.len() as int);
    assert(all.take(all.len() as int) =~= all);
    assert(all.skip(all.len() as int) =~= Seq::empty());
    a_run_applies_all_pending(migrations, done, 2);
    lemma_migrated_nothing(done);
}

/// A failure ends a run that is not finished, and nothing that is reported later
/// starts it again. Only a script's failure is given a context.
pub proof fn a_failure_ends_the_run(run: MigratorView, later: EventView)
    requires
        run.phase != Phase::Finished,
    ensures
        ({
            let failed = after(run, EventView::Failed);
            &&& failed.phase == Phase::Failed
            &&& after(failed, later) == failed
            &&& request(run.phase, failed) == (ActionView::Fail {
                context: match run.phase {
                    Phase::Applying(i) => Some(
                        apply_context(run.migrations[i as int].version),
                    ),
                    _ => None,
                },
            })
        }),
{
}

} // verus!
