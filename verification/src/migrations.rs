//! Schema migrations: which statements bring the bootnode's database up to date.
//!
//! [`migrate`] decides; the host performs each [`Action`] on its database
//! connection and reports back what happened as an [`Event`].

use crate::tables::SCHEMA_MIGRATIONS;
use crate::text::{signed_decimal, signed_decimal_text};
use std::collections::HashSet;
use vstd::prelude::*;
use vstd::string::*;

verus! {

broadcast use vstd::std_specs::hash::group_hash_axioms;

/// Version of the first migration.
pub const INITIAL_VERSION: i32 = 1;

/// A schema change: a script, and the version under which it is recorded.
#[derive(Debug, PartialEq, Eq)]
pub struct Migration {
    pub version: i32,
    pub sql: String,
}

/// A migration with its script as a sequence of characters.
pub ghost struct MigrationView {
    pub version: i32,
    pub sql: Seq<char>,
}

impl View for Migration {
    type V = MigrationView;

    open spec fn view(&self) -> MigrationView {
        MigrationView { version: self.version, sql: self.sql@ }
    }
}

/// The views of a list of migrations.
pub open spec fn migration_views(list: Seq<Migration>) -> Seq<MigrationView> {
    Seq::new(list.len(), |i: int| list[i]@)
}

/// What the host is asked to do next.
#[derive(Debug, PartialEq, Eq)]
pub enum Action {
    /// Run statements outside a transaction.
    Execute { sql: String },
    /// Run a query and hand its first column back.
    Query { sql: String },
    /// Open a transaction.
    Begin,
    /// Run a migration's script in the transaction.
    Apply { version: i32, sql: String },
    /// Run a statement in the transaction, with the version as its parameter.
    Record { sql: String, version: i32 },
    /// Commit the transaction.
    Commit { version: i32 },
    /// The schema is up to date.
    Finish,
    /// Give up with the error that was reported. A transaction that is open is
    /// rolled back.
    Fail { context: Option<String> },
}

/// An action with its texts as sequences of characters.
pub ghost enum ActionView {
    Execute { sql: Seq<char> },
    Query { sql: Seq<char> },
    Begin,
    Apply { version: i32, sql: Seq<char> },
    Record { sql: Seq<char>, version: i32 },
    Commit { version: i32 },
    Finish,
    Fail { context: Option<Seq<char>> },
}

impl View for Action {
    type V = ActionView;

    open spec fn view(&self) -> ActionView {
        match self {
            Action::Execute { sql } => ActionView::Execute { sql: sql@ },
            Action::Query { sql } => ActionView::Query { sql: sql@ },
            Action::Begin => ActionView::Begin,
            Action::Apply { version, sql } => ActionView::Apply { version: *version, sql: sql@ },
            Action::Record { sql, version } => ActionView::Record { sql: sql@, version: *version },
            Action::Commit { version } => ActionView::Commit { version: *version },
            Action::Finish => ActionView::Finish,
            Action::Fail { context } => ActionView::Fail {
                context: crate::text::option_view(*context),
            },
        }
    }
}

/// What the host reports.
#[derive(Debug, PartialEq, Eq)]
pub enum Event {
    /// Nothing has been asked yet.
    Start,
    /// The last action succeeded.
    Done,
    /// The last query succeeded and gave these versions, in any order.
    Versions(Vec<i32>),
    /// The last action failed.
    Failed,
}

/// An event with the versions as a set.
pub ghost enum EventView {
    Start,
    Done,
    Versions(Set<i32>),
    Failed,
}

impl View for Event {
    type V = EventView;

    open spec fn view(&self) -> EventView {
        match self {
            Event::Start => EventView::Start,
            Event::Done => EventView::Done,
            Event::Versions(rows) => EventView::Versions(rows@.to_set()),
            Event::Failed => EventView::Failed,
        }
    }
}

/// How far a run has come: what was asked of the host last.
#[derive(Clone, Copy, Debug, PartialEq, Eq)]
pub enum Phase {
    Idle,
    Creating,
    Reading,
    Opening(usize),
    Applying(usize),
    Recording(usize),
    Committing(usize),
    Finished,
    Failed,
}

/// A run over a list of migrations.
pub struct Migrator {
    migrations: Vec<Migration>,
    applied: HashSet<i32>,
    phase: Phase,
}

/// A run as values: the migrations, the versions read from the database, and
/// how far it has come.
pub ghost struct MigratorView {
    pub migrations: Seq<MigrationView>,
    pub applied: Set<i32>,
    pub phase: Phase,
}

impl View for Migrator {
    type V = MigratorView;

    closed spec fn view(&self) -> MigratorView {
        MigratorView {
            migrations: migration_views(self.migrations@),
            applied: self.applied@,
            phase: self.phase,
        }
    }
}

impl MigratorView {
    /// Whether the migration that a run is at is one that needs applying.
    pub open spec fn wf(self) -> bool {
        match self.phase {
            Phase::Opening(i)
            | Phase::Applying(i)
            | Phase::Recording(i)
            | Phase::Committing(i) => {
                &&& i < self.migrations.len()
                &&& !self.applied.contains(self.migrations[i as int].version)
            },
            _ => true,
        }
    }
}

/// The statement that creates the table of applied versions.
pub open spec fn create_table() -> Seq<char> {
    "\nCREATE TABLE IF NOT EXISTS "@ + SCHEMA_MIGRATIONS@
        + " (\n  version INTEGER PRIMARY KEY,\n  applied_at TIMESTAMPTZ NOT NULL DEFAULT now()\n);\n"@
}

/// The query for the applied versions.
pub open spec fn select_versions() -> Seq<char> {
    "SELECT version FROM "@ + SCHEMA_MIGRATIONS@
}

/// The statement that records a version.
pub open spec fn insert_version() -> Seq<char> {
    "INSERT INTO "@ + SCHEMA_MIGRATIONS@ + " (version) VALUES ($1)"@
}

/// What is said of a script that failed.
pub open spec fn apply_context(version: i32) -> Seq<char> {
    "failed applying schema migration "@ + signed_decimal(version as int)
}

/// The first migration from `from` on that is not applied, or the length of the
/// list.
pub open spec fn next_pending(
    migrations: Seq<MigrationView>,
    applied: Set<i32>,
    from: int,
) -> int
    decreases migrations.len() - from,
{
    if from >= migrations.len() {
        migrations.len() as int
    } else if applied.contains(migrations[from].version) {
        next_pending(migrations, applied, from + 1)
    } else {
        from
    }
}

/// The phase in which a run goes on from migration `from`.
pub open spec fn resume(migrations: Seq<MigrationView>, applied: Set<i32>, from: int) -> Phase {
    let i = next_pending(migrations, applied, from);
    if i < migrations.len() {
        Phase::Opening(i as usize)
    } else {
        Phase::Finished
    }
}

/// The run after an event.
pub open spec fn after(run: MigratorView, event: EventView) -> MigratorView {
    match (run.phase, event) {
        (Phase::Idle, EventView::Start) => MigratorView { phase: Phase::Creating, ..run },
        (Phase::Creating, EventView::Done) => MigratorView { phase: Phase::Reading, ..run },
        (Phase::Reading, EventView::Versions(versions)) => MigratorView {
            applied: versions,
            phase: resume(run.migrations, versions, 0),
            ..run
        },
        (Phase::Opening(i), EventView::Done) => MigratorView { phase: Phase::Applying(i), ..run },
        (Phase::Applying(i), EventView::Done) => MigratorView { phase: Phase::Recording(i), ..run },
        (Phase::Recording(i), EventView::Done) => MigratorView { phase: Phase::Committing(i), ..run },
        (Phase::Committing(i), EventView::Done) => MigratorView {
            phase: resume(run.migrations, run.applied, i + 1),
            ..run
        },
        (Phase::Finished, _) => run,
        _ => MigratorView { phase: Phase::Failed, ..run },
    }
}

/// What a run that is in its phase after `before` asks of the host.
pub open spec fn request(before: Phase, run: MigratorView) -> ActionView {
    match run.phase {
        Phase::Creating => ActionView::Execute { sql: create_table() },
        Phase::Reading => ActionView::Query { sql: select_versions() },
        Phase::Opening(_) => ActionView::Begin,
        Phase::Applying(i) => ActionView::Apply {
            version: run.migrations[i as int].version,
            sql: run.migrations[i as int].sql,
        },
        Phase::Recording(i) => ActionView::Record {
            sql: insert_version(),
            version: run.migrations[i as int].version,
        },
        Phase::Committing(i) => ActionView::Commit {
            version: run.migrations[i as int].version,
        },
        Phase::Finished => ActionView::Finish,
        Phase::Idle | Phase::Failed => ActionView::Fail {
            context: match before {
                Phase::Applying(i) => Some(apply_context(run.migrations[i as int].version)),
                _ => None,
            },
        },
    }
}

/// Writes the statement that creates the table of applied versions.
pub fn create_table_statement() -> (r: String)
    ensures
        r@ == create_table(),
{
    let mut sql = "\nCREATE TABLE IF NOT EXISTS ".to_owned();
    sql.append(SCHEMA_MIGRATIONS);
    sql.append(
        " (\n  version INTEGER PRIMARY KEY,\n  applied_at TIMESTAMPTZ NOT NULL DEFAULT now()\n);\n",
    );
    sql
}

/// Writes the query for the applied versions.
pub fn select_versions_statement() -> (r: String)
    ensures
        r@ == select_versions(),
{
    let mut sql = "SELECT version FROM ".to_owned();
    sql.append(SCHEMA_MIGRATIONS);
    sql
}

/// Writes the statement that records a version.
pub fn insert_version_statement() -> (r: String)
    ensures
        r@ == insert_version(),
{
    let mut sql = "INSERT INTO ".to_owned();
    sql.append(SCHEMA_MIGRATIONS);
    sql.append(" (version) VALUES ($1)");
    sql
}

/// Collects the versions that the database holds.
pub fn applied_versions(rows: &Vec<i32>) -> (r: HashSet<i32>)
    ensures
        r@ == rows@.to_set(),
{
    let mut versions: HashSet<i32> = HashSet::with_capacity(rows.len());
    let mut i: usize = 0;
    proof {
        assert(rows@.take(0).to_set() =~= Set::empty());
    }
    while i < rows.len()
        invariant
            i <= rows@.len(),
            versions@ == rows@.take(i as int).to_set(),
        decreases rows@.len() - i,
    {
        versions.insert(rows[i]);
        proof {
            lemma_take_next(rows@, i as int);
        }
        i = i + 1;
    }
    proof {
        assert(rows@.take(i as int) =~= rows@);
    }
    versions
}

proof fn lemma_take_next(rows: Seq<i32>, i: int)
    requires
        0 <= i < rows.len(),
    ensures
        rows.take(i + 1).to_set() == rows.take(i).to_set().insert(rows[i]),
{
    let shorter = rows.take(i);
    let longer = rows.take(i + 1);
    assert(longer =~= shorter.push(rows[i]));
    assert forall|v: i32| longer.to_set().contains(v) <==> shorter.to_set().insert(
        rows[i],
    ).contains(v) by {
        if shorter.contains(v) {
            let k = choose|k: int| 0 <= k < shorter.len() && shorter[k] == v;
            assert(longer[k] == v);
        }
        if v == rows[i] {
            assert(longer[i] == v);
        }
    }
    assert(longer.to_set() =~= shorter.to_set().insert(rows[i]));
}

/// The migrations of the bootnode, given the script of the first one.
pub fn bootnode_migrations(initial_sql: String) -> (r: Vec<Migration>)
    ensures
        migration_views(r@) == seq![
            (MigrationView { version: INITIAL_VERSION, sql: initial_sql@ }),
        ],
{
    let ghost sql = initial_sql@;
    let mut list: Vec<Migration> = Vec::new();
    list.push(Migration { version: INITIAL_VERSION, sql: initial_sql });
    proof {
        assert(migration_views(list@) =~= seq![
            (MigrationView { version: INITIAL_VERSION, sql }),
        ]);
    }
    list
}

impl Migrator {
    /// A run over `migrations` that has not started.
    pub fn new(migrations: Vec<Migration>) -> (r: Self)
        ensures
            r@ == (MigratorView {
                migrations: migration_views(migrations@),
                applied: Set::empty(),
                phase: Phase::Idle,
            }),
            r@.wf(),
    {
        Migrator { migrations, applied: HashSet::new(), phase: Phase::Idle }
    }

    /// The phase in which the run goes on from migration `from`.
    fn resume_from(&self, from: usize) -> (r: Phase)
        requires
            from <= self@.migrations.len(),
        ensures
            r == resume(self@.migrations, self@.applied, from as int),
            (MigratorView { phase: r, ..self@ }).wf(),
    {
        let mut i: usize = from;
        while i < self.migrations.len()
            invariant
                from <= i <= self.migrations@.len(),
                self@.migrations.len() == self.migrations@.len(),
                next_pending(self@.migrations, self@.applied, from as int) == next_pending(
                    self@.migrations,
                    self@.applied,
                    i as int,
                ),
            decreases self.migrations@.len() - i,
        {
            let version: i32 = self.migrations[i].version;
            assert(self@.migrations[i as int].version == version);
            if !self.applied.contains(&version) {
                return Phase::Opening(i);
            }
            i = i + 1;
        }
        Phase::Finished
    }

    /// What the run asks of the host in its phase, after phase `before`.
    fn request(&self, before: Phase) -> (r: Action)
        requires
            self@.wf(),
            (MigratorView { phase: before, ..self@ }).wf(),
        ensures
            r@ == request(before, self@),
    {
        match self.phase {
            Phase::Creating => Action::Execute { sql: create_table_statement() },
            Phase::Reading => Action::Query { sql: select_versions_statement() },
            Phase::Opening(_) => Action::Begin,
            Phase::Applying(i) => Action::Apply {
                version: self.migrations[i].version,
                sql: self.migrations[i].sql.clone(),
            },
            Phase::Recording(i) => Action::Record {
                sql: insert_version_statement(),
                version: self.migrations[i].version,
            },
            Phase::Committing(i) => Action::Commit { version: self.migrations[i].version },
            Phase::Finished => Action::Finish,
            Phase::Idle | Phase::Failed => Action::Fail {
                context: match before {
                    Phase::Applying(i) => {
                        let mut context = "failed applying schema migration ".to_owned();
                        let number = signed_decimal_text(self.migrations[i].version);
                        context.append(number.as_str());
                        Some(context)
                    },
                    _ => None,
                },
            },
        }
    }
}

/// Takes a run one event further and says what the host is to do next.
///
/// The table of applied versions is created where it is missing and read once.
/// Each migration that is not among them then gets a transaction of its own, in
/// which its script runs and its version is recorded. The first failure ends
/// the run.
pub fn migrate(run: &mut Migrator, event: Event) -> (action: Action)
    requires
        old(run)@.wf(),
    ensures
        final(run)@ == after(old(run)@, event@),
        final(run)@.wf(),
        action@ == request(old(run)@.phase, final(run)@),
{
    let before = run.phase;
    match (before, event) {
        (Phase::Idle, Event::Start) => {
            run.phase = Phase::Creating;
        },
        (Phase::Creating, Event::Done) => {
            run.phase = Phase::Reading;
        },
        (Phase::Reading, Event::Versions(rows)) => {
            run.applied = applied_versions(&rows);
            run.phase = run.resume_from(0);
        },
        (Phase::Opening(i), Event::Done) => {
            run.phase = Phase::Applying(i);
        },
        (Phase::Applying(i), Event::Done) => {
            run.phase = Phase::Recording(i);
        },
        (Phase::Recording(i), Event::Done) => {
            run.phase = Phase::Committing(i);
        },
        (Phase::Committing(i), Event::Done) => {
            let count: usize = run.migrations.len();
            assert(i < count);
            run.phase = run.resume_from(i + 1);
        },
        (Phase::Finished, _) => {},
        _ => {
            run.phase = Phase::Failed;
        },
    }
    run.request(before)
}

} // verus!
