use private_payments_harness::migrations::{
    applied_versions, bootnode_migrations, create_table_statement, insert_version_statement,
    migrate, select_versions_statement, Action, Event, Migration, Migrator, INITIAL_VERSION,
};
use private_payments_harness::tables::{GET_EVENTS_PAGES, INDEXER_STATE, SCHEMA_MIGRATIONS};

/// A database that commits whole transactions.
struct Db {
    versions: Vec<i32>,
    scripts: Vec<String>,
}

/// Runs the migrations, failing the action with number `fail_at`.
fn run(db: &mut Db, migrations: Vec<Migration>, fail_at: Option<usize>) -> Action {
    let mut run = Migrator::new(migrations);
    let mut action = migrate(&mut run, Event::Start);
    let mut open: Option<(Vec<i32>, Vec<String>)> = None;
    let mut count = 0;
    loop {
        let failed = fail_at == Some(count);
        count += 1;
        let event = match &action {
            Action::Finish | Action::Fail { .. } => return action,
            _ if failed => Event::Failed,
            Action::Execute { sql } => {
                assert_eq!(sql, &create_table_statement());
                Event::Done
            }
            Action::Query { sql } => {
                assert_eq!(sql, &select_versions_statement());
                Event::Versions(db.versions.clone())
            }
            Action::Begin => {
                assert!(open.is_none());
                open = Some((Vec::new(), Vec::new()));
                Event::Done
            }
            Action::Apply { sql, .. } => {
                open.as_mut().unwrap().1.push(sql.clone());
                Event::Done
            }
            Action::Record { sql, version } => {
                assert_eq!(sql, &insert_version_statement());
                assert!(!db.versions.contains(version));
                open.as_mut().unwrap().0.push(*version);
                Event::Done
            }
            Action::Commit { .. } => {
                let (versions, scripts) = open.take().unwrap();
                db.versions.extend(versions);
                db.scripts.extend(scripts);
                Event::Done
            }
        };
        action = migrate(&mut run, event);
    }
}

fn three() -> Vec<Migration> {
    vec![
        Migration { version: 1, sql: "one".to_string() },
        Migration { version: 2, sql: "two".to_string() },
        Migration { version: 3, sql: "three".to_string() },
    ]
}

#[test]
fn table_names_are_fixed() {
    assert_eq!(SCHEMA_MIGRATIONS, "bootnode_schema_migrations");
    assert_eq!(INDEXER_STATE, "bootnode_indexer_state");
    assert_eq!(GET_EVENTS_PAGES, "bootnode_get_events_pages");
}

#[test]
fn statements_name_the_table() {
    assert_eq!(
        create_table_statement(),
        format!(
            r#"
CREATE TABLE IF NOT EXISTS {SCHEMA_MIGRATIONS} (
  version INTEGER PRIMARY KEY,
  applied_at TIMESTAMPTZ NOT NULL DEFAULT now()
);
"#
        )
    );
    assert_eq!(
        select_versions_statement(),
        "SELECT version FROM bootnode_schema_migrations"
    );
    assert_eq!(
        insert_version_statement(),
        "INSERT INTO bootnode_schema_migrations (version) VALUES ($1)"
    );
}

#[test]
fn applied_versions_are_a_set() {
    let set = applied_versions(&vec![3, 1, 3]);
    assert_eq!(set.len(), 2);
    assert!(set.contains(&1) && set.contains(&3) && !set.contains(&2));
    assert!(applied_versions(&Vec::new()).is_empty());
}

#[test]
fn bootnode_starts_with_version_one() {
    assert_eq!(INITIAL_VERSION, 1);
    assert_eq!(
        bootnode_migrations("CREATE".to_string()),
        vec![Migration { version: 1, sql: "CREATE".to_string() }]
    );
}

#[test]
fn an_empty_database_gets_everything_in_order() {
    let mut db = Db { versions: Vec::new(), scripts: Vec::new() };
    assert_eq!(run(&mut db, three(), None), Action::Finish);
    assert_eq!(db.versions, vec![1, 2, 3]);
    assert_eq!(db.scripts, vec!["one", "two", "three"]);
}

#[test]
fn applied_migrations_are_skipped() {
    let mut db = Db { versions: vec![2], scripts: Vec::new() };
    assert_eq!(run(&mut db, three(), None), Action::Finish);
    assert_eq!(db.versions, vec![2, 1, 3]);
    assert_eq!(db.scripts, vec!["one", "three"]);
}

#[test]
fn a_second_run_does_nothing() {
    let mut db = Db { versions: Vec::new(), scripts: Vec::new() };
    run(&mut db, three(), None);
    assert_eq!(run(&mut db, three(), None), Action::Finish);
    assert_eq!(db.scripts.len(), 3);
}

#[test]
fn a_failing_script_names_its_version() {
    let mut db = Db { versions: Vec::new(), scripts: Vec::new() };
    // 0 table, 1 query, 2..=5 the first migration, 6 begin, 7 the second script.
    assert_eq!(
        run(&mut db, three(), Some(7)),
        Action::Fail { context: Some("failed applying schema migration 2".to_string()) }
    );
    assert_eq!(db.versions, vec![1]);
    assert_eq!(db.scripts, vec!["one"]);
}

#[test]
fn a_negative_version_is_named_with_its_sign() {
    let mut db = Db { versions: Vec::new(), scripts: Vec::new() };
    let list = vec![Migration { version: i32::MIN, sql: "x".to_string() }];
    assert_eq!(
        run(&mut db, list, Some(3)),
        Action::Fail { context: Some("failed applying schema migration -2147483648".to_string()) }
    );
}

#[test]
fn other_failures_have_no_context() {
    for at in [0, 1, 2, 4, 5] {
        let mut db = Db { versions: Vec::new(), scripts: Vec::new() };
        assert_eq!(run(&mut db, three(), Some(at)), Action::Fail { context: None });
        assert!(db.scripts.is_empty());
    }
}

#[test]
fn a_run_cut_anywhere_is_made_good_by_the_next() {
    for at in 0..14 {
        let mut db = Db { versions: Vec::new(), scripts: Vec::new() };
        run(&mut db, three(), Some(at));
        assert_eq!(db.versions.len(), db.scripts.len());
        assert_eq!(run(&mut db, three(), None), Action::Finish);
        assert_eq!(db.versions, vec![1, 2, 3]);
        assert_eq!(db.scripts, vec!["one", "two", "three"]);
    }
}

#[test]
fn a_failed_run_stays_failed() {
    let mut run = Migrator::new(three());
    migrate(&mut run, Event::Start);
    assert_eq!(migrate(&mut run, Event::Failed), Action::Fail { context: None });
    assert_eq!(migrate(&mut run, Event::Done), Action::Fail { context: None });
}

#[test]
fn no_migrations_finish_at_once() {
    let mut db = Db { versions: Vec::new(), scripts: Vec::new() };
    assert_eq!(run(&mut db, Vec::new(), None), Action::Finish);
}
