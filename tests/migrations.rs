use aeon::migrate::{Migration, Registry, RegistrationError};
use aeon::runner::{ApplyError, MigrationRunner, RunnerStep};
use aeon::schema::{get_migrations, schema_registry, V1_SQL, V2_SQL, V3_SQL};
use rusqlite::Connection;

fn mig(version: u64, sql: &str) -> Migration {
    Migration { version, description: format!("v{version}"), sql: sql.to_string() }
}

fn stored_version(conn: &Connection) -> u64 {
    conn.execute_batch(
        "CREATE TABLE IF NOT EXISTS schema_state (id INTEGER PRIMARY KEY CHECK (id = 1), applied_version INTEGER NOT NULL);",
    )
    .unwrap();
    conn.query_row("SELECT applied_version FROM schema_state WHERE id = 1", [], |r| r.get::<_, i64>(0))
        .map(|v| v as u64)
        .unwrap_or(0)
}

fn apply(conn: &Connection, reg: &Registry) -> Result<u64, ApplyError> {
    let mut runner = MigrationRunner::new(reg, stored_version(conn));
    loop {
        match runner.next_step(reg) {
            RunnerStep::Execute { index, version } => {
                conn.execute_batch("BEGIN;").unwrap();
                let script = &reg.get(index).sql;
                let done = conn.execute_batch(script).and_then(|_| {
                    conn.execute(
                        "INSERT OR REPLACE INTO schema_state (id, applied_version) VALUES (1, ?1)",
                        [version as i64],
                    )
                });
                match done {
                    Ok(_) => {
                        conn.execute_batch("COMMIT;").unwrap();
                        runner.record_success(reg);
                    }
                    Err(e) => {
                        conn.execute_batch("ROLLBACK;").unwrap();
                        runner.record_failure(reg, e.to_string());
                    }
                }
            }
            RunnerStep::Finished | RunnerStep::Halted { .. } => break,
        }
    }
    runner.finish(reg)
}

fn table_names(conn: &Connection) -> Vec<String> {
    let mut st = conn.prepare("SELECT name FROM sqlite_master WHERE type = 'table' ORDER BY name").unwrap();
    st.query_map([], |r| r.get::<_, String>(0)).unwrap().map(|r| r.unwrap()).collect()
}

fn count(conn: &Connection, sql: &str) -> i64 {
    conn.query_row(sql, [], |r| r.get(0)).unwrap()
}

#[test]
fn registry_has_three_versions() {
    let ms = get_migrations();
    let vs: Vec<u64> = ms.iter().map(|m| m.version).collect();
    assert_eq!(vs, vec![1, 2, 3]);
    assert_eq!(schema_registry().len(), 3);
}

#[test]
fn duplicate_version_rejected() {
    let r = Registry::new(vec![mig(1, "SELECT 1;"), mig(2, "SELECT 1;"), mig(2, "SELECT 1;")]);
    assert_eq!(r.err(), Some(RegistrationError::DuplicateVersion { version: 2 }));
}

#[test]
fn duplicate_version_rejected_out_of_order() {
    let r = Registry::new(vec![mig(3, "SELECT 1;"), mig(1, "SELECT 1;"), mig(3, "SELECT 1;")]);
    assert_eq!(r.err(), Some(RegistrationError::DuplicateVersion { version: 3 }));
}

#[test]
fn descending_versions_rejected() {
    let r = Registry::new(vec![mig(2, "SELECT 1;"), mig(1, "SELECT 1;")]);
    assert_eq!(r.err(), Some(RegistrationError::NotAscending { version: 1 }));
}

#[test]
fn zero_version_rejected() {
    let r = Registry::new(vec![mig(0, "SELECT 1;"), mig(1, "SELECT 1;")]);
    assert_eq!(r.err(), Some(RegistrationError::ZeroVersion));
}

#[test]
fn empty_registry_accepted() {
    let reg = Registry::new(Vec::new()).unwrap();
    let conn = Connection::open_in_memory().unwrap();
    assert_eq!(apply(&conn, &reg).unwrap(), 0);
}

#[test]
fn runner_steps_in_order() {
    let reg = Registry::new(vec![mig(1, "a"), mig(5, "b"), mig(9, "c")]).unwrap();
    let mut r = MigrationRunner::new(&reg, 5);
    assert_eq!(r.next_step(&reg), RunnerStep::Execute { index: 2, version: 9 });
    r.record_success(&reg);
    assert_eq!(r.applied_version(), 9);
    assert_eq!(r.next_step(&reg), RunnerStep::Finished);
    assert_eq!(r.finish(&reg).unwrap(), 9);
}

#[test]
fn runner_halts_on_failure() {
    let reg = Registry::new(vec![mig(1, "a"), mig(2, "b"), mig(3, "c")]).unwrap();
    let mut r = MigrationRunner::new(&reg, 0);
    r.record_success(&reg);
    r.record_failure(&reg, "syntax error".to_string());
    assert_eq!(r.next_step(&reg), RunnerStep::Halted { version: 2 });
    assert_eq!(r.applied_version(), 1);
    let e = r.finish(&reg).unwrap_err();
    assert_eq!(e.version, 2);
    assert_eq!(e.message, "syntax error");
}

#[test]
fn apply_twice_is_noop() {
    let reg = schema_registry();
    let conn = Connection::open_in_memory().unwrap();
    assert_eq!(apply(&conn, &reg).unwrap(), 3);
    let tables = table_names(&conn);
    assert_eq!(apply(&conn, &reg).unwrap(), 3);
    assert_eq!(table_names(&conn), tables);
    assert_eq!(MigrationRunner::new(&reg, 3).next_step(&reg), RunnerStep::Finished);
}

#[test]
fn failure_stops_and_resumes() {
    let good = Registry::new(vec![
        mig(1, "CREATE TABLE a (x INTEGER);"),
        mig(2, "CREATE TABLE b (x INTEGER);"),
        mig(3, "CREATE TABLE c (x INTEGER);"),
    ])
    .unwrap();
    let bad = Registry::new(vec![
        mig(1, "CREATE TABLE a (x INTEGER);"),
        mig(2, "CREATE TABLE b (x INTEGER); NOT VALID SQL;"),
        mig(3, "CREATE TABLE c (x INTEGER);"),
    ])
    .unwrap();
    let conn = Connection::open_in_memory().unwrap();
    let e = apply(&conn, &bad).unwrap_err();
    assert_eq!(e.version, 2);
    assert_eq!(stored_version(&conn), 1);
    assert!(!table_names(&conn).contains(&"c".to_string()));
    assert_eq!(apply(&conn, &good).unwrap(), 3);
    assert_eq!(stored_version(&conn), 3);
}

#[test]
fn applied_version_never_decreases() {
    let reg = schema_registry();
    let conn = Connection::open_in_memory().unwrap();
    let mut last = stored_version(&conn);
    for _ in 0..3 {
        let v = apply(&conn, &reg).unwrap();
        assert!(v >= last);
        assert!([1u64, 2, 3].contains(&v));
        last = v;
    }
}

#[test]
fn end_to_end_default_rows() {
    let reg = schema_registry();
    let conn = Connection::open_in_memory().unwrap();
    apply(&conn, &reg).unwrap();
    let mode: String = conn.query_row("SELECT active_mode FROM settings WHERE id = 1", [], |r| r.get(0)).unwrap();
    assert_eq!(mode, "traditional");
    assert_eq!(count(&conn, "SELECT COUNT(*) FROM modes WHERE is_custom = 0"), 4);
    let name: String = conn.query_row("SELECT username FROM user_profile WHERE id = 1", [], |r| r.get(0)).unwrap();
    assert_eq!(name, "Aventureiro");
    let snapshot = |c: &Connection| -> (i64, i64, i64) {
        (
            count(c, "SELECT COUNT(*) FROM settings"),
            count(c, "SELECT COUNT(*) FROM modes"),
            count(c, "SELECT COUNT(*) FROM user_profile"),
        )
    };
    let before = snapshot(&conn);
    apply(&conn, &reg).unwrap();
    assert_eq!(snapshot(&conn), before);
    assert_eq!(before, (1, 4, 1));
}

#[test]
fn end_to_end_cascade_delete() {
    let reg = schema_registry();
    let conn = Connection::open_in_memory().unwrap();
    conn.execute_batch("PRAGMA foreign_keys = ON;").unwrap();
    apply(&conn, &reg).unwrap();
    conn.execute_batch(
        "INSERT INTO tasks (id, title, xp_reward, xp_penalty, created_at) VALUES ('t1', 'Write', 10, 5, '2024-01-01');
         INSERT INTO subtasks (id, task_id, title, xp_reward) VALUES ('s1', 't1', 'Draft', 2);
         INSERT INTO subtasks (id, task_id, title, xp_reward) VALUES ('s2', 't1', 'Edit', 2);",
    )
    .unwrap();
    assert_eq!(count(&conn, "SELECT COUNT(*) FROM subtasks WHERE task_id = 't1'"), 2);
    conn.execute_batch("DELETE FROM tasks WHERE id = 't1';").unwrap();
    assert_eq!(count(&conn, "SELECT COUNT(*) FROM subtasks"), 0);
}

#[test]
fn task_sort_order_column_added() {
    let reg = schema_registry();
    let conn = Connection::open_in_memory().unwrap();
    apply(&conn, &reg).unwrap();
    conn.execute_batch("INSERT INTO tasks (id, title, xp_reward, xp_penalty, created_at) VALUES ('t1', 'A', 1, 1, 'x');")
        .unwrap();
    assert_eq!(count(&conn, "SELECT sort_order FROM tasks WHERE id = 't1'"), 0);
}

#[test]
fn migration_labels_and_scripts() {
    let ms = get_migrations();
    let labels: Vec<&str> = ms.iter().map(|m| m.description.as_str()).collect();
    assert_eq!(labels, vec!["create_initial_schema", "add_tasks_tables", "add_task_sort_order"]);
    assert_eq!(ms[0].sql, V1_SQL);
    assert_eq!(ms[1].sql, V2_SQL);
    assert_eq!(ms[2].sql, V3_SQL);
    assert!(V2_SQL.contains("ON DELETE CASCADE"));
    assert!(V3_SQL.contains("ALTER TABLE tasks ADD COLUMN sort_order"));
    let reg = schema_registry();
    assert_eq!(reg.get(0).description, "create_initial_schema");
    assert_eq!(reg.get(2).sql, V3_SQL);
}
