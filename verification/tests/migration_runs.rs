use schema_migrations::database::copy_database;
use schema_migrations::database::Database;
use schema_migrations::database::Table;
use schema_migrations::descriptor::ColumnDef;
use schema_migrations::descriptor::Effect;
use schema_migrations::descriptor::EffectError;
use schema_migrations::descriptor::Value;
use schema_migrations::engine::apply_effect;
use schema_migrations::engine::apply_pending;
use schema_migrations::engine::insert_row;
use schema_migrations::engine::RunError;
use schema_migrations::get_migrations;
use schema_migrations::migration_v001;
use schema_migrations::migration_v002;

fn table<'a>(db: &'a Database, name: &str) -> &'a Table {
    db.tables.iter().find(|t| t.name == name).expect("table missing")
}

fn column_index(t: &Table, name: &str) -> usize {
    t.columns.iter().position(|c| c.name == name).expect("column missing")
}

/// A row for the `tasks` table as first created (26 values, in column
/// order), with the given id, uid and title.
fn sample_task_row(id: &str, uid: &str, title: &str) -> Vec<Value> {
    vec![
        Value::Text(id.to_string()),
        Value::Text(uid.to_string()),
        Value::Null,
        Value::Null,
        Value::Text(title.to_string()),
        Value::Text(String::new()),
        Value::Int(0),
        Value::Null,
        Value::Null,
        Value::Null,
        Value::Text("none".to_string()),
        Value::Null,
        Value::Null,
        Value::Null,
        Value::Null,
        Value::Text("2024-01-01T00:00:00Z".to_string()),
        Value::Text("2024-01-01T00:00:00Z".to_string()),
        Value::Null,
        Value::Text("[]".to_string()),
        Value::Null,
        Value::Int(0),
        Value::Int(7),
        Value::Text("a1".to_string()),
        Value::Text("c1".to_string()),
        Value::Int(0),
        Value::Int(0),
    ]
}

#[test]
fn full_run_reaches_version_three() {
    let mut db = Database::new();
    let mut marker: u64 = 0;
    let r = apply_pending(&mut db, &mut marker, &get_migrations());
    assert!(r.is_ok());
    assert_eq!(marker, 3);
    for name in ["accounts", "calendars", "tasks", "tags", "pending_deletions", "ui_state"] {
        assert!(db.tables.iter().any(|t| t.name == name));
    }
    let tasks = table(&db, "tasks");
    assert!(!tasks.columns[column_index(tasks, "account_id")].not_null);
    assert!(!tasks.columns[column_index(tasks, "calendar_id")].not_null);
    assert!(!tasks.columns[column_index(tasks, "url")].not_null);
    let ui = table(&db, "ui_state");
    assert_eq!(ui.rows.len(), 1);
    assert_eq!(ui.rows[0][0], Value::Int(1));
    assert_eq!(ui.rows[0][6], Value::Text("manual".to_string()));
}

#[test]
fn row_survives_all_upgrades() {
    let mut db = Database::new();
    let mut marker: u64 = 0;
    let first = vec![migration_v001()];
    assert!(apply_pending(&mut db, &mut marker, &first).is_ok());
    assert_eq!(marker, 1);
    let row = sample_task_row("t1", "u1", "Buy milk");
    assert!(insert_row(&mut db, &"tasks".to_string(), &row).is_ok());

    let r = apply_pending(&mut db, &mut marker, &get_migrations());
    assert!(r.is_ok());
    assert_eq!(marker, 3);
    let tasks = table(&db, "tasks");
    assert_eq!(tasks.rows.len(), 1);
    assert_eq!(tasks.columns.len(), 27);
    assert_eq!(tasks.rows[0].len(), 27);
    assert_eq!(tasks.rows[0][column_index(tasks, "id")], Value::Text("t1".to_string()));
    assert_eq!(tasks.rows[0][column_index(tasks, "uid")], Value::Text("u1".to_string()));
    assert_eq!(tasks.rows[0][column_index(tasks, "title")], Value::Text("Buy milk".to_string()));
    assert_eq!(
        tasks.rows[0][column_index(tasks, "account_id")],
        Value::Text("a1".to_string())
    );
    assert_eq!(tasks.rows[0][column_index(tasks, "url")], Value::Null);
}

#[test]
fn second_run_is_a_noop() {
    let mut db = Database::new();
    let mut marker: u64 = 0;
    assert!(apply_pending(&mut db, &mut marker, &get_migrations()).is_ok());
    assert_eq!(marker, 3);
    let before = copy_database(&db);
    let r = apply_pending(&mut db, &mut marker, &get_migrations());
    assert!(r.is_ok());
    assert_eq!(marker, 3);
    assert_eq!(db, before);
}

#[test]
fn resumed_run_applies_only_the_pending_tail() {
    let mut db = Database::new();
    let mut marker: u64 = 0;
    let first_two = vec![migration_v001(), migration_v002()];
    assert!(apply_pending(&mut db, &mut marker, &first_two).is_ok());
    assert_eq!(marker, 2);
    let accounts_before = copy_database(&db);

    let r = apply_pending(&mut db, &mut marker, &get_migrations());
    assert!(r.is_ok());
    assert_eq!(marker, 3);
    // only the third migration ran: every table but tasks is untouched
    assert_eq!(table(&db, "accounts"), table(&accounts_before, "accounts"));
    assert_eq!(table(&db, "ui_state"), table(&accounts_before, "ui_state"));
    assert_eq!(
        table(&db, "tasks").columns.len(),
        table(&accounts_before, "tasks").columns.len() + 1
    );
}

#[test]
fn rebuild_preserves_populated_rows() {
    let mut db = Database::new();
    let mut marker: u64 = 0;
    assert!(apply_pending(&mut db, &mut marker, &vec![migration_v001()]).is_ok());
    let r1 = sample_task_row("t1", "u1", "First");
    let r2 = sample_task_row("t2", "u2", "Second");
    assert!(insert_row(&mut db, &"tasks".to_string(), &r1).is_ok());
    assert!(insert_row(&mut db, &"tasks".to_string(), &r2).is_ok());

    assert!(apply_pending(&mut db, &mut marker, &vec![migration_v002()]).is_ok());
    assert_eq!(marker, 2);
    let tasks = table(&db, "tasks");
    assert_eq!(tasks.rows.len(), 2);
    assert_eq!(tasks.rows[0], r1);
    assert_eq!(tasks.rows[1], r2);
    assert!(!tasks.columns[column_index(tasks, "account_id")].not_null);
    assert!(!tasks.columns[column_index(tasks, "calendar_id")].not_null);
}

#[test]
fn added_column_is_null_and_other_values_untouched() {
    let mut db = Database::new();
    let mut marker: u64 = 0;
    let first_two = vec![migration_v001(), migration_v002()];
    assert!(apply_pending(&mut db, &mut marker, &first_two).is_ok());
    let row = sample_task_row("t9", "u9", "Keep me");
    assert!(insert_row(&mut db, &"tasks".to_string(), &row).is_ok());

    assert!(apply_pending(&mut db, &mut marker, &get_migrations()).is_ok());
    let tasks = table(&db, "tasks");
    assert_eq!(tasks.rows[0].len(), row.len() + 1);
    for k in 0..row.len() {
        assert_eq!(tasks.rows[0][k], row[k]);
    }
    assert_eq!(tasks.rows[0][row.len()], Value::Null);
}

#[test]
fn failed_migration_leaves_database_and_marker_alone() {
    let mut db = Database::new();
    let mut marker: u64 = 0;
    // the rebuild of `tasks` cannot run on a fresh database
    let r = apply_pending(&mut db, &mut marker, &vec![migration_v002()]);
    match r {
        Err(RunError::ApplyFailed { version, description, cause }) => {
            assert_eq!(version, 2);
            assert_eq!(description, "make_task_account_calendar_nullable");
            assert_eq!(cause, EffectError::NoSuchTable);
        }
        other => panic!("expected a failed application, got {:?}", other),
    }
    assert_eq!(marker, 0);
    assert_eq!(db, Database::new());
}

#[test]
fn out_of_order_set_is_rejected() {
    let mut db = Database::new();
    let mut marker: u64 = 0;
    let twice = vec![migration_v001(), migration_v001()];
    let r = apply_pending(&mut db, &mut marker, &twice);
    match r {
        Err(RunError::OrderingViolation { version }) => assert_eq!(version, 1),
        other => panic!("expected an ordering violation, got {:?}", other),
    }
    // the first copy was applied and recorded before the violation
    assert_eq!(marker, 1);
    assert!(db.tables.iter().any(|t| t.name == "tasks"));
}

#[test]
fn insert_row_rejects_bad_rows() {
    let mut db = Database::new();
    let mut marker: u64 = 0;
    assert!(apply_pending(&mut db, &mut marker, &vec![migration_v001()]).is_ok());
    let before = copy_database(&db);

    let missing = insert_row(&mut db, &"nowhere".to_string(), &vec![Value::Int(1)]);
    assert_eq!(missing, Err(EffectError::NoSuchTable));

    let short = insert_row(&mut db, &"tags".to_string(), &vec![Value::Int(1)]);
    assert_eq!(short, Err(EffectError::ColumnCountMismatch));

    // `name` in `tags` is required
    let nulled = insert_row(
        &mut db,
        &"tags".to_string(),
        &vec![
            Value::Text("g1".to_string()),
            Value::Null,
            Value::Text("red".to_string()),
            Value::Null,
        ],
    );
    assert_eq!(nulled, Err(EffectError::NotNullViolation));
    assert_eq!(db, before);
}

#[test]
fn effect_errors_name_their_cause() {
    let mut db = Database::new();
    let mut marker: u64 = 0;
    assert!(apply_pending(&mut db, &mut marker, &vec![migration_v001()]).is_ok());

    let dup_table = Effect::CreateTable {
        name: "tags".to_string(),
        columns: vec![ColumnDef { name: "id".to_string(), not_null: true }],
        if_not_exists: false,
    };
    assert_eq!(apply_effect(&mut db, &dup_table), Err(EffectError::TableExists));

    let dup_column = Effect::AddColumn {
        table: "tags".to_string(),
        column: ColumnDef { name: "name".to_string(), not_null: false },
    };
    assert_eq!(apply_effect(&mut db, &dup_column), Err(EffectError::DuplicateColumn));

    let required_column = Effect::AddColumn {
        table: "tags".to_string(),
        column: ColumnDef { name: "weight".to_string(), not_null: true },
    };
    assert_eq!(apply_effect(&mut db, &required_column), Err(EffectError::NotNullAddition));

    let lost_table = Effect::CreateIndex {
        name: "idx_nowhere".to_string(),
        table: "nowhere".to_string(),
        column: "id".to_string(),
        if_not_exists: false,
    };
    assert_eq!(apply_effect(&mut db, &lost_table), Err(EffectError::NoSuchTable));

    let lost_column = Effect::CreateIndex {
        name: "idx_tags_weight".to_string(),
        table: "tags".to_string(),
        column: "weight".to_string(),
        if_not_exists: false,
    };
    assert_eq!(apply_effect(&mut db, &lost_column), Err(EffectError::NoSuchColumn));

    let dup_index = Effect::CreateIndex {
        name: "idx_tasks_uid".to_string(),
        table: "tasks".to_string(),
        column: "uid".to_string(),
        if_not_exists: false,
    };
    assert_eq!(apply_effect(&mut db, &dup_index), Err(EffectError::IndexExists));

    let narrow_rebuild = Effect::RebuildTable {
        table: "tags".to_string(),
        columns: vec![ColumnDef { name: "id".to_string(), not_null: true }],
    };
    assert_eq!(apply_effect(&mut db, &narrow_rebuild), Err(EffectError::ColumnCountMismatch));
}

#[test]
fn rebuild_rejects_rows_that_break_a_new_constraint() {
    let mut db = Database::new();
    let mut marker: u64 = 0;
    let first_two = vec![migration_v001(), migration_v002()];
    assert!(apply_pending(&mut db, &mut marker, &first_two).is_ok());
    // a local-only task: no account, allowed after the rebuild
    let mut row = sample_task_row("t1", "u1", "Local");
    row[22] = Value::Null;
    row[23] = Value::Null;
    assert!(insert_row(&mut db, &"tasks".to_string(), &row).is_ok());

    // rebuilding back to required account and calendar must fail
    let tasks_v1 = match &migration_v001().effects[2] {
        Effect::CreateTable { columns, .. } => columns.clone(),
        other => panic!("unexpected effect {:?}", other),
    };
    let strict_rebuild = Effect::RebuildTable { table: "tasks".to_string(), columns: tasks_v1 };
    let before = copy_database(&db);
    assert_eq!(apply_effect(&mut db, &strict_rebuild), Err(EffectError::NotNullViolation));
    assert_eq!(db, before);
}

#[test]
fn seed_row_leaves_a_populated_table_alone() {
    let mut db = Database::new();
    let mut marker: u64 = 0;
    assert!(apply_pending(&mut db, &mut marker, &vec![migration_v001()]).is_ok());
    let ui_before = table(&db, "ui_state").rows.clone();
    assert_eq!(ui_before.len(), 1);

    let reseed = Effect::SeedRow {
        table: "ui_state".to_string(),
        row: vec![
            Value::Int(1),
            Value::Null,
            Value::Null,
            Value::Null,
            Value::Null,
            Value::Text("other".to_string()),
            Value::Text("due".to_string()),
            Value::Text("desc".to_string()),
            Value::Int(0),
            Value::Int(1),
        ],
    };
    assert!(apply_effect(&mut db, &reseed).is_ok());
    assert_eq!(table(&db, "ui_state").rows, ui_before);
}

#[test]
fn rebuild_drops_the_table_indexes_and_recreates_them() {
    let mut db = Database::new();
    let mut marker: u64 = 0;
    assert!(apply_pending(&mut db, &mut marker, &vec![migration_v001()]).is_ok());
    assert_eq!(db.indexes.len(), 5);
    assert!(apply_pending(&mut db, &mut marker, &vec![migration_v002()]).is_ok());
    // the four task indexes were dropped with the old table and recreated
    assert_eq!(db.indexes.len(), 5);
    assert!(db.indexes.iter().any(|ix| ix.name == "idx_calendars_account_id"));
    assert!(db.indexes.iter().any(|ix| ix.name == "idx_tasks_uid"));
}
