use schema_migrations::descriptor::Effect;
use schema_migrations::descriptor::MigrationKind;
use schema_migrations::get_migrations;

#[test]
fn registry_is_sorted_strictly_ascending() {
    let ms = get_migrations();
    assert_eq!(ms.len(), 3);
    for i in 0..ms.len() {
        for j in (i + 1)..ms.len() {
            assert!(ms[i].version < ms[j].version);
        }
    }
}

#[test]
fn registry_versions_and_descriptions() {
    let ms = get_migrations();
    assert_eq!(ms[0].version, 1);
    assert_eq!(ms[0].description, "create_initial_tables");
    assert_eq!(ms[1].version, 2);
    assert_eq!(ms[1].description, "make_task_account_calendar_nullable");
    assert_eq!(ms[2].version, 3);
    assert_eq!(ms[2].description, "add_url_field_to_tasks");
    for m in &ms {
        assert_eq!(m.kind, MigrationKind::Up);
    }
}

#[test]
fn registry_is_deterministic_across_calls() {
    let a = get_migrations();
    let b = get_migrations();
    assert_eq!(a, b);
}

#[test]
fn initial_migration_creates_all_tables() {
    let ms = get_migrations();
    let mut created: Vec<String> = Vec::new();
    for e in &ms[0].effects {
        if let Effect::CreateTable { name, .. } = e {
            created.push(name.clone());
        }
    }
    assert_eq!(
        created,
        vec!["accounts", "calendars", "tasks", "tags", "pending_deletions", "ui_state"]
    );
}

#[test]
fn third_migration_adds_url_column() {
    let ms = get_migrations();
    assert_eq!(ms[2].effects.len(), 1);
    match &ms[2].effects[0] {
        Effect::AddColumn { table, column } => {
            assert_eq!(table, "tasks");
            assert_eq!(column.name, "url");
            assert!(!column.not_null);
        }
        other => panic!("unexpected effect {:?}", other),
    }
}

#[test]
fn descriptor_accessors_match_fields() {
    let m = schema_migrations::migration_v003();
    assert_eq!(m.version(), 3);
    assert_eq!(m.description().as_str(), "add_url_field_to_tasks");
    assert_eq!(m.effects().len(), 1);
    assert_eq!(m.kind(), MigrationKind::Up);
}
