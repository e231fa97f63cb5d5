//! The initial schema: the core tables, the single-row interface-state
//! table with its seed row, and the lookup indexes.

use vstd::prelude::*;

use crate::descriptor::Effect;
use crate::descriptor::Migration;
use crate::descriptor::MigrationKind;
use crate::descriptor::Value;
use crate::descriptor::push_col;
use crate::descriptor::push_effect;
use crate::descriptor::push_value;
use crate::model::ColumnModel;
use crate::model::EffectModel;
use crate::model::MigrationModel;
use crate::model::ValueModel;
use crate::model::colm;

verus! {

/// Columns of the `accounts` table.
pub open spec fn accounts_columns_m() -> Seq<ColumnModel> {
    seq![
        colm("id"@, true),
        colm("name"@, true),
        colm("server_url"@, true),
        colm("username"@, true),
        colm("password"@, true),
        colm("server_type"@, false),
        colm("last_sync"@, false),
        colm("is_active"@, true),
    ]
}

fn accounts_columns() -> (c: Vec<crate::descriptor::ColumnDef>)
    ensures
        c.deep_view() == accounts_columns_m(),
{
    let mut c: Vec<crate::descriptor::ColumnDef> = Vec::new();
    proof {
        assert(c.deep_view() =~= Seq::<ColumnModel>::empty());
    }
    push_col(&mut c, "id", true);
    push_col(&mut c, "name", true);
    push_col(&mut c, "server_url", true);
    push_col(&mut c, "username", true);
    push_col(&mut c, "password", true);
    push_col(&mut c, "server_type", false);
    push_col(&mut c, "last_sync", false);
    push_col(&mut c, "is_active", true);
    proof {
        assert(c.deep_view() =~= accounts_columns_m());
    }
    c
}

/// Columns of the `calendars` table.
pub open spec fn calendars_columns_m() -> Seq<ColumnModel> {
    seq![
        colm("id"@, true),
        colm("account_id"@, true),
        colm("display_name"@, true),
        colm("url"@, true),
        colm("ctag"@, false),
        colm("sync_token"@, false),
        colm("color"@, false),
        colm("icon"@, false),
        colm("supported_components"@, false),
    ]
}

fn calendars_columns() -> (c: Vec<crate::descriptor::ColumnDef>)
    ensures
        c.deep_view() == calendars_columns_m(),
{
    let mut c: Vec<crate::descriptor::ColumnDef> = Vec::new();
    proof {
        assert(c.deep_view() =~= Seq::<ColumnModel>::empty());
    }
    push_col(&mut c, "id", true);
    push_col(&mut c, "account_id", true);
    push_col(&mut c, "display_name", true);
    push_col(&mut c, "url", true);
    push_col(&mut c, "ctag", false);
    push_col(&mut c, "sync_token", false);
    push_col(&mut c, "color", false);
    push_col(&mut c, "icon", false);
    push_col(&mut c, "supported_components", false);
    proof {
        assert(c.deep_view() =~= calendars_columns_m());
    }
    c
}

/// Columns of the `tasks` table as first created: a task must name its
/// account and calendar.
pub open spec fn tasks_columns_m() -> Seq<ColumnModel> {
    seq![
        colm("id"@, true),
        colm("uid"@, true),
        colm("etag"@, false),
        colm("href"@, false),
        colm("title"@, true),
        colm("description"@, true),
        colm("completed"@, true),
        colm("completed_at"@, false),
        colm("tags"@, false),
        colm("category_id"@, false),
        colm("priority"@, true),
        colm("start_date"@, false),
        colm("start_date_all_day"@, false),
        colm("due_date"@, false),
        colm("due_date_all_day"@, false),
        colm("created_at"@, true),
        colm("modified_at"@, true),
        colm("reminders"@, false),
        colm("subtasks"@, true),
        colm("parent_uid"@, false),
        colm("is_collapsed"@, false),
        colm("sort_order"@, true),
        colm("account_id"@, true),
        colm("calendar_id"@, true),
        colm("synced"@, true),
        colm("local_only"@, false),
    ]
}

fn tasks_columns() -> (c: Vec<crate::descriptor::ColumnDef>)
    ensures
        c.deep_view() == tasks_columns_m(),
{
    let mut c: Vec<crate::descriptor::ColumnDef> = Vec::new();
    proof {
        assert(c.deep_view() =~= Seq::<ColumnModel>::empty());
    }
    push_col(&mut c, "id", true);
    push_col(&mut c, "uid", true);
    push_col(&mut c, "etag", false);
    push_col(&mut c, "href", false);
    push_col(&mut c, "title", true);
    push_col(&mut c, "description", true);
    push_col(&mut c, "completed", true);
    push_col(&mut c, "completed_at", false);
    push_col(&mut c, "tags", false);
    push_col(&mut c, "category_id", false);
    push_col(&mut c, "priority", true);
    push_col(&mut c, "start_date", false);
    push_col(&mut c, "start_date_all_day", false);
    push_col(&mut c, "due_date", false);
    push_col(&mut c, "due_date_all_day", false);
    push_col(&mut c, "created_at", true);
    push_col(&mut c, "modified_at", true);
    push_col(&mut c, "reminders", false);
    push_col(&mut c, "subtasks", true);
    push_col(&mut c, "parent_uid", false);
    push_col(&mut c, "is_collapsed", false);
    push_col(&mut c, "sort_order", true);
    push_col(&mut c, "account_id", true);
    push_col(&mut c, "calendar_id", true);
    push_col(&mut c, "synced", true);
    push_col(&mut c, "local_only", false);
    proof {
        assert(c.deep_view() =~= tasks_columns_m());
    }
    c
}

/// Columns of the `tags` table.
pub open spec fn tags_columns_m() -> Seq<ColumnModel> {
    seq![colm("id"@, true), colm("name"@, true), colm("color"@, true), colm("icon"@, false)]
}

fn tags_columns() -> (c: Vec<crate::descriptor::ColumnDef>)
    ensures
        c.deep_view() == tags_columns_m(),
{
    let mut c: Vec<crate::descriptor::ColumnDef> = Vec::new();
    proof {
        assert(c.deep_view() =~= Seq::<ColumnModel>::empty());
    }
    push_col(&mut c, "id", true);
    push_col(&mut c, "name", true);
    push_col(&mut c, "color", true);
    push_col(&mut c, "icon", false);
    proof {
        assert(c.deep_view() =~= tags_columns_m());
    }
    c
}

/// Columns of the `pending_deletions` table.
pub open spec fn pending_deletions_columns_m() -> Seq<ColumnModel> {
    seq![
        colm("uid"@, true),
        colm("href"@, true),
        colm("account_id"@, true),
        colm("calendar_id"@, true),
    ]
}

fn pending_deletions_columns() -> (c: Vec<crate::descriptor::ColumnDef>)
    ensures
        c.deep_view() == pending_deletions_columns_m(),
{
    let mut c: Vec<crate::descriptor::ColumnDef> = Vec::new();
    proof {
        assert(c.deep_view() =~= Seq::<ColumnModel>::empty());
    }
    push_col(&mut c, "uid", true);
    push_col(&mut c, "href", true);
    push_col(&mut c, "account_id", true);
    push_col(&mut c, "calendar_id", true);
    proof {
        assert(c.deep_view() =~= pending_deletions_columns_m());
    }
    c
}

/// Columns of the single-row `ui_state` table.
pub open spec fn ui_state_columns_m() -> Seq<ColumnModel> {
    seq![
        colm("id"@, true),
        colm("active_account_id"@, false),
        colm("active_calendar_id"@, false),
        colm("active_tag_id"@, false),
        colm("selected_task_id"@, false),
        colm("search_query"@, true),
        colm("sort_mode"@, true),
        colm("sort_direction"@, true),
        colm("show_completed_tasks"@, true),
        colm("is_editor_open"@, true),
    ]
}

fn ui_state_columns() -> (c: Vec<crate::descriptor::ColumnDef>)
    ensures
        c.deep_view() == ui_state_columns_m(),
{
    let mut c: Vec<crate::descriptor::ColumnDef> = Vec::new();
    proof {
        assert(c.deep_view() =~= Seq::<ColumnModel>::empty());
    }
    push_col(&mut c, "id", true);
    push_col(&mut c, "active_account_id", false);
    push_col(&mut c, "active_calendar_id", false);
    push_col(&mut c, "active_tag_id", false);
    push_col(&mut c, "selected_task_id", false);
    push_col(&mut c, "search_query", true);
    push_col(&mut c, "sort_mode", true);
    push_col(&mut c, "sort_direction", true);
    push_col(&mut c, "show_completed_tasks", true);
    push_col(&mut c, "is_editor_open", true);
    proof {
        assert(c.deep_view() =~= ui_state_columns_m());
    }
    c
}

/// The default interface state seeded into `ui_state`: row id 1, no
/// active selections, an empty search, manual ascending sort, completed
/// tasks shown, the editor closed.
pub open spec fn ui_state_seed_m() -> Seq<ValueModel> {
    seq![
        ValueModel::Int(1),
        ValueModel::Null,
        ValueModel::Null,
        ValueModel::Null,
        ValueModel::Null,
        ValueModel::Text(""@),
        ValueModel::Text("manual"@),
        ValueModel::Text("asc"@),
        ValueModel::Int(1),
        ValueModel::Int(0),
    ]
}

fn ui_state_seed() -> (r: Vec<Value>)
    ensures
        r.deep_view() == ui_state_seed_m(),
{
    let mut r: Vec<Value> = Vec::new();
    proof {
        assert(r.deep_view() =~= Seq::<ValueModel>::empty());
    }
    push_value(&mut r, Value::Int(1));
    push_value(&mut r, Value::Null);
    push_value(&mut r, Value::Null);
    push_value(&mut r, Value::Null);
    push_value(&mut r, Value::Null);
    push_value(&mut r, Value::Text("".to_owned()));
    push_value(&mut r, Value::Text("manual".to_owned()));
    push_value(&mut r, Value::Text("asc".to_owned()));
    push_value(&mut r, Value::Int(1));
    push_value(&mut r, Value::Int(0));
    proof {
        assert(r.deep_view() =~= ui_state_seed_m());
    }
    r
}

/// The full descriptor this module contributes.
pub open spec fn migration_m() -> MigrationModel {
    MigrationModel {
        version: 1,
        description: "create_initial_tables"@,
        effects: seq![
            EffectModel::CreateTable {
                name: "accounts"@,
                columns: accounts_columns_m(),
                if_not_exists: true,
            },
            EffectModel::CreateTable {
                name: "calendars"@,
                columns: calendars_columns_m(),
                if_not_exists: true,
            },
            EffectModel::CreateTable {
                name: "tasks"@,
                columns: tasks_columns_m(),
                if_not_exists: true,
            },
            EffectModel::CreateTable {
                name: "tags"@,
                columns: tags_columns_m(),
                if_not_exists: true,
            },
            EffectModel::CreateTable {
                name: "pending_deletions"@,
                columns: pending_deletions_columns_m(),
                if_not_exists: true,
            },
            EffectModel::CreateTable {
                name: "ui_state"@,
                columns: ui_state_columns_m(),
                if_not_exists: true,
            },
            EffectModel::SeedRow { table: "ui_state"@, row: ui_state_seed_m() },
            EffectModel::CreateIndex {
                name: "idx_tasks_calendar_id"@,
                table: "tasks"@,
                column: "calendar_id"@,
                if_not_exists: true,
            },
            EffectModel::CreateIndex {
                name: "idx_tasks_account_id"@,
                table: "tasks"@,
                column: "account_id"@,
                if_not_exists: true,
            },
            EffectModel::CreateIndex {
                name: "idx_tasks_parent_uid"@,
                table: "tasks"@,
                column: "parent_uid"@,
                if_not_exists: true,
            },
            EffectModel::CreateIndex {
                name: "idx_tasks_uid"@,
                table: "tasks"@,
                column: "uid"@,
                if_not_exists: true,
            },
            EffectModel::CreateIndex {
                name: "idx_calendars_account_id"@,
                table: "calendars"@,
                column: "account_id"@,
                if_not_exists: true,
            },
        ],
        kind: MigrationKind::Up,
    }
}

/// The initial schema: every core table, the seeded interface-state row,
/// and the lookup indexes.
pub fn migration() -> (m: Migration)
    ensures
        m@ == migration_m(),
{
    let mut effects: Vec<Effect> = Vec::new();
    proof {
        assert(effects.deep_view() =~= Seq::<EffectModel>::empty());
    }
    push_effect(
        &mut effects,
        Effect::CreateTable {
            name: "accounts".to_owned(),
            columns: accounts_columns(),
            if_not_exists: true,
        },
    );
    push_effect(
        &mut effects,
        Effect::CreateTable {
            name: "calendars".to_owned(),
            columns: calendars_columns(),
            if_not_exists: true,
        },
    );
    push_effect(
        &mut effects,
        Effect::CreateTable {
            name: "tasks".to_owned(),
            columns: tasks_columns(),
            if_not_exists: true,
        },
    );
    push_effect(
        &mut effects,
        Effect::CreateTable {
            name: "tags".to_owned(),
            columns: tags_columns(),
            if_not_exists: true,
        },
    );
    push_effect(
        &mut effects,
        Effect::CreateTable {
            name: "pending_deletions".to_owned(),
            columns: pending_deletions_columns(),
            if_not_exists: true,
        },
    );
    push_effect(
        &mut effects,
        Effect::CreateTable {
            name: "ui_state".to_owned(),
            columns: ui_state_columns(),
            if_not_exists: true,
        },
    );
    push_effect(
        &mut effects,
        Effect::SeedRow { table: "ui_state".to_owned(), row: ui_state_seed() },
    );
    push_effect(
        &mut effects,
        Effect::CreateIndex {
            name: "idx_tasks_calendar_id".to_owned(),
            table: "tasks".to_owned(),
            column: "calendar_id".to_owned(),
            if_not_exists: true,
        },
    );
    push_effect(
        &mut effects,
        Effect::CreateIndex {
            name: "idx_tasks_account_id".to_owned(),
            table: "tasks".to_owned(),
            column: "account_id".to_owned(),
            if_not_exists: true,
        },
    );
    push_effect(
        &mut effects,
        Effect::CreateIndex {
            name: "idx_tasks_parent_uid".to_owned(),
            table: "tasks".to_owned(),
            column: "parent_uid".to_owned(),
            if_not_exists: true,
        },
    );
    push_effect(
        &mut effects,
        Effect::CreateIndex {
            name: "idx_tasks_uid".to_owned(),
            table: "tasks".to_owned(),
            column: "uid".to_owned(),
            if_not_exists: true,
        },
    );
    push_effect(
        &mut effects,
        Effect::CreateIndex {
            name: "idx_calendars_account_id".to_owned(),
            table: "calendars".to_owned(),
            column: "account_id".to_owned(),
            if_not_exists: true,
        },
    );
    let m = Migration {
        version: 1,
        description: "create_initial_tables".to_owned(),
        effects,
        kind: MigrationKind::Up,
    };
    proof {
        assert(m@.effects =~= migration_m().effects);
        assert(m@ =~= migration_m());
    }
    m
}

} // verus!
