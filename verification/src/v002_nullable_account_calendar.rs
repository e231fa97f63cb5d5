//! Relaxes the `tasks` table so a task may exist without an account or
//! calendar: the table is rebuilt — every stored row kept — with
//! `account_id` and `calendar_id` nullable, and its lookup indexes are
//! recreated.

use vstd::prelude::*;

use crate::descriptor::Effect;
use crate::descriptor::Migration;
use crate::descriptor::MigrationKind;
use crate::descriptor::push_col;
use crate::descriptor::push_effect;
use crate::model::ColumnModel;
use crate::model::EffectModel;
use crate::model::MigrationModel;
use crate::model::colm;

verus! {

/// Columns of the rebuilt `tasks` table: as before, but `account_id`
/// and `calendar_id` no longer required.
pub open spec fn tasks_columns_m() -> Seq<ColumnModel> {
    seq![
        colm("id"@, true),
        colm("uid"@, true),
        colm("etag"@, false),
        colm("href"@, false),
        colm("title"@, true),
        colm("description"@, true),
        colm("completed"@, true),
        colm("completed_at"@, false),
        colm("tags"@, false),
        colm("category_id"@, false),
        colm("priority"@, true),
        colm("start_date"@, false),
        colm("start_date_all_day"@, false),
        colm("due_date"@, false),
        colm("due_date_all_day"@, false),
        colm("created_at"@, true),
        colm("modified_at"@, true),
        colm("reminders"@, false),
        colm("subtasks"@, true),
        colm("parent_uid"@, false),
        colm("is_collapsed"@, false),
        colm("sort_order"@, true),
        colm("account_id"@, false),
        colm("calendar_id"@, false),
        colm("synced"@, true),
        colm("local_only"@, false),
    ]
}

fn tasks_columns() -> (c: Vec<crate::descriptor::ColumnDef>)
    ensures
        c.deep_view() == tasks_columns_m(),
{
    let mut c: Vec<crate::descriptor::ColumnDef> = Vec::new();
    proof {
        assert(c.deep_view() =~= Seq::<ColumnModel>::empty());
    }
    push_col(&mut c, "id", true);
    push_col(&mut c, "uid", true);
    push_col(&mut c, "etag", false);
    push_col(&mut c, "href", false);
    push_col(&mut c, "title", true);
    push_col(&mut c, "description", true);
    push_col(&mut c, "completed", true);
    push_col(&mut c, "completed_at", false);
    push_col(&mut c, "tags", false);
    push_col(&mut c, "category_id", false);
    push_col(&mut c, "priority", true);
    push_col(&mut c, "start_date", false);
    push_col(&mut c, "start_date_all_day", false);
    push_col(&mut c, "due_date", false);
    push_col(&mut c, "due_date_all_day", false);
    push_col(&mut c, "created_at", true);
    push_col(&mut c, "modified_at", true);
    push_col(&mut c, "reminders", false);
    push_col(&mut c, "subtasks", true);
    push_col(&mut c, "parent_uid", false);
    push_col(&mut c, "is_collapsed", false);
    push_col(&mut c, "sort_order", true);
    push_col(&mut c, "account_id", false);
    push_col(&mut c, "calendar_id", false);
    push_col(&mut c, "synced", true);
    push_col(&mut c, "local_only", false);
    proof {
        assert(c.deep_view() =~= tasks_columns_m());
    }
    c
}

/// The full descriptor this module contributes.
pub open spec fn migration_m() -> MigrationModel {
    MigrationModel {
        version: 2,
        description: "make_task_account_calendar_nullable"@,
        effects: seq![
            EffectModel::RebuildTable { table: "tasks"@, columns: tasks_columns_m() },
            EffectModel::CreateIndex {
                name: "idx_tasks_calendar_id"@,
                table: "tasks"@,
                column: "calendar_id"@,
                if_not_exists: false,
            },
            EffectModel::CreateIndex {
                name: "idx_tasks_account_id"@,
                table: "tasks"@,
                column: "account_id"@,
                if_not_exists: false,
            },
            EffectModel::CreateIndex {
                name: "idx_tasks_parent_uid"@,
                table: "tasks"@,
                column: "parent_uid"@,
                if_not_exists: false,
            },
            EffectModel::CreateIndex {
                name: "idx_tasks_uid"@,
                table: "tasks"@,
                column: "uid"@,
                if_not_exists: false,
            },
        ],
        kind: MigrationKind::Up,
    }
}

/// Makes `account_id` and `calendar_id` nullable in the `tasks` table,
/// so tasks can live locally without a remote account.
pub fn migration() -> (m: Migration)
    ensures
        m@ == migration_m(),
{
    let mut effects: Vec<Effect> = Vec::new();
    proof {
        assert(effects.deep_view() =~= Seq::<EffectModel>::empty());
    }
    push_effect(
        &mut effects,
        Effect::RebuildTable { table: "tasks".to_owned(), columns: tasks_columns() },
    );
    push_effect(
        &mut effects,
        Effect::CreateIndex {
            name: "idx_tasks_calendar_id".to_owned(),
            table: "tasks".to_owned(),
            column: "calendar_id".to_owned(),
            if_not_exists: false,
        },
    );
    push_effect(
        &mut effects,
        Effect::CreateIndex {
            name: "idx_tasks_account_id".to_owned(),
            table: "tasks".to_owned(),
            column: "account_id".to_owned(),
            if_not_exists: false,
        },
    );
    push_effect(
        &mut effects,
        Effect::CreateIndex {
            name: "idx_tasks_parent_uid".to_owned(),
            table: "tasks".to_owned(),
            column: "parent_uid".to_owned(),
            if_not_exists: false,
        },
    );
    push_effect(
        &mut effects,
        Effect::CreateIndex {
            name: "idx_tasks_uid".to_owned(),
            table: "tasks".to_owned(),
            column: "uid".to_owned(),
            if_not_exists: false,
        },
    );
    let m = Migration {
        version: 2,
        description: "make_task_account_calendar_nullable".to_owned(),
        effects,
        kind: MigrationKind::Up,
    };
    proof {
        assert(m@.effects =~= migration_m().effects);
        assert(m@ =~= migration_m());
    }
    m
}

} // verus!
