//! Adds a nullable `url` column to the `tasks` table, so a task can
//! link to an external resource.

use vstd::prelude::*;

use crate::descriptor::Effect;
use crate::descriptor::Migration;
use crate::descriptor::MigrationKind;
use crate::descriptor::col;
use crate::descriptor::push_effect;
use crate::model::EffectModel;
use crate::model::MigrationModel;
use crate::model::colm;

verus! {

/// The full descriptor this module contributes.
pub open spec fn migration_m() -> MigrationModel {
    MigrationModel {
        version: 3,
        description: "add_url_field_to_tasks"@,
        effects: seq![
            EffectModel::AddColumn { table: "tasks"@, column: colm("url"@, false) },
        ],
        kind: MigrationKind::Up,
    }
}

/// Adds the nullable `url` column to `tasks`; every existing row keeps
/// its values and gets no link.
pub fn migration() -> (m: Migration)
    ensures
        m@ == migration_m(),
{
    let mut effects: Vec<Effect> = Vec::new();
    proof {
        assert(effects.deep_view() =~= Seq::<EffectModel>::empty());
    }
    push_effect(
        &mut effects,
        Effect::AddColumn { table: "tasks".to_owned(), column: col("url", false) },
    );
    let m = Migration {
        version: 3,
        description: "add_url_field_to_tasks".to_owned(),
        effects,
        kind: MigrationKind::Up,
    };
    proof {
        assert(m@.effects =~= migration_m().effects);
        assert(m@ =~= migration_m());
    }
    m
}

} // verus!
