//! The engine's guarantees, stated and proved over the model: a run
//! never reapplies what the marker records, a finished set is idempotent
//! to rerun, a rebuild preserves stored rows, and a column addition
//! leaves existing data untouched.

use vstd::prelude::*;

use crate::descriptor::EffectError;
use crate::model::ColumnModel;
use crate::model::DbModel;
use crate::model::EffectModel;
use crate::model::MigrationModel;
use crate::model::RunOutcome;
use crate::model::ValueModel;
use crate::model::apply_effect_s;
use crate::model::is_first_table_match;
use crate::model::lemma_first_table_match_exists;
use crate::model::rebuild_table_s;
use crate::model::add_column_s;
use crate::model::has_table;
use crate::model::run_s;
use crate::model::TableModel;
use crate::model::apply_effects_s;
use crate::model::db_wf;
use crate::model::rows_with_null;
use crate::model::table_wf;
use crate::model::strictly_sorted;
use crate::model::table_at;

verus! {

/// Resumability: a run whose whole ordered set is already recorded by
/// the marker — as after a restart — applies nothing, leaves the
/// database untouched, and reports no error.  `prev`, the version
/// presented before this set, must lie below the set for the run to be
/// ordered; a fresh run has `prev == None`.
pub proof fn lemma_recorded_set_is_skipped(
    db: DbModel,
    marker: u64,
    prev: Option<u64>,
    migrations: Seq<MigrationModel>,
)
    requires
        strictly_sorted(migrations),
        forall|k: int|
            0 <= k < migrations.len() ==> (#[trigger] migrations[k]).version <= marker,
        prev is Some && migrations.len() > 0 ==> prev->0 < migrations[0].version,
    ensures
        run_s(db, marker, prev, migrations) == (RunOutcome { db, marker, error: None }),
    decreases migrations.len(),
{
    if migrations.len() > 0 {
        let m = migrations[0];
        let rest = migrations.skip(1);
        assert(m.version <= marker);
        assert(forall|k: int|
            0 <= k < rest.len() ==> #[trigger] rest[k] == migrations[k + 1]);
        lemma_recorded_set_is_skipped(db, marker, Some(m.version), rest);
    }
}

/// After a successful run the marker stands at or above its old value
/// and at or above every version of the set: nothing recorded is ever
/// lost, and nothing of the set is left unrecorded.
pub proof fn lemma_success_marker_dominates(
    db: DbModel,
    marker: u64,
    prev: Option<u64>,
    migrations: Seq<MigrationModel>,
)
    requires
        run_s(db, marker, prev, migrations).error is None,
    ensures
        run_s(db, marker, prev, migrations).marker >= marker,
        forall|k: int|
            0 <= k < migrations.len() ==> (#[trigger] migrations[k]).version <= run_s(
                db,
                marker,
                prev,
                migrations,
            ).marker,
    decreases migrations.len(),
{
    let out = run_s(db, marker, prev, migrations);
    if migrations.len() > 0 {
        let m = migrations[0];
        let rest = migrations.skip(1);
        assert(forall|k: int|
            0 <= k < rest.len() ==> #[trigger] rest[k] == migrations[k + 1]);
        if prev is Some && m.version <= prev->0 {
            assert(false);
        } else if m.version <= marker {
            lemma_success_marker_dominates(db, marker, Some(m.version), rest);
            assert(out == run_s(db, marker, Some(m.version), rest));
            assert forall|k: int|
                0 <= k < migrations.len() implies (#[trigger] migrations[k]).version
                <= out.marker by {
                if k > 0 {
                    assert(migrations[k] == rest[k - 1]);
                }
            }
        } else {
            match crate::model::apply_effects_s(db, m.effects) {
                Ok(d) => {
                    lemma_success_marker_dominates(d, m.version, Some(m.version), rest);
                    assert(out == run_s(d, m.version, Some(m.version), rest));
                    assert(out.marker >= m.version);
                    assert forall|k: int|
                        0 <= k < migrations.len() implies (#[trigger] migrations[k]).version
                        <= out.marker by {
                        if k > 0 {
                            assert(migrations[k] == rest[k - 1]);
                        }
                    }
                },
                Err(_c) => {
                    assert(false);
                },
            }
        }
    }
}

/// The marker never moves backward: whatever a run meets — skips,
/// applications, a failure, an ordering violation — it leaves the marker
/// at or above where it found it.
pub proof fn lemma_marker_never_decreases(
    db: DbModel,
    marker: u64,
    prev: Option<u64>,
    migrations: Seq<MigrationModel>,
)
    ensures
        run_s(db, marker, prev, migrations).marker >= marker,
    decreases migrations.len(),
{
    if migrations.len() > 0 {
        let m = migrations[0];
        let rest = migrations.skip(1);
        if !(prev is Some && m.version <= prev->0) {
            if m.version <= marker {
                lemma_marker_never_decreases(db, marker, Some(m.version), rest);
            } else {
                match apply_effects_s(db, m.effects) {
                    Ok(d) => {
                        lemma_marker_never_decreases(d, m.version, Some(m.version), rest);
                    },
                    Err(_c) => {},
                }
            }
        }
    }
}

/// Idempotence: rerunning the full ordered set right after a successful
/// run — as a second launch of the same build does — changes neither the
/// database nor the marker and reports no error.
pub proof fn lemma_second_run_is_noop(db: DbModel, marker: u64, migrations: Seq<MigrationModel>)
    requires
        strictly_sorted(migrations),
        run_s(db, marker, None, migrations).error is None,
    ensures
        ({
            let out = run_s(db, marker, None, migrations);
            run_s(out.db, out.marker, None, migrations) == (RunOutcome {
                db: out.db,
                marker: out.marker,
                error: None,
            })
        }),
{
    let out = run_s(db, marker, None, migrations);
    lemma_success_marker_dominates(db, marker, None, migrations);
    lemma_recorded_set_is_skipped(out.db, out.marker, None, migrations);
}

/// A strictly sorted set — the registry's shape — never trips the
/// ordering check, whatever the database and marker hold: its only
/// failure mode is a failing migration.
pub proof fn lemma_sorted_set_never_out_of_order(
    db: DbModel,
    marker: u64,
    prev: Option<u64>,
    migrations: Seq<MigrationModel>,
)
    requires
        strictly_sorted(migrations),
        prev is Some && migrations.len() > 0 ==> prev->0 < migrations[0].version,
    ensures
        !(run_s(db, marker, prev, migrations).error matches Some(
            crate::model::RunErrorModel::OrderingViolation { .. },
        )),
    decreases migrations.len(),
{
    if migrations.len() > 0 {
        let m = migrations[0];
        let rest = migrations.skip(1);
        assert(forall|k: int|
            0 <= k < rest.len() ==> #[trigger] rest[k] == migrations[k + 1]);
        if m.version <= marker {
            lemma_sorted_set_never_out_of_order(db, marker, Some(m.version), rest);
        } else {
            match crate::model::apply_effects_s(db, m.effects) {
                Ok(d) => {
                    lemma_sorted_set_never_out_of_order(d, m.version, Some(m.version), rest);
                },
                Err(_c) => {},
            }
        }
    }
}

/// One successful effect keeps the database well formed: every row
/// still has one value per column, and table names stay distinct.
pub proof fn lemma_effect_preserves_wf(db: DbModel, e: EffectModel, out: DbModel)
    requires
        db_wf(db),
        apply_effect_s(db, e) == Ok::<DbModel, EffectError>(out),
    ensures
        db_wf(out),
{
    match e {
        EffectModel::CreateTable { name, columns, if_not_exists } => {
            if !has_table(db.tables, name) {
                let t = TableModel {
                    name,
                    columns,
                    rows: Seq::<Seq<ValueModel>>::empty(),
                };
                assert(table_wf(t));
                assert(forall|i: int|
                    0 <= i < db.tables.len() ==> (#[trigger] db.tables[i]).name != name);
                assert(forall|i: int|
                    0 <= i < out.tables.len() ==> table_wf(#[trigger] out.tables[i]));
            }
        },
        EffectModel::RebuildTable { table, columns } => {
            lemma_first_table_match_exists(db.tables, table);
            let i = table_at(db.tables, table);
            let t = db.tables[i];
            assert(table_wf(out.tables[i])) by {
                assert(forall|r: int|
                    0 <= r < t.rows.len() ==> (#[trigger] t.rows[r]).len() == t.columns.len());
            }
            assert(forall|k: int|
                0 <= k < out.tables.len() ==> table_wf(#[trigger] out.tables[k]));
            assert(forall|k: int|
                0 <= k < out.tables.len() ==> (#[trigger] out.tables[k]).name
                    == db.tables[k].name);
        },
        EffectModel::AddColumn { table, column } => {
            lemma_first_table_match_exists(db.tables, table);
            let i = table_at(db.tables, table);
            let t = db.tables[i];
            assert(table_wf(out.tables[i])) by {
                assert(forall|r: int|
                    0 <= r < t.rows.len() ==> #[trigger] rows_with_null(t.rows)[r]
                        == t.rows[r].push(ValueModel::Null));
            }
            assert(forall|k: int|
                0 <= k < out.tables.len() ==> table_wf(#[trigger] out.tables[k]));
            assert(forall|k: int|
                0 <= k < out.tables.len() ==> (#[trigger] out.tables[k]).name
                    == db.tables[k].name);
        },
        EffectModel::CreateIndex { .. } => {
            assert(out.tables == db.tables);
        },
        EffectModel::SeedRow { table, row } => {
            lemma_first_table_match_exists(db.tables, table);
            let i = table_at(db.tables, table);
            let t = db.tables[i];
            if t.rows.len() == 0 {
                assert(table_wf(out.tables[i]));
                assert(forall|k: int|
                    0 <= k < out.tables.len() ==> table_wf(#[trigger] out.tables[k]));
                assert(forall|k: int|
                    0 <= k < out.tables.len() ==> (#[trigger] out.tables[k]).name
                        == db.tables[k].name);
            }
        },
    }
}

/// A successful migration keeps the database well formed.
pub proof fn lemma_effects_preserve_wf(db: DbModel, effects: Seq<EffectModel>, out: DbModel)
    requires
        db_wf(db),
        apply_effects_s(db, effects) == Ok::<DbModel, EffectError>(out),
    ensures
        db_wf(out),
    decreases effects.len(),
{
    if effects.len() > 0 {
        match apply_effect_s(db, effects[0]) {
            Ok(d) => {
                lemma_effect_preserves_wf(db, effects[0], d);
                lemma_effects_preserve_wf(d, effects.skip(1), out);
            },
            Err(_c) => {},
        }
    }
}

/// Every run, finished or stopped, leaves the database well formed:
/// the schema invariants survive any upgrade path.
pub proof fn lemma_run_preserves_wf(
    db: DbModel,
    marker: u64,
    prev: Option<u64>,
    migrations: Seq<MigrationModel>,
)
    requires
        db_wf(db),
    ensures
        db_wf(run_s(db, marker, prev, migrations).db),
    decreases migrations.len(),
{
    if migrations.len() > 0 {
        let m = migrations[0];
        let rest = migrations.skip(1);
        if !(prev is Some && m.version <= prev->0) {
            if m.version <= marker {
                lemma_run_preserves_wf(db, marker, Some(m.version), rest);
            } else {
                match apply_effects_s(db, m.effects) {
                    Ok(d) => {
                        lemma_effects_preserve_wf(db, m.effects, d);
                        lemma_run_preserves_wf(d, m.version, Some(m.version), rest);
                    },
                    Err(_c) => {},
                }
            }
        }
    }
}

/// Data preservation under a rebuild: a successful `RebuildTable` keeps
/// the rebuilt table's name, every stored row with every column value,
/// and every other table entirely; only the column constraints and the
/// table's indexes change.
pub proof fn lemma_rebuild_preserves_rows(
    db: DbModel,
    table: Seq<char>,
    columns: Seq<ColumnModel>,
    out: DbModel,
)
    requires
        rebuild_table_s(db, table, columns) == Ok::<DbModel, EffectError>(out),
    ensures
        out.tables.len() == db.tables.len(),
        ({
            let i = table_at(db.tables, table);
            &&& is_first_table_match(db.tables, table, i)
            &&& out.tables[i].name == db.tables[i].name
            &&& out.tables[i].rows == db.tables[i].rows
            &&& out.tables[i].columns == columns
            &&& forall|k: int|
                0 <= k < db.tables.len() && k != i ==> #[trigger] out.tables[k] == db.tables[k]
        }),
{
    lemma_first_table_match_exists(db.tables, table);
}

/// Additive safety: a successful `AddColumn` appends the new nullable
/// column, leaves every existing row's values unchanged, extends each
/// row with `Null` alone, and touches no other table and no index.
pub proof fn lemma_add_column_preserves_data(
    db: DbModel,
    table: Seq<char>,
    column: ColumnModel,
    out: DbModel,
)
    requires
        add_column_s(db, table, column) == Ok::<DbModel, EffectError>(out),
    ensures
        out.tables.len() == db.tables.len(),
        out.indexes == db.indexes,
        ({
            let i = table_at(db.tables, table);
            &&& is_first_table_match(db.tables, table, i)
            &&& out.tables[i].name == db.tables[i].name
            &&& out.tables[i].columns == db.tables[i].columns.push(column)
            &&& out.tables[i].rows.len() == db.tables[i].rows.len()
            &&& forall|r: int|
                0 <= r < db.tables[i].rows.len() ==> #[trigger] out.tables[i].rows[r]
                    == db.tables[i].rows[r].push(ValueModel::Null)
            &&& forall|k: int|
                0 <= k < db.tables.len() && k != i ==> #[trigger] out.tables[k] == db.tables[k]
        }),
{
    lemma_first_table_match_exists(db.tables, table);
    let i = table_at(db.tables, table);
    assert(forall|r: int|
        0 <= r < db.tables[i].rows.len() ==> #[trigger] rows_with_null(db.tables[i].rows)[r]
            == db.tables[i].rows[r].push(ValueModel::Null));
}

} // verus!
