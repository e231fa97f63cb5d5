//! The verified migration engine: applies effects, migrations, and the
//! whole pending set, and is proved to agree exactly with the model
//! interpreter of `crate::model`.

use vstd::prelude::*;

use crate::database::Database;
use crate::database::IndexDef;
use crate::database::Table;
use crate::database::copy_columns;
use crate::database::copy_database;
use crate::database::copy_row;
use crate::descriptor::ColumnDef;
use crate::descriptor::Effect;
use crate::descriptor::EffectError;
use crate::descriptor::Migration;
use crate::descriptor::Value;
use crate::model::ColumnModel;
use crate::model::DbModel;
use crate::model::EffectModel;
use crate::model::TableModel;
use crate::model::ValueModel;
use crate::model::add_column_s;
use crate::model::apply_effect_s;
use crate::model::create_index_s;
use crate::model::create_table_s;
use crate::model::has_column;
use crate::model::has_index;
use crate::model::has_table;
use crate::model::IndexModel;
use crate::model::indexes_without;
use crate::model::insert_row_s;
use crate::model::is_first_table_match;
use crate::model::lemma_first_table_match_exists;
use crate::model::lemma_first_table_match_unique;
use crate::model::lemma_indexes_without_push;
use crate::model::MigrationModel;
use crate::model::RunErrorModel;
use crate::model::apply_effects_s;
use crate::model::rebuild_table_s;
use crate::model::run_s;
use crate::model::row_ok;
use crate::model::rows_ok;
use crate::model::rows_with_null;
use crate::model::seed_row_s;
use crate::model::table_at;

verus! {

/// Finds the first table of this name.
fn find_table(tables: &Vec<Table>, name: &String) -> (r: Option<usize>)
    ensures
        match r {
            Some(i) => is_first_table_match(tables.deep_view(), name@, i as int),
            None => !has_table(tables.deep_view(), name@),
        },
{
    let mut i: usize = 0;
    while i < tables.len()
        invariant
            i <= tables.len(),
            forall|j: int| 0 <= j < i ==> (#[trigger] tables.deep_view()[j]).name != name@,
        decreases tables.len() - i,
    {
        if tables[i].name == *name {
            proof {
                assert(tables.deep_view()[i as int].name == name@);
            }
            return Some(i);
        }
        proof {
            assert(tables.deep_view()[i as int].name != name@);
        }
        i += 1;
    }
    None
}

/// Finds the first column of this name.
fn find_column(columns: &Vec<ColumnDef>, name: &String) -> (r: Option<usize>)
    ensures
        match r {
            Some(j) => 0 <= j < columns.deep_view().len() && columns.deep_view()[j as int].name
                == name@,
            None => !has_column(columns.deep_view(), name@),
        },
{
    let mut j: usize = 0;
    while j < columns.len()
        invariant
            j <= columns.len(),
            forall|k: int| 0 <= k < j ==> (#[trigger] columns.deep_view()[k]).name != name@,
        decreases columns.len() - j,
    {
        if columns[j].name == *name {
            proof {
                assert(columns.deep_view()[j as int].name == name@);
            }
            return Some(j);
        }
        proof {
            assert(columns.deep_view()[j as int].name != name@);
        }
        j += 1;
    }
    None
}

/// Whether an index of this name exists.
fn has_index_named(indexes: &Vec<IndexDef>, name: &String) -> (r: bool)
    ensures
        r == has_index(indexes.deep_view(), name@),
{
    let mut j: usize = 0;
    while j < indexes.len()
        invariant
            j <= indexes.len(),
            forall|k: int| 0 <= k < j ==> (#[trigger] indexes.deep_view()[k]).name != name@,
        decreases indexes.len() - j,
    {
        if indexes[j].name == *name {
            proof {
                assert(indexes.deep_view()[j as int].name == name@);
            }
            return true;
        }
        proof {
            assert(indexes.deep_view()[j as int].name != name@);
        }
        j += 1;
    }
    false
}

/// Applies a `CreateTable` effect.
fn exec_create_table(
    db: &mut Database,
    name: &String,
    columns: &Vec<ColumnDef>,
    if_not_exists: bool,
) -> (r: Result<(), EffectError>)
    ensures
        match create_table_s(old(db)@, name@, columns.deep_view(), if_not_exists) {
            Ok(d) => r is Ok && final(db)@ == d,
            Err(c) => r == Err::<(), EffectError>(c) && final(db)@ == old(db)@,
        },
{
    match find_table(&db.tables, name) {
        Some(_) => {
            if if_not_exists {
                Ok(())
            } else {
                Err(EffectError::TableExists)
            }
        },
        None => {
            let ghost pre = db.tables.deep_view();
            let t = Table { name: name.clone(), columns: copy_columns(columns), rows: Vec::new() };
            proof {
                assert(t@ == (TableModel {
                    name: name@,
                    columns: columns.deep_view(),
                    rows: t.rows.deep_view(),
                }));
                assert(t.rows.deep_view() =~= Seq::<Seq<ValueModel>>::empty());
            }
            db.tables.push(t);
            proof {
                assert(db.tables.deep_view() =~= pre.push(
                    TableModel {
                        name: name@,
                        columns: columns.deep_view(),
                        rows: Seq::<Seq<ValueModel>>::empty(),
                    },
                ));
            }
            Ok(())
        },
    }
}

/// Whether this value is the missing value.
fn is_null(v: &Value) -> (r: bool)
    ensures
        r == (v@ == ValueModel::Null),
{
    match v {
        Value::Null => true,
        _ => false,
    }
}

/// Whether a row fits a column list: right width, no forbidden `Null`.
fn row_fits(columns: &Vec<ColumnDef>, row: &Vec<Value>) -> (r: bool)
    ensures
        r == row_ok(columns.deep_view(), row.deep_view()),
{
    if row.len() != columns.len() {
        return false;
    }
    let mut j: usize = 0;
    while j < columns.len()
        invariant
            j <= columns.len(),
            row.deep_view().len() == columns.deep_view().len(),
            forall|k: int|
                0 <= k < j && (#[trigger] columns.deep_view()[k]).not_null
                    ==> row.deep_view()[k] != (ValueModel::Null),
        decreases columns.len() - j,
    {
        if columns[j].not_null && is_null(&row[j]) {
            proof {
                assert(columns.deep_view()[j as int].not_null);
                assert(row.deep_view()[j as int] == ValueModel::Null);
            }
            return false;
        }
        proof {
            assert(columns.deep_view()[j as int].not_null
                ==> row.deep_view()[j as int] != (ValueModel::Null));
        }
        j += 1;
    }
    true
}

/// Whether every row of a table fits a column list.
fn rows_fit(columns: &Vec<ColumnDef>, rows: &Vec<Vec<Value>>) -> (r: bool)
    ensures
        r == rows_ok(columns.deep_view(), rows.deep_view()),
{
    let mut i: usize = 0;
    while i < rows.len()
        invariant
            i <= rows.len(),
            forall|k: int| 0 <= k < i ==> row_ok(columns.deep_view(), #[trigger] rows.deep_view()[k]),
        decreases rows.len() - i,
    {
        if !row_fits(columns, &rows[i]) {
            proof {
                assert(!row_ok(columns.deep_view(), rows.deep_view()[i as int]));
            }
            return false;
        }
        proof {
            assert(row_ok(columns.deep_view(), rows.deep_view()[i as int]));
        }
        i += 1;
    }
    true
}

/// The surviving indexes after a table is dropped with its indexes.
fn drop_indexes_of(indexes: &Vec<IndexDef>, table: &String) -> (r: Vec<IndexDef>)
    ensures
        r.deep_view() == indexes_without(indexes.deep_view(), table@),
{
    let mut out: Vec<IndexDef> = Vec::new();
    let mut j: usize = 0;
    proof {
        assert(indexes.deep_view().take(0) =~= Seq::<IndexModel>::empty());
    }
    while j < indexes.len()
        invariant
            j <= indexes.len(),
            out.deep_view() =~= indexes_without(indexes.deep_view().take(j as int), table@),
        decreases indexes.len() - j,
    {
        let ghost prev = out.deep_view();
        let ix = &indexes[j];
        if !(ix.table == *table) {
            out.push(
                IndexDef {
                    name: ix.name.clone(),
                    table: ix.table.clone(),
                    column: ix.column.clone(),
                },
            );
            proof {
                assert(out.deep_view().len() == prev.len() + 1);
                assert(out.deep_view()[prev.len() as int] == indexes.deep_view()[j as int]);
                assert(forall|k: int| 0 <= k < prev.len() ==> out.deep_view()[k] == prev[k]);
                assert(out.deep_view() =~= prev.push(indexes.deep_view()[j as int]));
            }
        }
        proof {
            let s = indexes.deep_view();
            assert(s.take(j as int + 1) =~= s.take(j as int).push(s[j as int]));
            lemma_indexes_without_push(s.take(j as int), s[j as int], table@);
            assert(out.deep_view() =~= indexes_without(s.take(j as int + 1), table@));
        }
        j += 1;
    }
    proof {
        assert(indexes.deep_view().take(indexes.deep_view().len() as int) =~= indexes.deep_view());
    }
    out
}

/// Applies a `RebuildTable` effect.
fn exec_rebuild_table(db: &mut Database, table: &String, columns: &Vec<ColumnDef>) -> (r: Result<
    (),
    EffectError,
>)
    ensures
        match rebuild_table_s(old(db)@, table@, columns.deep_view()) {
            Ok(d) => r is Ok && final(db)@ == d,
            Err(c) => r == Err::<(), EffectError>(c) && final(db)@ == old(db)@,
        },
{
    let idx = match find_table(&db.tables, table) {
        None => {
            return Err(EffectError::NoSuchTable);
        },
        Some(i) => i,
    };
    proof {
        assert(has_table(db.tables.deep_view(), table@));
        lemma_first_table_match_exists(db.tables.deep_view(), table@);
        lemma_first_table_match_unique(
            db.tables.deep_view(),
            table@,
            idx as int,
            table_at(db.tables.deep_view(), table@),
        );
    }
    if columns.len() != db.tables[idx].columns.len() {
        return Err(EffectError::ColumnCountMismatch);
    }
    if !rows_fit(columns, &db.tables[idx].rows) {
        return Err(EffectError::NotNullViolation);
    }
    let surviving = drop_indexes_of(&db.indexes, table);
    let t = db.tables.remove(idx);
    let t2 = Table { name: t.name, columns: copy_columns(columns), rows: t.rows };
    db.tables.insert(idx, t2);
    db.indexes = surviving;
    proof {
        let pre = old(db).tables.deep_view();
        assert(db.tables.deep_view().len() == pre.len());
        assert(db.tables.deep_view()[idx as int] == (TableModel {
            name: pre[idx as int].name,
            columns: columns.deep_view(),
            rows: pre[idx as int].rows,
        }));
        assert(forall|k: int| 0 <= k < idx ==> #[trigger] db.tables.deep_view()[k] == pre[k]);
        assert(forall|k: int|
            idx < k < pre.len() ==> #[trigger] db.tables.deep_view()[k] == pre[k]);
        assert(db.tables.deep_view() =~= pre.update(
            idx as int,
            TableModel {
                name: pre[idx as int].name,
                columns: columns.deep_view(),
                rows: pre[idx as int].rows,
            },
        ));
    }
    Ok(())
}

/// Every row of the table, extended with one `Null` cell.
fn rows_plus_null(rows: &Vec<Vec<Value>>) -> (r: Vec<Vec<Value>>)
    ensures
        r.deep_view() == rows_with_null(rows.deep_view()),
{
    let mut out: Vec<Vec<Value>> = Vec::new();
    let mut i: usize = 0;
    while i < rows.len()
        invariant
            i <= rows.len(),
            out.deep_view().len() == i,
            forall|k: int|
                0 <= k < i ==> #[trigger] out.deep_view()[k] == rows.deep_view()[k].push(
                    ValueModel::Null,
                ),
        decreases rows.len() - i,
    {
        let ghost prev = out.deep_view();
        let mut nr = copy_row(&rows[i]);
        nr.push(Value::Null);
        proof {
            assert(nr.deep_view() =~= rows.deep_view()[i as int].push(ValueModel::Null));
        }
        out.push(nr);
        proof {
            assert(out.deep_view().len() == i + 1);
            assert(out.deep_view()[i as int] == rows.deep_view()[i as int].push(ValueModel::Null));
            assert(forall|k: int| 0 <= k < i ==> #[trigger] out.deep_view()[k] == prev[k]);
        }
        i += 1;
    }
    proof {
        assert(out.deep_view() =~= rows_with_null(rows.deep_view()));
    }
    out
}

/// Applies an `AddColumn` effect.
fn exec_add_column(db: &mut Database, table: &String, column: &ColumnDef) -> (r: Result<
    (),
    EffectError,
>)
    ensures
        match add_column_s(old(db)@, table@, column@) {
            Ok(d) => r is Ok && final(db)@ == d,
            Err(c) => r == Err::<(), EffectError>(c) && final(db)@ == old(db)@,
        },
{
    let idx = match find_table(&db.tables, table) {
        None => {
            return Err(EffectError::NoSuchTable);
        },
        Some(i) => i,
    };
    proof {
        assert(has_table(db.tables.deep_view(), table@));
        lemma_first_table_match_exists(db.tables.deep_view(), table@);
        lemma_first_table_match_unique(
            db.tables.deep_view(),
            table@,
            idx as int,
            table_at(db.tables.deep_view(), table@),
        );
    }
    match find_column(&db.tables[idx].columns, &column.name) {
        Some(_) => {
            return Err(EffectError::DuplicateColumn);
        },
        None => {},
    }
    if column.not_null {
        return Err(EffectError::NotNullAddition);
    }
    let t = db.tables.remove(idx);
    let Table { name, columns: mut tcols, rows } = t;
    let ghost precols = tcols.deep_view();
    tcols.push(ColumnDef { name: column.name.clone(), not_null: column.not_null });
    proof {
        assert(tcols.deep_view() =~= precols.push(column@));
    }
    let rows2 = rows_plus_null(&rows);
    let t2 = Table { name, columns: tcols, rows: rows2 };
    db.tables.insert(idx, t2);
    proof {
        let pre = old(db).tables.deep_view();
        assert(db.tables.deep_view().len() == pre.len());
        assert(db.tables.deep_view()[idx as int] == (TableModel {
            name: pre[idx as int].name,
            columns: pre[idx as int].columns.push(column@),
            rows: rows_with_null(pre[idx as int].rows),
        }));
        assert(forall|k: int| 0 <= k < idx ==> #[trigger] db.tables.deep_view()[k] == pre[k]);
        assert(forall|k: int|
            idx < k < pre.len() ==> #[trigger] db.tables.deep_view()[k] == pre[k]);
        assert(db.tables.deep_view() =~= pre.update(
            idx as int,
            TableModel {
                name: pre[idx as int].name,
                columns: pre[idx as int].columns.push(column@),
                rows: rows_with_null(pre[idx as int].rows),
            },
        ));
    }
    Ok(())
}

/// Applies a `CreateIndex` effect.
fn exec_create_index(
    db: &mut Database,
    name: &String,
    table: &String,
    column: &String,
    if_not_exists: bool,
) -> (r: Result<(), EffectError>)
    ensures
        match create_index_s(old(db)@, name@, table@, column@, if_not_exists) {
            Ok(d) => r is Ok && final(db)@ == d,
            Err(c) => r == Err::<(), EffectError>(c) && final(db)@ == old(db)@,
        },
{
    let idx = match find_table(&db.tables, table) {
        None => {
            return Err(EffectError::NoSuchTable);
        },
        Some(i) => i,
    };
    proof {
        assert(has_table(db.tables.deep_view(), table@));
        lemma_first_table_match_exists(db.tables.deep_view(), table@);
        lemma_first_table_match_unique(
            db.tables.deep_view(),
            table@,
            idx as int,
            table_at(db.tables.deep_view(), table@),
        );
    }
    match find_column(&db.tables[idx].columns, column) {
        None => {
            proof {
                assert(!has_column(
                    db.tables.deep_view()[table_at(db.tables.deep_view(), table@)].columns,
                    column@,
                ));
            }
            return Err(EffectError::NoSuchColumn);
        },
        Some(_j) => {
            proof {
                assert(has_column(
                    db.tables.deep_view()[table_at(db.tables.deep_view(), table@)].columns,
                    column@,
                ));
            }
        },
    }
    if has_index_named(&db.indexes, name) {
        if if_not_exists {
            return Ok(());
        } else {
            return Err(EffectError::IndexExists);
        }
    }
    let ghost pre = db.indexes.deep_view();
    db.indexes.push(IndexDef { name: name.clone(), table: table.clone(), column: column.clone() });
    proof {
        assert(db.indexes.deep_view() =~= pre.push(
            IndexModel { name: name@, table: table@, column: column@ },
        ));
    }
    Ok(())
}

/// Applies a `SeedRow` effect.
fn exec_seed_row(db: &mut Database, table: &String, row: &Vec<Value>) -> (r: Result<
    (),
    EffectError,
>)
    ensures
        match seed_row_s(old(db)@, table@, row.deep_view()) {
            Ok(d) => r is Ok && final(db)@ == d,
            Err(c) => r == Err::<(), EffectError>(c) && final(db)@ == old(db)@,
        },
{
    let idx = match find_table(&db.tables, table) {
        None => {
            return Err(EffectError::NoSuchTable);
        },
        Some(i) => i,
    };
    proof {
        assert(has_table(db.tables.deep_view(), table@));
        lemma_first_table_match_exists(db.tables.deep_view(), table@);
        lemma_first_table_match_unique(
            db.tables.deep_view(),
            table@,
            idx as int,
            table_at(db.tables.deep_view(), table@),
        );
    }
    if db.tables[idx].rows.len() > 0 {
        return Ok(());
    }
    if row.len() != db.tables[idx].columns.len() {
        return Err(EffectError::ColumnCountMismatch);
    }
    if !row_fits(&db.tables[idx].columns, row) {
        return Err(EffectError::NotNullViolation);
    }
    let t = db.tables.remove(idx);
    let Table { name, columns, rows: mut trows } = t;
    let ghost prerows = trows.deep_view();
    trows.push(copy_row(row));
    proof {
        assert(trows.deep_view() =~= prerows.push(row.deep_view()));
    }
    let t2 = Table { name, columns, rows: trows };
    db.tables.insert(idx, t2);
    proof {
        let pre = old(db).tables.deep_view();
        assert(db.tables.deep_view().len() == pre.len());
        assert(db.tables.deep_view()[idx as int] == (TableModel {
            name: pre[idx as int].name,
            columns: pre[idx as int].columns,
            rows: pre[idx as int].rows.push(row.deep_view()),
        }));
        assert(forall|k: int| 0 <= k < idx ==> #[trigger] db.tables.deep_view()[k] == pre[k]);
        assert(forall|k: int|
            idx < k < pre.len() ==> #[trigger] db.tables.deep_view()[k] == pre[k]);
        assert(db.tables.deep_view() =~= pre.update(
            idx as int,
            TableModel {
                name: pre[idx as int].name,
                columns: pre[idx as int].columns,
                rows: pre[idx as int].rows.push(row.deep_view()),
            },
        ));
    }
    Ok(())
}

/// Applies one effect; on failure the database is left unchanged.
pub fn apply_effect(db: &mut Database, e: &Effect) -> (r: Result<(), EffectError>)
    ensures
        match apply_effect_s(old(db)@, e@) {
            Ok(d) => r is Ok && final(db)@ == d,
            Err(c) => r == Err::<(), EffectError>(c) && final(db)@ == old(db)@,
        },
{
    match e {
        Effect::CreateTable { name, columns, if_not_exists } => exec_create_table(
            db,
            name,
            columns,
            *if_not_exists,
        ),
        Effect::RebuildTable { table, columns } => exec_rebuild_table(db, table, columns),
        Effect::AddColumn { table, column } => exec_add_column(db, table, column),
        Effect::CreateIndex { name, table, column, if_not_exists } => exec_create_index(
            db,
            name,
            table,
            column,
            *if_not_exists,
        ),
        Effect::SeedRow { table, row } => exec_seed_row(db, table, row),
    }
}

/// A host-side row write between migration runs: appends one row to the
/// named table when it exists and the row fits its columns; on failure
/// the database is left unchanged.
pub fn insert_row(db: &mut Database, table: &String, row: &Vec<Value>) -> (r: Result<
    (),
    EffectError,
>)
    ensures
        match insert_row_s(old(db)@, table@, row.deep_view()) {
            Ok(d) => r is Ok && final(db)@ == d,
            Err(c) => r == Err::<(), EffectError>(c) && final(db)@ == old(db)@,
        },
{
    let idx = match find_table(&db.tables, table) {
        None => {
            return Err(EffectError::NoSuchTable);
        },
        Some(i) => i,
    };
    proof {
        assert(has_table(db.tables.deep_view(), table@));
        lemma_first_table_match_exists(db.tables.deep_view(), table@);
        lemma_first_table_match_unique(
            db.tables.deep_view(),
            table@,
            idx as int,
            table_at(db.tables.deep_view(), table@),
        );
    }
    if row.len() != db.tables[idx].columns.len() {
        return Err(EffectError::ColumnCountMismatch);
    }
    if !row_fits(&db.tables[idx].columns, row) {
        return Err(EffectError::NotNullViolation);
    }
    let t = db.tables.remove(idx);
    let Table { name, columns, rows: mut trows } = t;
    let ghost prerows = trows.deep_view();
    trows.push(copy_row(row));
    proof {
        assert(trows.deep_view() =~= prerows.push(row.deep_view()));
    }
    let t2 = Table { name, columns, rows: trows };
    db.tables.insert(idx, t2);
    proof {
        let pre = old(db).tables.deep_view();
        assert(db.tables.deep_view().len() == pre.len());
        assert(db.tables.deep_view()[idx as int] == (TableModel {
            name: pre[idx as int].name,
            columns: pre[idx as int].columns,
            rows: pre[idx as int].rows.push(row.deep_view()),
        }));
        assert(forall|k: int| 0 <= k < idx ==> #[trigger] db.tables.deep_view()[k] == pre[k]);
        assert(forall|k: int|
            idx < k < pre.len() ==> #[trigger] db.tables.deep_view()[k] == pre[k]);
        assert(db.tables.deep_view() =~= pre.update(
            idx as int,
            TableModel {
                name: pre[idx as int].name,
                columns: pre[idx as int].columns,
                rows: pre[idx as int].rows.push(row.deep_view()),
            },
        ));
    }
    Ok(())
}

/// Applies one migration's effects as a unit to a copy of the database:
/// on success the copy with every effect applied comes back, on failure
/// only the error does, so the caller's database never holds a partial
/// application.
pub fn apply_migration(db: &Database, m: &Migration) -> (r: Result<Database, EffectError>)
    ensures
        ({
            let out = apply_effects_s(db@, m@.effects);
            match r {
                Ok(db2) => out == Ok::<DbModel, EffectError>(db2@),
                Err(c) => out == Err::<DbModel, EffectError>(c),
            }
        }),
{
    let mut work = copy_database(db);
    let mut i: usize = 0;
    proof {
        assert(m@.effects.skip(0) =~= m@.effects);
    }
    while i < m.effects.len()
        invariant
            i <= m.effects@.len(),
            m@.effects.len() == m.effects@.len(),
            apply_effects_s(db@, m@.effects) == apply_effects_s(
                work@,
                m@.effects.skip(i as int),
            ),
        decreases m.effects@.len() - i,
    {
        let ghost pre = work@;
        let ghost rest = m@.effects.skip(i as int);
        proof {
            assert(rest[0] == m@.effects[i as int]);
            assert(rest.skip(1) =~= m@.effects.skip(i as int + 1));
        }
        match apply_effect(&mut work, &m.effects[i]) {
            Ok(_u) => {
                proof {
                    assert(apply_effect_s(pre, rest[0]) == Ok::<DbModel, EffectError>(work@));
                    assert(apply_effects_s(pre, rest) == apply_effects_s(work@, rest.skip(1)));
                }
            },
            Err(c) => {
                proof {
                    assert(apply_effect_s(pre, rest[0]) == Err::<DbModel, EffectError>(c));
                    assert(apply_effects_s(pre, rest) == Err::<DbModel, EffectError>(c));
                }
                return Err(c);
            },
        }
        i += 1;
    }
    proof {
        assert(m@.effects.skip(m.effects@.len() as int) =~= Seq::<EffectModel>::empty());
        assert(apply_effects_s(work@, Seq::<EffectModel>::empty()) == Ok::<
            DbModel,
            EffectError,
        >(work@));
    }
    Ok(work)
}

/// A fatal condition of a migration run.
#[derive(Debug, PartialEq)]
pub enum RunError {
    /// A migration was presented whose version is not above the version
    /// of the migration presented before it: the set is unsorted or
    /// holds a duplicate, which the registry's ordering rules out.
    OrderingViolation { version: u64 },
    /// A migration's effects failed; the database and the marker stand
    /// at the last successful migration.
    ApplyFailed { version: u64, description: String, cause: EffectError },
}

impl View for RunError {
    type V = RunErrorModel;

    open spec fn view(&self) -> RunErrorModel {
        match self {
            RunError::OrderingViolation { version } => RunErrorModel::OrderingViolation {
                version: *version,
            },
            RunError::ApplyFailed { version, description, cause } => RunErrorModel::ApplyFailed {
                version: *version,
                description: description@,
                cause: *cause,
            },
        }
    }
}

/// Applies every pending migration, in the order given, and advances the
/// persisted version marker with each success.
///
/// A migration whose version is at or below the marker was applied by an
/// earlier run and is skipped; one whose version is not above its
/// predecessor's in the list is an ordering violation and stops the run;
/// any other is applied atomically.  On any failure the database and the
/// marker stand exactly at the last successful migration and the error
/// names the failing version and description.
pub fn apply_pending(db: &mut Database, marker: &mut u64, migrations: &Vec<Migration>) -> (r:
    Result<(), RunError>)
    ensures
        ({
            let out = run_s(old(db)@, *old(marker), None, migrations.deep_view());
            &&& final(db)@ == out.db
            &&& *final(marker) == out.marker
            &&& match r {
                Ok(_u) => out.error is None,
                Err(e) => out.error == Some(e@),
            }
        }),
        *final(marker) >= *old(marker),
{
    let ghost ms = migrations.deep_view();
    proof {
        crate::laws::lemma_marker_never_decreases(old(db)@, *old(marker), None, ms);
    }
    let mut i: usize = 0;
    let mut prev: Option<u64> = None;
    proof {
        assert(ms.skip(0) =~= ms);
    }
    while i < migrations.len()
        invariant
            i <= migrations@.len(),
            ms == migrations.deep_view(),
            ms.len() == migrations@.len(),
            run_s(old(db)@, *old(marker), None, ms) == run_s(
                db@,
                *marker,
                prev,
                ms.skip(i as int),
            ),
            run_s(old(db)@, *old(marker), None, ms).marker >= *old(marker),
        decreases migrations@.len() - i,
    {
        let ghost rest = ms.skip(i as int);
        proof {
            assert(rest[0] == ms[i as int]);
            assert(rest.skip(1) =~= ms.skip(i as int + 1));
        }
        let m = &migrations[i];
        proof {
            assert(m@ == ms[i as int]);
        }
        let out_of_order = match prev {
            Some(p) => m.version <= p,
            None => false,
        };
        if out_of_order {
            return Err(RunError::OrderingViolation { version: m.version });
        }
        if m.version <= *marker {
            prev = Some(m.version);
        } else {
            let ghost pre = db@;
            match apply_migration(db, m) {
                Ok(db2) => {
                    *db = db2;
                    *marker = m.version;
                    prev = Some(m.version);
                    proof {
                        assert(apply_effects_s(pre, rest[0].effects) == Ok::<
                            DbModel,
                            EffectError,
                        >(db@));
                    }
                },
                Err(c) => {
                    proof {
                        assert(apply_effects_s(pre, rest[0].effects) == Err::<
                            DbModel,
                            EffectError,
                        >(c));
                    }
                    return Err(
                        RunError::ApplyFailed {
                            version: m.version,
                            description: m.description.clone(),
                            cause: c,
                        },
                    );
                },
            }
        }
        i += 1;
    }
    proof {
        assert(ms.skip(migrations@.len() as int) =~= Seq::<MigrationModel>::empty());
    }
    Ok(())
}

} // verus!
