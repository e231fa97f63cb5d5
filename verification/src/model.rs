//! Mathematical model of databases, migration effects, and migration runs.
//!
//! Every executable type of the library has a view into the types of this
//! module, and every contract of the engine is stated over the functions
//! here.  The interpreter (`apply_effect_s`, `apply_effects_s`, `run_s`)
//! is the authoritative meaning of a migration set: the executable engine
//! is proved to agree with it exactly.

use vstd::prelude::*;

use crate::descriptor::EffectError;
use crate::descriptor::MigrationKind;

verus! {

/// Model of one column of a table: its name and whether the schema
/// requires a value in every row.
#[verifier::ext_equal]
pub struct ColumnModel {
    pub name: Seq<char>,
    pub not_null: bool,
}

/// Model of one cell value.  A missing value is `Null`.
#[verifier::ext_equal]
pub enum ValueModel {
    Null,
    Int(i64),
    Text(Seq<char>),
}

/// Model of one table: an ordered column list and the stored rows.
/// Each row is ordered as the column list is.
#[verifier::ext_equal]
pub struct TableModel {
    pub name: Seq<char>,
    pub columns: Seq<ColumnModel>,
    pub rows: Seq<Seq<ValueModel>>,
}

/// Model of one secondary index over a single column of a table.
#[verifier::ext_equal]
pub struct IndexModel {
    pub name: Seq<char>,
    pub table: Seq<char>,
    pub column: Seq<char>,
}

/// Model of a whole database: its tables and its indexes.
#[verifier::ext_equal]
pub struct DbModel {
    pub tables: Seq<TableModel>,
    pub indexes: Seq<IndexModel>,
}

/// Model of one schema- or data-altering effect.
#[verifier::ext_equal]
pub enum EffectModel {
    CreateTable { name: Seq<char>, columns: Seq<ColumnModel>, if_not_exists: bool },
    RebuildTable { table: Seq<char>, columns: Seq<ColumnModel> },
    AddColumn { table: Seq<char>, column: ColumnModel },
    CreateIndex { name: Seq<char>, table: Seq<char>, column: Seq<char>, if_not_exists: bool },
    SeedRow { table: Seq<char>, row: Seq<ValueModel> },
}

/// Model of one migration descriptor.
#[verifier::ext_equal]
pub struct MigrationModel {
    pub version: u64,
    pub description: Seq<char>,
    pub effects: Seq<EffectModel>,
    pub kind: MigrationKind,
}

/// Shorthand for a column model.
pub open spec fn colm(name: Seq<char>, not_null: bool) -> ColumnModel {
    ColumnModel { name, not_null }
}

/// A row is well formed for a column list when it has one value per
/// column and no `Null` where the column forbids it.
pub open spec fn row_ok(columns: Seq<ColumnModel>, row: Seq<ValueModel>) -> bool {
    &&& row.len() == columns.len()
    &&& forall|j: int|
        0 <= j < columns.len() && columns[j].not_null ==> row[j] != (ValueModel::Null)
}

/// Every stored row fits the given column list.
pub open spec fn rows_ok(columns: Seq<ColumnModel>, rows: Seq<Seq<ValueModel>>) -> bool {
    forall|i: int| 0 <= i < rows.len() ==> row_ok(columns, #[trigger] rows[i])
}

/// A table is well formed when each of its rows has one value per column.
pub open spec fn table_wf(t: TableModel) -> bool {
    forall|i: int| 0 <= i < t.rows.len() ==> (#[trigger] t.rows[i]).len() == t.columns.len()
}

/// A database is well formed when every table is and no two tables
/// share a name.
pub open spec fn db_wf(db: DbModel) -> bool {
    &&& forall|i: int| 0 <= i < db.tables.len() ==> table_wf(#[trigger] db.tables[i])
    &&& forall|i: int, j: int|
        0 <= i < db.tables.len() && 0 <= j < db.tables.len() && i != j
            ==> (#[trigger] db.tables[i]).name != (#[trigger] db.tables[j]).name
}

/// Some table of the database carries this name.
pub open spec fn has_table(tables: Seq<TableModel>, name: Seq<char>) -> bool {
    exists|i: int| 0 <= i < tables.len() && (#[trigger] tables[i]).name == name
}

/// `i` is the first position whose table carries `name`.
pub open spec fn is_first_table_match(tables: Seq<TableModel>, name: Seq<char>, i: int) -> bool {
    &&& 0 <= i < tables.len()
    &&& tables[i].name == name
    &&& forall|j: int| 0 <= j < i ==> (#[trigger] tables[j]).name != name
}

/// The first position whose table carries `name`; meaningful only when
/// `has_table` holds.
pub open spec fn table_at(tables: Seq<TableModel>, name: Seq<char>) -> int {
    choose|i: int| is_first_table_match(tables, name, i)
}

/// Some column of the list carries this name.
pub open spec fn has_column(columns: Seq<ColumnModel>, name: Seq<char>) -> bool {
    exists|j: int| 0 <= j < columns.len() && (#[trigger] columns[j]).name == name
}

/// Some index of the database carries this name.
pub open spec fn has_index(indexes: Seq<IndexModel>, name: Seq<char>) -> bool {
    exists|j: int| 0 <= j < indexes.len() && (#[trigger] indexes[j]).name == name
}

/// A first match exists as soon as any match does.
pub proof fn lemma_first_table_match_exists(tables: Seq<TableModel>, name: Seq<char>)
    requires
        has_table(tables, name),
    ensures
        is_first_table_match(tables, name, table_at(tables, name)),
    decreases tables.len(),
{
    let w = choose|i: int| 0 <= i < tables.len() && (#[trigger] tables[i]).name == name;
    if tables[0].name == name {
        assert(is_first_table_match(tables, name, 0));
    } else {
        let tail = tables.skip(1);
        assert(tail[w - 1] == tables[w]);
        assert(has_table(tail, name));
        lemma_first_table_match_exists(tail, name);
        let k = table_at(tail, name);
        assert(tail[k] == tables[k + 1]);
        assert(forall|j: int| 0 <= j < k + 1 ==> (#[trigger] tables[j]).name != name) by {
            assert(forall|j: int|
                1 <= j < k + 1 ==> (#[trigger] tables[j]).name == tail[j - 1].name);
        }
        assert(is_first_table_match(tables, name, k + 1));
    }
    let a = table_at(tables, name);
    let b = choose|i: int| is_first_table_match(tables, name, i);
    assert(is_first_table_match(tables, name, b));
}

/// Two first matches are the same position.
pub proof fn lemma_first_table_match_unique(
    tables: Seq<TableModel>,
    name: Seq<char>,
    i: int,
    j: int,
)
    requires
        is_first_table_match(tables, name, i),
        is_first_table_match(tables, name, j),
    ensures
        i == j,
{
}

/// Meaning of `CreateTable`.
pub open spec fn create_table_s(
    db: DbModel,
    name: Seq<char>,
    columns: Seq<ColumnModel>,
    if_not_exists: bool,
) -> Result<DbModel, EffectError> {
    if has_table(db.tables, name) {
        if if_not_exists {
            Ok(db)
        } else {
            Err(EffectError::TableExists)
        }
    } else {
        Ok(
            DbModel {
                tables: db.tables.push(
                    TableModel { name, columns, rows: Seq::<Seq<ValueModel>>::empty() },
                ),
                indexes: db.indexes,
            },
        )
    }
}

/// The indexes that survive dropping a table: all but those on it,
/// in their original order.
pub open spec fn indexes_without(indexes: Seq<IndexModel>, table: Seq<char>) -> Seq<IndexModel>
    decreases indexes.len(),
{
    if indexes.len() == 0 {
        Seq::<IndexModel>::empty()
    } else {
        let rest = indexes_without(indexes.drop_last(), table);
        if indexes.last().table != table {
            rest.push(indexes.last())
        } else {
            rest
        }
    }
}

/// How `indexes_without` grows with its input.
pub proof fn lemma_indexes_without_push(indexes: Seq<IndexModel>, x: IndexModel, table: Seq<char>)
    ensures
        indexes_without(indexes.push(x), table) == if x.table != table {
            indexes_without(indexes, table).push(x)
        } else {
            indexes_without(indexes, table)
        },
{
    assert(indexes.push(x).drop_last() =~= indexes);
    assert(indexes.push(x).last() == x);
}

/// Meaning of `RebuildTable`.
pub open spec fn rebuild_table_s(
    db: DbModel,
    table: Seq<char>,
    columns: Seq<ColumnModel>,
) -> Result<DbModel, EffectError> {
    if !has_table(db.tables, table) {
        Err(EffectError::NoSuchTable)
    } else {
        let i = table_at(db.tables, table);
        let t = db.tables[i];
        if columns.len() != t.columns.len() {
            Err(EffectError::ColumnCountMismatch)
        } else if !rows_ok(columns, t.rows) {
            Err(EffectError::NotNullViolation)
        } else {
            Ok(
                DbModel {
                    tables: db.tables.update(
                        i,
                        TableModel { name: t.name, columns, rows: t.rows },
                    ),
                    indexes: indexes_without(db.indexes, table),
                },
            )
        }
    }
}

/// Every row extended with one `Null` cell, as adding a nullable
/// column leaves the stored data.
pub open spec fn rows_with_null(rows: Seq<Seq<ValueModel>>) -> Seq<Seq<ValueModel>> {
    rows.map_values(|row: Seq<ValueModel>| row.push(ValueModel::Null))
}

/// Meaning of `AddColumn`.
pub open spec fn add_column_s(
    db: DbModel,
    table: Seq<char>,
    column: ColumnModel,
) -> Result<DbModel, EffectError> {
    if !has_table(db.tables, table) {
        Err(EffectError::NoSuchTable)
    } else {
        let i = table_at(db.tables, table);
        let t = db.tables[i];
        if has_column(t.columns, column.name) {
            Err(EffectError::DuplicateColumn)
        } else if column.not_null {
            Err(EffectError::NotNullAddition)
        } else {
            Ok(
                DbModel {
                    tables: db.tables.update(
                        i,
                        TableModel {
                            name: t.name,
                            columns: t.columns.push(column),
                            rows: rows_with_null(t.rows),
                        },
                    ),
                    indexes: db.indexes,
                },
            )
        }
    }
}

/// Meaning of `CreateIndex`.
pub open spec fn create_index_s(
    db: DbModel,
    name: Seq<char>,
    table: Seq<char>,
    column: Seq<char>,
    if_not_exists: bool,
) -> Result<DbModel, EffectError> {
    if !has_table(db.tables, table) {
        Err(EffectError::NoSuchTable)
    } else if !has_column(db.tables[table_at(db.tables, table)].columns, column) {
        Err(EffectError::NoSuchColumn)
    } else if has_index(db.indexes, name) {
        if if_not_exists {
            Ok(db)
        } else {
            Err(EffectError::IndexExists)
        }
    } else {
        Ok(
            DbModel {
                tables: db.tables,
                indexes: db.indexes.push(IndexModel { name, table, column }),
            },
        )
    }
}

/// Meaning of `SeedRow`.
pub open spec fn seed_row_s(
    db: DbModel,
    table: Seq<char>,
    row: Seq<ValueModel>,
) -> Result<DbModel, EffectError> {
    if !has_table(db.tables, table) {
        Err(EffectError::NoSuchTable)
    } else {
        let i = table_at(db.tables, table);
        let t = db.tables[i];
        if t.rows.len() > 0 {
            Ok(db)
        } else if row.len() != t.columns.len() {
            Err(EffectError::ColumnCountMismatch)
        } else if !row_ok(t.columns, row) {
            Err(EffectError::NotNullViolation)
        } else {
            Ok(
                DbModel {
                    tables: db.tables.update(
                        i,
                        TableModel { name: t.name, columns: t.columns, rows: t.rows.push(row) },
                    ),
                    indexes: db.indexes,
                },
            )
        }
    }
}

/// Meaning of a host-side row write between migration runs: the row is
/// appended when the table exists and the row fits its columns.
pub open spec fn insert_row_s(
    db: DbModel,
    table: Seq<char>,
    row: Seq<ValueModel>,
) -> Result<DbModel, EffectError> {
    if !has_table(db.tables, table) {
        Err(EffectError::NoSuchTable)
    } else {
        let i = table_at(db.tables, table);
        let t = db.tables[i];
        if row.len() != t.columns.len() {
            Err(EffectError::ColumnCountMismatch)
        } else if !row_ok(t.columns, row) {
            Err(EffectError::NotNullViolation)
        } else {
            Ok(
                DbModel {
                    tables: db.tables.update(
                        i,
                        TableModel { name: t.name, columns: t.columns, rows: t.rows.push(row) },
                    ),
                    indexes: db.indexes,
                },
            )
        }
    }
}

/// Meaning of one effect: the database it yields, or the error it fails
/// with, in which case the database is unchanged.
pub open spec fn apply_effect_s(db: DbModel, e: EffectModel) -> Result<DbModel, EffectError> {
    match e {
        EffectModel::CreateTable { name, columns, if_not_exists } => create_table_s(
            db,
            name,
            columns,
            if_not_exists,
        ),
        EffectModel::RebuildTable { table, columns } => rebuild_table_s(db, table, columns),
        EffectModel::AddColumn { table, column } => add_column_s(db, table, column),
        EffectModel::CreateIndex { name, table, column, if_not_exists } => create_index_s(
            db,
            name,
            table,
            column,
            if_not_exists,
        ),
        EffectModel::SeedRow { table, row } => seed_row_s(db, table, row),
    }
}

/// Meaning of an effect list applied in order, stopping at the first
/// failure.
pub open spec fn apply_effects_s(db: DbModel, effects: Seq<EffectModel>) -> Result<
    DbModel,
    EffectError,
>
    decreases effects.len(),
{
    if effects.len() == 0 {
        Ok(db)
    } else {
        match apply_effect_s(db, effects[0]) {
            Ok(d) => apply_effects_s(d, effects.skip(1)),
            Err(c) => Err(c),
        }
    }
}

/// Model of a fatal condition of a migration run.
#[verifier::ext_equal]
pub enum RunErrorModel {
    /// A migration was presented whose version is not above the version
    /// of the migration presented before it.
    OrderingViolation { version: u64 },
    /// A migration's effects failed; the database and the marker stand
    /// at the last successful migration.
    ApplyFailed { version: u64, description: Seq<char>, cause: EffectError },
}

/// Where a migration run ends: the database and marker it leaves, and
/// the fatal condition that stopped it, if one did.
#[verifier::ext_equal]
pub struct RunOutcome {
    pub db: DbModel,
    pub marker: u64,
    pub error: Option<RunErrorModel>,
}

/// Meaning of one run over the ordered migration set.
///
/// `prev` is the version of the migration presented just before, applied
/// or skipped; a version at or below it is an ordering violation.  A
/// version at or below the marker was applied by an earlier run and is
/// skipped; any other version is applied, and on success the marker
/// advances to it.  A failed migration stops the run with the database
/// and marker of the last success.
pub open spec fn run_s(
    db: DbModel,
    marker: u64,
    prev: Option<u64>,
    migrations: Seq<MigrationModel>,
) -> RunOutcome
    decreases migrations.len(),
{
    if migrations.len() == 0 {
        RunOutcome { db, marker, error: None }
    } else {
        let m = migrations[0];
        if prev is Some && m.version <= prev->0 {
            RunOutcome {
                db,
                marker,
                error: Some(RunErrorModel::OrderingViolation { version: m.version }),
            }
        } else if m.version <= marker {
            run_s(db, marker, Some(m.version), migrations.skip(1))
        } else {
            match apply_effects_s(db, m.effects) {
                Ok(d) => run_s(d, m.version, Some(m.version), migrations.skip(1)),
                Err(c) => RunOutcome {
                    db,
                    marker,
                    error: Some(
                        RunErrorModel::ApplyFailed {
                            version: m.version,
                            description: m.description,
                            cause: c,
                        },
                    ),
                },
            }
        }
    }
}

/// A migration set is strictly ascending by version, with no duplicates.
pub open spec fn strictly_sorted(migrations: Seq<MigrationModel>) -> bool {
    forall|i: int, j: int|
        0 <= i < j < migrations.len() ==> migrations[i].version < migrations[j].version
}

} // verus!
