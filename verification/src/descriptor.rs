//! Executable migration descriptors: the value types a migration is made
//! of, and their views into the model types of `crate::model`.

use vstd::prelude::*;

use crate::model::ColumnModel;
use crate::model::EffectModel;
use crate::model::MigrationModel;
use crate::model::ValueModel;

verus! {

/// The direction of a migration.  Schema evolution here is strictly
/// forward: no inverse effects are modeled.
#[derive(Clone, Copy, Debug, PartialEq, Eq, Structural)]
pub enum MigrationKind {
    Up,
}

/// Why one effect failed to apply.
#[derive(Clone, Copy, Debug, PartialEq, Eq, Structural)]
pub enum EffectError {
    /// The named table does not exist.
    NoSuchTable,
    /// A table of that name already exists.
    TableExists,
    /// A column list or row does not have the expected number of entries.
    ColumnCountMismatch,
    /// A row holds `Null` in a column that forbids it.
    NotNullViolation,
    /// A column of that name already exists in the table.
    DuplicateColumn,
    /// Only nullable columns can be added to an existing table.
    NotNullAddition,
    /// The named column does not exist in the table.
    NoSuchColumn,
    /// An index of that name already exists.
    IndexExists,
}

/// One cell value.
#[derive(Clone, Debug, PartialEq)]
pub enum Value {
    Null,
    Int(i64),
    Text(String),
}

impl View for Value {
    type V = ValueModel;

    open spec fn view(&self) -> ValueModel {
        match self {
            Value::Null => ValueModel::Null,
            Value::Int(x) => ValueModel::Int(*x),
            Value::Text(s) => ValueModel::Text(s@),
        }
    }
}

impl DeepView for Value {
    type V = ValueModel;

    open spec fn deep_view(&self) -> ValueModel {
        self@
    }
}

/// One column of a table schema.
#[derive(Clone, Debug, PartialEq)]
pub struct ColumnDef {
    pub name: String,
    pub not_null: bool,
}

impl View for ColumnDef {
    type V = ColumnModel;

    open spec fn view(&self) -> ColumnModel {
        ColumnModel { name: self.name@, not_null: self.not_null }
    }
}

impl DeepView for ColumnDef {
    type V = ColumnModel;

    open spec fn deep_view(&self) -> ColumnModel {
        self@
    }
}

/// One schema- or data-altering operation of a migration's atomic unit.
#[derive(Debug, PartialEq)]
pub enum Effect {
    /// Create a table; with `if_not_exists`, an existing table of the
    /// same name leaves the database unchanged instead of failing.
    CreateTable { name: String, columns: Vec<ColumnDef>, if_not_exists: bool },
    /// Replace a table's column constraints while keeping every stored
    /// row, as a copy-into-new-table-then-rename does.  Indexes on the
    /// table are dropped with the old table.
    RebuildTable { table: String, columns: Vec<ColumnDef> },
    /// Append one nullable column; every existing row gets `Null` there.
    AddColumn { table: String, column: ColumnDef },
    /// Create a single-column index; with `if_not_exists`, an existing
    /// index of the same name leaves the database unchanged.
    CreateIndex { name: String, table: String, column: String, if_not_exists: bool },
    /// Insert one row into a table meant to hold a single row, but only
    /// when the table is still empty.
    SeedRow { table: String, row: Vec<Value> },
}

impl View for Effect {
    type V = EffectModel;

    open spec fn view(&self) -> EffectModel {
        match self {
            Effect::CreateTable { name, columns, if_not_exists } => EffectModel::CreateTable {
                name: name@,
                columns: columns.deep_view(),
                if_not_exists: *if_not_exists,
            },
            Effect::RebuildTable { table, columns } => EffectModel::RebuildTable {
                table: table@,
                columns: columns.deep_view(),
            },
            Effect::AddColumn { table, column } => EffectModel::AddColumn {
                table: table@,
                column: column@,
            },
            Effect::CreateIndex { name, table, column, if_not_exists } => EffectModel::CreateIndex {
                name: name@,
                table: table@,
                column: column@,
                if_not_exists: *if_not_exists,
            },
            Effect::SeedRow { table, row } => EffectModel::SeedRow {
                table: table@,
                row: row.deep_view(),
            },
        }
    }
}

impl DeepView for Effect {
    type V = EffectModel;

    open spec fn deep_view(&self) -> EffectModel {
        self@
    }
}

/// One migration descriptor: an immutable record of a version, a stable
/// label for diagnostics, and the ordered effects applied as one unit.
#[derive(Debug, PartialEq)]
pub struct Migration {
    pub version: u64,
    pub description: String,
    pub effects: Vec<Effect>,
    pub kind: MigrationKind,
}

impl View for Migration {
    type V = MigrationModel;

    open spec fn view(&self) -> MigrationModel {
        MigrationModel {
            version: self.version,
            description: self.description@,
            effects: self.effects.deep_view(),
            kind: self.kind,
        }
    }
}

impl DeepView for Migration {
    type V = MigrationModel;

    open spec fn deep_view(&self) -> MigrationModel {
        self@
    }
}

impl Migration {
    /// The migration's version number.
    pub fn version(&self) -> (v: u64)
        ensures
            v == self@.version,
    {
        self.version
    }

    /// The migration's stable diagnostic label.
    pub fn description(&self) -> (d: &String)
        ensures
            d@ == self@.description,
    {
        &self.description
    }

    /// The ordered effects applied as one atomic unit.
    pub fn effects(&self) -> (e: &Vec<Effect>)
        ensures
            e.deep_view() == self@.effects,
    {
        &self.effects
    }

    /// The migration's direction.
    pub fn kind(&self) -> (k: MigrationKind)
        ensures
            k == self@.kind,
    {
        self.kind
    }
}

/// Builds a column definition; the one constructor the per-version
/// modules use for their schemas.
pub fn col(name: &str, not_null: bool) -> (c: ColumnDef)
    ensures
        c@ == (ColumnModel { name: name@, not_null }),
{
    ColumnDef { name: name.to_owned(), not_null }
}

/// Appends one column definition to a schema under construction.
pub fn push_col(columns: &mut Vec<ColumnDef>, name: &str, not_null: bool)
    ensures
        final(columns).deep_view() == old(columns).deep_view().push(
            ColumnModel { name: name@, not_null },
        ),
{
    let ghost prev = columns.deep_view();
    columns.push(col(name, not_null));
    proof {
        assert(columns.deep_view().len() == prev.len() + 1);
        assert(columns.deep_view()[prev.len() as int] == (ColumnModel { name: name@, not_null }));
        assert(forall|k: int| 0 <= k < prev.len() ==> columns.deep_view()[k] == prev[k]);
        assert(columns.deep_view() =~= prev.push(ColumnModel { name: name@, not_null }));
    }
}

/// Appends one effect to an effect list under construction.
pub fn push_effect(effects: &mut Vec<Effect>, e: Effect)
    ensures
        final(effects).deep_view() == old(effects).deep_view().push(e@),
{
    let ghost prev = effects.deep_view();
    let ghost em = e@;
    effects.push(e);
    proof {
        assert(effects.deep_view().len() == prev.len() + 1);
        assert(effects.deep_view()[prev.len() as int] == em);
        assert(forall|k: int| 0 <= k < prev.len() ==> effects.deep_view()[k] == prev[k]);
        assert(effects.deep_view() =~= prev.push(em));
    }
}

/// Appends one value to a row under construction.
pub fn push_value(row: &mut Vec<Value>, v: Value)
    ensures
        final(row).deep_view() == old(row).deep_view().push(v@),
{
    let ghost prev = row.deep_view();
    let ghost vm = v@;
    row.push(v);
    proof {
        assert(row.deep_view().len() == prev.len() + 1);
        assert(row.deep_view()[prev.len() as int] == vm);
        assert(forall|k: int| 0 <= k < prev.len() ==> row.deep_view()[k] == prev[k]);
        assert(row.deep_view() =~= prev.push(vm));
    }
}

/// Appends one migration to a registry under construction.
pub fn push_migration(migrations: &mut Vec<Migration>, m: Migration)
    ensures
        final(migrations).deep_view() == old(migrations).deep_view().push(m@),
{
    let ghost prev = migrations.deep_view();
    let ghost mm = m@;
    migrations.push(m);
    proof {
        assert(migrations.deep_view().len() == prev.len() + 1);
        assert(migrations.deep_view()[prev.len() as int] == mm);
        assert(forall|k: int| 0 <= k < prev.len() ==> migrations.deep_view()[k] == prev[k]);
        assert(migrations.deep_view() =~= prev.push(mm));
    }
}

} // verus!
