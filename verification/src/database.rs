//! An in-memory relational database the engine applies migrations to:
//! tables of typed rows and single-column indexes, with views into the
//! model types of `crate::model`.

use vstd::prelude::*;

use crate::descriptor::ColumnDef;
use crate::descriptor::Value;
use crate::model::DbModel;
use crate::model::IndexModel;
use crate::model::TableModel;
use crate::model::db_wf;

verus! {

/// One table: its name, its ordered columns, and its stored rows, each
/// row ordered as the columns are.
#[derive(Debug, PartialEq)]
pub struct Table {
    pub name: String,
    pub columns: Vec<ColumnDef>,
    pub rows: Vec<Vec<Value>>,
}

impl View for Table {
    type V = TableModel;

    open spec fn view(&self) -> TableModel {
        TableModel {
            name: self.name@,
            columns: self.columns.deep_view(),
            rows: self.rows.deep_view(),
        }
    }
}

impl DeepView for Table {
    type V = TableModel;

    open spec fn deep_view(&self) -> TableModel {
        self@
    }
}

/// One single-column index.
#[derive(Debug, PartialEq)]
pub struct IndexDef {
    pub name: String,
    pub table: String,
    pub column: String,
}

impl View for IndexDef {
    type V = IndexModel;

    open spec fn view(&self) -> IndexModel {
        IndexModel { name: self.name@, table: self.table@, column: self.column@ }
    }
}

impl DeepView for IndexDef {
    type V = IndexModel;

    open spec fn deep_view(&self) -> IndexModel {
        self@
    }
}

/// A whole database.
#[derive(Debug, PartialEq)]
pub struct Database {
    pub tables: Vec<Table>,
    pub indexes: Vec<IndexDef>,
}

impl View for Database {
    type V = DbModel;

    open spec fn view(&self) -> DbModel {
        DbModel { tables: self.tables.deep_view(), indexes: self.indexes.deep_view() }
    }
}

impl Database {
    /// A fresh database: no tables, no indexes, as a newly created
    /// database file presents itself before any migration ran.
    pub fn new() -> (db: Database)
        ensures
            db@ == (DbModel {
                tables: Seq::<TableModel>::empty(),
                indexes: Seq::<IndexModel>::empty(),
            }),
            db_wf(db@),
    {
        let db = Database { tables: Vec::new(), indexes: Vec::new() };
        proof {
            assert(db.tables.deep_view() =~= Seq::<TableModel>::empty());
            assert(db.indexes.deep_view() =~= Seq::<IndexModel>::empty());
        }
        db
    }
}

/// Copies one value.
pub fn copy_value(v: &Value) -> (r: Value)
    ensures
        r@ == v@,
{
    match v {
        Value::Null => Value::Null,
        Value::Int(x) => Value::Int(*x),
        Value::Text(s) => Value::Text(s.clone()),
    }
}

/// Copies one row of values.
pub fn copy_row(row: &Vec<Value>) -> (r: Vec<Value>)
    ensures
        r.deep_view() == row.deep_view(),
{
    let mut out: Vec<Value> = Vec::new();
    let mut i: usize = 0;
    while i < row.len()
        invariant
            i <= row.len(),
            out.deep_view() =~= row.deep_view().take(i as int),
        decreases row.len() - i,
    {
        let ghost prev = out.deep_view();
        let v = copy_value(&row[i]);
        out.push(v);
        proof {
            assert(prev.len() == i as int);
            assert(out.deep_view()[i as int] == row.deep_view()[i as int]);
            assert(forall|k: int| 0 <= k < i ==> out.deep_view()[k] == prev[k]);
            assert(out.deep_view() =~= row.deep_view().take(i as int + 1));
        }
        i += 1;
    }
    proof {
        assert(out.deep_view() =~= row.deep_view());
    }
    out
}

/// Copies a column list.
pub fn copy_columns(columns: &Vec<ColumnDef>) -> (r: Vec<ColumnDef>)
    ensures
        r.deep_view() == columns.deep_view(),
{
    let mut out: Vec<ColumnDef> = Vec::new();
    let mut i: usize = 0;
    while i < columns.len()
        invariant
            i <= columns.len(),
            out.deep_view() =~= columns.deep_view().take(i as int),
        decreases columns.len() - i,
    {
        let ghost prev = out.deep_view();
        let c = &columns[i];
        out.push(ColumnDef { name: c.name.clone(), not_null: c.not_null });
        proof {
            assert(prev.len() == i as int);
            assert(out.deep_view()[i as int] == columns.deep_view()[i as int]);
            assert(forall|k: int| 0 <= k < i ==> out.deep_view()[k] == prev[k]);
            assert(out.deep_view() =~= columns.deep_view().take(i as int + 1));
        }
        i += 1;
    }
    proof {
        assert(out.deep_view() =~= columns.deep_view());
    }
    out
}

/// Copies all rows of a table.
pub fn copy_rows(rows: &Vec<Vec<Value>>) -> (r: Vec<Vec<Value>>)
    ensures
        r.deep_view() == rows.deep_view(),
{
    let mut out: Vec<Vec<Value>> = Vec::new();
    let mut i: usize = 0;
    while i < rows.len()
        invariant
            i <= rows.len(),
            out.deep_view() =~= rows.deep_view().take(i as int),
        decreases rows.len() - i,
    {
        let ghost prev = out.deep_view();
        let r = copy_row(&rows[i]);
        out.push(r);
        proof {
            assert(prev.len() == i as int);
            assert(out.deep_view()[i as int] == rows.deep_view()[i as int]);
            assert(forall|k: int| 0 <= k < i ==> out.deep_view()[k] == prev[k]);
            assert(out.deep_view() =~= rows.deep_view().take(i as int + 1));
        }
        i += 1;
    }
    proof {
        assert(out.deep_view() =~= rows.deep_view());
    }
    out
}

/// Copies one table.
pub fn copy_table(t: &Table) -> (r: Table)
    ensures
        r@ == t@,
{
    Table { name: t.name.clone(), columns: copy_columns(&t.columns), rows: copy_rows(&t.rows) }
}

/// Copies a whole database; `apply_migration` works on such a copy so a
/// failed migration leaves the caller's database untouched.
pub fn copy_database(db: &Database) -> (r: Database)
    ensures
        r@ == db@,
{
    let mut tables: Vec<Table> = Vec::new();
    let mut i: usize = 0;
    while i < db.tables.len()
        invariant
            i <= db.tables.len(),
            tables.deep_view() =~= db.tables.deep_view().take(i as int),
        decreases db.tables.len() - i,
    {
        let ghost prev = tables.deep_view();
        let t = copy_table(&db.tables[i]);
        tables.push(t);
        proof {
            assert(prev.len() == i as int);
            assert(tables.deep_view()[i as int] == db.tables.deep_view()[i as int]);
            assert(forall|k: int| 0 <= k < i ==> tables.deep_view()[k] == prev[k]);
            assert(tables.deep_view() =~= db.tables.deep_view().take(i as int + 1));
        }
        i += 1;
    }
    let mut indexes: Vec<IndexDef> = Vec::new();
    let mut j: usize = 0;
    while j < db.indexes.len()
        invariant
            j <= db.indexes.len(),
            indexes.deep_view() =~= db.indexes.deep_view().take(j as int),
        decreases db.indexes.len() - j,
    {
        let ghost prev = indexes.deep_view();
        let ix = &db.indexes[j];
        indexes.push(
            IndexDef { name: ix.name.clone(), table: ix.table.clone(), column: ix.column.clone() },
        );
        proof {
            assert(prev.len() == j as int);
            assert(indexes.deep_view()[j as int] == db.indexes.deep_view()[j as int]);
            assert(forall|k: int| 0 <= k < j ==> indexes.deep_view()[k] == prev[k]);
            assert(indexes.deep_view() =~= db.indexes.deep_view().take(j as int + 1));
        }
        j += 1;
    }
    let r = Database { tables, indexes };
    proof {
        assert(r.tables.deep_view() =~= db.tables.deep_view());
        assert(r.indexes.deep_view() =~= db.indexes.deep_view());
    }
    r
}

} // verus!
