//! The one migration of the schema: it creates the `todo_item` table, and
//! drops it again when it is reverted.

use sea_orm_migration::prelude::{TableCreateStatement, TableDropStatement};
use vstd::prelude::*;

use crate::schema::{ColumnKeyword, ColumnKind, ColumnSchema, ColumnSchemaView, TableSchema, TableSchemaView};
use crate::statement::{
    built_create, built_drop, create_holds, create_statement, drop_holds, drop_statement,
    ColumnDefView, CreateView, DropView,
};

verus! {

/// The definition of the `todo_item` table: an integer key that the
/// database assigns, the text, and the completion flag, which is false
/// unless given. Creating it is skipped where the table exists.
pub open spec fn todo_item_schema() -> TableSchemaView {
    TableSchemaView {
        name: "todo_item"@,
        if_not_exists: true,
        columns: seq![
            ColumnSchemaView {
                name: "id"@,
                kind: ColumnKind::Integer,
                keywords: seq![
                    ColumnKeyword::NotNull,
                    ColumnKeyword::AutoIncrement,
                    ColumnKeyword::PrimaryKey,
                ],
            },
            ColumnSchemaView {
                name: "text"@,
                kind: ColumnKind::Varchar,
                keywords: seq![ColumnKeyword::NotNull],
            },
            ColumnSchemaView {
                name: "done"@,
                kind: ColumnKind::Boolean,
                keywords: seq![ColumnKeyword::NotNull, ColumnKeyword::DefaultValue(false)],
            },
        ],
    }
}

/// The definition of the `todo_item` table.
pub fn todo_item_table() -> (table: TableSchema)
    ensures
        table@ == todo_item_schema(),
{
    let id = ColumnSchema {
        name: "id".to_owned(),
        kind: ColumnKind::Integer,
        keywords: vec![
            ColumnKeyword::NotNull,
            ColumnKeyword::AutoIncrement,
            ColumnKeyword::PrimaryKey,
        ],
    };
    let text = ColumnSchema {
        name: "text".to_owned(),
        kind: ColumnKind::Varchar,
        keywords: vec![ColumnKeyword::NotNull],
    };
    let done = ColumnSchema {
        name: "done".to_owned(),
        kind: ColumnKind::Boolean,
        keywords: vec![ColumnKeyword::NotNull, ColumnKeyword::DefaultValue(false)],
    };
    proof {
        let columns = todo_item_schema().columns;
        assert(id@.keywords =~= columns[0].keywords);
        assert(text@.keywords =~= columns[1].keywords);
        assert(done@.keywords =~= columns[2].keywords);
        assert(id@ == columns[0] && text@ == columns[1] && done@ == columns[2]);
    }
    let table = TableSchema {
        name: "todo_item".to_owned(),
        if_not_exists: true,
        columns: vec![id, text, done],
    };
    assert(table@.columns =~= todo_item_schema().columns);
    table
}

/// The migration that creates the `todo_item` table.
#[derive(Debug, Clone, Copy)]
pub struct Migration;

impl Migration {
    /// The name under which the migration is recorded as applied.
    pub fn name(&self) -> (name: &'static str)
        ensures
            name@ == "m20220101_000001_create_table"@,
    {
        "m20220101_000001_create_table"
    }

    /// The statement that applies the migration: it creates the
    /// `todo_item` table unless the table exists.
    pub fn up(&self) -> (statement: TableCreateStatement)
        ensures
            create_holds(statement) == built_create(todo_item_schema()),
    {
        let table = todo_item_table();
        create_statement(&table)
    }

    /// The statement that reverts the migration: it drops the `todo_item`
    /// table.
    pub fn down(&self) -> (statement: TableDropStatement)
        ensures
            drop_holds(statement) == built_drop("todo_item"@),
    {
        drop_statement("todo_item")
    }
}

/// The tables of a database, each with its columns.
pub type Catalog = Map<Seq<char>, Seq<ColumnDefView>>;

/// The catalog after a database has run a `CREATE TABLE`, or `None` where
/// it refuses the statement: a statement that names no table, or an
/// unconditional one for a table that exists. A conditional statement for
/// a table that exists changes nothing.
pub open spec fn after_create(catalog: Catalog, create: CreateView) -> Option<Catalog> {
    match create.table {
        None => None,
        Some(name) => if !catalog.dom().contains(name) {
            Some(catalog.insert(name, create.columns))
        } else if create.if_not_exists {
            Some(catalog)
        } else {
            None
        },
    }
}

/// The catalog after a database has run a `DROP TABLE` of one table, or
/// `None` where it refuses the statement: one that does not name exactly
/// one table, or an unconditional one for a table that does not exist.
pub open spec fn after_drop(catalog: Catalog, drop: DropView) -> Option<Catalog> {
    if drop.tables.len() != 1 {
        None
    } else if catalog.dom().contains(drop.tables[0]) {
        Some(catalog.remove(drop.tables[0]))
    } else if drop.if_exists {
        Some(catalog)
    } else {
        None
    }
}

/// Applying the migration succeeds on every catalog and leaves the
/// `todo_item` table in it; applying it a second time succeeds too and
/// changes nothing.
pub proof fn up_twice_is_up_once(catalog: Catalog)
    ensures
        after_create(catalog, built_create(todo_item_schema())) is Some,
        after_create(catalog, built_create(todo_item_schema()))->0.dom().contains("todo_item"@),
        after_create(
            after_create(catalog, built_create(todo_item_schema()))->0,
            built_create(todo_item_schema()),
        ) == after_create(catalog, built_create(todo_item_schema())),
{
}

/// Reverting the migration after applying it to a catalog without the
/// `todo_item` table gives that catalog back.
pub proof fn down_reverts_up(catalog: Catalog)
    requires
        !catalog.dom().contains("todo_item"@),
    ensures
        after_create(catalog, built_create(todo_item_schema())) is Some,
        after_drop(
            after_create(catalog, built_create(todo_item_schema()))->0,
            built_drop("todo_item"@),
        ) == Some(catalog),
{
    let created = catalog.insert("todo_item"@, built_create(todo_item_schema()).columns);
    assert(created.remove("todo_item"@) =~= catalog);
}

} // verus!
