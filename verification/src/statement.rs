//! Schema statements of `sea_query`, built from table definitions.
//!
//! The statement builders of `sea_query` (reached through the prelude of
//! `sea_orm_migration`) are opaque to the verifier. What a builder holds
//! is named by [`column_def_holds`], [`create_holds`] and [`drop_holds`].
//! Each private function below makes one call into `sea_query` and says
//! what that call does to what the builder holds; these statements are
//! taken from the source of `sea_query` and are not proved. The public
//! functions are proved from them.

use sea_orm_migration::prelude::{Alias, ColumnDef, Table, TableCreateStatement, TableDropStatement};
use vstd::prelude::*;

use crate::schema::{ColumnKeyword, ColumnKind, ColumnSchema, ColumnSchemaView, TableSchema, TableSchemaView};

verus! {

/// `sea_query::ColumnDef`, the builder of one column's definition.
#[verifier::external_type_specification]
#[verifier::external_body]
pub struct ExColumnDef(ColumnDef);

/// `sea_query::TableCreateStatement`, the builder of a `CREATE TABLE`.
#[verifier::external_type_specification]
#[verifier::external_body]
pub struct ExTableCreateStatement(TableCreateStatement);

/// `sea_query::TableDropStatement`, the builder of a `DROP TABLE`.
#[verifier::external_type_specification]
#[verifier::external_body]
pub struct ExTableDropStatement(TableDropStatement);

/// What a `ColumnDef` holds: the name it was made with, the type last set
/// on it, and the keywords pushed onto it, oldest first.
pub ghost struct ColumnDefView {
    pub name: Seq<char>,
    pub kind: Option<ColumnKind>,
    pub keywords: Seq<ColumnKeyword>,
}

/// What a `TableCreateStatement` holds: the table last named, whether
/// `if_not_exists` was called, and the columns added, oldest first.
pub ghost struct CreateView {
    pub table: Option<Seq<char>>,
    pub if_not_exists: bool,
    pub columns: Seq<ColumnDefView>,
}

/// What a `TableDropStatement` holds: the tables named, oldest first, and
/// whether `if_exists` was called.
pub ghost struct DropView {
    pub tables: Seq<Seq<char>>,
    pub if_exists: bool,
}

/// What a `sea_query::ColumnDef` holds in its fields `name`, `types` and
/// `spec`. Of a type or a keyword that this library never sets, nothing is
/// said.
pub uninterp spec fn column_def_holds(column: ColumnDef) -> ColumnDefView;

/// What a `sea_query::TableCreateStatement` holds in its fields `table`,
/// `if_not_exists` and `columns`. Its other fields (indexes, foreign keys,
/// options) are left empty by every call made here and are not named.
pub uninterp spec fn create_holds(statement: TableCreateStatement) -> CreateView;

/// What a `sea_query::TableDropStatement` holds in its fields `tables`
/// and `if_exists`. Its options are left empty by every call made here
/// and are not named.
pub uninterp spec fn drop_holds(statement: TableDropStatement) -> DropView;

/// Calls `sea_query::ColumnDef::new` on an `Alias` of `name`. Taken on
/// trust: the definition has that name, no type and no keyword.
#[verifier::external_body]
fn column_new(name: &str) -> (column: ColumnDef)
    ensures
        column_def_holds(column) == (ColumnDefView {
            name: name@,
            kind: None,
            keywords: Seq::empty(),
        }),
{
    ColumnDef::new(Alias::new(name))
}

/// Calls `sea_query::ColumnDef::integer`. Taken on trust: it sets the
/// type to `ColumnType::Integer` and leaves name and keywords.
#[verifier::external_body]
fn column_integer(column: &mut ColumnDef)
    ensures
        column_def_holds(*final(column)) == (ColumnDefView {
            kind: Some(ColumnKind::Integer),
            ..column_def_holds(*old(column))
        }),
{
    column.integer();
}

/// Calls `sea_query::ColumnDef::string`. Taken on trust: it sets the type
/// to `ColumnType::String` without a length and leaves name and keywords.
#[verifier::external_body]
fn column_string(column: &mut ColumnDef)
    ensures
        column_def_holds(*final(column)) == (ColumnDefView {
            kind: Some(ColumnKind::Varchar),
            ..column_def_holds(*old(column))
        }),
{
    column.string();
}

/// Calls `sea_query::ColumnDef::boolean`. Taken on trust: it sets the
/// type to `ColumnType::Boolean` and leaves name and keywords.
#[verifier::external_body]
fn column_boolean(column: &mut ColumnDef)
    ensures
        column_def_holds(*final(column)) == (ColumnDefView {
            kind: Some(ColumnKind::Boolean),
            ..column_def_holds(*old(column))
        }),
{
    column.boolean();
}

/// Calls `sea_query::ColumnDef::not_null`. Taken on trust: it pushes
/// `ColumnSpec::NotNull` behind the keywords and leaves name and type.
#[verifier::external_body]
fn column_not_null(column: &mut ColumnDef)
    ensures
        column_def_holds(*final(column)) == (ColumnDefView {
            keywords: column_def_holds(*old(column)).keywords.push(ColumnKeyword::NotNull),
            ..column_def_holds(*old(column))
        }),
{
    column.not_null();
}

/// Calls `sea_query::ColumnDef::auto_increment`. Taken on trust: it
/// pushes `ColumnSpec::AutoIncrement` behind the keywords and leaves name
/// and type.
#[verifier::external_body]
fn column_auto_increment(column: &mut ColumnDef)
    ensures
        column_def_holds(*final(column)) == (ColumnDefView {
            keywords: column_def_holds(*old(column)).keywords.push(ColumnKeyword::AutoIncrement),
            ..column_def_holds(*old(column))
        }),
{
    column.auto_increment();
}

/// Calls `sea_query::ColumnDef::primary_key`. Taken on trust: it pushes
/// `ColumnSpec::PrimaryKey` behind the keywords and leaves name and type.
#[verifier::external_body]
fn column_primary_key(column: &mut ColumnDef)
    ensures
        column_def_holds(*final(column)) == (ColumnDefView {
            keywords: column_def_holds(*old(column)).keywords.push(ColumnKeyword::PrimaryKey),
            ..column_def_holds(*old(column))
        }),
{
    column.primary_key();
}

/// Calls `sea_query::ColumnDef::default` on a `bool`. Taken on trust: it
/// pushes `ColumnSpec::Default` of that value behind the keywords and
/// leaves name and type.
#[verifier::external_body]
fn column_default(column: &mut ColumnDef, value: bool)
    ensures
        column_def_holds(*final(column)) == (ColumnDefView {
            keywords: column_def_holds(*old(column)).keywords.push(
                ColumnKeyword::DefaultValue(value),
            ),
            ..column_def_holds(*old(column))
        }),
{
    column.default(value);
}

/// Calls `sea_query::Table::create`. Taken on trust: the statement names
/// no table, is not conditional, and has no column.
#[verifier::external_body]
fn create_new() -> (statement: TableCreateStatement)
    ensures
        create_holds(statement) == (CreateView {
            table: None,
            if_not_exists: false,
            columns: Seq::empty(),
        }),
{
    Table::create()
}

/// Calls `sea_query::TableCreateStatement::table` on an `Alias` of
/// `name`. Taken on trust: it names the table and leaves the rest.
#[verifier::external_body]
fn create_table(statement: &mut TableCreateStatement, name: &str)
    ensures
        create_holds(*final(statement)) == (CreateView {
            table: Some(name@),
            ..create_holds(*old(statement))
        }),
{
    statement.table(Alias::new(name));
}

/// Calls `sea_query::TableCreateStatement::if_not_exists`. Taken on
/// trust: it makes the statement conditional and leaves the rest.
#[verifier::external_body]
fn create_if_not_exists(statement: &mut TableCreateStatement)
    ensures
        create_holds(*final(statement)) == (CreateView {
            if_not_exists: true,
            ..create_holds(*old(statement))
        }),
{
    statement.if_not_exists();
}

/// Calls `sea_query::TableCreateStatement::col`. Taken on trust: it moves
/// name, type and keywords of `column` into a new last column of the
/// statement and leaves the rest.
#[verifier::external_body]
fn create_col(statement: &mut TableCreateStatement, column: ColumnDef)
    ensures
        create_holds(*final(statement)) == (CreateView {
            columns: create_holds(*old(statement)).columns.push(column_def_holds(column)),
            ..create_holds(*old(statement))
        }),
{
    let mut column = column;
    statement.col(&mut column);
}

/// Calls `sea_query::Table::drop`. Taken on trust: the statement names no
/// table and is not conditional.
#[verifier::external_body]
fn drop_new() -> (statement: TableDropStatement)
    ensures
        drop_holds(statement) == (DropView { tables: Seq::empty(), if_exists: false }),
{
    Table::drop()
}

/// Calls `sea_query::TableDropStatement::table` on an `Alias` of `name`.
/// Taken on trust: it pushes the name behind the tables and leaves the
/// rest.
#[verifier::external_body]
fn drop_table(statement: &mut TableDropStatement, name: &str)
    ensures
        drop_holds(*final(statement)) == (DropView {
            tables: drop_holds(*old(statement)).tables.push(name@),
            ..drop_holds(*old(statement))
        }),
{
    statement.table(Alias::new(name));
}

/// What the builder of a column holds once it is built from `column`.
pub open spec fn built_column(column: ColumnSchemaView) -> ColumnDefView {
    ColumnDefView { name: column.name, kind: Some(column.kind), keywords: column.keywords }
}

/// What a `CREATE TABLE` holds once it is built from `table`.
pub open spec fn built_create(table: TableSchemaView) -> CreateView {
    CreateView {
        table: Some(table.name),
        if_not_exists: table.if_not_exists,
        columns: table.columns.map_values(|c: ColumnSchemaView| built_column(c)),
    }
}

/// What a `DROP TABLE` of the one table `name` holds.
pub open spec fn built_drop(name: Seq<char>) -> DropView {
    DropView { tables: seq![name], if_exists: false }
}

/// The builder of `column`: its name, then its type, then its keywords in
/// their order.
pub fn column_def(column: &ColumnSchema) -> (def: ColumnDef)
    ensures
        column_def_holds(def) == built_column(column@),
{
    let mut def = column_new(column.name.as_str());
    match column.kind {
        ColumnKind::Integer => column_integer(&mut def),
        ColumnKind::Varchar => column_string(&mut def),
        ColumnKind::Boolean => column_boolean(&mut def),
    }
    assert(column.keywords@.take(0) =~= Seq::empty());
    let mut i: usize = 0;
    while i < column.keywords.len()
        invariant
            i <= column.keywords.len(),
            column_def_holds(def) == (ColumnDefView {
                keywords: column.keywords@.take(i as int),
                ..built_column(column@)
            }),
        decreases column.keywords.len() - i,
    {
        match column.keywords[i] {
            ColumnKeyword::NotNull => column_not_null(&mut def),
            ColumnKeyword::AutoIncrement => column_auto_increment(&mut def),
            ColumnKeyword::PrimaryKey => column_primary_key(&mut def),
            ColumnKeyword::DefaultValue(value) => column_default(&mut def, value),
        }
        assert(column.keywords@.take(i as int).push(column.keywords@[i as int])
            =~= column.keywords@.take(i + 1));
        i += 1;
    }
    assert(column.keywords@.take(i as int) =~= column.keywords@);
    def
}

/// The `CREATE TABLE` of `table`: the table is named first, the statement
/// made conditional if the definition is, and the columns added in order.
pub fn create_statement(table: &TableSchema) -> (statement: TableCreateStatement)
    ensures
        create_holds(statement) == built_create(table@),
{
    let mut statement = create_new();
    create_table(&mut statement, table.name.as_str());
    if table.if_not_exists {
        create_if_not_exists(&mut statement);
    }
    assert(built_create(table@).columns.take(0) =~= Seq::empty());
    let mut i: usize = 0;
    while i < table.columns.len()
        invariant
            i <= table.columns.len(),
            create_holds(statement) == (CreateView {
                columns: built_create(table@).columns.take(i as int),
                ..built_create(table@)
            }),
        decreases table.columns.len() - i,
    {
        let def = column_def(&table.columns[i]);
        create_col(&mut statement, def);
        assert(built_create(table@).columns.take(i as int).push(built_column(table.columns@[i as int]@))
            =~= built_create(table@).columns.take(i + 1));
        i += 1;
    }
    assert(built_create(table@).columns.take(i as int) =~= built_create(table@).columns);
    statement
}

/// The unconditional `DROP TABLE` of the one table `name`.
pub fn drop_statement(name: &str) -> (statement: TableDropStatement)
    ensures
        drop_holds(statement) == built_drop(name@),
{
    let mut statement = drop_new();
    drop_table(&mut statement, name);
    assert(Seq::<Seq<char>>::empty().push(name@) =~= seq![name@]);
    statement
}

} // verus!
