//! Table definitions as plain values.

use vstd::prelude::*;

verus! {

/// The type of a column.
#[derive(Debug, Clone, Copy, PartialEq, Eq, Structural)]
pub enum ColumnKind {
    /// An integer.
    Integer,
    /// A string without a stated length.
    Varchar,
    /// A truth value.
    Boolean,
}

/// A keyword that follows a column's type in its definition.
#[derive(Debug, Clone, Copy, PartialEq, Eq, Structural)]
pub enum ColumnKeyword {
    /// The column holds a value in every row.
    NotNull,
    /// The database assigns the value, greater in each new row.
    AutoIncrement,
    /// The column is the key of the table.
    PrimaryKey,
    /// The value of the column in a row that is created without one.
    DefaultValue(bool),
}

/// The definition of one column: its name, its type, and its keywords in
/// the order in which they are written.
#[derive(Debug)]
pub struct ColumnSchema {
    pub name: String,
    pub kind: ColumnKind,
    pub keywords: Vec<ColumnKeyword>,
}

/// A column definition as a mathematical value.
pub ghost struct ColumnSchemaView {
    pub name: Seq<char>,
    pub kind: ColumnKind,
    pub keywords: Seq<ColumnKeyword>,
}

impl View for ColumnSchema {
    type V = ColumnSchemaView;

    open spec fn view(&self) -> ColumnSchemaView {
        ColumnSchemaView { name: self.name@, kind: self.kind, keywords: self.keywords@ }
    }
}

/// The definition of a table: its name, whether creating it is skipped
/// where a table of that name exists, and its columns in order.
#[derive(Debug)]
pub struct TableSchema {
    pub name: String,
    pub if_not_exists: bool,
    pub columns: Vec<ColumnSchema>,
}

/// A table definition as a mathematical value.
pub ghost struct TableSchemaView {
    pub name: Seq<char>,
    pub if_not_exists: bool,
    pub columns: Seq<ColumnSchemaView>,
}

impl View for TableSchema {
    type V = TableSchemaView;

    open spec fn view(&self) -> TableSchemaView {
        TableSchemaView {
            name: self.name@,
            if_not_exists: self.if_not_exists,
            columns: self.columns@.map_values(|c: ColumnSchema| c@),
        }
    }
}

} // verus!
