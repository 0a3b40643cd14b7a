use vstd::prelude::*;

verus! {

/// One option on a column definition, as far as the checks tell options apart.
#[derive(Debug, Clone, Copy, PartialEq, Eq, Structural)]
pub enum ColumnOption {
    /// `NOT NULL`
    NotNull,
    /// `DEFAULT <expr>`; the expression itself is of no interest to the checks.
    Default,
    /// Any other option (`NULL`, `UNIQUE`, `CHECK`, ...).
    Other,
}

/// A column definition: its name and its options in the order written.
#[derive(Debug, Clone)]
pub struct ColumnDef {
    pub name: String,
    pub options: Vec<ColumnOption>,
}

/// One operation of an `ALTER TABLE` statement.
#[derive(Debug, Clone)]
pub enum AlterTableOperation {
    /// `ADD [COLUMN] <column definition>`
    AddColumn(ColumnDef),
    /// Any other operation (`DROP COLUMN`, `RENAME`, ...).
    Other,
}

/// A top-level statement of a migration script.
#[derive(Debug, Clone)]
pub enum Statement {
    /// `ALTER TABLE <table> <operation>, ...`
    AlterTable { table: String, operations: Vec<AlterTableOperation> },
    /// `CREATE [UNIQUE] INDEX [CONCURRENTLY] [<name>] ON ...`
    CreateIndex { name: Option<String>, concurrently: bool },
    /// Any other statement (`CREATE TABLE`, `INSERT`, `SELECT`, ...).
    Other,
}

} // verus!
