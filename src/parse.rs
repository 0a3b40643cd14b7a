use vstd::prelude::*;

use sqlparser::ast;
use sqlparser::ast::AlterTableOperation as SqlAlterTableOperation;
use sqlparser::ast::Statement as SqlStatement;
use sqlparser::dialect::PostgreSqlDialect;
use sqlparser::parser::Parser;

use crate::syntax::{AlterTableOperation, ColumnDef, ColumnOption, Statement};

verus! {

#[verifier::external_type_specification]
#[verifier::external_body]
pub struct ExSqlStatement(SqlStatement);

#[verifier::external_type_specification]
#[verifier::external_body]
pub struct ExSqlAlterTableOperation(SqlAlterTableOperation);

/// The statements that sqlparser reads from a script under the PostgreSQL
/// dialect, or the text of its parse error; a function of the text alone.
pub uninterp spec fn parsed_script(text: Seq<char>) -> Result<Seq<Statement>, Seq<char>>;

/// Relies on sqlparser's `Parser::parse_sql` with `PostgreSqlDialect`: it either
/// yields the statements of the script in order, or a `ParserError` whose
/// `Display` text is returned. Each statement is brought into the library's
/// syntax model by `statement_of`.
#[verifier::external_body]
pub(crate) fn parse_script(text: &str) -> (r: Result<Vec<Statement>, String>)
    ensures
        match r {
            Ok(stmts) => parsed_script(text@) == Ok::<Seq<Statement>, Seq<char>>(stmts@),
            Err(m) => parsed_script(text@) == Err::<Seq<Statement>, Seq<char>>(m@),
        },
{
    match Parser::parse_sql(&PostgreSqlDialect {}, text) {
        Ok(stmts) => Ok(stmts.iter().map(statement_of).collect()),
        Err(e) => Err(e.to_string()),
    }
}

/// Converts one sqlparser statement, for `parse_script`: `ALTER TABLE` keeps
/// the table name and its operations, `CREATE INDEX` its name and whether
/// `CONCURRENTLY` was given; every other statement becomes `Other`.
#[verifier::external_body]
fn statement_of(stmt: &SqlStatement) -> (r: Statement) {
    match stmt {
        SqlStatement::AlterTable(a) => Statement::AlterTable {
            table: a.name.to_string(),
            operations: a.operations.iter().map(operation_of).collect(),
        },
        SqlStatement::CreateIndex(c) => Statement::CreateIndex {
            name: c.name.as_ref().map(|n| n.to_string()),
            concurrently: c.concurrently,
        },
        _ => Statement::Other,
    }
}

/// Converts one sqlparser `ALTER TABLE` operation, for `statement_of`: `ADD
/// COLUMN` keeps the column name and the kind of each option, in order; every
/// other operation becomes `Other`.
#[verifier::external_body]
fn operation_of(op: &SqlAlterTableOperation) -> (r: AlterTableOperation) {
    match op {
        SqlAlterTableOperation::AddColumn { column_def, .. } => AlterTableOperation::AddColumn(ColumnDef {
            name: column_def.name.to_string(),
            options: column_def.options.iter().map(|o| match o.option {
                ast::ColumnOption::NotNull => ColumnOption::NotNull,
                ast::ColumnOption::Default(_) => ColumnOption::Default,
                _ => ColumnOption::Other,
            }).collect(),
        }),
        _ => AlterTableOperation::Other,
    }
}

} // verus!
