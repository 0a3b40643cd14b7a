use vstd::prelude::*;

use crate::diagnostic::{findings, Finding, LintError};
use crate::rules::{column_findings, index_findings, lint_add_column, lint_create_index, name_view};
use crate::syntax::{AlterTableOperation, Statement};

verus! {

/// What one `ALTER TABLE` operation yields; only `ADD COLUMN` is checked.
pub open spec fn operation_findings(op: AlterTableOperation) -> Seq<Finding> {
    match op {
        AlterTableOperation::AddColumn(def) => column_findings(def.name@, def.options@),
        AlterTableOperation::Other => seq![],
    }
}

/// What the operations of an `ALTER TABLE` yield, in the order written.
pub open spec fn operations_findings(ops: Seq<AlterTableOperation>) -> Seq<Finding>
    decreases ops.len(),
{
    if ops.len() == 0 {
        seq![]
    } else {
        operations_findings(ops.drop_last()) + operation_findings(ops.last())
    }
}

/// What one statement yields; statements that no check covers yield nothing.
pub open spec fn statement_findings(stmt: Statement) -> Seq<Finding> {
    match stmt {
        Statement::AlterTable { operations, .. } => operations_findings(operations@),
        Statement::CreateIndex { name, concurrently } => index_findings(name_view(name), concurrently),
        Statement::Other => seq![],
    }
}

/// What a script yields: the findings of its statements, in statement order.
pub open spec fn script_findings(stmts: Seq<Statement>) -> Seq<Finding>
    decreases stmts.len(),
{
    if stmts.len() == 0 {
        seq![]
    } else {
        script_findings(stmts.drop_last()) + statement_findings(stmts.last())
    }
}

/// Routes one `ALTER TABLE` operation to the column checks.
pub fn lint_alter_table(operation: &AlterTableOperation) -> (r: Vec<LintError>)
    ensures
        findings(r@) == operation_findings(*operation),
{
    match operation {
        AlterTableOperation::AddColumn(def) => lint_add_column(def),
        AlterTableOperation::Other => Vec::new(),
    }
}

/// Moves the errors of `more` to the end of `errors`.
fn append_errors(errors: &mut Vec<LintError>, more: Vec<LintError>)
    ensures
        findings(final(errors)@) == findings(old(errors)@) + findings(more@),
{
    let ghost added = more@;
    let mut more = more;
    errors.append(&mut more);
    assert(findings(errors@) =~= findings(old(errors)@) + findings(added));
}

/// Routes one statement to the checks that apply to its kind.
pub fn lint_statement(stmt: &Statement) -> (r: Vec<LintError>)
    ensures
        findings(r@) == statement_findings(*stmt),
{
    match stmt {
        Statement::AlterTable { operations, .. } => {
            let mut errors: Vec<LintError> = Vec::new();
            let n = operations.len();
            for i in 0..n
                invariant
                    n == operations@.len(),
                    findings(errors@) == operations_findings(operations@.subrange(0, i as int)),
            {
                proof {
                    assert(operations@.subrange(0, i + 1).drop_last() == operations@.subrange(0, i as int));
                }
                append_errors(&mut errors, lint_alter_table(&operations[i]));
            }
            assert(operations@.subrange(0, n as int) == operations@);
            errors
        },
        Statement::CreateIndex { name, concurrently } => lint_create_index(name, *concurrently),
        Statement::Other => Vec::new(),
    }
}

/// Runs the checks over every statement of a parsed script and gathers the
/// findings in statement order.
pub fn lint_statements(stmts: &Vec<Statement>) -> (r: Vec<LintError>)
    ensures
        findings(r@) == script_findings(stmts@),
{
    let mut errors: Vec<LintError> = Vec::new();
    let n = stmts.len();
    for i in 0..n
        invariant
            n == stmts@.len(),
            findings(errors@) == script_findings(stmts@.subrange(0, i as int)),
    {
        proof {
            assert(stmts@.subrange(0, i + 1).drop_last() == stmts@.subrange(0, i as int));
        }
        append_errors(&mut errors, lint_statement(&stmts[i]));
    }
    assert(stmts@.subrange(0, n as int) == stmts@);
    errors
}

} // verus!
