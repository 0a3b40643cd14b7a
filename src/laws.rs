use vstd::prelude::*;

use crate::diagnostic::{ErrorCode, Finding};
use crate::dispatch::{operation_findings, operations_findings, script_findings, statement_findings};
use crate::rules::{column_findings, default_message, index_findings, index_message, not_null_message, option_findings};
use crate::parse::parsed_script;
use crate::session::{batch_findings, batch_passes, input_findings, Input};
use crate::syntax::{AlterTableOperation, ColumnOption, Statement};

verus! {

/// An option that one of the column checks reports.
pub open spec fn is_risky_option(option: ColumnOption) -> bool {
    option is NotNull || option is Default
}

/// An `ALTER TABLE` operation that adds no column with a risky option.
pub open spec fn is_safe_operation(op: AlterTableOperation) -> bool {
    match op {
        AlterTableOperation::AddColumn(def) => forall|j: int|
            0 <= j < def.options@.len() ==> !is_risky_option(#[trigger] def.options@[j]),
        AlterTableOperation::Other => true,
    }
}

/// A statement of a shape that no check reports: a statement of a kind that
/// no check covers, an index built concurrently, or an `ALTER TABLE` whose
/// added columns carry neither `NOT NULL` nor `DEFAULT`.
pub open spec fn is_safe_statement(stmt: Statement) -> bool {
    match stmt {
        Statement::AlterTable { operations, .. } => forall|i: int|
            0 <= i < operations@.len() ==> is_safe_operation(#[trigger] operations@[i]),
        Statement::CreateIndex { concurrently, .. } => concurrently,
        Statement::Other => true,
    }
}

proof fn safe_column_yields_nothing(column: Seq<char>, options: Seq<ColumnOption>)
    requires
        forall|j: int| 0 <= j < options.len() ==> !is_risky_option(#[trigger] options[j]),
    ensures
        column_findings(column, options) == Seq::<Finding>::empty(),
    decreases options.len(),
{
    if options.len() > 0 {
        let rest = options.drop_last();
        assert forall|j: int| 0 <= j < rest.len() implies !is_risky_option(#[trigger] rest[j]) by {
            assert(rest[j] == options[j]);
        }
        safe_column_yields_nothing(column, rest);
        assert(!is_risky_option(options[options.len() - 1]));
        assert(column_findings(column, options) =~= Seq::<Finding>::empty());
    }
}

proof fn safe_operations_yield_nothing(ops: Seq<AlterTableOperation>)
    requires
        forall|i: int| 0 <= i < ops.len() ==> is_safe_operation(#[trigger] ops[i]),
    ensures
        operations_findings(ops) == Seq::<Finding>::empty(),
    decreases ops.len(),
{
    if ops.len() > 0 {
        let rest = ops.drop_last();
        assert forall|i: int| 0 <= i < rest.len() implies is_safe_operation(#[trigger] rest[i]) by {
            assert(rest[i] == ops[i]);
        }
        safe_operations_yield_nothing(rest);
        let last = ops[ops.len() - 1];
        assert(is_safe_operation(last));
        if let AlterTableOperation::AddColumn(def) = last {
            safe_column_yields_nothing(def.name@, def.options@);
        }
        assert(operations_findings(ops) =~= Seq::<Finding>::empty());
    }
}

/// No false positives: a statement of a safe shape yields no finding.
pub proof fn safe_statement_yields_nothing(stmt: Statement)
    requires
        is_safe_statement(stmt),
    ensures
        statement_findings(stmt) == Seq::<Finding>::empty(),
{
    if let Statement::AlterTable { operations, .. } = stmt {
        safe_operations_yield_nothing(operations@);
    }
}

/// Statements of a kind that no check covers yield nothing, and so do the
/// `ALTER TABLE` operations other than `ADD COLUMN`; a script made only of
/// such statements yields nothing at all.
pub proof fn unrecognized_statements_are_inert(stmts: Seq<Statement>)
    requires
        forall|i: int| 0 <= i < stmts.len() ==> #[trigger] stmts[i] is Other,
    ensures
        statement_findings(Statement::Other) == Seq::<Finding>::empty(),
        operation_findings(AlterTableOperation::Other) == Seq::<Finding>::empty(),
        script_findings(stmts) == Seq::<Finding>::empty(),
    decreases stmts.len(),
{
    if stmts.len() > 0 {
        let rest = stmts.drop_last();
        assert forall|i: int| 0 <= i < rest.len() implies #[trigger] rest[i] is Other by {
            assert(rest[i] == stmts[i]);
        }
        unrecognized_statements_are_inert(rest);
        assert(stmts[stmts.len() - 1] is Other);
        assert(script_findings(stmts) =~= Seq::<Finding>::empty());
    }
}

/// The options of a column are checked independently: the findings for a
/// list of options are those for any split of it, one part after the other.
pub proof fn column_options_accumulate(column: Seq<char>, first: Seq<ColumnOption>, second: Seq<ColumnOption>)
    ensures
        column_findings(column, first + second) == column_findings(column, first) + column_findings(column, second),
    decreases second.len(),
{
    if second.len() == 0 {
        assert(first + second =~= first);
        assert(column_findings(column, first) + column_findings(column, second) =~= column_findings(column, first));
    } else {
        let rest = second.drop_last();
        column_options_accumulate(column, first, rest);
        assert((first + second).drop_last() =~= first + rest);
        assert((first + second).last() == second.last());
        assert(column_findings(column, first + second) =~= column_findings(column, first) + column_findings(column, second));
    }
}

/// Each risky option yields exactly one finding of its own check: `NOT NULL`
/// yields one `NotNullColumn`, `DEFAULT` one `DefaultValue`, and the two
/// together yield both, in the order written.
pub proof fn risky_options_each_reported(column: Seq<char>)
    ensures
        column_findings(column, seq![ColumnOption::NotNull]) == seq![(ErrorCode::NotNullColumn, not_null_message(column))],
        column_findings(column, seq![ColumnOption::Default]) == seq![(ErrorCode::DefaultValue, default_message(column))],
        column_findings(column, seq![ColumnOption::NotNull, ColumnOption::Default]) == seq![
            (ErrorCode::NotNullColumn, not_null_message(column)),
            (ErrorCode::DefaultValue, default_message(column)),
        ],
        column_findings(column, seq![ColumnOption::Default, ColumnOption::NotNull]) == seq![
            (ErrorCode::DefaultValue, default_message(column)),
            (ErrorCode::NotNullColumn, not_null_message(column)),
        ],
{
    let nn = seq![ColumnOption::NotNull];
    let df = seq![ColumnOption::Default];
    assert(nn.drop_last() =~= Seq::<ColumnOption>::empty());
    assert(df.drop_last() =~= Seq::<ColumnOption>::empty());
    assert(column_findings(column, Seq::<ColumnOption>::empty()) == Seq::<Finding>::empty());
    assert(nn.last() == ColumnOption::NotNull);
    assert(df.last() == ColumnOption::Default);
    assert(column_findings(column, nn) =~= option_findings(column, ColumnOption::NotNull));
    assert(column_findings(column, df) =~= option_findings(column, ColumnOption::Default));
    column_options_accumulate(column, nn, df);
    column_options_accumulate(column, df, nn);
    assert(nn + df =~= seq![ColumnOption::NotNull, ColumnOption::Default]);
    assert(df + nn =~= seq![ColumnOption::Default, ColumnOption::NotNull]);
    assert(column_findings(column, nn) + column_findings(column, df) =~= seq![
        (ErrorCode::NotNullColumn, not_null_message(column)),
        (ErrorCode::DefaultValue, default_message(column)),
    ]);
    assert(column_findings(column, df) + column_findings(column, nn) =~= seq![
        (ErrorCode::DefaultValue, default_message(column)),
        (ErrorCode::NotNullColumn, not_null_message(column)),
    ]);
}

/// An index built without `CONCURRENTLY` yields one `NonConcurrentIndex`
/// finding; one built concurrently yields none.
pub proof fn index_concurrency(name: Option<Seq<char>>)
    ensures
        index_findings(name, false) == seq![(ErrorCode::NonConcurrentIndex, index_message(name))],
        index_findings(name, true) == Seq::<Finding>::empty(),
{
}

/// Inputs are linted in isolation: what an input yields in a batch depends on
/// that input alone, whatever stands before or after it, and the batch fails
/// as soon as one input yields anything.
pub proof fn batch_isolation(before: Seq<Input>, input: Input, after: Seq<Input>)
    ensures
        batch_findings(before + seq![input] + after).len() == before.len() + 1 + after.len(),
        batch_findings(before + seq![input] + after)[before.len() as int] == input_findings(input),
        input_findings(input).len() > 0 ==> !batch_passes(before + seq![input] + after),
{
    let all = before + seq![input] + after;
    assert(all[before.len() as int] == input);
}

/// A script that does not parse yields exactly one `SyntaxError` finding,
/// and no finding of any check on its statements.
pub proof fn unparsable_input_yields_syntax_error(text: Seq<char>)
    requires
        parsed_script(text) is Err,
    ensures
        input_findings(Ok(text)) == seq![(ErrorCode::SyntaxError, parsed_script(text)->Err_0)],
{
}

/// Linting is deterministic: equal batches yield equal findings and the same
/// verdict.
pub proof fn lint_is_deterministic(first: Seq<Input>, second: Seq<Input>)
    requires
        first == second,
    ensures
        batch_findings(first) == batch_findings(second),
        batch_passes(first) == batch_passes(second),
{
}

} // verus!
