use vstd::prelude::*;
use vstd::string::StringExecFns;

use crate::diagnostic::{findings, ErrorCode, Finding, LintError};
use crate::syntax::{ColumnDef, ColumnOption};

verus! {

pub open spec fn not_null_message(column: Seq<char>) -> Seq<char> {
    "Column "@ + column
        + " is added with the NOT NULL option. This can cause a full table rewrite which can be very slow."@
}

pub open spec fn default_message(column: Seq<char>) -> Seq<char> {
    "Column "@ + column
        + " is added with a default value. This can cause a full table rewrite which can be very slow."@
}

pub open spec fn index_message(name: Option<Seq<char>>) -> Seq<char> {
    let subject = match name {
        Some(n) => "Index "@ + n,
        None => "Index"@,
    };
    subject
        + " is created without CONCURRENTLY. This requires holding an exclusive table lock while the index is built, which can cause downtime."@
}

/// What one option of an added column yields.
pub open spec fn option_findings(column: Seq<char>, option: ColumnOption) -> Seq<Finding> {
    match option {
        ColumnOption::NotNull => seq![(ErrorCode::NotNullColumn, not_null_message(column))],
        ColumnOption::Default => seq![(ErrorCode::DefaultValue, default_message(column))],
        ColumnOption::Other => seq![],
    }
}

/// What an added column yields: each option on its own, in the order written.
pub open spec fn column_findings(column: Seq<char>, options: Seq<ColumnOption>) -> Seq<Finding>
    decreases options.len(),
{
    if options.len() == 0 {
        seq![]
    } else {
        column_findings(column, options.drop_last()) + option_findings(column, options.last())
    }
}

/// What a `CREATE INDEX` yields.
pub open spec fn index_findings(name: Option<Seq<char>>, concurrently: bool) -> Seq<Finding> {
    if concurrently {
        seq![]
    } else {
        seq![(ErrorCode::NonConcurrentIndex, index_message(name))]
    }
}

fn message_about(prefix: &str, subject: &str, suffix: &str) -> (r: String)
    ensures
        r@ == prefix@ + subject@ + suffix@,
{
    let mut m = String::from_str(prefix);
    m.append(subject);
    m.append(suffix);
    m
}

/// The findings for one option of a column added to an existing table.
pub fn lint_column_option(column: &str, option: ColumnOption) -> (r: Option<LintError>)
    ensures
        match r {
            Some(e) => option_findings(column@, option) == seq![e.finding()],
            None => option_findings(column@, option).len() == 0,
        },
{
    match option {
        ColumnOption::NotNull => {
            let message = message_about(
                "Column ",
                column,
                " is added with the NOT NULL option. This can cause a full table rewrite which can be very slow.",
            );
            Some(LintError { code: ErrorCode::NotNullColumn, message })
        },
        ColumnOption::Default => {
            let message = message_about(
                "Column ",
                column,
                " is added with a default value. This can cause a full table rewrite which can be very slow.",
            );
            Some(LintError { code: ErrorCode::DefaultValue, message })
        },
        ColumnOption::Other => None,
    }
}

/// The NOT NULL and DEFAULT checks on a column added to an existing table: one
/// finding per risky option, in the order the options are written.
pub fn lint_add_column(def: &ColumnDef) -> (r: Vec<LintError>)
    ensures
        findings(r@) == column_findings(def.name@, def.options@),
{
    let mut errors: Vec<LintError> = Vec::new();
    let n = def.options.len();
    for i in 0..n
        invariant
            n == def.options@.len(),
            findings(errors@) == column_findings(def.name@, def.options@.subrange(0, i as int)),
    {
        proof {
            assert(def.options@.subrange(0, i + 1).drop_last() == def.options@.subrange(0, i as int));
        }
        match lint_column_option(def.name.as_str(), def.options[i]) {
            Some(e) => errors.push(e),
            None => {},
        }
    }
    assert(def.options@.subrange(0, n as int) == def.options@);
    errors
}

/// The concurrency check on `CREATE INDEX`: one finding unless the index is
/// built concurrently.
pub fn lint_create_index(name: &Option<String>, concurrently: bool) -> (r: Vec<LintError>)
    ensures
        findings(r@) == index_findings(name_view(*name), concurrently),
{
    if concurrently {
        Vec::new()
    } else {
        let mut message = match name {
            Some(n) => {
                let mut m = String::from_str("Index ");
                m.append(n.as_str());
                m
            },
            None => String::from_str("Index"),
        };
        message.append(
            " is created without CONCURRENTLY. This requires holding an exclusive table lock while the index is built, which can cause downtime.",
        );
        let r = vec![LintError { code: ErrorCode::NonConcurrentIndex, message }];
        assert(findings(r@) =~= index_findings(name_view(*name), concurrently));
        r
    }
}

pub open spec fn name_view(name: Option<String>) -> Option<Seq<char>> {
    match name {
        Some(n) => Some(n@),
        None => None,
    }
}

} // verus!
