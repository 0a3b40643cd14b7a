//! Static checks for SQL schema migrations: flags statements that are likely
//! to rewrite a whole table or hold a long exclusive lock on a live database.
//!
//! The text of a script is parsed with sqlparser and brought into a small
//! syntax model (`syntax`); the checks (`rules`) are routed by statement kind
//! (`dispatch`), and a batch of inputs is linted one input at a time
//! (`session`). `laws` states what holds of every input.
pub mod diagnostic;
pub mod dispatch;
pub mod laws;
pub mod parse;
pub mod rules;
pub mod session;
pub mod syntax;

pub use diagnostic::{ErrorCode, LintError};
pub use dispatch::{lint_alter_table, lint_statement, lint_statements};
pub use rules::{lint_add_column, lint_column_option, lint_create_index};
pub use session::{lint, lint_errors, lint_parsed, lint_source, LintReport};
pub use syntax::{AlterTableOperation, ColumnDef, ColumnOption, Statement};
