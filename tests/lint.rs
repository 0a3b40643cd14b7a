use linter::{
    lint, lint_add_column, lint_create_index, lint_errors, lint_parsed, lint_source, lint_statement,
    AlterTableOperation, ColumnDef, ColumnOption, ErrorCode, LintError, Statement,
};

fn codes(errors: &[LintError]) -> Vec<ErrorCode> {
    errors.iter().map(|e| e.code).collect()
}

fn source(text: &str) -> Result<String, String> {
    Ok(text.to_string())
}

#[test]
fn test_create_table() {
    let errors = lint_errors(&source(
        "CREATE TABLE users (id int PRIMARY KEY, name text NOT NULL, active boolean DEFAULT true);",
    ));
    assert_eq!(0, errors.len());
}

#[test]
fn test_lint_add_column_without_default() {
    let errors = lint_errors(&source("ALTER TABLE users ADD COLUMN email text;"));
    assert_eq!(0, errors.len());
}

#[test]
fn test_lint_add_column_with_default() {
    let errors = lint_errors(&source("ALTER TABLE users ADD COLUMN active boolean DEFAULT true;"));
    assert_eq!(vec![LintError::new(ErrorCode::DefaultValue, "")], errors);
}

#[test]
fn test_lint_create_index_sync() {
    let errors = lint_errors(&source("CREATE INDEX idx_users_email ON users(email);"));
    assert_eq!(vec![LintError::new(ErrorCode::NonConcurrentIndex, "")], errors);
}

#[test]
fn test_lint_create_index_async() {
    let errors = lint_errors(&source("CREATE INDEX CONCURRENTLY idx_users_email ON users(email);"));
    assert_eq!(0, errors.len());
}

#[test]
fn not_null_column_is_reported() {
    let errors = lint_source("ALTER TABLE t ADD COLUMN c int NOT NULL;");
    assert_eq!(vec![ErrorCode::NotNullColumn], codes(&errors));
    assert_eq!(
        "Column c is added with the NOT NULL option. This can cause a full table rewrite which can be very slow.",
        errors[0].message
    );
}

#[test]
fn default_column_is_reported() {
    let errors = lint_source("ALTER TABLE t ADD COLUMN c int DEFAULT 0;");
    assert_eq!(vec![ErrorCode::DefaultValue], codes(&errors));
    assert_eq!(
        "Column c is added with a default value. This can cause a full table rewrite which can be very slow.",
        errors[0].message
    );
}

#[test]
fn not_null_and_default_are_both_reported_in_order() {
    let errors = lint_source("ALTER TABLE t ADD COLUMN c int NOT NULL DEFAULT 0;");
    assert_eq!(vec![ErrorCode::NotNullColumn, ErrorCode::DefaultValue], codes(&errors));
    let errors = lint_source("ALTER TABLE t ADD COLUMN c int DEFAULT 0 NOT NULL;");
    assert_eq!(vec![ErrorCode::DefaultValue, ErrorCode::NotNullColumn], codes(&errors));
}

#[test]
fn index_without_concurrently_is_reported() {
    let errors = lint_source("CREATE INDEX idx ON t(c);");
    assert_eq!(vec![ErrorCode::NonConcurrentIndex], codes(&errors));
    assert_eq!(
        "Index idx is created without CONCURRENTLY. This requires holding an exclusive table lock while the index is built, which can cause downtime.",
        errors[0].message
    );
    assert_eq!(0, lint_source("CREATE INDEX CONCURRENTLY idx ON t(c);").len());
}

#[test]
fn unnamed_index_is_reported() {
    let errors = lint_source("CREATE INDEX ON t(c);");
    assert_eq!(vec![ErrorCode::NonConcurrentIndex], codes(&errors));
    assert!(errors[0].message.starts_with("Index is created without CONCURRENTLY."));
}

#[test]
fn safe_patterns_yield_nothing() {
    assert_eq!(0, lint_source("CREATE TABLE t (c int NOT NULL DEFAULT 0);").len());
    assert_eq!(0, lint_source("ALTER TABLE t ADD COLUMN c int;").len());
    assert_eq!(0, lint_source("ALTER TABLE t ADD COLUMN c int NULL UNIQUE;").len());
    assert_eq!(0, lint_source("CREATE INDEX CONCURRENTLY idx ON t(c);").len());
    assert_eq!(0, lint_source("").len());
}

#[test]
fn unrecognized_statements_are_inert() {
    assert_eq!(0, lint_source("INSERT INTO t (c) VALUES (1);").len());
    assert_eq!(0, lint_source("SELECT * FROM t;").len());
    assert_eq!(0, lint_source("ALTER TABLE t DROP COLUMN c;").len());
    assert_eq!(0, lint_source("ALTER TABLE t RENAME COLUMN c TO d;").len());
}

#[test]
fn findings_follow_statement_order() {
    let errors = lint_source(
        "CREATE INDEX a ON t(c); SELECT 1; ALTER TABLE t ADD COLUMN c int NOT NULL, ADD COLUMN d int DEFAULT 1;",
    );
    assert_eq!(
        vec![ErrorCode::NonConcurrentIndex, ErrorCode::NotNullColumn, ErrorCode::DefaultValue],
        codes(&errors)
    );
    assert!(errors[2].message.starts_with("Column d "));
}

#[test]
fn syntax_error_is_one_finding() {
    let errors = lint_source("ALTER TABLE ADD COLUMN;");
    assert_eq!(vec![ErrorCode::SyntaxError], codes(&errors));
    assert!(!errors[0].message.is_empty());
}

#[test]
fn file_error_is_one_finding() {
    let errors = lint_errors(&Err("No such file or directory".to_string()));
    assert_eq!(vec![ErrorCode::FileError], codes(&errors));
    assert_eq!("No such file or directory", errors[0].message);
}

#[test]
fn batch_inputs_are_linted_in_isolation() {
    let report = lint(vec![
        source("ALTER TABLE t ADD COLUMN;;;"),
        source("CREATE TABLE t (c int);"),
        source("CREATE INDEX idx ON t(c);"),
    ]);
    assert!(!report.success);
    assert_eq!(3, report.errors.len());
    assert_eq!(vec![ErrorCode::SyntaxError], codes(&report.errors[0]));
    assert_eq!(0, report.errors[1].len());
    assert_eq!(vec![ErrorCode::NonConcurrentIndex], codes(&report.errors[2]));
}

#[test]
fn clean_batch_succeeds() {
    let report = lint(vec![source("CREATE TABLE t (c int);"), source("CREATE INDEX CONCURRENTLY i ON t(c);")]);
    assert!(report.success);
    assert!(report.errors.iter().all(|e| e.is_empty()));
    let empty = lint(Vec::new());
    assert!(empty.success);
    assert_eq!(0, empty.errors.len());
}

#[test]
fn unreadable_input_fails_the_batch() {
    let report = lint(vec![Err("permission denied".to_string()), source("SELECT 1;")]);
    assert!(!report.success);
    assert_eq!(vec![ErrorCode::FileError], codes(&report.errors[0]));
    assert_eq!(0, report.errors[1].len());
}

#[test]
fn linting_twice_gives_the_same_messages() {
    let text = "CREATE INDEX idx ON t(c); ALTER TABLE t ADD COLUMN c int NOT NULL DEFAULT 0;";
    let first: Vec<(ErrorCode, String)> = lint_source(text).into_iter().map(|e| (e.code, e.message)).collect();
    let second: Vec<(ErrorCode, String)> = lint_source(text).into_iter().map(|e| (e.code, e.message)).collect();
    assert_eq!(3, first.len());
    assert_eq!(first, second);
}

#[test]
fn errors_compare_by_code_only() {
    assert_eq!(LintError::new(ErrorCode::DefaultValue, "a"), LintError::new(ErrorCode::DefaultValue, "b"));
    assert_ne!(LintError::new(ErrorCode::DefaultValue, "a"), LintError::new(ErrorCode::NotNullColumn, "a"));
    assert_eq!("a", LintError::new(ErrorCode::DefaultValue, "a").message);
}

#[test]
fn rules_on_the_syntax_model() {
    let def = ColumnDef {
        name: "c".to_string(),
        options: vec![ColumnOption::Other, ColumnOption::Default, ColumnOption::NotNull, ColumnOption::Default],
    };
    assert_eq!(
        vec![ErrorCode::DefaultValue, ErrorCode::NotNullColumn, ErrorCode::DefaultValue],
        codes(&lint_add_column(&def))
    );
    assert_eq!(0, lint_create_index(&Some("i".to_string()), true).len());
    assert_eq!(vec![ErrorCode::NonConcurrentIndex], codes(&lint_create_index(&None, false)));
    let stmt = Statement::AlterTable {
        table: "t".to_string(),
        operations: vec![AlterTableOperation::Other, AlterTableOperation::AddColumn(def)],
    };
    assert_eq!(3, lint_statement(&stmt).len());
    assert_eq!(0, lint_statement(&Statement::Other).len());
    let parsed = lint_parsed(&Ok(vec![Statement::CreateIndex { name: None, concurrently: false }, stmt]));
    assert_eq!(4, parsed.len());
    assert_eq!(vec![ErrorCode::SyntaxError], codes(&lint_parsed(&Err("bad".to_string()))));
}
