use vstd::prelude::*;

verus! {

/// The identifier of the check that produced a finding.
#[derive(Debug, Clone, Copy, PartialEq, Eq, Structural)]
pub enum ErrorCode {
    /// The input could not be read.
    FileError,
    /// The input is not valid SQL.
    SyntaxError,
    /// A column is added with `NOT NULL`.
    NotNullColumn,
    /// A column is added with a `DEFAULT` value.
    DefaultValue,
    /// An index is built without `CONCURRENTLY`.
    NonConcurrentIndex,
}

/// A finding as the contracts see it: the check that fired and its message.
pub type Finding = (ErrorCode, Seq<char>);

/// One finding: which check fired, and a message for people.
/// Two errors compare equal when their codes do; the message is not compared.
#[derive(Debug, Clone)]
pub struct LintError {
    pub code: ErrorCode,
    pub message: String,
}

impl LintError {
    pub open spec fn finding(&self) -> Finding {
        (self.code, self.message@)
    }

    /// Create a new error
    pub fn new(code: ErrorCode, message: &str) -> (r: LintError)
        ensures
            r.code == code,
            r.message@ == message@,
    {
        LintError { code, message: String::from_str(message) }
    }
}

impl PartialEq for LintError {
    fn eq(&self, other: &LintError) -> (r: bool) {
        self.code == other.code
    }
}

impl vstd::std_specs::cmp::PartialEqSpecImpl for LintError {
    open spec fn obeys_eq_spec() -> bool {
        true
    }

    open spec fn eq_spec(&self, other: &LintError) -> bool {
        self.code == other.code
    }
}

/// The findings that a sequence of errors carries, in order.
pub open spec fn findings(errors: Seq<LintError>) -> Seq<Finding> {
    errors.map_values(|e: LintError| e.finding())
}

} // verus!
