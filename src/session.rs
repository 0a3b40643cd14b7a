use vstd::prelude::*;

use crate::diagnostic::{findings, ErrorCode, Finding, LintError};
use crate::dispatch::{lint_statements, script_findings};
use crate::parse::{parse_script, parsed_script};
use crate::syntax::Statement;

verus! {

/// An input as the contracts see it: the text that was read, or why reading failed.
pub type Input = Result<Seq<char>, Seq<char>>;

pub open spec fn input_view(input: Result<String, String>) -> Input {
    match input {
        Ok(text) => Ok(text@),
        Err(reason) => Err(reason@),
    }
}

pub open spec fn parsed_view(parsed: Result<Vec<Statement>, String>) -> Result<Seq<Statement>, Seq<char>> {
    match parsed {
        Ok(stmts) => Ok(stmts@),
        Err(reason) => Err(reason@),
    }
}

/// What a parse outcome yields: a single syntax error, or the findings of the
/// script's statements.
pub open spec fn parse_findings(parsed: Result<Seq<Statement>, Seq<char>>) -> Seq<Finding> {
    match parsed {
        Ok(stmts) => script_findings(stmts),
        Err(reason) => seq![(ErrorCode::SyntaxError, reason)],
    }
}

/// What the text of one script yields.
pub open spec fn source_findings(text: Seq<char>) -> Seq<Finding> {
    parse_findings(parsed_script(text))
}

/// What one input yields: a single file error when it could not be read.
pub open spec fn input_findings(input: Input) -> Seq<Finding> {
    match input {
        Ok(text) => source_findings(text),
        Err(reason) => seq![(ErrorCode::FileError, reason)],
    }
}

/// What a batch of inputs yields, input by input.
pub open spec fn batch_findings(inputs: Seq<Input>) -> Seq<Seq<Finding>> {
    inputs.map_values(|input: Input| input_findings(input))
}

/// A batch passes when no input yields a finding.
pub open spec fn batch_passes(inputs: Seq<Input>) -> bool {
    forall|i: int| 0 <= i < inputs.len() ==> #[trigger] input_findings(inputs[i]).len() == 0
}

/// The outcome of linting a batch: the errors of each input, in input order,
/// and whether every input came out clean.
#[derive(Debug, Clone)]
pub struct LintReport {
    pub errors: Vec<Vec<LintError>>,
    pub success: bool,
}

impl LintReport {
    pub open spec fn findings(&self) -> Seq<Seq<Finding>> {
        self.errors@.map_values(|e: Vec<LintError>| findings(e@))
    }
}

/// The errors of a parse outcome: a syntax error when the script did not
/// parse, else the findings of its statements.
pub fn lint_parsed(parsed: &Result<Vec<Statement>, String>) -> (r: Vec<LintError>)
    ensures
        findings(r@) == parse_findings(parsed_view(*parsed)),
{
    match parsed {
        Ok(stmts) => lint_statements(stmts),
        Err(reason) => {
            let r = vec![LintError::new(ErrorCode::SyntaxError, reason.as_str())];
            assert(findings(r@) =~= parse_findings(parsed_view(*parsed)));
            r
        },
    }
}

/// Parses one script and runs every check on it.
pub fn lint_source(text: &str) -> (r: Vec<LintError>)
    ensures
        findings(r@) == source_findings(text@),
{
    let parsed = parse_script(text);
    lint_parsed(&parsed)
}

/// The errors of one input: a file error when it could not be read, else
/// those of its text.
pub fn lint_errors(contents: &Result<String, String>) -> (r: Vec<LintError>)
    ensures
        findings(r@) == input_findings(input_view(*contents)),
{
    match contents {
        Ok(text) => lint_source(text.as_str()),
        Err(reason) => {
            let r = vec![LintError::new(ErrorCode::FileError, reason.as_str())];
            assert(findings(r@) =~= input_findings(input_view(*contents)));
            r
        },
    }
}

/// Lints every input, whatever became of the ones before it. The report holds
/// the errors of each input, and succeeds when there are none at all.
pub fn lint(files: Vec<Result<String, String>>) -> (r: LintReport)
    ensures
        r.findings() == batch_findings(files@.map_values(|f: Result<String, String>| input_view(f))),
        r.success == batch_passes(files@.map_values(|f: Result<String, String>| input_view(f))),
{
    let ghost inputs = files@.map_values(|f: Result<String, String>| input_view(f));
    let mut errors: Vec<Vec<LintError>> = Vec::new();
    let mut success = true;
    let n = files.len();
    for i in 0..n
        invariant
            n == files@.len(),
            inputs == files@.map_values(|f: Result<String, String>| input_view(f)),
            errors@.len() == i,
            forall|j: int| 0 <= j < i ==> findings(#[trigger] errors@[j]@) == input_findings(inputs[j]),
            success == (forall|j: int| 0 <= j < i ==> #[trigger] input_findings(inputs[j]).len() == 0),
    {
        let e = lint_errors(&files[i]);
        assert(inputs[i as int] == input_view(files@[i as int]));
        assert(findings(e@).len() == e@.len());
        if e.len() > 0 {
            success = false;
        }
        errors.push(e);
    }
    let r = LintReport { errors, success };
    assert(r.findings() =~= batch_findings(inputs));
    r
}

} // verus!
