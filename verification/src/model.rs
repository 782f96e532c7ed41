//! The result model: one finding, the outcome of one rule, the parameters of
//! a run and the errors that end a run.

use vstd::prelude::*;
use vstd::string::*;

verus! {

/// How grave a finding is. An `Error` fails the run, a `Warning` does not.
#[derive(Clone, Copy, Debug, PartialEq, Eq, Structural)]
pub enum Severity {
    Error,
    Warning,
}

/// One finding of a rule.
#[derive(Clone, Debug)]
pub struct Issue {
    pub severity: Severity,
    /// What was found, for a human reader.
    pub message: String,
    /// The path that the finding is about, relative to the repository root.
    pub file: Option<String>,
    /// A command or an instruction that would mend the finding.
    pub fix_suggestion: Option<String>,
}

/// An `Issue` with its texts as sequences of characters.
pub ghost struct IssueView {
    pub severity: Severity,
    pub message: Seq<char>,
    pub file: Option<Seq<char>>,
    pub fix_suggestion: Option<Seq<char>>,
}

/// The characters of a text that may be absent.
pub open spec fn optional_text(text: Option<String>) -> Option<Seq<char>> {
    match text {
        Some(t) => Some(t@),
        None => None,
    }
}

impl View for Issue {
    type V = IssueView;

    open spec fn view(&self) -> IssueView {
        IssueView {
            severity: self.severity,
            message: self.message@,
            file: optional_text(self.file),
            fix_suggestion: optional_text(self.fix_suggestion),
        }
    }
}

/// The view of a finding that may be absent.
pub open spec fn optional_issue(issue: Option<Issue>) -> Option<IssueView> {
    match issue {
        Some(i) => Some(i@),
        None => None,
    }
}

impl DeepView for Issue {
    type V = IssueView;

    open spec fn deep_view(&self) -> IssueView {
        self@
    }
}

impl Issue {
    /// A finding with a severity and a message, about no file and with no
    /// suggestion.
    pub fn new(severity: Severity, message: &str) -> (issue: Issue)
        ensures
            issue@ == (IssueView { severity, message: message@, file: None, fix_suggestion: None }),
    {
        Issue { severity, message: String::from_str(message), file: None, fix_suggestion: None }
    }

    /// The same finding, about `file`.
    pub fn with_file(self, file: &str) -> (issue: Issue)
        ensures
            issue@ == (IssueView { file: Some(file@), ..self@ }),
    {
        Issue {
            severity: self.severity,
            message: self.message,
            file: Some(String::from_str(file)),
            fix_suggestion: self.fix_suggestion,
        }
    }

    /// The same finding, with `fix` as its suggestion.
    pub fn with_fix(self, fix: &str) -> (issue: Issue)
        ensures
            issue@ == (IssueView { fix_suggestion: Some(fix@), ..self@ }),
    {
        Issue {
            severity: self.severity,
            message: self.message,
            file: self.file,
            fix_suggestion: Some(String::from_str(fix)),
        }
    }
}

/// The outcome of one rule.
#[derive(Debug)]
pub struct ValidationResult {
    pub rule_name: String,
    /// Whether the rule holds, by the rule's own policy.
    pub passed: bool,
    /// The findings, in the order in which the rule made them.
    pub issues: Vec<Issue>,
}

/// A `ValidationResult` with its texts as sequences of characters.
pub ghost struct ResultView {
    pub rule_name: Seq<char>,
    pub passed: bool,
    pub issues: Seq<IssueView>,
}

impl View for ValidationResult {
    type V = ResultView;

    open spec fn view(&self) -> ResultView {
        ResultView {
            rule_name: self.rule_name@,
            passed: self.passed,
            issues: self.issues.deep_view(),
        }
    }
}

impl DeepView for ValidationResult {
    type V = ResultView;

    open spec fn deep_view(&self) -> ResultView {
        self@
    }
}

impl ValidationResult {
    /// The outcome of the rule `rule_name` with these findings.
    pub fn new(rule_name: &str, passed: bool, issues: Vec<Issue>) -> (result: ValidationResult)
        ensures
            result@ == (ResultView {
                rule_name: rule_name@,
                passed,
                issues: issues.deep_view(),
            }),
    {
        ValidationResult { rule_name: String::from_str(rule_name), passed, issues }
    }
}

/// The parameters of a run. They are set once and handed to every rule.
#[derive(Clone, Debug)]
pub struct Config {
    /// The root of the repository.
    pub dotfiles_dir: String,
    /// Whether the run reports what it is doing.
    pub verbose: bool,
    /// Whether a failed run lists what would mend it.
    pub fix_mode: bool,
}

/// An error that ends the run at once, with no result.
#[derive(Clone, Debug)]
pub enum FatalError {
    /// A configuration document exists and could not be read.
    ReadFailed { path: String },
    /// A configuration document is not well-formed.
    ParseFailed { path: String },
    /// The version-control tool could not be run to list the tracked files.
    ListingUnavailable,
    /// The list of tracked files is no text.
    ListingNotText,
}

/// A `FatalError` with its texts as sequences of characters.
pub ghost enum FatalErrorView {
    ReadFailed { path: Seq<char> },
    ParseFailed { path: Seq<char> },
    ListingUnavailable,
    ListingNotText,
}

impl View for FatalError {
    type V = FatalErrorView;

    open spec fn view(&self) -> FatalErrorView {
        match self {
            FatalError::ReadFailed { path } => FatalErrorView::ReadFailed { path: path@ },
            FatalError::ParseFailed { path } => FatalErrorView::ParseFailed { path: path@ },
            FatalError::ListingUnavailable => FatalErrorView::ListingUnavailable,
            FatalError::ListingNotText => FatalErrorView::ListingNotText,
        }
    }
}

/// The one line that tells a user of `error`.
pub open spec fn fatal_message(error: FatalErrorView) -> Seq<char> {
    match error {
        FatalErrorView::ReadFailed { path } => "Failed to read "@ + path,
        FatalErrorView::ParseFailed { path } => "Failed to parse "@ + path,
        FatalErrorView::ListingUnavailable => "Failed to run git ls-files"@,
        FatalErrorView::ListingNotText => "Invalid UTF-8 in git output"@,
    }
}

impl FatalError {
    /// The one line that tells a user of this error.
    pub fn message(&self) -> (text: String)
        ensures
            text@ == fatal_message(self@),
    {
        match self {
            FatalError::ReadFailed { path } => String::from_str("Failed to read ").concat(
                path.as_str(),
            ),
            FatalError::ParseFailed { path } => String::from_str("Failed to parse ").concat(
                path.as_str(),
            ),
            FatalError::ListingUnavailable => String::from_str("Failed to run git ls-files"),
            FatalError::ListingNotText => String::from_str("Invalid UTF-8 in git output"),
        }
    }
}

} // verus!
