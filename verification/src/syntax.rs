//! The two structured-data formats whose files are checked for syntax: which
//! files belong to a format, which of them are let off, and what is found
//! in a file that does not parse.

use vstd::prelude::*;
use vstd::string::*;
use crate::document::{parse_document, toml_document};
use crate::model::{Issue, IssueView, Severity, optional_issue};
use crate::text::{contains, ends_with, occurs_in};

verus! {

/// A format of structured data.
#[derive(Clone, Copy, Debug, PartialEq, Eq, Structural)]
pub enum Format {
    Toml,
    Json,
}

/// Whether `serde_json::from_str::<serde_json::Value>` accepts `text`.
pub uninterp spec fn json_well_formed(text: Seq<char>) -> bool;

/// Calls `serde_json::from_str::<serde_json::Value>` and tells whether it
/// returned a value rather than an error. The answer depends on the text
/// alone; input nested deeper than the crate's limit is an error.
#[verifier::external_body]
fn reads_as_json(content: &str) -> (accepted: bool)
    ensures
        accepted == json_well_formed(content@),
{
    serde_json::from_str::<serde_json::Value>(content).is_ok()
}

impl Format {
    /// The name of the format in messages.
    pub open spec fn label(self) -> Seq<char> {
        match self {
            Format::Toml => "TOML"@,
            Format::Json => "JSON"@,
        }
    }

    /// `path` names a file of this format, by its ending.
    pub open spec fn selects(self, path: Seq<char>) -> bool {
        match self {
            Format::Toml => ".toml"@.is_suffix_of(path),
            Format::Json => ".json"@.is_suffix_of(path) || ".jsonc"@.is_suffix_of(path),
        }
    }

    /// `path` is let off: a JSON file that may hold comments, by its ending
    /// or because it lies under the editor's configuration directory.
    pub open spec fn excepts(self, path: Seq<char>) -> bool {
        match self {
            Format::Toml => false,
            Format::Json => ".jsonc"@.is_suffix_of(path) || occurs_in("/.config/zed/"@, path),
        }
    }

    /// The strict parser of the format accepts `text`.
    pub open spec fn accepts(self, text: Seq<char>) -> bool {
        match self {
            Format::Toml => toml_document(text) is Some,
            Format::Json => json_well_formed(text),
        }
    }

    /// The name of the format in messages.
    pub fn name(&self) -> (text: &'static str)
        ensures
            text@ == self.label(),
    {
        match self {
            Format::Toml => "TOML",
            Format::Json => "JSON",
        }
    }

    /// Whether `path` names a file of this format.
    pub fn is_selected(&self, path: &str) -> (yes: bool)
        ensures
            yes == self.selects(path@),
    {
        match self {
            Format::Toml => ends_with(path, ".toml"),
            Format::Json => ends_with(path, ".json") || ends_with(path, ".jsonc"),
        }
    }

    /// Whether `path` is let off.
    pub fn is_excepted(&self, path: &str) -> (yes: bool)
        ensures
            yes == self.excepts(path@),
    {
        match self {
            Format::Toml => false,
            Format::Json => ends_with(path, ".jsonc") || contains(path, "/.config/zed/"),
        }
    }

    /// Whether the strict parser of the format accepts `content`.
    pub fn parses(&self, content: &str) -> (yes: bool)
        ensures
            yes == self.accepts(content@),
    {
        match self {
            Format::Toml => parse_document(content).is_some(),
            Format::Json => reads_as_json(content),
        }
    }
}

/// What is found in `file` once its text was handed to the parser of
/// `format`: nothing where the parser accepted it, else one error that
/// names the file.
pub open spec fn syntax_finding(format: Format, file: Seq<char>, well_formed: bool) -> Option<
    IssueView,
> {
    if well_formed {
        None
    } else {
        Some(
            IssueView {
                severity: Severity::Error,
                message: "Invalid "@ + format.label() + " syntax: "@ + file,
                file: Some(file),
                fix_suggestion: None,
            },
        )
    }
}

/// What is found in `file` once its text was handed to the parser of
/// `format` and the parser said `well_formed`.
pub fn syntax_issue(format: Format, file: &str, well_formed: bool) -> (issue: Option<Issue>)
    ensures
        optional_issue(issue) == syntax_finding(format, file@, well_formed),
{
    if well_formed {
        None
    } else {
        let mut message = String::from_str("Invalid ");
        message.append(format.name());
        message.append(" syntax: ");
        message.append(file);
        Some(Issue::new(Severity::Error, message.as_str()).with_file(file))
    }
}

} // verus!
