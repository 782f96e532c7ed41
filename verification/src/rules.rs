//! The five rules. Each one reads the parameters of the run and one look at
//! the repository, and gives the outcome that it alone decides.

use vstd::prelude::*;
use vstd::string::*;
use crate::document::{
    append_all, distinct, parse_document, referenced_sources, sources_of_document, toml_document,
    unique,
};
use crate::model::{
    optional_issue, Config, FatalError, FatalErrorView, Issue, IssueView, ResultView, Severity,
    ValidationResult,
};
use crate::repository::{
    get_tracked_files, is_broken_symlink, is_ignored_by_git, is_tracked_by_git, Repository,
};
use crate::syntax::{syntax_finding, syntax_issue, Format};
use crate::text::{decimal, decimal_text, join_path, joined_path};

verus! {

/// The configuration document that every repository must hold.
pub const GLOBAL_CONFIG: &'static str = ".dotter/global.toml";

/// The configuration document that a repository may hold besides.
pub const MACOS_CONFIG: &'static str = ".dotter/macos.toml";

/// The view of an outcome, or of the error that came in its place.
pub open spec fn outcome_view(outcome: Result<ValidationResult, FatalError>) -> Result<
    ResultView,
    FatalErrorView,
> {
    match outcome {
        Ok(result) => Ok(result@),
        Err(error) => Err(error@),
    }
}

/// Every one of `issues` is a warning.
pub open spec fn only_warnings(issues: Seq<IssueView>) -> bool {
    forall|i: int| 0 <= i < issues.len() ==> issues[i].severity == Severity::Warning
}

/// The outcome of a rule that holds exactly when it found nothing.
pub open spec fn strict_result(rule_name: Seq<char>, issues: Seq<IssueView>) -> ResultView {
    ResultView { rule_name, passed: issues.len() == 0, issues }
}

/// What the rule on the required document gives: one error that names the
/// place where the document should be, unless the document is on disk.
pub open spec fn configs_exist_result(config: &Config, repo: &Repository) -> ResultView {
    strict_result(
        "Dotter configuration files exist"@,
        if repo.is_on_disk(GLOBAL_CONFIG@) {
            Seq::empty()
        } else {
            seq![
                IssueView {
                    severity: Severity::Error,
                    message: "Dotter global.toml not found"@,
                    file: Some(joined_path(config.dotfiles_dir@, GLOBAL_CONFIG@)),
                    fix_suggestion: None,
                },
            ]
        },
    )
}

/// Checks that the required configuration document is on disk.
pub fn dotter_configs_exist(config: &Config, repo: &Repository) -> (result: ValidationResult)
    ensures
        result@ == configs_exist_result(config, repo),
{
    let mut issues: Vec<Issue> = Vec::new();
    if !repo.path_exists(GLOBAL_CONFIG) {
        let expected = join_path(config.dotfiles_dir.as_str(), GLOBAL_CONFIG);
        issues.push(
            Issue::new(Severity::Error, "Dotter global.toml not found").with_file(
                expected.as_str(),
            ),
        );
    }
    let passed = issues.len() == 0;
    let result = ValidationResult::new("Dotter configuration files exist", passed, issues);
    assert(result@.issues =~= configs_exist_result(config, repo).issues);
    result
}

/// The source paths of the document at `document`: none where it is not on
/// disk. A document that is on disk and cannot be read, or that is not
/// well-formed, ends the run.
pub open spec fn document_sources(config: &Config, repo: &Repository, document: Seq<char>) -> Result<
    Seq<Seq<char>>,
    FatalErrorView,
> {
    if !repo.is_on_disk(document) {
        Ok(Seq::empty())
    } else {
        match repo.content(document) {
            None => Err(
                FatalErrorView::ReadFailed { path: joined_path(config.dotfiles_dir@, document) },
            ),
            Some(text) => match toml_document(text) {
                None => Err(
                    FatalErrorView::ParseFailed {
                        path: joined_path(config.dotfiles_dir@, document),
                    },
                ),
                Some(tree) => Ok(referenced_sources(tree)),
            },
        }
    }
}

/// The source paths that the configuration documents refer to, each once, in
/// the order in which they first occur.
pub open spec fn all_sources(config: &Config, repo: &Repository) -> Result<
    Seq<Seq<char>>,
    FatalErrorView,
> {
    match document_sources(config, repo, GLOBAL_CONFIG@) {
        Err(error) => Err(error),
        Ok(first) => match document_sources(config, repo, MACOS_CONFIG@) {
            Err(error) => Err(error),
            Ok(second) => Ok(distinct(first + second)),
        },
    }
}

/// What is found of one source path: an error where it is not on disk; else
/// nothing where it is tracked; else an error where it is ignored, and a
/// warning where it is not.
pub open spec fn source_finding(repo: &Repository, source: Seq<char>) -> Option<IssueView> {
    if !repo.is_on_disk(source) {
        Some(
            IssueView {
                severity: Severity::Error,
                message: "File missing: "@ + source,
                file: Some(source),
                fix_suggestion: None,
            },
        )
    } else if repo.is_tracked(source) {
        None
    } else if repo.is_ignored(source) {
        Some(
            IssueView {
                severity: Severity::Error,
                message: "File ignored by git: "@ + source,
                file: Some(source),
                fix_suggestion: Some("Add to .gitignore: !"@ + source),
            },
        )
    } else {
        Some(
            IssueView {
                severity: Severity::Warning,
                message: "File not tracked: "@ + source,
                file: Some(source),
                fix_suggestion: Some("Run: git add "@ + source),
            },
        )
    }
}

/// What is found of `sources`, source after source.
pub open spec fn source_findings(repo: &Repository, sources: Seq<Seq<char>>) -> Seq<IssueView> {
    sources.filter_map(|source: Seq<char>| source_finding(repo, source))
}

/// What the rule on the referenced sources gives. It holds as long as it
/// found warnings only.
pub open spec fn files_tracked_result(config: &Config, repo: &Repository) -> Result<
    ResultView,
    FatalErrorView,
> {
    match all_sources(config, repo) {
        Err(error) => Err(error),
        Ok(sources) => Ok(
            ResultView {
                rule_name: "Dotter files exist and are tracked"@,
                passed: only_warnings(source_findings(repo, sources)),
                issues: source_findings(repo, sources),
            },
        ),
    }
}

/// The source paths of the document at `document`.
pub fn sources_of(config: &Config, repo: &Repository, document: &str) -> (sources: Result<
    Vec<String>,
    FatalError,
>)
    ensures
        crate::repository::texts_or_error(sources) == document_sources(config, repo, document@),
{
    if !repo.path_exists(document) {
        let none: Vec<String> = Vec::new();
        assert(none.deep_view() =~= Seq::<Seq<char>>::empty());
        return Ok(none);
    }
    match repo.read(document) {
        None => Err(
            FatalError::ReadFailed { path: join_path(config.dotfiles_dir.as_str(), document) },
        ),
        Some(text) => match parse_document(text.as_str()) {
            None => Err(
                FatalError::ParseFailed {
                    path: join_path(config.dotfiles_dir.as_str(), document),
                },
            ),
            Some(tree) => Ok(sources_of_document(&tree)),
        },
    }
}

/// The source paths that the configuration documents refer to, each once.
pub fn referenced_files(config: &Config, repo: &Repository) -> (sources: Result<
    Vec<String>,
    FatalError,
>)
    ensures
        crate::repository::texts_or_error(sources) == all_sources(config, repo),
{
    let mut found = match sources_of(config, repo, GLOBAL_CONFIG) {
        Ok(first) => first,
        Err(error) => {
            return Err(error);
        },
    };
    let second = match sources_of(config, repo, MACOS_CONFIG) {
        Ok(second) => second,
        Err(error) => {
            return Err(error);
        },
    };
    append_all(&mut found, second);
    Ok(unique(&found))
}

/// What is found of one source path.
pub fn check_source(repo: &Repository, source: &str) -> (issue: Option<Issue>)
    ensures
        optional_issue(issue) == source_finding(repo, source@),
{
    if !repo.path_exists(source) {
        let message = String::from_str("File missing: ").concat(source);
        return Some(Issue::new(Severity::Error, message.as_str()).with_file(source));
    }
    if is_tracked_by_git(repo, source) {
        return None;
    }
    if is_ignored_by_git(repo, source) {
        let message = String::from_str("File ignored by git: ").concat(source);
        let fix = String::from_str("Add to .gitignore: !").concat(source);
        Some(
            Issue::new(Severity::Error, message.as_str()).with_file(source).with_fix(
                fix.as_str(),
            ),
        )
    } else {
        let message = String::from_str("File not tracked: ").concat(source);
        let fix = String::from_str("Run: git add ").concat(source);
        Some(
            Issue::new(Severity::Warning, message.as_str()).with_file(source).with_fix(
                fix.as_str(),
            ),
        )
    }
}

/// Whether every one of `issues` is a warning.
pub fn all_warnings(issues: &Vec<Issue>) -> (yes: bool)
    ensures
        yes == only_warnings(issues.deep_view()),
{
    let mut i: usize = 0;
    while i < issues.len()
        invariant
            i <= issues.len(),
            forall|k: int| 0 <= k < i ==> issues.deep_view()[k].severity == Severity::Warning,
        decreases issues.len() - i,
    {
        match issues[i].severity {
            Severity::Error => {
                assert(issues.deep_view()[i as int].severity == Severity::Error);
                return false;
            },
            Severity::Warning => {},
        }
        i += 1;
    }
    true
}

/// Checks that every source path of the configuration documents is on disk
/// and tracked.
pub fn dotter_files_tracked(config: &Config, repo: &Repository) -> (outcome: Result<
    ValidationResult,
    FatalError,
>)
    ensures
        outcome_view(outcome) == files_tracked_result(config, repo),
{
    let sources = match referenced_files(config, repo) {
        Ok(sources) => sources,
        Err(error) => {
            return Err(error);
        },
    };
    let mut issues: Vec<Issue> = Vec::new();
    let mut i: usize = 0;
    assert(issues.deep_view() =~= source_findings(repo, sources.deep_view().take(0)));
    while i < sources.len()
        invariant
            i <= sources.len(),
            issues.deep_view() == source_findings(repo, sources.deep_view().take(i as int)),
        decreases sources.len() - i,
    {
        let ghost next = sources.deep_view().take(i + 1);
        assert(next.drop_last() =~= sources.deep_view().take(i as int));
        assert(next.last() == sources@[i as int]@);
        match check_source(repo, sources[i].as_str()) {
            Some(issue) => {
                let ghost before = issues.deep_view();
                issues.push(issue);
                assert(issues.deep_view() =~= before + seq![issue@]);
            },
            None => {},
        }
        i += 1;
    }
    assert(sources.deep_view().take(sources.len() as int) =~= sources.deep_view());
    let passed = all_warnings(&issues);
    Ok(ValidationResult::new("Dotter files exist and are tracked", passed, issues))
}

/// What is found of one tracked file by the rule on symbolic links.
pub open spec fn symlink_finding(repo: &Repository, file: Seq<char>) -> Option<IssueView> {
    if repo.is_broken(file) {
        Some(
            IssueView {
                severity: Severity::Error,
                message: "Broken symlink: "@ + file,
                file: Some(file),
                fix_suggestion: None,
            },
        )
    } else {
        None
    }
}

/// What is found of `files` by the rule on symbolic links, file after file.
pub open spec fn symlink_findings(repo: &Repository, files: Seq<Seq<char>>) -> Seq<IssueView> {
    files.filter_map(|file: Seq<char>| symlink_finding(repo, file))
}

/// What the rule on symbolic links gives.
pub open spec fn symlinks_result(repo: &Repository) -> Result<ResultView, FatalErrorView> {
    match repo.tracked_files() {
        Err(error) => Err(error),
        Ok(files) => Ok(strict_result("No broken symlinks"@, symlink_findings(repo, files))),
    }
}

/// Checks that no tracked file is a symbolic link that leads nowhere.
pub fn no_broken_symlinks(config: &Config, repo: &Repository) -> (outcome: Result<
    ValidationResult,
    FatalError,
>)
    ensures
        outcome_view(outcome) == symlinks_result(repo),
{
    let files = match get_tracked_files(repo) {
        Ok(files) => files,
        Err(error) => {
            return Err(error);
        },
    };
    let mut issues: Vec<Issue> = Vec::new();
    let mut i: usize = 0;
    assert(issues.deep_view() =~= symlink_findings(repo, files.deep_view().take(0)));
    while i < files.len()
        invariant
            i <= files.len(),
            issues.deep_view() == symlink_findings(repo, files.deep_view().take(i as int)),
        decreases files.len() - i,
    {
        let ghost next = files.deep_view().take(i + 1);
        assert(next.drop_last() =~= files.deep_view().take(i as int));
        assert(next.last() == files@[i as int]@);
        let file = files[i].as_str();
        if is_broken_symlink(repo, file) {
            let message = String::from_str("Broken symlink: ").concat(file);
            let issue = Issue::new(Severity::Error, message.as_str()).with_file(file);
            let ghost before = issues.deep_view();
            issues.push(issue);
            assert(issues.deep_view() =~= before + seq![issue@]);
        }
        i += 1;
    }
    assert(files.deep_view().take(files.len() as int) =~= files.deep_view());
    let passed = issues.len() == 0;
    Ok(ValidationResult::new("No broken symlinks", passed, issues))
}

/// Those of `files` that belong to `format`.
pub open spec fn selected_files(format: Format, files: Seq<Seq<char>>) -> Seq<Seq<char>> {
    files.filter(|file: Seq<char>| format.selects(file))
}

/// What is found of one file of `format`: nothing where the file is let
/// off or cannot be read, else what the parser's answer gives.
pub open spec fn file_finding(format: Format, repo: &Repository, file: Seq<char>) -> Option<
    IssueView,
> {
    if format.excepts(file) {
        None
    } else {
        match repo.content(file) {
            Some(text) => syntax_finding(format, file, format.accepts(text)),
            None => None,
        }
    }
}

/// What is found of `files` of `format`, file after file.
pub open spec fn file_findings(format: Format, repo: &Repository, files: Seq<Seq<char>>) -> Seq<
    IssueView,
> {
    files.filter_map(|file: Seq<char>| file_finding(format, repo, file))
}

/// The name of the rule on the files of `format`, of which there are `count`.
pub open spec fn files_valid_name(format: Format, count: nat) -> Seq<char> {
    "All "@ + decimal_text(count) + " "@ + format.label() + " files are valid"@
}

/// What the rule on the files of `format` gives. The name counts the files
/// that belong to the format, those that are let off too.
pub open spec fn files_valid_result(format: Format, repo: &Repository) -> Result<
    ResultView,
    FatalErrorView,
> {
    match repo.tracked_files() {
        Err(error) => Err(error),
        Ok(files) => Ok(
            strict_result(
                files_valid_name(format, selected_files(format, files).len()),
                file_findings(format, repo, selected_files(format, files)),
            ),
        ),
    }
}

/// Those of `files` that belong to `format`.
pub fn select_files(format: Format, files: &Vec<String>) -> (chosen: Vec<String>)
    ensures
        chosen.deep_view() == selected_files(format, files.deep_view()),
{
    let mut chosen: Vec<String> = Vec::new();
    let mut i: usize = 0;
    proof {
        reveal(Seq::filter);
        assert(chosen.deep_view() =~= selected_files(format, files.deep_view().take(0)));
    }
    while i < files.len()
        invariant
            i <= files.len(),
            chosen.deep_view() == selected_files(format, files.deep_view().take(i as int)),
        decreases files.len() - i,
    {
        let ghost next = files.deep_view().take(i + 1);
        proof {
            reveal(Seq::filter);
            assert(next.drop_last() =~= files.deep_view().take(i as int));
            assert(next.last() == files@[i as int]@);
        }
        if format.is_selected(files[i].as_str()) {
            let ghost before = chosen.deep_view();
            chosen.push(files[i].clone());
            assert(chosen.deep_view() =~= before.push(files@[i as int]@));
        }
        i += 1;
    }
    assert(files.deep_view().take(files.len() as int) =~= files.deep_view());
    chosen
}

/// What is found of one file of `format`.
pub fn check_file(format: Format, repo: &Repository, file: &str) -> (issue: Option<Issue>)
    ensures
        optional_issue(issue) == file_finding(format, repo, file@),
{
    if format.is_excepted(file) {
        return None;
    }
    match repo.read(file) {
        Some(text) => syntax_issue(format, file, format.parses(text.as_str())),
        None => None,
    }
}

/// Checks that every tracked file of `format` that is not let off parses.
pub fn files_valid(format: Format, config: &Config, repo: &Repository) -> (outcome: Result<
    ValidationResult,
    FatalError,
>)
    ensures
        outcome_view(outcome) == files_valid_result(format, repo),
{
    let listed = match get_tracked_files(repo) {
        Ok(files) => files,
        Err(error) => {
            return Err(error);
        },
    };
    let files = select_files(format, &listed);
    let mut issues: Vec<Issue> = Vec::new();
    let mut i: usize = 0;
    assert(issues.deep_view() =~= file_findings(format, repo, files.deep_view().take(0)));
    while i < files.len()
        invariant
            i <= files.len(),
            issues.deep_view() == file_findings(format, repo, files.deep_view().take(i as int)),
        decreases files.len() - i,
    {
        let ghost next = files.deep_view().take(i + 1);
        assert(next.drop_last() =~= files.deep_view().take(i as int));
        assert(next.last() == files@[i as int]@);
        match check_file(format, repo, files[i].as_str()) {
            Some(issue) => {
                let ghost before = issues.deep_view();
                issues.push(issue);
                assert(issues.deep_view() =~= before + seq![issue@]);
            },
            None => {},
        }
        i += 1;
    }
    assert(files.deep_view().take(files.len() as int) =~= files.deep_view());
    let mut name = String::from_str("All ");
    name.append(decimal(files.len()).as_str());
    name.append(" ");
    name.append(format.name());
    name.append(" files are valid");
    let passed = issues.len() == 0;
    Ok(ValidationResult::new(name.as_str(), passed, issues))
}

/// Checks that every tracked TOML file parses.
pub fn toml_files_valid(config: &Config, repo: &Repository) -> (outcome: Result<
    ValidationResult,
    FatalError,
>)
    ensures
        outcome_view(outcome) == files_valid_result(Format::Toml, repo),
{
    files_valid(Format::Toml, config, repo)
}

/// Checks that every tracked JSON file parses, but for those that may hold
/// comments.
pub fn json_files_valid(config: &Config, repo: &Repository) -> (outcome: Result<
    ValidationResult,
    FatalError,
>)
    ensures
        outcome_view(outcome) == files_valid_result(Format::Json, repo),
{
    files_valid(Format::Json, config, repo)
}

} // verus!
