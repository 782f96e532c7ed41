//! What holds of the rules and of the validator whatever the repository
//! looks like. Each statement is proved from the definitions that the
//! contracts of the functions use.

use vstd::prelude::*;
use crate::document::lemma_distinct;
use crate::model::{Config, FatalError, IssueView, ResultView, Severity, ValidationResult};
use crate::repository::Repository;
use crate::rules::{
    all_sources, file_finding, file_findings, files_tracked_result, files_valid_result,
    selected_files, source_finding, source_findings,
};
use crate::syntax::Format;
use crate::text::{occurs_at, occurs_in};
use crate::validator::{all_issues, error_count, errors_in, exit_code, run_result, run_view, Validator};

verus! {

/// Those of `issues` that are about `file`.
pub open spec fn issues_about(issues: Seq<IssueView>, file: Seq<char>) -> Seq<IssueView> {
    issues.filter(|issue: IssueView| issue.file == Some(file))
}

/// The one finding of a source path that is not on disk.
pub open spec fn missing_finding(source: Seq<char>) -> IssueView {
    IssueView {
        severity: Severity::Error,
        message: "File missing: "@ + source,
        file: Some(source),
        fix_suggestion: None,
    }
}

/// A source path that is not on disk gives an error whose message holds the
/// word "missing", and nothing about tracking or ignoring.
pub proof fn lemma_missing_source(repo: &Repository, source: Seq<char>)
    requires
        !repo.is_on_disk(source),
    ensures
        source_finding(repo, source) == Some(missing_finding(source)),
        missing_finding(source).severity == Severity::Error,
        occurs_in("missing"@, missing_finding(source).message),
{
    reveal_strlit("missing");
    reveal_strlit("File missing: ");
    let message = missing_finding(source).message;
    assert(message.subrange(5, 12) =~= "missing"@);
    assert(occurs_at("missing"@, message, 5));
}

/// Among the findings of source paths of which none occurs twice, those
/// about one path are what was found of that path, once.
pub proof fn lemma_findings_about(repo: &Repository, sources: Seq<Seq<char>>, source: Seq<char>)
    requires
        sources.no_duplicates(),
    ensures
        issues_about(source_findings(repo, sources), source) == if sources.contains(source) {
            match source_finding(repo, source) {
                Some(issue) => seq![issue],
                None => Seq::<IssueView>::empty(),
            }
        } else {
            Seq::<IssueView>::empty()
        },
    decreases sources.len(),
{
    let about = |issue: IssueView| issue.file == Some(source);
    reveal(Seq::filter);
    if sources.len() == 0 {
        assert(!sources.contains(source));
    } else {
        let rest = sources.drop_last();
        let last = sources.last();
        assert(rest.no_duplicates()) by {
            assert forall|i: int, j: int|
                0 <= i < rest.len() && 0 <= j < rest.len() && i != j implies rest[i] != rest[j] by {
                assert(rest[i] == sources[i] && rest[j] == sources[j]);
            }
        }
        lemma_findings_about(repo, rest, source);
        let found = match source_finding(repo, last) {
            Some(issue) => seq![issue],
            None => Seq::<IssueView>::empty(),
        };
        assert(source_findings(repo, sources) =~= source_findings(repo, rest) + found);
        Seq::filter_distributes_over_add(source_findings(repo, rest), found, about);
        assert(sources.contains(source) <==> rest.contains(source) || last == source) by {
            if rest.contains(source) {
                let i = choose|i: int| 0 <= i < rest.len() && rest[i] == source;
                assert(sources[i] == source);
            }
            if last == source {
                assert(sources[sources.len() - 1] == source);
            }
            if sources.contains(source) && last != source {
                let i = choose|i: int| 0 <= i < sources.len() && sources[i] == source;
                assert(rest[i] == source);
            }
        }
        if last == source {
            assert(!rest.contains(source)) by {
                if rest.contains(source) {
                    let i = choose|i: int| 0 <= i < rest.len() && rest[i] == source;
                    assert(sources[i] == sources[sources.len() - 1]);
                }
            }
            match source_finding(repo, last) {
                Some(issue) => {
                    assert(found.drop_last() =~= Seq::<IssueView>::empty());
                    assert(found.filter(about) =~= seq![issue]);
                },
                None => {},
            }
        } else {
            match source_finding(repo, last) {
                Some(issue) => {
                    assert(issue.file == Some(last));
                    assert(found.last() == issue);
                    assert(!about(issue));
                    assert(found.drop_last() =~= Seq::<IssueView>::empty());
                    assert(found.drop_last().filter(about) =~= Seq::<IssueView>::empty());
                    assert(found.filter(about) =~= Seq::<IssueView>::empty());
                },
                None => {},
            }
        }
        assert(issues_about(source_findings(repo, sources), source) =~= issues_about(
            source_findings(repo, rest),
            source,
        ) + found.filter(about));
    }
}

/// A referenced source path that is not on disk has exactly one finding in
/// the outcome of the rule on referenced sources: the error that says so.
pub proof fn lemma_missing_source_once(config: &Config, repo: &Repository, source: Seq<char>)
    requires
        all_sources(config, repo) is Ok,
        all_sources(config, repo)->Ok_0.contains(source),
        !repo.is_on_disk(source),
    ensures
        files_tracked_result(config, repo) is Ok,
        issues_about(files_tracked_result(config, repo)->Ok_0.issues, source) == seq![
            missing_finding(source),
        ],
        !files_tracked_result(config, repo)->Ok_0.passed,
{
    let sources = all_sources(config, repo)->Ok_0;
    assert(sources.no_duplicates()) by {
        match crate::rules::document_sources(config, repo, crate::rules::GLOBAL_CONFIG@) {
            Ok(first) => match crate::rules::document_sources(
                config,
                repo,
                crate::rules::MACOS_CONFIG@,
            ) {
                Ok(second) => {
                    lemma_distinct(first + second);
                },
                Err(_) => {},
            },
            Err(_) => {},
        }
    }
    lemma_missing_source(repo, source);
    lemma_findings_about(repo, sources, source);
    let issues = source_findings(repo, sources);
    let about = issues_about(issues, source);
    assert(about[0] == missing_finding(source));
    issues.lemma_filter_contains_rev(|issue: IssueView| issue.file == Some(source), about[0]);
    let i = choose|i: int| 0 <= i < issues.len() && issues[i] == missing_finding(source);
    assert(issues[i].severity == Severity::Error);
}

/// A file that does not belong to a format, or that the format lets off,
/// has no finding in the outcome of the rule on the files of that format.
pub proof fn lemma_skipped_file_has_no_issue(format: Format, repo: &Repository, file: Seq<char>)
    requires
        !format.selects(file) || format.excepts(file),
        files_valid_result(format, repo) is Ok,
    ensures
        forall|i: int|
            0 <= i < files_valid_result(format, repo)->Ok_0.issues.len() ==> (
            #[trigger] files_valid_result(format, repo)->Ok_0.issues[i]).file != Some(file),
{
    let files = repo.tracked_files()->Ok_0;
    let chosen = selected_files(format, files);
    let issues = file_findings(format, repo, chosen);
    assert(files_valid_result(format, repo)->Ok_0.issues == issues);
    assert forall|i: int| 0 <= i < issues.len() implies (#[trigger] issues[i]).file != Some(
        file,
    ) by {
        let issue = issues[i];
        assert(issues.contains(issue));
        chosen.lemma_filter_map_contains(
            |name: Seq<char>| file_finding(format, repo, name),
            issue,
        );
        let origin = choose|name: Seq<char>| #[trigger]
            chosen.contains(name) && file_finding(format, repo, name) == Some(issue);
        assert(issue.file == Some(origin));
        assert(!format.excepts(origin));
        let k = choose|k: int| 0 <= k < chosen.len() && chosen[k] == origin;
        files.lemma_filter_pred(|name: Seq<char>| format.selects(name), k);
        assert(format.selects(origin));
    }
}

/// Two runs over one look at the repository give the same outcomes in the
/// same order, or the same error.
pub proof fn lemma_run_is_repeatable(
    validator: &Validator,
    repo: &Repository,
    first: Result<Vec<ValidationResult>, FatalError>,
    second: Result<Vec<ValidationResult>, FatalError>,
)
    requires
        run_view(first) == run_result(&validator.config, repo),
        run_view(second) == run_result(&validator.config, repo),
    ensures
        run_view(first) == run_view(second),
{
}

/// Some of `issues` are errors exactly when the errors among them are not
/// none.
pub proof fn lemma_errors_in(issues: Seq<IssueView>)
    ensures
        errors_in(issues).len() > 0 <==> exists|i: int|
            0 <= i < issues.len() && (#[trigger] issues[i]).severity == Severity::Error,
{
    let is_error = |issue: IssueView| issue.severity == Severity::Error;
    let errors = issues.filter(is_error);
    if errors.len() > 0 {
        issues.lemma_filter_pred(is_error, 0);
        assert(errors.contains(errors[0]));
        issues.lemma_filter_contains_rev(is_error, errors[0]);
        let i = choose|i: int| 0 <= i < issues.len() && issues[i] == errors[0];
        assert(issues[i].severity == Severity::Error);
    }
    if exists|i: int| 0 <= i < issues.len() && (#[trigger] issues[i]).severity == Severity::Error {
        let i = choose|i: int|
            0 <= i < issues.len() && (#[trigger] issues[i]).severity == Severity::Error;
        issues.lemma_filter_contains(is_error, i);
    }
}

/// The exit code is 1 exactly when some finding of some outcome is an
/// error, and is 0 otherwise: warnings alone never give 1.
pub proof fn lemma_exit_code(results: Seq<ResultView>)
    ensures
        exit_code(results) == 1 <==> exists|r: int, i: int|
            0 <= r < results.len() && 0 <= i < results[r].issues.len() && (
            #[trigger] results[r].issues[i]).severity == Severity::Error,
        exit_code(results) == 0 || exit_code(results) == 1,
    decreases results.len(),
{
    let inner = |result: ResultView| result.issues;
    let is_error = |issue: IssueView| issue.severity == Severity::Error;
    if results.len() == 0 {
        reveal(Seq::filter);
        assert(results.map_values(inner) =~= Seq::<Seq<IssueView>>::empty());
        assert(all_issues(results) =~= Seq::<IssueView>::empty());
    } else {
        let rest = results.drop_last();
        let last = results.last();
        lemma_exit_code(rest);
        lemma_errors_in(last.issues);
        assert(results.map_values(inner) =~= rest.map_values(inner).push(last.issues));
        rest.map_values(inner).lemma_flatten_push(last.issues);
        assert(all_issues(results) =~= all_issues(rest) + last.issues);
        Seq::filter_distributes_over_add(all_issues(rest), last.issues, is_error);
        assert(error_count(results) == error_count(rest) + errors_in(last.issues).len());
        if exit_code(results) == 1 {
            if exit_code(rest) == 1 {
                let (r, i) = choose|r: int, i: int|
                    0 <= r < rest.len() && 0 <= i < rest[r].issues.len() && (
                    #[trigger] rest[r].issues[i]).severity == Severity::Error;
                assert(results[r].issues[i].severity == Severity::Error);
            } else {
                let i = choose|i: int|
                    0 <= i < last.issues.len() && (#[trigger] last.issues[i]).severity
                        == Severity::Error;
                assert(results[results.len() - 1].issues[i].severity == Severity::Error);
            }
        }
        if exists|r: int, i: int|
            0 <= r < results.len() && 0 <= i < results[r].issues.len() && (
            #[trigger] results[r].issues[i]).severity == Severity::Error {
            let (r, i) = choose|r: int, i: int|
                0 <= r < results.len() && 0 <= i < results[r].issues.len() && (
                #[trigger] results[r].issues[i]).severity == Severity::Error;
            if r < rest.len() {
                assert(rest[r].issues[i].severity == Severity::Error);
            } else {
                assert(last.issues[i].severity == Severity::Error);
            }
        }
    }
}

} // verus!
