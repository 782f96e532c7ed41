//! The validator: it runs the rules in their fixed order, writes the report
//! of each outcome, and sums the outcomes up into counts, a closing report
//! and an exit code.

use vstd::prelude::*;
use vstd::string::*;
use crate::model::{
    Config, FatalError, FatalErrorView, Issue, IssueView, ResultView, Severity, ValidationResult,
};
use crate::report::{
    failure, failure_line, info, info_line, success, success_line, verbose, verbose_line,
    warning, warning_line, BOLD, RESET,
};
use crate::repository::{get_tracked_files, Repository};
use crate::rules::{
    all_sources, configs_exist_result, dotter_configs_exist, dotter_files_tracked,
    files_tracked_result, files_valid_result, json_files_valid, no_broken_symlinks,
    referenced_files, symlinks_result, toml_files_valid,
};
use crate::syntax::Format;
use crate::text::{contains, decimal, decimal_text, join, joined, occurs_in};

verus! {

/// The line that parts the closing report from what stands above it.
pub const RULE: &'static str = "============================================================";

/// Runs the rules over one look at the repository and reports on them.
#[derive(Clone, Debug)]
pub struct Validator {
    pub config: Config,
}

/// The views of the outcomes of a run, or of the error that ended it.
pub open spec fn run_view(outcome: Result<Vec<ValidationResult>, FatalError>) -> Result<
    Seq<ResultView>,
    FatalErrorView,
> {
    match outcome {
        Ok(results) => Ok(results.deep_view()),
        Err(error) => Err(error@),
    }
}

/// What a run gives: the outcomes of the five rules in their order, or the
/// error of the first rule that could not be run, with no outcome at all.
pub open spec fn run_result(config: &Config, repo: &Repository) -> Result<
    Seq<ResultView>,
    FatalErrorView,
> {
    match files_tracked_result(config, repo) {
        Err(error) => Err(error),
        Ok(second) => match symlinks_result(repo) {
            Err(error) => Err(error),
            Ok(third) => match files_valid_result(Format::Toml, repo) {
                Err(error) => Err(error),
                Ok(fourth) => match files_valid_result(Format::Json, repo) {
                    Err(error) => Err(error),
                    Ok(fifth) => Ok(
                        seq![configs_exist_result(config, repo), second, third, fourth, fifth],
                    ),
                },
            },
        },
    }
}

/// What a verbose run says while it goes through the rules: a line before
/// each rule, and in the second rule how many source paths it found. The
/// lines end where the run ends.
pub open spec fn progress_text(config: &Config, repo: &Repository) -> Seq<Seq<char>> {
    if !config.verbose {
        Seq::empty()
    } else {
        seq![verbose_line("Checking..."@), verbose_line("Checking..."@)] + match all_sources(
            config,
            repo,
        ) {
            Err(_) => Seq::empty(),
            Ok(sources) => seq![
                info_line(
                    "Found "@ + decimal_text(sources.len()) + " files referenced in dotter configs"@,
                ),
                verbose_line("Checking..."@),
            ] + match repo.tracked_files() {
                Err(_) => Seq::empty(),
                Ok(_) => seq![verbose_line("Checking..."@), verbose_line("Checking..."@)],
            },
        }
    }
}

/// The findings of all `results`, result after result.
pub open spec fn all_issues(results: Seq<ResultView>) -> Seq<IssueView> {
    results.map_values(|result: ResultView| result.issues).flatten()
}

/// Those of `issues` that are errors.
pub open spec fn errors_in(issues: Seq<IssueView>) -> Seq<IssueView> {
    issues.filter(|issue: IssueView| issue.severity == Severity::Error)
}

/// How many findings `results` hold.
pub open spec fn issue_count(results: Seq<ResultView>) -> nat {
    all_issues(results).len()
}

/// How many of the findings of `results` are errors.
pub open spec fn error_count(results: Seq<ResultView>) -> nat {
    errors_in(all_issues(results)).len()
}

/// How many of the findings of `results` are warnings.
pub open spec fn warning_count(results: Seq<ResultView>) -> nat {
    (issue_count(results) - error_count(results)) as nat
}

/// The exit code of a run with these outcomes: 1 where a finding is an
/// error, else 0.
pub open spec fn exit_code(results: Seq<ResultView>) -> int {
    if error_count(results) > 0 {
        1
    } else {
        0
    }
}

/// The file of `issue`, where the issue has one and its suggestion
/// mentions `keyword`.
pub open spec fn file_to_fix(issue: IssueView, keyword: Seq<char>) -> Option<Seq<char>> {
    match issue.fix_suggestion {
        Some(fix) => if occurs_in(keyword, fix) {
            issue.file
        } else {
            None
        },
        None => None,
    }
}

/// The files of those of `issues` whose suggestion mentions `keyword`.
pub open spec fn files_to_fix(issues: Seq<IssueView>, keyword: Seq<char>) -> Seq<Seq<char>> {
    issues.filter_map(|issue: IssueView| file_to_fix(issue, keyword))
}

/// The lines that report one finding: the message, with the file behind it
/// in brackets, and below it the suggestion.
pub open spec fn issue_lines(issue: IssueView) -> Seq<Seq<char>> {
    let text = "  "@ + issue.message + match issue.file {
        Some(file) => " ("@ + file + ")"@,
        None => Seq::empty(),
    };
    let head = match issue.severity {
        Severity::Error => failure_line(text),
        Severity::Warning => warning_line(text),
    };
    match issue.fix_suggestion {
        Some(fix) => seq![head, info_line("    "@ + fix)],
        None => seq![head],
    }
}

/// The lines that report one outcome: the rule, then its findings.
pub open spec fn result_lines(result: ResultView) -> Seq<Seq<char>> {
    seq![
        if result.passed {
            success_line(result.rule_name)
        } else {
            failure_line(result.rule_name)
        },
    ] + result.issues.map_values(|issue: IssueView| issue_lines(issue)).flatten()
}

/// The line for each of `files` that is to be taken off the ignore list.
pub open spec fn unignore_lines(files: Seq<Seq<char>>) -> Seq<Seq<char>> {
    files.map_values(|file: Seq<char>| success_line("  !"@ + file))
}

/// The lines that list what would mend the findings: the files to take off
/// the ignore list, and one command that stages the files to track.
pub open spec fn fix_lines(issues: Seq<IssueView>) -> Seq<Seq<char>> {
    let ignored = files_to_fix(issues, ".gitignore"@);
    let untracked = files_to_fix(issues, "git add"@);
    seq!["\n"@ + BOLD@ + "Fix suggestions:"@ + RESET@ + "\n"@] + (if ignored.len() > 0 {
        seq![info_line("Add these lines to .gitignore:"@)] + unignore_lines(ignored) + seq![
            Seq::empty(),
        ]
    } else {
        Seq::empty()
    }) + (if untracked.len() > 0 {
        seq![
            info_line("Run this command to track files:"@),
            success_line("  git add "@ + joined(untracked, " "@)),
            Seq::empty(),
        ]
    } else {
        Seq::empty()
    })
}

/// The sentence that closes a failed run.
pub open spec fn failed_text(results: Seq<ResultView>) -> Seq<char> {
    "Validation failed: "@ + decimal_text(issue_count(results)) + " issue(s) found ("@
        + decimal_text(error_count(results)) + " errors, "@ + decimal_text(
        warning_count(results),
    ) + " warnings)"@
}

/// The closing report: a rule, then the verdict; after a failure, and where
/// the run is to say so, what would mend it.
pub open spec fn summary_text(config: &Config, results: Seq<ResultView>) -> Seq<Seq<char>> {
    seq!["\n"@ + BOLD@ + RULE@ + RESET@] + (if error_count(results) > 0 {
        seq![failure_line(failed_text(results))] + (if config.fix_mode {
            fix_lines(all_issues(results))
        } else {
            Seq::empty()
        })
    } else if warning_count(results) > 0 {
        seq![
            warning_line(
                "Validation completed with "@ + decimal_text(warning_count(results))
                    + " warning(s)"@,
            ),
        ]
    } else {
        seq![success_line("All validations passed!\n"@)]
    })
}

/// The findings of all `results`, result after result.
pub fn collect_issues(results: &Vec<ValidationResult>) -> (issues: Vec<&Issue>)
    ensures
        issues.deep_view() == all_issues(results.deep_view()),
{
    let mut issues: Vec<&Issue> = Vec::new();
    let ghost per_result = results.deep_view().map_values(|result: ResultView| result.issues);
    let mut i: usize = 0;
    assert(issues.deep_view() =~= per_result.take(0).flatten());
    while i < results.len()
        invariant
            i <= results.len(),
            per_result == results.deep_view().map_values(|result: ResultView| result.issues),
            issues.deep_view() == per_result.take(i as int).flatten(),
        decreases results.len() - i,
    {
        let found = &results[i].issues;
        proof {
            assert(per_result.take(i + 1) =~= per_result.take(i as int).push(found.deep_view()));
            per_result.take(i as int).lemma_flatten_push(found.deep_view());
        }
        let ghost start = issues.deep_view();
        let mut k: usize = 0;
        while k < found.len()
            invariant
                k <= found.len(),
                issues.deep_view() == start + found.deep_view().take(k as int),
            decreases found.len() - k,
        {
            let ghost before = issues.deep_view();
            issues.push(&found[k]);
            assert(issues.deep_view() =~= before.push(found.deep_view()[k as int]));
            assert(issues.deep_view() =~= start + found.deep_view().take(k + 1));
            k += 1;
        }
        assert(found.deep_view().take(found.len() as int) =~= found.deep_view());
        i += 1;
    }
    assert(per_result.take(results.len() as int) =~= per_result);
    issues
}

/// How many of `issues` are errors.
pub fn count_errors(issues: &Vec<&Issue>) -> (count: usize)
    ensures
        count == errors_in(issues.deep_view()).len(),
{
    let mut count: usize = 0;
    let mut i: usize = 0;
    proof {
        reveal(Seq::filter);
        assert(issues.deep_view().take(0) =~= Seq::<IssueView>::empty());
    }
    while i < issues.len()
        invariant
            i <= issues.len(),
            count <= i,
            count == errors_in(issues.deep_view().take(i as int)).len(),
        decreases issues.len() - i,
    {
        let ghost next = issues.deep_view().take(i + 1);
        proof {
            reveal(Seq::filter);
            assert(next.drop_last() =~= issues.deep_view().take(i as int));
            assert(next.last() == issues@[i as int]@);
        }
        match issues[i].severity {
            Severity::Error => {
                count += 1;
            },
            Severity::Warning => {},
        }
        i += 1;
    }
    assert(issues.deep_view().take(issues.len() as int) =~= issues.deep_view());
    count
}

/// The files of those of `issues` whose suggestion mentions `keyword`.
pub fn fixable_files(issues: &Vec<&Issue>, keyword: &str) -> (files: Vec<String>)
    ensures
        files.deep_view() == files_to_fix(issues.deep_view(), keyword@),
{
    let mut files: Vec<String> = Vec::new();
    let mut i: usize = 0;
    assert(files.deep_view() =~= files_to_fix(issues.deep_view().take(0), keyword@));
    while i < issues.len()
        invariant
            i <= issues.len(),
            files.deep_view() == files_to_fix(issues.deep_view().take(i as int), keyword@),
        decreases issues.len() - i,
    {
        let ghost next = issues.deep_view().take(i + 1);
        assert(next.drop_last() =~= issues.deep_view().take(i as int));
        assert(next.last() == issues@[i as int]@);
        let issue = issues[i];
        match &issue.fix_suggestion {
            Some(fix) => {
                if contains(fix.as_str(), keyword) {
                    match &issue.file {
                        Some(file) => {
                            let ghost before = files.deep_view();
                            files.push(file.clone());
                            assert(files.deep_view() =~= before + seq![file@]);
                        },
                        None => {},
                    }
                }
            },
            None => {},
        }
        i += 1;
    }
    assert(issues.deep_view().take(issues.len() as int) =~= issues.deep_view());
    files
}

/// Adds the lines that report `issue` to `lines`.
fn push_issue_lines(lines: &mut Vec<String>, issue: &Issue)
    ensures
        final(lines).deep_view() == old(lines).deep_view() + issue_lines(issue@),
{
    let ghost start = lines.deep_view();
    let mut text = String::from_str("  ");
    text.append(issue.message.as_str());
    match &issue.file {
        Some(file) => {
            text.append(" (");
            text.append(file.as_str());
            text.append(")");
            assert(text@ =~= "  "@ + issue.message@ + (" ("@ + file@ + ")"@));
        },
        None => {
            assert(text@ =~= "  "@ + issue.message@ + Seq::<char>::empty());
        },
    }
    let ghost wanted = "  "@ + issue@.message + match issue@.file {
        Some(file) => " ("@ + file + ")"@,
        None => Seq::empty(),
    };
    assert(text@ == wanted);
    let head = match issue.severity {
        Severity::Error => failure(text.as_str()),
        Severity::Warning => warning(text.as_str()),
    };
    lines.push(head);
    match &issue.fix_suggestion {
        Some(fix) => {
            let hint = String::from_str("    ").concat(fix.as_str());
            lines.push(info(hint.as_str()));
        },
        None => {},
    }
    assert(lines.deep_view() =~= start + issue_lines(issue@));
}

/// Adds the closing lines that list what would mend `issues` to `lines`.
fn push_fix_lines(lines: &mut Vec<String>, issues: &Vec<&Issue>)
    ensures
        final(lines).deep_view() == old(lines).deep_view() + fix_lines(issues.deep_view()),
{
    let ghost start = lines.deep_view();
    let mut title = String::from_str("\n");
    title.append(BOLD);
    title.append("Fix suggestions:");
    title.append(RESET);
    title.append("\n");
    assert(title@ =~= "\n"@ + BOLD@ + "Fix suggestions:"@ + RESET@ + "\n"@);
    lines.push(title);
    let ignored = fixable_files(issues, ".gitignore");
    let ghost opened = lines.deep_view();
    assert(opened =~= start + seq![title@]);
    let ghost first = if ignored.len() > 0 {
        seq![info_line("Add these lines to .gitignore:"@)] + unignore_lines(ignored.deep_view())
            + seq![Seq::<char>::empty()]
    } else {
        Seq::<Seq<char>>::empty()
    };
    if ignored.len() > 0 {
        lines.push(info("Add these lines to .gitignore:"));
        let ghost above = lines.deep_view();
        assert(above =~= opened + seq![info_line("Add these lines to .gitignore:"@)]);
        let mut i: usize = 0;
        assert(unignore_lines(ignored.deep_view()).take(0) =~= Seq::<Seq<char>>::empty());
        while i < ignored.len()
            invariant
                i <= ignored.len(),
                lines.deep_view() == above + unignore_lines(ignored.deep_view()).take(i as int),
            decreases ignored.len() - i,
        {
            let ghost before = lines.deep_view();
            let entry = String::from_str("  !").concat(ignored[i].as_str());
            lines.push(success(entry.as_str()));
            assert(lines.deep_view() =~= before.push(
                unignore_lines(ignored.deep_view())[i as int],
            ));
            assert(lines.deep_view() =~= above + unignore_lines(ignored.deep_view()).take(i + 1));
            i += 1;
        }
        assert(unignore_lines(ignored.deep_view()).take(ignored.len() as int)
            =~= unignore_lines(ignored.deep_view()));
        let ghost listed = lines.deep_view();
        let blank = String::new();
        lines.push(blank);
        assert(lines.deep_view() =~= listed + seq![Seq::<char>::empty()]);
    }
    let ghost middle = lines.deep_view();
    assert(middle =~= opened + first);
    let untracked = fixable_files(issues, "git add");
    let ghost second = if untracked.len() > 0 {
        seq![
            info_line("Run this command to track files:"@),
            success_line("  git add "@ + joined(untracked.deep_view(), " "@)),
            Seq::<char>::empty(),
        ]
    } else {
        Seq::<Seq<char>>::empty()
    };
    if untracked.len() > 0 {
        lines.push(info("Run this command to track files:"));
        let command = String::from_str("  git add ").concat(join(&untracked, " ").as_str());
        lines.push(success(command.as_str()));
        lines.push(String::new());
    }
    assert(lines.deep_view() =~= middle + second);
    assert(fix_lines(issues.deep_view()) =~= seq![title@] + first + second);
    assert(lines.deep_view() =~= start + fix_lines(issues.deep_view()));
}

/// Adds the line that a verbose run says before a rule to `lines`.
fn push_checking(config: &Config, lines: &mut Vec<String>)
    ensures
        final(lines).deep_view() == old(lines).deep_view() + if config.verbose {
            seq![verbose_line("Checking..."@)]
        } else {
            Seq::<Seq<char>>::empty()
        },
{
    let ghost start = lines.deep_view();
    match verbose(config, "Checking...") {
        Some(line) => {
            lines.push(line);
            assert(lines.deep_view() =~= start + seq![verbose_line("Checking..."@)]);
        },
        None => {
            assert(lines.deep_view() =~= start + Seq::<Seq<char>>::empty());
        },
    }
}

impl Validator {
    /// A validator for a run with these parameters.
    pub fn new(config: Config) -> (validator: Validator)
        ensures
            validator.config == config,
    {
        Validator { config }
    }

    /// Runs the five rules in their order. The first rule that cannot be
    /// run ends the run with its error, and no outcome is handed out.
    pub fn run_rules(&self, repo: &Repository) -> (outcome: Result<
        Vec<ValidationResult>,
        FatalError,
    >)
        ensures
            run_view(outcome) == run_result(&self.config, repo),
    {
        let first = dotter_configs_exist(&self.config, repo);
        let second = match dotter_files_tracked(&self.config, repo) {
            Ok(result) => result,
            Err(error) => {
                return Err(error);
            },
        };
        let third = match no_broken_symlinks(&self.config, repo) {
            Ok(result) => result,
            Err(error) => {
                return Err(error);
            },
        };
        let fourth = match toml_files_valid(&self.config, repo) {
            Ok(result) => result,
            Err(error) => {
                return Err(error);
            },
        };
        let fifth = match json_files_valid(&self.config, repo) {
            Ok(result) => result,
            Err(error) => {
                return Err(error);
            },
        };
        let mut results: Vec<ValidationResult> = Vec::new();
        results.push(first);
        results.push(second);
        results.push(third);
        results.push(fourth);
        results.push(fifth);
        assert(results.deep_view() =~= seq![first@, second@, third@, fourth@, fifth@]);
        Ok(results)
    }

    /// What a verbose run says while it goes through the rules.
    pub fn progress_lines(&self, repo: &Repository) -> (lines: Vec<String>)
        ensures
            lines.deep_view() == progress_text(&self.config, repo),
    {
        let mut lines: Vec<String> = Vec::new();
        if !self.config.verbose {
            assert(lines.deep_view() =~= progress_text(&self.config, repo));
            return lines;
        }
        push_checking(&self.config, &mut lines);
        push_checking(&self.config, &mut lines);
        match referenced_files(&self.config, repo) {
            Err(_) => {},
            Ok(sources) => {
                let mut found = String::from_str("Found ");
                found.append(decimal(sources.len()).as_str());
                found.append(" files referenced in dotter configs");
                assert(found@ =~= "Found "@ + decimal_text(sources.deep_view().len())
                    + " files referenced in dotter configs"@);
                let ghost opened = lines.deep_view();
                lines.push(info(found.as_str()));
                assert(lines.deep_view() =~= opened + seq![info_line(found@)]);
                push_checking(&self.config, &mut lines);
                match get_tracked_files(repo) {
                    Err(_) => {},
                    Ok(_) => {
                        push_checking(&self.config, &mut lines);
                        push_checking(&self.config, &mut lines);
                    },
                }
            },
        }
        assert(lines.deep_view() =~= progress_text(&self.config, repo));
        lines
    }

    /// The lines that report one outcome.
    pub fn print_result(&self, result: &ValidationResult) -> (lines: Vec<String>)
        ensures
            lines.deep_view() == result_lines(result@),
    {
        let mut lines: Vec<String> = Vec::new();
        if result.passed {
            lines.push(success(result.rule_name.as_str()));
        } else {
            lines.push(failure(result.rule_name.as_str()));
        }
        let ghost head = lines.deep_view();
        let ghost per_issue = result@.issues.map_values(|issue: IssueView| issue_lines(issue));
        let mut i: usize = 0;
        assert(lines.deep_view() =~= head + per_issue.take(0).flatten());
        while i < result.issues.len()
            invariant
                i <= result.issues.len(),
                per_issue == result@.issues.map_values(|issue: IssueView| issue_lines(issue)),
                lines.deep_view() == head + per_issue.take(i as int).flatten(),
            decreases result.issues.len() - i,
        {
            proof {
                let added = issue_lines(result.issues@[i as int]@);
                assert(per_issue.take(i + 1) =~= per_issue.take(i as int).push(added));
                per_issue.take(i as int).lemma_flatten_push(added);
            }
            push_issue_lines(&mut lines, &result.issues[i]);
            assert(lines.deep_view() =~= head + per_issue.take(i + 1).flatten());
            i += 1;
        }
        assert(per_issue.take(result.issues.len() as int) =~= per_issue);
        lines
    }

    /// The exit code of a run with these outcomes: 1 where at least one
    /// finding is an error, else 0. Warnings alone give 0.
    pub fn summarize(&self, results: &Vec<ValidationResult>) -> (code: i32)
        ensures
            code == exit_code(results.deep_view()),
    {
        let issues = collect_issues(results);
        if count_errors(&issues) > 0 {
            1
        } else {
            0
        }
    }

    /// The closing report of a run with these outcomes.
    pub fn summary_lines(&self, results: &Vec<ValidationResult>) -> (lines: Vec<String>)
        ensures
            lines.deep_view() == summary_text(&self.config, results.deep_view()),
    {
        let issues = collect_issues(results);
        let total = issues.len();
        let errors = count_errors(&issues);
        proof {
            issues.deep_view().lemma_filter_len(|issue: IssueView| issue.severity == Severity::Error);
        }
        let warnings = total - errors;
        let mut lines: Vec<String> = Vec::new();
        let mut rule = String::from_str("\n");
        rule.append(BOLD);
        rule.append(RULE);
        rule.append(RESET);
        lines.push(rule);
        if errors > 0 {
            let mut text = String::from_str("Validation failed: ");
            text.append(decimal(total).as_str());
            text.append(" issue(s) found (");
            text.append(decimal(errors).as_str());
            text.append(" errors, ");
            text.append(decimal(warnings).as_str());
            text.append(" warnings)");
            lines.push(failure(text.as_str()));
            if self.config.fix_mode {
                push_fix_lines(&mut lines, &issues);
            }
        } else if warnings > 0 {
            let mut text = String::from_str("Validation completed with ");
            text.append(decimal(warnings).as_str());
            text.append(" warning(s)");
            lines.push(warning(text.as_str()));
        } else {
            lines.push(success("All validations passed!\n"));
        }
        assert(lines.deep_view() =~= summary_text(&self.config, results.deep_view()));
        lines
    }
}

} // verus!
