use validate_dotfiles::model::{Config, FatalError, Issue, Severity, ValidationResult};
use validate_dotfiles::repository::{Listing, PathFacts, QueryOutcome, Repository};
use validate_dotfiles::validator::{collect_issues, count_errors, fixable_files, Validator};

fn validator_with(verbose: bool, fix_mode: bool) -> Validator {
    Validator::new(Config { dotfiles_dir: "/r".to_string(), verbose, fix_mode })
}

fn entry(path: &str) -> PathFacts {
    PathFacts {
        path: path.to_string(),
        on_disk: true,
        is_symlink: false,
        tracked_by_git: QueryOutcome::Refused,
        ignored_by_git: QueryOutcome::Refused,
        content: None,
    }
}

fn text_file(path: &str, content: &str) -> PathFacts {
    PathFacts { content: Some(content.to_string()), tracked_by_git: QueryOutcome::Accepted, ..entry(path) }
}

fn sample_repository() -> Repository {
    Repository {
        listing: Listing::Output(b".dotter/global.toml\nzshrc\nbad.json\n".to_vec()),
        paths: vec![
            text_file(".dotter/global.toml", "[shell.files]\nzshrc = \"~/.zshrc\"\nsecrets = \"~/.secrets\"\nnotes = \"~/notes\"\n"),
            PathFacts { tracked_by_git: QueryOutcome::Accepted, ..entry("zshrc") },
            PathFacts { ignored_by_git: QueryOutcome::Accepted, ..entry("secrets") },
            entry("notes"),
            text_file("bad.json", "{ oops"),
        ],
    }
}

fn warning_only() -> Vec<ValidationResult> {
    vec![
        ValidationResult::new("first", true, vec![]),
        ValidationResult::new(
            "second",
            true,
            vec![Issue::new(Severity::Warning, "File not tracked: c.txt").with_file("c.txt").with_fix("Run: git add c.txt")],
        ),
    ]
}

fn with_errors() -> Vec<ValidationResult> {
    vec![
        ValidationResult::new(
            "second",
            false,
            vec![
                Issue::new(Severity::Error, "File ignored by git: b.txt").with_file("b.txt").with_fix("Add to .gitignore: !b.txt"),
                Issue::new(Severity::Warning, "File not tracked: c.txt").with_file("c.txt").with_fix("Run: git add c.txt"),
                Issue::new(Severity::Warning, "File not tracked: d e.txt").with_file("d e.txt").with_fix("Run: git add d e.txt"),
            ],
        ),
        ValidationResult::new("third", false, vec![Issue::new(Severity::Error, "Broken symlink: l").with_file("l")]),
    ]
}

#[test]
fn new_keeps_the_parameters() {
    let validator = validator_with(true, false);
    assert_eq!(validator.config.dotfiles_dir, "/r");
    assert!(validator.config.verbose);
    assert!(!validator.config.fix_mode);
}

#[test]
fn run_rules_gives_five_outcomes_in_the_fixed_order() {
    let results = validator_with(false, false).run_rules(&sample_repository()).expect("no fatal error");
    let names: Vec<&str> = results.iter().map(|result| result.rule_name.as_str()).collect();
    assert_eq!(
        names,
        vec![
            "Dotter configuration files exist",
            "Dotter files exist and are tracked",
            "No broken symlinks",
            "All 1 TOML files are valid",
            "All 1 JSON files are valid",
        ]
    );
    let passed: Vec<bool> = results.iter().map(|result| result.passed).collect();
    assert_eq!(passed, vec![true, false, true, true, false]);
    let messages: Vec<&str> = results[1].issues.iter().map(|issue| issue.message.as_str()).collect();
    assert_eq!(messages, vec!["File not tracked: notes", "File ignored by git: secrets"]);
    assert_eq!(results[4].issues[0].file, Some("bad.json".to_string()));
}

#[test]
fn run_rules_twice_gives_the_same_outcomes() {
    let validator = validator_with(false, false);
    let repo = sample_repository();
    let first = validator.run_rules(&repo).expect("no fatal error");
    let second = validator.run_rules(&repo).expect("no fatal error");
    assert_eq!(first.len(), second.len());
    for (one, other) in first.iter().zip(second.iter()) {
        assert_eq!(one.rule_name, other.rule_name);
        assert_eq!(one.passed, other.passed);
        assert_eq!(one.issues.len(), other.issues.len());
        for (a, b) in one.issues.iter().zip(other.issues.iter()) {
            assert_eq!(a.severity, b.severity);
            assert_eq!(a.message, b.message);
            assert_eq!(a.file, b.file);
            assert_eq!(a.fix_suggestion, b.fix_suggestion);
        }
    }
}

#[test]
fn run_rules_ends_at_the_first_rule_that_cannot_run() {
    let mut repo = sample_repository();
    repo.listing = Listing::Unavailable;
    assert!(matches!(validator_with(false, false).run_rules(&repo), Err(FatalError::ListingUnavailable)));
    repo.paths[0].content = Some("[broken".to_string());
    assert!(matches!(validator_with(false, false).run_rules(&repo), Err(FatalError::ParseFailed { .. })));
}

#[test]
fn missing_primary_configuration_gives_exit_code_one() {
    let repo = Repository { listing: Listing::Refused, paths: vec![] };
    let validator = validator_with(false, false);
    let results = validator.run_rules(&repo).expect("no fatal error");
    assert!(!results[0].passed);
    assert_eq!(results[0].issues.len(), 1);
    assert_eq!(results[0].issues[0].file, Some("/r/.dotter/global.toml".to_string()));
    assert_eq!(validator.summarize(&results), 1);
}

#[test]
fn exit_code_is_one_exactly_when_an_error_was_found() {
    let validator = validator_with(false, false);
    assert_eq!(validator.summarize(&vec![]), 0);
    assert_eq!(validator.summarize(&vec![ValidationResult::new("clean", true, vec![])]), 0);
    assert_eq!(validator.summarize(&warning_only()), 0);
    assert_eq!(validator.summarize(&with_errors()), 1);
    let late_error = vec![
        ValidationResult::new("a", true, vec![Issue::new(Severity::Warning, "w")]),
        ValidationResult::new("b", true, vec![]),
        ValidationResult::new("c", false, vec![Issue::new(Severity::Warning, "w"), Issue::new(Severity::Error, "e")]),
    ];
    assert_eq!(validator.summarize(&late_error), 1);
}

#[test]
fn ignored_source_gives_exit_code_one_and_untracked_source_zero() {
    let validator = validator_with(false, false);
    let global = "[g.files]\n\"b.txt\" = \"~/b\"\n";
    let ignored = Repository {
        listing: Listing::Refused,
        paths: vec![text_file(".dotter/global.toml", global), PathFacts { ignored_by_git: QueryOutcome::Accepted, ..entry("b.txt") }],
    };
    assert_eq!(validator.summarize(&validator.run_rules(&ignored).expect("no fatal error")), 1);
    let untracked = Repository {
        listing: Listing::Refused,
        paths: vec![text_file(".dotter/global.toml", global), entry("b.txt")],
    };
    assert_eq!(validator.summarize(&validator.run_rules(&untracked).expect("no fatal error")), 0);
}

#[test]
fn collect_issues_walks_the_outcomes_in_order() {
    let results = with_errors();
    let issues = collect_issues(&results);
    let messages: Vec<&str> = issues.iter().map(|issue| issue.message.as_str()).collect();
    assert_eq!(
        messages,
        vec!["File ignored by git: b.txt", "File not tracked: c.txt", "File not tracked: d e.txt", "Broken symlink: l"]
    );
    assert_eq!(count_errors(&issues), 2);
    assert_eq!(count_errors(&collect_issues(&warning_only())), 0);
}

#[test]
fn fixable_files_go_by_the_suggestion() {
    let results = with_errors();
    let issues = collect_issues(&results);
    assert_eq!(fixable_files(&issues, ".gitignore"), vec!["b.txt".to_string()]);
    assert_eq!(fixable_files(&issues, "git add"), vec!["c.txt".to_string(), "d e.txt".to_string()]);
    let no_file = Issue::new(Severity::Error, "m").with_fix("edit .gitignore");
    assert_eq!(fixable_files(&vec![&no_file], ".gitignore"), Vec::<String>::new());
}

#[test]
fn print_result_writes_the_rule_and_its_findings() {
    let validator = validator_with(false, false);
    let results = with_errors();
    assert_eq!(
        validator.print_result(&results[0]),
        vec![
            "\x1b[31m✗ second\x1b[0m".to_string(),
            "\x1b[31m✗   File ignored by git: b.txt (b.txt)\x1b[0m".to_string(),
            "\x1b[36mℹ     Add to .gitignore: !b.txt\x1b[0m".to_string(),
            "\x1b[33m⚠   File not tracked: c.txt (c.txt)\x1b[0m".to_string(),
            "\x1b[36mℹ     Run: git add c.txt\x1b[0m".to_string(),
            "\x1b[33m⚠   File not tracked: d e.txt (d e.txt)\x1b[0m".to_string(),
            "\x1b[36mℹ     Run: git add d e.txt\x1b[0m".to_string(),
        ]
    );
    assert_eq!(
        validator.print_result(&ValidationResult::new("clean", true, vec![])),
        vec!["\x1b[32m✓ clean\x1b[0m".to_string()]
    );
    assert_eq!(
        validator.print_result(&ValidationResult::new("bare", false, vec![Issue::new(Severity::Error, "no file")])),
        vec!["\x1b[31m✗ bare\x1b[0m".to_string(), "\x1b[31m✗   no file\x1b[0m".to_string()]
    );
}

#[test]
fn summary_of_a_clean_run() {
    let rule = format!("\n\x1b[1m{}\x1b[0m", "=".repeat(60));
    assert_eq!(
        validator_with(false, true).summary_lines(&vec![ValidationResult::new("clean", true, vec![])]),
        vec![rule, "\x1b[32m✓ All validations passed!\n\x1b[0m".to_string()]
    );
}

#[test]
fn summary_of_a_run_with_warnings_only() {
    let rule = format!("\n\x1b[1m{}\x1b[0m", "=".repeat(60));
    assert_eq!(
        validator_with(false, true).summary_lines(&warning_only()),
        vec![rule, "\x1b[33m⚠ Validation completed with 1 warning(s)\x1b[0m".to_string()]
    );
}

#[test]
fn summary_of_a_failed_run() {
    let rule = format!("\n\x1b[1m{}\x1b[0m", "=".repeat(60));
    assert_eq!(
        validator_with(false, false).summary_lines(&with_errors()),
        vec![rule, "\x1b[31m✗ Validation failed: 4 issue(s) found (2 errors, 2 warnings)\x1b[0m".to_string()]
    );
}

#[test]
fn summary_of_a_failed_run_lists_what_would_mend_it() {
    let rule = format!("\n\x1b[1m{}\x1b[0m", "=".repeat(60));
    assert_eq!(
        validator_with(false, true).summary_lines(&with_errors()),
        vec![
            rule,
            "\x1b[31m✗ Validation failed: 4 issue(s) found (2 errors, 2 warnings)\x1b[0m".to_string(),
            "\n\x1b[1mFix suggestions:\x1b[0m\n".to_string(),
            "\x1b[36mℹ Add these lines to .gitignore:\x1b[0m".to_string(),
            "\x1b[32m✓   !b.txt\x1b[0m".to_string(),
            "".to_string(),
            "\x1b[36mℹ Run this command to track files:\x1b[0m".to_string(),
            "\x1b[32m✓   git add c.txt d e.txt\x1b[0m".to_string(),
            "".to_string(),
        ]
    );
}

#[test]
fn summary_lists_only_the_groups_that_have_files() {
    let rule = format!("\n\x1b[1m{}\x1b[0m", "=".repeat(60));
    let results = vec![ValidationResult::new("links", false, vec![Issue::new(Severity::Error, "Broken symlink: l").with_file("l")])];
    assert_eq!(
        validator_with(false, true).summary_lines(&results),
        vec![
            rule,
            "\x1b[31m✗ Validation failed: 1 issue(s) found (1 errors, 0 warnings)\x1b[0m".to_string(),
            "\n\x1b[1mFix suggestions:\x1b[0m\n".to_string(),
        ]
    );
}

#[test]
fn a_quiet_run_says_nothing_on_its_way() {
    assert_eq!(validator_with(false, false).progress_lines(&sample_repository()), Vec::<String>::new());
}

#[test]
fn a_verbose_run_says_what_it_is_doing() {
    let checking = "\x1b[34m  Checking...\x1b[0m".to_string();
    assert_eq!(
        validator_with(true, false).progress_lines(&sample_repository()),
        vec![
            checking.clone(),
            checking.clone(),
            "\x1b[36mℹ Found 3 files referenced in dotter configs\x1b[0m".to_string(),
            checking.clone(),
            checking.clone(),
            checking.clone(),
        ]
    );
    let mut repo = sample_repository();
    repo.listing = Listing::Unavailable;
    assert_eq!(validator_with(true, false).progress_lines(&repo).len(), 4);
    repo.paths[0].content = None;
    assert_eq!(validator_with(true, false).progress_lines(&repo), vec![checking.clone(), checking]);
}
