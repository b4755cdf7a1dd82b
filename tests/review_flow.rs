use llm_code_review::review::{
    accept_diff, after_diff, build_prompt, initial_args, system_prompt_listing, Action, Cli,
    DiffResult, LogLevel, OutputFormat, ReviewError, Stage, DEFAULT_SYSTEM_PROMPT,
};

fn diff_ok(text: &str) -> DiffResult {
    DiffResult { success: true, stdout: text.to_string(), stderr: String::new() }
}

#[test]
fn output_format_names() {
    assert_eq!(OutputFormat::from_str("markdown"), Some(OutputFormat::Markdown));
    assert_eq!(OutputFormat::from_str("asciidoc"), Some(OutputFormat::AsciiDoc));
    assert_eq!(OutputFormat::from_str("mediawiki"), Some(OutputFormat::MediaWiki));
    assert_eq!(OutputFormat::from_str("Markdown"), None);
    assert_eq!(OutputFormat::from_str(""), None);
    assert_eq!(OutputFormat::AsciiDoc.title(), "AsciiDoc");
}

#[test]
fn prompt_with_defaults() {
    let cli = Cli::default();
    let p = build_prompt(&cli, "diff --git a b");
    assert_eq!(p, format!("{}\n\n# PR Code\n\ndiff --git a b", DEFAULT_SYSTEM_PROMPT));
}

#[test]
fn prompt_with_all_parts() {
    let mut cli = Cli::default();
    cli.system_prompt = Some("Review this.".to_string());
    cli.output_format = Some("mediawiki".to_string());
    cli.context = Some("Extra context".to_string());
    let p = build_prompt(&cli, "D");
    assert_eq!(
        p,
        "Review this.\nOutput the review in MediaWiki format.\n\n## Additional Context\nExtra context\n\n\n# PR Code\n\nD"
    );
}

#[test]
fn prompt_ignores_unknown_format() {
    let mut cli = Cli::default();
    cli.system_prompt = Some("S".to_string());
    cli.output_format = Some("html".to_string());
    assert_eq!(build_prompt(&cli, "D"), "S\n\n# PR Code\n\nD");
}

#[test]
fn log_levels() {
    let mut cli = Cli::default();
    assert_eq!(cli.log_level(), LogLevel::Warn);
    cli.debug = true;
    assert_eq!(cli.log_level(), LogLevel::Trace);
    cli.verbose = true;
    assert_eq!(cli.log_level(), LogLevel::Info);
}

#[test]
fn first_args_keep_tokens() {
    let mut cli = Cli::default();
    cli.unified_context = 10;
    cli.remaining_args = vec!["main".to_string(), "--".to_string(), "a b.rs".to_string()];
    assert_eq!(initial_args(&cli), vec!["-U10", "main", "--", "a b.rs"]);
}

#[test]
fn failed_diff_halts_with_stderr() {
    let cli = Cli::default();
    let result = DiffResult {
        success: false,
        stdout: String::new(),
        stderr: "fatal: bad revision".to_string(),
    };
    match after_diff(&cli, Stage::FirstRun, &result) {
        Action::Halt(e) => {
            assert_eq!(e.exit_code(), 1);
            assert_eq!(
                e.message(),
                "Git diff command failed. Check your arguments:\nStderr: fatal: bad revision"
            );
            assert!(matches!(e, ReviewError::InvocationFailure(ref s) if s == "fatal: bad revision"));
        }
        other => panic!("unexpected {:?}", other),
    }
}

#[test]
fn empty_diff_means_no_changes() {
    let cli = Cli::default();
    match after_diff(&cli, Stage::FirstRun, &diff_ok("")) {
        Action::Halt(e) => {
            assert!(matches!(e, ReviewError::NoChanges));
            assert_eq!(e.exit_code(), 0);
            assert_eq!(e.message(), "No changes found to review.");
        }
        other => panic!("unexpected {:?}", other),
    }
    assert!(matches!(accept_diff(&diff_ok("")), Err(ReviewError::NoChanges)));
}

#[test]
fn under_budget_diff_is_kept() {
    let cli = Cli::default();
    let diff = "y".repeat(120_000);
    match after_diff(&cli, Stage::FirstRun, &diff_ok(&diff)) {
        Action::Prompt(p) => assert!(p.ends_with(&format!("\n\n# PR Code\n\n{}", diff))),
        other => panic!("unexpected {:?}", other),
    }
}

#[test]
fn over_budget_diff_halts() {
    let mut cli = Cli::default();
    cli.unified_context = 10;
    let diff = "y".repeat(400_000);
    match after_diff(&cli, Stage::FirstRun, &diff_ok(&diff)) {
        Action::Halt(e) => {
            assert!(matches!(e, ReviewError::BudgetExceededUnrecoverable));
            assert_eq!(e.exit_code(), 1);
        }
        other => panic!("unexpected {:?}", other),
    }
}

#[test]
fn forced_reduction_asks_for_second_run() {
    let mut cli = Cli::default();
    cli.force_reduced = true;
    cli.remaining_args = vec!["main".to_string()];
    let diff = "y".repeat(200_000);
    match after_diff(&cli, Stage::FirstRun, &diff_ok(&diff)) {
        Action::Invoke(args) => assert_eq!(args, vec!["-U3", "main"]),
        other => panic!("unexpected {:?}", other),
    }
}

#[test]
fn second_run_output_is_taken() {
    let mut cli = Cli::default();
    cli.force_reduced = true;
    let diff = "z".repeat(400_000);
    match after_diff(&cli, Stage::SecondRun, &diff_ok(&diff)) {
        Action::Prompt(p) => assert!(p.ends_with(&diff)),
        other => panic!("unexpected {:?}", other),
    }
}

#[test]
fn listing_indents_every_line() {
    let listing = system_prompt_listing();
    let mut expected = String::from("Default System Prompt:\n\n  ");
    expected.push_str(&DEFAULT_SYSTEM_PROMPT.replace('\n', "\n  "));
    assert_eq!(listing, expected);
    assert!(listing.contains("\n  Read the diff"));
}
