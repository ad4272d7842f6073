use selene::diagnostics::{check_report, count_severities, render_order, DiagnosticInfo, Severity};
use selene::resolve::{
    config_path, config_plan, preset_lookup, std_file_name, std_plan, ConfigPlan, FatalError,
    FileRead, StdPlan,
};
use selene::source::parse_source;
use selene::summary::{summarize, FileOutcome, RunSummary};
use selene::targets::{plan_target, search_pattern, TargetKind, TargetPlan};

fn warning(start: usize) -> DiagnosticInfo {
    DiagnosticInfo { severity: Severity::Warning, start }
}

fn error(start: usize) -> DiagnosticInfo {
    DiagnosticInfo { severity: Severity::Error, start }
}

#[test]
fn two_warnings_give_exit_one() {
    let report = check_report(&vec![warning(10), warning(3)]);
    assert_eq!(report.order, vec![1, 0]);
    assert_eq!(report.errors, 0);
    assert_eq!(report.warnings, 2);
    let summary = summarize(&vec![report.outcome()]).unwrap();
    assert_eq!(summary, RunSummary { parse_errors: 0, lint_errors: 0, lint_warnings: 2 });
    let lines = summary.summary_lines();
    assert_eq!(lines.len(), 3);
    assert_eq!((lines[0].count, lines[0].label.as_str(), lines[0].highlighted), (0, "errors", false));
    assert_eq!((lines[1].count, lines[1].label.as_str(), lines[1].highlighted), (2, "warnings", true));
    assert_eq!(
        (lines[2].count, lines[2].label.as_str(), lines[2].highlighted),
        (0, "parse errors", false)
    );
    assert_eq!(summary.exit_code(), 1);
}

#[test]
fn parse_failure_and_one_error() {
    let bad = parse_source("local = = 1").unwrap_err();
    assert!(!bad.messages.is_empty());
    let report = check_report(&vec![error(4)]);
    let summary = summarize(&vec![bad.outcome(), report.outcome()]).unwrap();
    assert_eq!(summary, RunSummary { parse_errors: 1, lint_errors: 1, lint_warnings: 0 });
    assert_eq!(summary.exit_code(), 1);
}

#[test]
fn explicit_config_missing_is_fatal() {
    let plan = config_plan(true, FileRead::Failed("No such file or directory".to_string()));
    assert_eq!(
        plan,
        ConfigPlan::Fatal(FatalError::ConfigUnreadable("No such file or directory".to_string()))
    );
    if let ConfigPlan::Fatal(e) = plan {
        assert_eq!(e.message(), "Couldn't read config file: No such file or directory");
    }
}

#[test]
fn unknown_standard_library_is_fatal() {
    assert_eq!(std_file_name("doesnotexist"), "doesnotexist.toml");
    assert_eq!(std_plan(FileRead::Failed("missing".to_string())), StdPlan::ByName);
    let err = preset_lookup("doesnotexist", false).unwrap_err();
    assert_eq!(err.message(), "Unknown standard library 'doesnotexist'");
    assert_eq!(preset_lookup("lua51", true), Ok(()));
}

#[test]
fn order_of_outcomes_does_not_change_totals() {
    let a = vec![
        FileOutcome::Checked { errors: 2, warnings: 1 },
        FileOutcome::ParseFailed,
        FileOutcome::Unreadable,
        FileOutcome::Checked { errors: 0, warnings: 5 },
    ];
    let b = vec![a[3], a[1], a[0], a[2]];
    let sa = summarize(&a).unwrap();
    assert_eq!(sa, summarize(&b).unwrap());
    assert_eq!(sa, RunSummary { parse_errors: 1, lint_errors: 2, lint_warnings: 6 });
}

#[test]
fn no_files_give_clean_run() {
    let summary = summarize(&vec![]).unwrap();
    assert_eq!(summary, RunSummary::new());
    assert_eq!(summary.exit_code(), 0);
    let lines = summary.summary_lines();
    assert!(lines.iter().all(|l| l.count == 0 && !l.highlighted));
}

#[test]
fn unreadable_file_adds_nothing() {
    let summary = summarize(&vec![FileOutcome::Unreadable]).unwrap();
    assert_eq!(summary.exit_code(), 0);
}

#[test]
fn parse_failure_counts_only_parse_errors() {
    let mut summary = RunSummary { parse_errors: 3, lint_errors: 4, lint_warnings: 5 };
    summary.record(FileOutcome::ParseFailed);
    assert_eq!(summary, RunSummary { parse_errors: 4, lint_errors: 4, lint_warnings: 5 });
    summary.record(FileOutcome::Checked { errors: 1, warnings: 2 });
    assert_eq!(summary, RunSummary { parse_errors: 4, lint_errors: 5, lint_warnings: 7 });
}

#[test]
fn counters_that_would_overflow_give_none() {
    let outcomes = vec![
        FileOutcome::Checked { errors: usize::MAX, warnings: 0 },
        FileOutcome::Checked { errors: 1, warnings: 0 },
    ];
    assert_eq!(summarize(&outcomes), None);
    let fits = vec![FileOutcome::Checked { errors: usize::MAX, warnings: usize::MAX }];
    assert!(summarize(&fits).is_some());
}

#[test]
fn exit_code_zero_only_when_all_zero() {
    assert_eq!(RunSummary { parse_errors: 0, lint_errors: 0, lint_warnings: 0 }.exit_code(), 0);
    assert_eq!(RunSummary { parse_errors: 1, lint_errors: 0, lint_warnings: 0 }.exit_code(), 1);
    assert_eq!(RunSummary { parse_errors: 0, lint_errors: 1, lint_warnings: 0 }.exit_code(), 1);
    assert_eq!(RunSummary { parse_errors: 0, lint_errors: 0, lint_warnings: 1 }.exit_code(), 1);
}

#[test]
fn render_order_is_stable_on_ties() {
    let diags = vec![warning(7), error(2), error(7), warning(2), error(0)];
    assert_eq!(render_order(&diags), vec![4, 1, 3, 0, 2]);
    assert_eq!(render_order(&vec![]), Vec::<usize>::new());
}

#[test]
fn severities_are_counted() {
    let diags = vec![warning(7), error(2), error(7), warning(2), error(0)];
    assert_eq!(count_severities(&diags), (3, 2));
    let report = check_report(&diags);
    assert_eq!(report.outcome(), FileOutcome::Checked { errors: 3, warnings: 2 });
}

#[test]
fn config_sources() {
    assert_eq!(config_path(&None), "selene.toml");
    assert_eq!(config_path(&Some("conf/lint.toml".to_string())), "conf/lint.toml");
    assert_eq!(config_plan(false, FileRead::Failed("missing".to_string())), ConfigPlan::Default);
    assert_eq!(
        config_plan(false, FileRead::Contents("std = \"lua51\"".to_string())),
        ConfigPlan::Parse("std = \"lua51\"".to_string())
    );
    assert_eq!(
        std_plan(FileRead::Contents("[selene]".to_string())),
        StdPlan::ParseCustom("[selene]".to_string())
    );
}

#[test]
fn fatal_messages() {
    let m = |s: &str| s.to_string();
    assert_eq!(FatalError::ConfigMalformed(m("bad")).message(), "Config file not in correct format: bad");
    assert_eq!(
        FatalError::StdMalformed(m("bad")).message(),
        "Custom standard library wasn't formatted properly: bad"
    );
    assert_eq!(FatalError::Engine(m("no such rule")).message(), "no such rule");
    assert_eq!(FatalError::InvalidPattern(m("x")).message(), "Invalid glob pattern: x");
}

#[test]
fn directory_pattern_is_joined_and_checked() {
    assert_eq!(search_pattern("src", "**/*.lua"), Ok("src/**/*.lua".to_string()));
    match search_pattern("src", "[") {
        Err(FatalError::InvalidPattern(msg)) => assert!(msg.contains("Pattern syntax error")),
        other => panic!("unexpected {:?}", other),
    }
}

#[test]
fn targets_are_planned_by_kind() {
    assert_eq!(
        plan_target("init.lua", TargetKind::File, "[").unwrap(),
        TargetPlan::LintFile("init.lua".to_string())
    );
    assert_eq!(
        plan_target("lib", TargetKind::Directory, "*.lua").unwrap(),
        TargetPlan::Search("lib/*.lua".to_string())
    );
    assert!(plan_target("lib", TargetKind::Directory, "a**").is_err());
}

#[test]
fn valid_lua_parses() {
    assert!(parse_source("local x = 1\nprint(x)\n").is_ok());
    assert!(parse_source("").is_ok());
    assert!(parse_source("if then").is_err());
}

#[test]
fn lint_counts_equal_reported_diagnostics() {
    let files = vec![
        vec![error(1), warning(5), warning(2)],
        vec![],
        vec![error(9), error(3)],
    ];
    let mut outcomes: Vec<FileOutcome> = files.iter().map(|d| check_report(d).outcome()).collect();
    outcomes.push(FileOutcome::ParseFailed);
    let summary = summarize(&outcomes).unwrap();
    let reported: usize = files.iter().map(|d| d.len()).sum();
    assert_eq!(summary.lint_errors + summary.lint_warnings, reported);
    assert_eq!(summary, RunSummary { parse_errors: 1, lint_errors: 3, lint_warnings: 2 });
}
