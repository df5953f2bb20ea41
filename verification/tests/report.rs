use bookstore_testbed::outcome::{
    classify_test_result, collect_results, failure_message, is_success, joined_is_success,
    needs_failure_signal, report_line, JoinOutcome, TestOutcome,
};

#[test]
fn classification_covers_success_failure_and_fault() {
    assert_eq!(classify_test_result(Some(true)), TestOutcome::Passed);
    assert_eq!(classify_test_result(Some(false)), TestOutcome::LogicalFailure);
    assert_eq!(classify_test_result(None), TestOutcome::RuntimeFault);
}

#[test]
fn only_passed_counts_as_success() {
    assert!(is_success(&TestOutcome::Passed));
    assert!(!is_success(&TestOutcome::LogicalFailure));
    assert!(!is_success(&TestOutcome::RuntimeFault));
}

#[test]
fn failure_signal_is_needed_iff_not_passed() {
    assert!(!needs_failure_signal(&TestOutcome::Passed));
    assert!(needs_failure_signal(&TestOutcome::LogicalFailure));
    assert!(needs_failure_signal(&TestOutcome::RuntimeFault));
}

#[test]
fn report_line_ok_is_exact() {
    assert_eq!(
        report_line("book_registering_success", true),
        "test book_registering_success ... ok"
    );
}

#[test]
fn report_line_fail_is_exact() {
    assert_eq!(
        report_line("book_registering_conflict", false),
        "test book_registering_conflict ... fail"
    );
}

#[test]
fn join_fault_counts_as_failure() {
    assert!(joined_is_success(&JoinOutcome::Finished("a".to_string(), true)));
    assert!(!joined_is_success(&JoinOutcome::Finished("a".to_string(), false)));
    assert!(!joined_is_success(&JoinOutcome::Panicked));
}

#[test]
fn all_passing_run_reports_success() {
    let joined = vec![
        JoinOutcome::Finished("alpha".to_string(), true),
        JoinOutcome::Finished("beta".to_string(), true),
        JoinOutcome::Finished("gamma".to_string(), true),
    ];
    let report = collect_results(&joined);
    assert!(report.all_passed);
    assert_eq!(
        report.lines,
        vec![
            "test alpha ... ok".to_string(),
            "test beta ... ok".to_string(),
            "test gamma ... ok".to_string(),
        ]
    );
}

#[test]
fn one_failure_fails_run_but_keeps_other_lines() {
    let joined = vec![
        JoinOutcome::Finished("alpha".to_string(), true),
        JoinOutcome::Finished("beta".to_string(), false),
        JoinOutcome::Finished("gamma".to_string(), true),
    ];
    let report = collect_results(&joined);
    assert!(!report.all_passed);
    assert_eq!(
        report.lines,
        vec![
            "test alpha ... ok".to_string(),
            "test beta ... fail".to_string(),
            "test gamma ... ok".to_string(),
        ]
    );
}

#[test]
fn join_fault_fails_run_without_a_line() {
    let joined = vec![
        JoinOutcome::Finished("alpha".to_string(), true),
        JoinOutcome::Panicked,
    ];
    let report = collect_results(&joined);
    assert!(!report.all_passed);
    assert_eq!(report.lines, vec!["test alpha ... ok".to_string()]);
}

#[test]
fn empty_run_reports_success() {
    let report = collect_results(&Vec::<JoinOutcome>::new());
    assert!(report.all_passed);
    assert!(report.lines.is_empty());
}

#[test]
fn failure_message_is_exact() {
    assert_eq!(failure_message(), "Some test(s) have failed");
}
