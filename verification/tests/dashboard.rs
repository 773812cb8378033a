use audit_app::attention::{needs_attention, AttentionRows, NamedRow, SevereFindingRow};
use audit_app::coverage::{compute_risk_coverage, order_by_code, risk_coverage_in_code_order, ControlLink, CoverageRows, FindingLink, OutcomeRow, RiskRow, TestLink};
use audit_app::overview::{compute_status_counts, StatusRows};

fn risk(id: &str, code: &str, rating: &str) -> RiskRow {
    RiskRow {
        id: id.into(),
        code: code.into(),
        title: format!("{code} title"),
        inherent_rating: rating.into(),
        residual_rating: None,
    }
}

fn named(id: &str, code: &str, name: &str) -> NamedRow {
    NamedRow { id: id.into(), code: code.into(), name: name.into() }
}

#[test]
fn coverage_and_status_counts_roll_up_rows() {
    let rows = CoverageRows {
        risks: vec![risk("ra", "RISK-A", "high"), risk("rb", "RISK-B", "medium")],
        controls: vec![ControlLink { control_id: "ca1".into(), risk_ids: vec!["ra".into()] }],
        tests: vec![TestLink { test_id: "t1".into(), control_id: "ca1".into() }],
        results: vec![OutcomeRow { test_id: "t1".into(), outcome: "exception".into() }],
        findings: vec![FindingLink { control_id: Some("ca1".into()), test_id: Some("t1".into()), status: "draft".into() }],
    };
    let cov = compute_risk_coverage(&rows);
    assert_eq!(cov.len(), 2);
    let a = &cov[0];
    assert_eq!(a.risk_code, "RISK-A");
    assert_eq!(a.control_count, 1);
    assert_eq!(a.test_count, 1);
    assert_eq!(a.tests_with_results, 1);
    assert_eq!(a.tests_with_exceptions, 1);
    assert_eq!(a.findings_open, 1);
    assert_eq!(a.coverage_state, "tested_with_exceptions");
    assert_eq!(cov[1].control_count, 0);
    assert_eq!(cov[1].coverage_state, "uncovered");

    let counts = compute_status_counts(&StatusRows {
        controls_total: 1,
        risks_total: 2,
        test_statuses: vec!["in_review".into()],
        result_outcomes: vec!["exception".into()],
        finding_statuses: vec!["draft".into()],
        finding_severities: vec![Some("sev-critical".into())],
        data_imports_total: 0,
        evidence_total: 0,
    });
    assert_eq!(counts.risks_total, 2);
    assert_eq!(counts.controls_total, 1);
    assert_eq!(counts.tests_total, 1);
    assert_eq!(counts.tests_in_review, 1);
    assert_eq!(counts.results_total, 1);
    assert_eq!(counts.results_exception, 1);
    assert_eq!(counts.findings_total, 1);
    assert_eq!(counts.findings_draft, 1);
    assert_eq!(counts.findings_critical, 1);

    let items = needs_attention(&AttentionRows {
        tests_in_review: vec![named("t1", "T-T1", "Test one")],
        unlinked_exceptions: vec![named("tr1", "T-T1", "Test one")],
        severe_draft_findings: vec![SevereFindingRow {
            id: "f1".into(),
            code: "F-001".into(),
            title: "Bad".into(),
            severity_name: "Critical".into(),
        }],
        risks: vec![named("ra", "RISK-A", "A"), named("rb", "RISK-B", "B")],
        control_risk_ids: vec![vec!["ra".into()]],
        untested_controls: vec![],
    });
    let kinds: Vec<&str> = items.iter().map(|i| i.kind.as_str()).collect();
    assert_eq!(kinds, vec!["test_in_review", "exception_no_finding", "finding_draft_high_severity", "risk_no_control"]);
    assert_eq!(items[0].label, "T-T1 — Test one: matcher exception awaiting decision");
    assert_eq!(items[2].label, "Critical finding F-001 — Bad: still in draft");
    assert_eq!(items[3].label, "RISK-B — B: no controls linked");
    assert_eq!(items[3].priority, "medium");
    assert_eq!(items[3].entity_id.as_deref(), Some("rb"));
}

#[test]
fn coverage_marks_risk_with_controls_but_no_tests_as_untested() {
    let rows = CoverageRows {
        risks: vec![risk("rx", "RISK-X", "medium")],
        controls: vec![ControlLink { control_id: "cx1".into(), risk_ids: vec!["rx".into()] }],
        tests: vec![],
        results: vec![],
        findings: vec![],
    };
    let cov = compute_risk_coverage(&rows);
    assert_eq!(cov[0].control_count, 1);
    assert_eq!(cov[0].test_count, 0);
    assert_eq!(cov[0].coverage_state, "untested");
    let items = needs_attention(&AttentionRows {
        tests_in_review: vec![],
        unlinked_exceptions: vec![],
        severe_draft_findings: vec![],
        risks: vec![named("rx", "RISK-X", "X")],
        control_risk_ids: vec![vec!["rx".into()]],
        untested_controls: vec![named("cx1", "CTRL-X1", "Control")],
    });
    assert_eq!(items.len(), 1);
    assert_eq!(items[0].kind, "control_no_test");
    assert_eq!(items[0].priority, "low");
    assert_eq!(items[0].label, "CTRL-X1 — Control: no test procedures yet");
}

#[test]
fn coverage_marks_clean_population_as_tested_clean() {
    let rows = CoverageRows {
        risks: vec![risk("rok", "RISK-OK", "low")],
        controls: vec![ControlLink { control_id: "cok".into(), risk_ids: vec!["rok".into()] }],
        tests: vec![TestLink { test_id: "tok".into(), control_id: "cok".into() }],
        results: vec![OutcomeRow { test_id: "tok".into(), outcome: "pass".into() }],
        findings: vec![FindingLink { control_id: Some("cok".into()), test_id: None, status: "closed".into() }],
    };
    let cov = compute_risk_coverage(&rows);
    assert_eq!(cov[0].tests_with_results, 1);
    assert_eq!(cov[0].tests_with_exceptions, 0);
    assert_eq!(cov[0].findings_open, 0);
    assert_eq!(cov[0].coverage_state, "tested_clean");
}

#[test]
fn status_counts_and_coverage_of_no_rows_are_empty() {
    let counts = compute_status_counts(&StatusRows {
        controls_total: 0,
        risks_total: 0,
        test_statuses: vec![],
        result_outcomes: vec![],
        finding_statuses: vec![],
        finding_severities: vec![],
        data_imports_total: 0,
        evidence_total: 0,
    });
    assert_eq!(counts.tests_total, 0);
    assert_eq!(counts.results_pass, 0);
    assert_eq!(counts.findings_observation, 0);
    assert!(compute_risk_coverage(&CoverageRows {
        risks: vec![],
        controls: vec![],
        tests: vec![],
        results: vec![],
        findings: vec![],
    })
    .is_empty());
}

#[test]
fn a_control_listing_a_risk_twice_counts_twice_and_failures_are_exceptions() {
    let rows = CoverageRows {
        risks: vec![risk("r", "R", "high")],
        controls: vec![ControlLink { control_id: "c".into(), risk_ids: vec!["r".into(), "r".into()] }],
        tests: vec![
            TestLink { test_id: "t1".into(), control_id: "c".into() },
            TestLink { test_id: "t2".into(), control_id: "c".into() },
        ],
        results: vec![
            OutcomeRow { test_id: "t1".into(), outcome: "pass".into() },
            OutcomeRow { test_id: "t2".into(), outcome: "fail".into() },
        ],
        findings: vec![],
    };
    let cov = compute_risk_coverage(&rows);
    assert_eq!(cov[0].control_count, 2);
    assert_eq!(cov[0].test_count, 4);
    assert_eq!(cov[0].tests_with_results, 4);
    assert_eq!(cov[0].tests_with_exceptions, 2);
    assert_eq!(cov[0].coverage_state, "tested_with_exceptions");
}

#[test]
fn coverage_counters_stay_ordered_per_risk() {
    let rows = CoverageRows {
        risks: vec![risk("r1", "RISK-1", "high")],
        controls: vec![
            ControlLink { control_id: "c1".into(), risk_ids: vec!["r1".into()] },
            ControlLink { control_id: "c2".into(), risk_ids: vec!["r1".into()] },
        ],
        tests: vec![
            TestLink { test_id: "t1".into(), control_id: "c1".into() },
            TestLink { test_id: "t2".into(), control_id: "c1".into() },
            TestLink { test_id: "t3".into(), control_id: "c2".into() },
        ],
        results: vec![
            OutcomeRow { test_id: "t1".into(), outcome: "pass".into() },
            OutcomeRow { test_id: "t3".into(), outcome: "exception".into() },
        ],
        findings: vec![],
    };
    let cov = compute_risk_coverage(&rows);
    assert_eq!(cov[0].control_count, 2);
    assert_eq!(cov[0].test_count, 3);
    assert_eq!(cov[0].tests_with_results, 2);
    assert_eq!(cov[0].tests_with_exceptions, 1);
    assert!(cov[0].tests_with_exceptions <= cov[0].tests_with_results);
    assert!(cov[0].tests_with_results <= cov[0].test_count);
    assert_eq!(cov[0].coverage_state, "tested_with_exceptions");
}

#[test]
fn coverage_strip_comes_in_risk_code_order() {
    let rows = CoverageRows {
        risks: vec![risk("r3", "RISK-10", "low"), risk("r1", "RISK-02", "high"), risk("r2", "RISK-1", "medium")],
        controls: vec![ControlLink { control_id: "c1".into(), risk_ids: vec!["r1".into()] }],
        tests: vec![],
        results: vec![],
        findings: vec![],
    };
    let cov = risk_coverage_in_code_order(&rows);
    let codes: Vec<&str> = cov.iter().map(|e| e.risk_code.as_str()).collect();
    assert_eq!(codes, vec!["RISK-02", "RISK-1", "RISK-10"]);
    assert_eq!(cov[0].control_count, 1);
    assert_eq!(cov[0].coverage_state, "untested");
    assert_eq!(cov[2].coverage_state, "uncovered");
    let again = order_by_code(compute_risk_coverage(&rows));
    let codes2: Vec<&str> = again.iter().map(|e| e.risk_code.as_str()).collect();
    assert_eq!(codes2, codes);
}
