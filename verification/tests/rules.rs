use audit_app::error::AppError;
use audit_app::rules::{
    approval_summary, backup_summary, benford_summary, dormant_summary, duplicates_summary, orphan_summary,
    report_title, run_activity, sod_summary, terminated_summary, RuleReport,
};
use audit_app::testing::{
    check_pinned_import, normalise_overrides, pick_override, population_label, primary_blob, report_filename,
    outcome_from_report, pick_newest_import, prepare_run, result_outcome, run_changes_status, DatedImport, ImportRef, ImportRow, MatcherRule,
    RuleOutcome, RunMatcherInput,
};

#[test]
fn rule_for_each_wired_test_code() {
    assert_eq!(MatcherRule::for_test_code("UAM-T-001").unwrap(), MatcherRule::UarTerminatedButActive);
    assert_eq!(MatcherRule::for_test_code("ITAC-T-002").unwrap(), MatcherRule::ItacDuplicateTransactions);
    assert_eq!(
        MatcherRule::for_test_code("UAM-T-002").unwrap_err(),
        AppError::Message("no matcher is wired for test code UAM-T-002".into())
    );
}

#[test]
fn rule_inputs_and_names() {
    let p = MatcherRule::UarTerminatedButActive.primary_input();
    assert_eq!(p.override_keys, vec!["ad_export", "entra_export", "primary"]);
    assert_eq!(p.purpose_tags, vec!["ad_export", "entra_export"]);
    assert_eq!(p.label, "AD or Entra export");
    let s = MatcherRule::UarTerminatedButActive.supporting_input().unwrap();
    assert_eq!(s.purpose_tags, vec!["hr_leavers"]);
    assert!(MatcherRule::BkpPerformance.supporting_input().is_none());
    assert_eq!(MatcherRule::ChgSodDevVsDeploy.names(), ("Change management", "change-management-sod", "Deployment permission export"));
    assert_eq!(MatcherRule::ItacBenfordFirstDigit.primary_input().override_keys.len(), 4);
}

#[test]
fn overrides_are_trimmed_and_later_pairs_win() {
    let pairs = normalise_overrides(&Some(vec![
        (" ad_export ".into(), " imp-1 ".into()),
        ("primary".into(), "  ".into()),
        ("ad_export".into(), "imp-2".into()),
    ]));
    assert_eq!(pairs.len(), 2);
    assert_eq!(pick_override(&pairs, &["ad_export", "entra_export", "primary"]).as_deref(), Some("imp-2"));
    assert_eq!(pick_override(&pairs, &["entra_export", "primary"]), None);
}

fn row(engagement: &str, tag: Option<&str>) -> ImportRow {
    ImportRow {
        id: "imp-1".into(),
        filename: Some("ad.csv".into()),
        blob_id: Some("blob-1".into()),
        purpose_tag: tag.map(|t| t.to_string()),
        engagement_id: engagement.into(),
    }
}

#[test]
fn pinned_import_checks() {
    let tags = ["ad_export", "entra_export"];
    let ok = check_pinned_import(Some(row("e", Some("entra_export"))), "e", &tags, "AD or Entra export").unwrap();
    assert_eq!(ok.id, "imp-1");
    assert_eq!(
        check_pinned_import(Some(row("other", Some("ad_export"))), "e", &tags, "AD or Entra export").unwrap_err(),
        AppError::NotFound("AD or Entra export import not found".into())
    );
    assert_eq!(
        check_pinned_import(Some(row("e", Some("hr_leavers"))), "e", &tags, "AD or Entra export").unwrap_err(),
        AppError::Message("selected import is not an AD or Entra export".into())
    );
    assert_eq!(
        check_pinned_import(None, "e", &tags, "change log").unwrap_err(),
        AppError::NotFound("change log import not found".into())
    );
    assert_eq!(
        pick_newest_import(&vec![], "e", &tags, "AD or Entra export").unwrap_err(),
        AppError::Message("no AD or Entra export has been uploaded for this engagement".into())
    );
}

#[test]
fn run_bookkeeping() {
    assert_eq!(result_outcome(0), "pass");
    assert_eq!(result_outcome(3), "exception");
    assert!(run_changes_status("not_started"));
    assert!(!run_changes_status("in_review"));
    assert_eq!(report_filename("access-review", "UAM-T-001"), "access-review-UAM-T-001.json");
    assert_eq!(population_label("Change log", &Some("changes.csv".into())), "Change log: changes.csv");
    assert_eq!(population_label("Backup log", &None), "Backup log: (unnamed)");
    let imp = ImportRef { id: "i".into(), filename: None, blob_id: None };
    assert_eq!(primary_blob(&imp, "AD export").unwrap_err(), AppError::Message("AD export has no attached file".into()));
    let o = RuleOutcome::base("r".into(), "Backup", "backup", vec![1], 2, "s".into(), "{}".into(), imp, "Backup log");
    assert_eq!(o.family_label, "Backup");
    assert!(o.jobs_considered.is_none() && o.supporting_import.is_none());
}

#[test]
fn access_review_summaries() {
    assert_eq!(terminated_summary(0, 3, 2), "No terminated users still enabled across 3 AD rows and 2 leaver rows");
    assert_eq!(terminated_summary(1, 3, 2), "1 terminated user still enabled in AD");
    assert_eq!(terminated_summary(2, 3, 2), "2 terminated users still enabled in AD");
    assert_eq!(dormant_summary(0, 4, 90), "No dormant accounts across 4 AD rows at a 90-day threshold");
    assert_eq!(dormant_summary(2, 4, 90), "2 dormant accounts exceeding the 90-day threshold");
    assert_eq!(orphan_summary(0, 1, 3), "No orphan accounts across 1 AD row and 3 HR rows");
    assert_eq!(orphan_summary(1, 2, 1), "1 orphan account with no HR record");
}

#[test]
fn change_backup_and_itac_summaries() {
    assert_eq!(approval_summary(0, 1), "No approval exceptions across 1 in-scope change");
    assert_eq!(approval_summary(2, 5), "2 approval exceptions across 5 in-scope changes");
    assert_eq!(sod_summary(0, 2, 1), "No SoD overlap across 2 deploy-permission rows and 1 source-access row");
    assert_eq!(sod_summary(1, 2, 1), "1 user with both deploy-to-production and source-write access");
    assert_eq!(backup_summary(0, 1), "No failed or unverified backups across 1 job");
    assert_eq!(backup_summary(3, 10), "3 backup exceptions across 10 jobs");
    assert_eq!(benford_summary(0, false, 300, 100), "Population consistent with Benford across 300 evaluated transactions");
    assert_eq!(benford_summary(1, true, 50, 100), "Population too small for Benford analysis (50 digit rows; 100 required)");
    assert_eq!(benford_summary(2, false, 450, 100), "2 digits deviate materially from Benford across 450 evaluated transactions");
    assert_eq!(duplicates_summary(0, 0, 0, 1), "No duplicate transactions found across 1 considered row");
    assert_eq!(duplicates_summary(2, 2, 5, 9), "2 duplicate groups covering 5 rows across 9 considered rows");
    assert_eq!(run_activity("Backup", "BKP-T-001", "x"), "Backup matcher on BKP-T-001: x");
    assert_eq!(report_title("UAM-T-001"), "Matcher report — UAM-T-001");
}

#[test]
fn rule_lookup_refuses_unwired_test_code() {
    assert!(matches!(MatcherRule::for_test_code("UAM-T-002").unwrap_err(), AppError::Message(_)));
}

#[test]
fn newest_import_is_required() {
    let input = MatcherRule::UarTerminatedButActive.primary_input();
    let err = pick_newest_import(&vec![], "e", &input.purpose_tags, input.label).unwrap_err();
    assert!(matches!(err, AppError::Message(_)));
}

#[test]
fn run_request_requires_a_test_and_normalises_overrides() {
    let err = prepare_run(&RunMatcherInput { test_id: "  ".into(), overrides: None }).unwrap_err();
    assert_eq!(err, AppError::Message("test is required".into()));
    let q = prepare_run(&RunMatcherInput {
        test_id: " t-1 ".into(),
        overrides: Some(vec![(" ad_export ".into(), " imp-1 ".into()), ("hr".into(), "  ".into())]),
    })
    .unwrap();
    assert_eq!(q.test_id, "t-1");
    assert_eq!(q.overrides, vec![("ad_export".to_string(), "imp-1".to_string())]);
}

fn dated(id: &str, eng: &str, tag: Option<&str>, at: i64) -> DatedImport {
    DatedImport {
        id: id.into(),
        filename: Some(format!("{id}.csv")),
        blob_id: Some(format!("blob-{id}")),
        purpose_tag: tag.map(|t| t.into()),
        engagement_id: eng.into(),
        imported_at: at,
    }
}

#[test]
fn newest_import_of_the_engagement_with_an_accepted_tag_is_picked() {
    let tags = ["ad_export", "entra_export"];
    let rows = vec![
        dated("old", "e", Some("ad_export"), 10),
        dated("other-eng", "x", Some("ad_export"), 99),
        dated("wrong-tag", "e", Some("hr_leavers"), 50),
        dated("new", "e", Some("entra_export"), 20),
        dated("tie", "e", Some("ad_export"), 20),
        dated("untagged", "e", None, 70),
    ];
    let picked = pick_newest_import(&rows, "e", &tags, "AD or Entra export").unwrap();
    assert_eq!(picked.id, "new");
    assert_eq!(picked.filename.as_deref(), Some("new.csv"));
    assert_eq!(picked.blob_id.as_deref(), Some("blob-new"));
    let err = pick_newest_import(&rows, "e", &["change_log"], "change log").unwrap_err();
    assert_eq!(err, AppError::Message("no change log has been uploaded for this engagement".into()));
}

#[test]
fn report_summary_follows_the_rule() {
    let t = RuleReport::TerminatedButActive {
        exceptions: 2,
        ad_rows_considered: 9,
        ad_rows_skipped_disabled: 1,
        leaver_rows_considered: 5,
        ad_rows_skipped_unmatchable: 0,
    };
    assert_eq!(t.rule(), MatcherRule::UarTerminatedButActive);
    assert_eq!(t.exceptions(), 2);
    assert_eq!(t.summary(), "2 terminated users still enabled in AD");
    let d = RuleReport::DormantAccounts {
        exceptions: 0,
        ad_rows_considered: 4,
        ad_rows_skipped_disabled: 0,
        ad_rows_skipped_no_last_logon: 0,
        ad_rows_skipped_unparseable: 0,
        threshold_days: 90,
    };
    assert_eq!(d.summary(), "No dormant accounts across 4 AD rows at a 90-day threshold");
    let b = RuleReport::BenfordFirstDigit {
        exceptions: 1,
        population_too_small: true,
        rows_considered: 60,
        rows_skipped_unparseable: 6,
        rows_skipped_zero: 4,
        digit_rows_evaluated: 50,
        min_digit_rows: 100,
    };
    assert_eq!(b.summary(), "Population too small for Benford analysis (50 digit rows; 100 required)");
    let dup = RuleReport::DuplicateTransactions {
        exceptions: 3,
        rows_considered: 9,
        rows_skipped_unparseable: 0,
        rows_skipped_zero: 0,
        rows_skipped_no_key: 0,
        duplicate_group_count: 3,
        total_duplicate_rows: 7,
    };
    assert_eq!(dup.summary(), "3 duplicate groups covering 7 rows across 9 considered rows");
    let bk = RuleReport::BackupPerformance { exceptions: 2, jobs_considered: 9, jobs_skipped_no_id: 0, jobs_skipped_unknown_status: 1 };
    assert_eq!(bk.summary(), "2 backup exceptions across 9 jobs");
}

#[test]
fn outcome_takes_the_rule_counters_of_its_report() {
    let imp = ImportRef { id: "src".into(), filename: Some("src.csv".into()), blob_id: Some("b".into()) };
    let report = RuleReport::SodDevVsDeploy {
        exceptions: 2,
        deploy_rows_considered: 10,
        deploy_rows_skipped_unmatchable: 1,
        source_rows_considered: 12,
        source_rows_skipped_unmatchable: 0,
        intersecting_users: 2,
    };
    let primary = ImportRef { id: "dep".into(), filename: Some("dep.csv".into()), blob_id: Some("d".into()) };
    let o = outcome_from_report(&report, "sod_dev_vs_deploy".into(), vec![1, 2], "{}".into(), primary, Some(imp));
    assert_eq!(o.family_label, "Change management");
    assert_eq!(o.report_kind_slug, "change-management-sod");
    assert_eq!(o.primary_import_label, "Deployment permission export");
    assert_eq!(o.exception_count, 2);
    assert_eq!(o.exception_summary, "2 users with both deploy-to-production and source-write access");
    assert_eq!(o.deploy_rows_considered, Some(10));
    assert_eq!(o.deploy_rows_skipped_unmatchable, Some(1));
    assert_eq!(o.source_rows_considered, Some(12));
    assert_eq!(o.intersecting_users, Some(o.exception_count));
    assert!(o.ad_rows_considered.is_none() && o.jobs_considered.is_none());
    assert_eq!(o.supporting_import.unwrap().id, "src");

    let benford = RuleReport::BenfordFirstDigit {
        exceptions: 2,
        population_too_small: false,
        rows_considered: 460,
        rows_skipped_unparseable: 6,
        rows_skipped_zero: 4,
        digit_rows_evaluated: 450,
        min_digit_rows: 100,
    };
    let primary = ImportRef { id: "tx".into(), filename: None, blob_id: Some("t".into()) };
    let o = outcome_from_report(&benford, "benford_first_digit".into(), vec![], "{}".into(), primary, None);
    assert_eq!(o.transactions_considered, Some(460));
    assert_eq!(o.digit_rows_evaluated, Some(450));
    assert_eq!(o.transactions_skipped_no_key, None);
    assert_eq!(o.exception_summary, "2 digits deviate materially from Benford across 450 evaluated transactions");
}
