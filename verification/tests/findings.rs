use audit_app::error::AppError;
use audit_app::findings::{
    check_elevation, check_severity, edit_summary, elevation_defaults, elevation_summary, finding_changes,
    finding_code, finding_condition, plan_edit_record, plan_elevation, prepare_edit, prepare_elevation, EditableFinding,
    ElevateFindingInput, ElevationSource, UpdateFindingInput,
};

#[test]
fn finding_codes_are_sequential() {
    assert_eq!(finding_code(0), "F-001");
    assert_eq!(finding_code(1), "F-002");
    assert_eq!(finding_code(999), "F-1000");
}

#[test]
fn elevate_rejects_pass_test_result() {
    assert_eq!(
        check_elevation("pass", 0).unwrap_err(),
        AppError::Message("cannot elevate a test result that had no exceptions".into())
    );
    assert!(check_elevation("exception", 0).is_err());
    assert!(check_elevation("exception", 2).is_ok());
}

#[test]
fn elevation_request_defaults_and_condition_text() {
    let req = prepare_elevation(&ElevateFindingInput {
        test_result_id: " tr-1 ".into(),
        title: Some("  ".into()),
        severity_id: None,
    })
    .unwrap();
    assert_eq!(req.test_result_id, "tr-1");
    let (title, severity) = elevation_defaults(&req, "Terminated but active");
    assert_eq!(title, "Terminated but active");
    assert_eq!(severity, "sev-medium");
    assert_eq!(
        finding_condition("UAM-T-001", 2, &Some("2 terminated users still enabled in AD".into()), &Some("AD export: ad.csv".into())),
        "Testing performed under UAM-T-001 identified 2: 2 terminated users still enabled in AD. Population reviewed: AD export: ad.csv."
    );
    assert_eq!(
        finding_condition("UAM-T-001", 1, &None, &None),
        "Testing performed under UAM-T-001 identified 1: exceptions identified by the automated matcher."
    );
    assert_eq!(elevation_summary(2, "UAM-T-001", "F-001"), "Elevated 2 exception(s) from UAM-T-001 into finding F-001");
    assert_eq!(check_severity(false).unwrap_err(), AppError::NotFound("severity not found".into()));
    assert_eq!(
        prepare_elevation(&ElevateFindingInput { test_result_id: " ".into(), title: None, severity_id: None }).unwrap_err(),
        AppError::Message("test result is required".into())
    );
}

fn edit(title: &str, severity: &str) -> UpdateFindingInput {
    UpdateFindingInput {
        finding_id: "f-1".into(),
        title: title.into(),
        condition_text: Some(" Two terminated employees still had enabled AD accounts. ".into()),
        recommendation_text: Some("".into()),
        severity_id: severity.into(),
    }
}

#[test]
fn finding_changes_list_edited_fields_in_order() {
    let e = prepare_edit(&edit(" Terminated employees retained access ", "sev-high")).unwrap();
    assert!(e.recommendation.is_none());
    let old = EditableFinding {
        title: "Old title".into(),
        condition: Some("Two terminated employees still had enabled AD accounts.".into()),
        recommendation: None,
        severity_id: Some("sev-medium".into()),
    };
    let changes = finding_changes(&old, &e);
    let fields: Vec<&str> = changes.iter().map(|c| c.field.as_str()).collect();
    assert_eq!(fields, vec!["title", "severity_id"]);
    assert_eq!(changes[1].old.as_deref(), Some("sev-medium"));
    assert_eq!(edit_summary("F-001", changes.len()), "Edited finding F-001 (2 fields changed)");
    assert_eq!(edit_summary("F-001", 1), "Edited finding F-001 (1 field changed)");
}

#[test]
fn finding_changes_are_empty_when_nothing_changes() {
    let e = prepare_edit(&edit("Same", "sev-low")).unwrap();
    let old = EditableFinding {
        title: "Same".into(),
        condition: e.condition.clone(),
        recommendation: None,
        severity_id: Some("sev-low".into()),
    };
    assert!(finding_changes(&old, &e).is_empty());
}

#[test]
fn update_finding_rejections() {
    assert_eq!(prepare_edit(&edit(" ", "sev-high")).unwrap_err(), AppError::Message("title is required".into()));
    assert_eq!(prepare_edit(&edit("T", " ")).unwrap_err(), AppError::Message("severity is required".into()));
    let mut i = edit("T", "s");
    i.finding_id = "".into();
    assert_eq!(prepare_edit(&i).unwrap_err(), AppError::Message("finding is required".into()));
}

#[test]
fn ownership_check_refuses_other_firm_result() {
    let err = audit_app::evidence::check_owned(&Some("firm-other".into()), "firm-f3", "test result not found").unwrap_err();
    assert!(matches!(err, AppError::NotFound(_)));
}

#[test]
fn ownership_check_refuses_other_firm_finding() {
    let err = audit_app::evidence::check_owned(&Some("firm-other".into()), "firm-f8", "finding not found").unwrap_err();
    assert_eq!(err, AppError::NotFound("finding not found".into()));
}

#[test]
fn severity_check_refuses_unknown_severity() {
    assert!(matches!(check_severity(false).unwrap_err(), AppError::NotFound(_)));
    assert!(check_severity(true).is_ok());
}

fn source(outcome: &str, evidence_count: i64) -> ElevationSource {
    ElevationSource {
        outcome: outcome.into(),
        exception_summary: Some("2 terminated users still enabled in AD".into()),
        evidence_count,
        population_ref_label: None,
        test_code: "UAM-T-001".into(),
        test_name: "Terminated but active".into(),
    }
}

#[test]
fn elevation_plan_is_a_draft_coded_after_existing_findings() {
    let req = prepare_elevation(&ElevateFindingInput { test_result_id: " tr-9 ".into(), title: None, severity_id: None })
        .unwrap();
    let p = plan_elevation(&req, &source("exception", 2), false, 3).unwrap();
    assert_eq!(p.code, "F-004");
    assert_eq!(p.status, "draft");
    assert_eq!(p.title, "Terminated but active");
    assert_eq!(p.severity_id, "sev-medium");
    assert_eq!(p.linked_test_result_ids, vec!["tr-9".to_string()]);
    assert_eq!(
        p.condition_text,
        "Testing performed under UAM-T-001 identified 2: 2 terminated users still enabled in AD."
    );
    assert!(p.recommendation_text.starts_with("Confirm with management"));
}

#[test]
fn elevation_plan_keeps_chosen_title_and_severity() {
    let req = prepare_elevation(&ElevateFindingInput {
        test_result_id: "tr-1".into(),
        title: Some(" Access not removed ".into()),
        severity_id: Some(" sev-high ".into()),
    })
    .unwrap();
    let p = plan_elevation(&req, &source("exception", 1), true, 0).unwrap();
    assert_eq!(p.code, "F-001");
    assert_eq!(p.title, "Access not removed");
    assert_eq!(p.severity_id, "sev-high");
    assert_eq!(
        plan_elevation(&req, &source("exception", 1), false, 0).unwrap_err(),
        AppError::NotFound("severity not found".into())
    );
    assert_eq!(
        plan_elevation(&req, &source("pass", 0), true, 0).unwrap_err(),
        AppError::Message("cannot elevate a test result that had no exceptions".into())
    );
}

#[test]
fn saved_edit_writes_one_log_row_per_change_and_bumps_the_version() {
    let e = prepare_edit(&edit(" New title ", "sev-high")).unwrap();
    let old = EditableFinding {
        title: "Old \"quoted\" title".into(),
        condition: None,
        recommendation: None,
        severity_id: None,
    };
    let changes = finding_changes(&old, &e);
    let record = plan_edit_record("F-002", &changes, Some(3));
    assert_eq!(record.log_rows.len(), changes.len());
    assert_eq!(record.log_rows[0].field_name, "title");
    assert_eq!(record.log_rows[0].old_value_json.as_deref(), Some("\"Old \\\"quoted\\\" title\""));
    assert_eq!(record.log_rows[0].new_value_json.as_deref(), Some("\"New title\""));
    let sev = record.log_rows.iter().find(|r| r.field_name == "severity_id").unwrap();
    assert_eq!(sev.old_value_json, None);
    assert_eq!(sev.new_value_json.as_deref(), Some("\"sev-high\""));
    assert_eq!(record.version, Some(4));
    assert_eq!(record.activity.as_deref(), Some(format!("Edited finding F-002 ({} fields changed)", changes.len()).as_str()));
    assert_eq!(plan_edit_record("F-002", &changes, None).version, Some(1));
    let none = plan_edit_record("F-002", &vec![], Some(3));
    assert!(none.log_rows.is_empty() && none.version.is_none() && none.activity.is_none());
}
