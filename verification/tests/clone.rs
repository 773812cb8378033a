use audit_app::error::AppError;
use audit_app::library_clone::{
    applicable_systems_json, check_system_in_engagement, clone_summary, plan_engagement_control,
    plan_engagement_risks, plan_tests, prepare_clone, LibraryControlRow, LibraryRiskRow, TestProcedureRow,
};
use audit_app::testing::{normalise_automation_tier, AddLibraryControlInput};

fn risk(code: &str, rating: Option<&str>) -> LibraryRiskRow {
    LibraryRiskRow {
        id: format!("lib-{code}"),
        code: code.into(),
        title: format!("{code} title"),
        description: "d".into(),
        default_inherent_rating: rating.map(|s| s.to_string()),
        library_version: "0.1.0".into(),
    }
}

#[test]
fn risk_plan_creates_each_new_risk_once() {
    let plan = plan_engagement_risks(&vec![risk("UAM-R-001", None), risk("UAM-R-002", Some("high"))], &vec![]);
    assert_eq!(plan.new_risks.len(), 2);
    assert_eq!(plan.engagement_risk_ids.len(), 2);
    assert_eq!(plan.new_risks[0].code, "UAM-R-001");
    assert_eq!(plan.new_risks[0].derived_from, "lib-UAM-R-001");
    assert_eq!(plan.new_risks[0].inherent_rating, "medium");
    assert_eq!(plan.new_risks[1].inherent_rating, "high");
    assert_eq!(plan.engagement_risk_ids[0], plan.new_risks[0].id);
    assert_eq!(plan.engagement_risk_ids[1], plan.new_risks[1].id);
}

#[test]
fn risk_plan_reuses_risks_already_in_engagement() {
    let first = plan_engagement_risks(&vec![risk("UAM-R-001", None)], &vec![]);
    let existing: Vec<(String, String)> =
        first.new_risks.iter().map(|r| (r.code.clone(), r.id.clone())).collect();
    let second = plan_engagement_risks(&vec![risk("UAM-R-001", None), risk("UAM-R-009", None)], &existing);
    assert_eq!(second.new_risks.len(), 1, "shared risk must not duplicate");
    assert_eq!(second.new_risks[0].code, "UAM-R-009");
    assert_eq!(second.engagement_risk_ids[0], first.engagement_risk_ids[0]);
}

#[test]
fn a_code_listed_twice_in_one_control_is_created_once() {
    let plan = plan_engagement_risks(&vec![risk("R-1", None), risk("R-1", Some("low"))], &vec![]);
    assert_eq!(plan.new_risks.len(), 1);
    assert_eq!(plan.new_risks[0].inherent_rating, "medium");
    assert_eq!(plan.engagement_risk_ids[0], plan.engagement_risk_ids[1]);
}

#[test]
fn tests_are_fresh_and_tiers_normalised() {
    let tp = |code: &str| TestProcedureRow {
        id: format!("tp-{code}"),
        code: code.into(),
        name: "n".into(),
        objective: "o".into(),
        steps_json: "[\"s\"]".into(),
        automation_hint: "rule-based".into(),
        library_version: "0.1.0".into(),
    };
    let tests = plan_tests(&vec![tp("UAM-T-001"), tp("UAM-T-002")]);
    assert_eq!(tests.len(), 2);
    assert_eq!(tests[0].automation_tier, "rule_based");
    assert_eq!(tests[1].derived_from, "tp-UAM-T-002");
    assert_ne!(tests[0].id, tests[1].id);
    assert_eq!(normalise_automation_tier("classical-ml-x"), "classical_ml_x");
}

#[test]
fn control_row_carries_risks_and_system() {
    let lib = LibraryControlRow {
        id: "lc-1".into(),
        code: "UAM-C-001".into(),
        title: "User access".into(),
        description: "d".into(),
        objective: "o".into(),
        control_type: "preventive".into(),
        frequency: Some("quarterly".into()),
        related_risk_ids_json: None,
        library_version: "0.1.0".into(),
    };
    let c = plan_engagement_control(&lib, &vec!["r1".into(), "r2".into()], &Some("sys-1".into()));
    assert_eq!(c.related_engagement_risk_ids_json.as_deref(), Some("[\"r1\",\"r2\"]"));
    assert_eq!(c.applicable_system_ids_json.as_deref(), Some("[\"sys-1\"]"));
    assert_eq!(c.frequency.as_deref(), Some("quarterly"));
    let none = plan_engagement_control(&lib, &vec![], &None);
    assert!(none.related_engagement_risk_ids_json.is_none());
    assert!(applicable_systems_json(&None).is_none());
}

#[test]
fn clone_request_rules() {
    let ok = prepare_clone(&AddLibraryControlInput {
        engagement_id: " e ".into(),
        library_control_id: " c ".into(),
        system_id: Some("   ".into()),
    })
    .unwrap();
    assert_eq!(ok.engagement_id, "e");
    assert_eq!(ok.library_control_id, "c");
    assert!(ok.system_id.is_none());
    let err = prepare_clone(&AddLibraryControlInput {
        engagement_id: "e".into(),
        library_control_id: " ".into(),
        system_id: None,
    })
    .unwrap_err();
    assert_eq!(err, AppError::Message("library control is required".into()));
    assert_eq!(
        check_system_in_engagement(&Some("other".into()), "e").unwrap_err(),
        AppError::NotFound("system not found".into())
    );
    assert!(check_system_in_engagement(&Some("e".into()), "e").is_ok());
}

#[test]
fn clone_activity_line() {
    assert_eq!(clone_summary("UAM-C-001", "User access", 2), "Added library control UAM-C-001 (User access) with 2 test(s)");
}
