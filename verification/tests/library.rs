use audit_app::error::AppError;
use audit_app::library::{procedure_summary, related_risk_ids, risk_summary, version_or_empty};
use audit_app::library_install::{
    already_installed, plan_bundle_install, Bundle, BundleControl, BundleEvidenceChecklist, BundleFrameworkMapping,
    BundleRisk, BundleTestProcedure,
};

fn bundle() -> Bundle {
    Bundle {
        version: "0.1.0".into(),
        published_at: 0,
        frameworks_included: vec!["ISO 27001".into()],
        risks: vec![
            BundleRisk {
                code: "UAM-R-001".into(),
                title: "Unauthorised access".into(),
                description: "d".into(),
                applicable_system_types: vec!["directory".into()],
                default_inherent_rating: Some("high".into()),
                framework_mappings: vec![BundleFrameworkMapping { framework: "ISO 27001".into(), reference: "A.5.15".into() }],
            },
            BundleRisk {
                code: "UAM-R-002".into(),
                title: "Dormant access".into(),
                description: "d".into(),
                applicable_system_types: vec![],
                default_inherent_rating: None,
                framework_mappings: vec![],
            },
        ],
        controls: vec![BundleControl {
            code: "UAM-C-001".into(),
            title: "Leaver review".into(),
            description: "d".into(),
            objective: "o".into(),
            applicable_system_types: vec![],
            control_type: "detective".into(),
            frequency: Some("quarterly".into()),
            related_risk_codes: vec!["UAM-R-002".into(), "UAM-R-001".into()],
            framework_mappings: vec![],
        }],
        test_procedures: vec![BundleTestProcedure {
            code: "UAM-T-001".into(),
            control_code: "UAM-C-001".into(),
            name: "Terminated but active".into(),
            objective: "o".into(),
            steps: vec!["Export AD".into(), "Match leavers".into()],
            sampling_default: "full_population".into(),
            automation_hint: "rule-based".into(),
            evidence_checklist: Some(BundleEvidenceChecklist { items: vec!["AD export".into()] }),
        }],
    }
}

#[test]
fn bundle_plan_resolves_codes_to_new_ids() {
    let plan = plan_bundle_install(&bundle()).unwrap();
    assert_eq!(plan.risks.len(), 2);
    assert_eq!(plan.controls.len(), 1);
    assert_eq!(plan.procedures.len(), 1);
    assert_eq!(plan.risks[0].applicable_system_types_json.as_deref(), Some("[\"directory\"]"));
    assert!(plan.risks[1].applicable_system_types_json.is_none());
    let expected = format!("[\"{}\",\"{}\"]", plan.risks[1].id, plan.risks[0].id);
    assert_eq!(plan.controls[0].related_risk_ids_json.as_deref(), Some(expected.as_str()));
    assert_eq!(plan.procedures[0].control_id, plan.controls[0].id);
    assert_eq!(plan.procedures[0].steps_json, "[\"Export AD\",\"Match leavers\"]");
    assert_eq!(plan.procedures[0].checklist.as_ref().unwrap().items_json, "[\"AD export\"]");
    assert_ne!(plan.risks[0].id, plan.risks[1].id);
}

#[test]
fn bundle_with_dangling_risk_code_is_refused() {
    let mut b = bundle();
    b.controls[0].related_risk_codes.push("UAM-R-404".into());
    assert_eq!(
        plan_bundle_install(&b).unwrap_err(),
        AppError::Message("library bundle v0.1.0: control UAM-C-001 references unknown risk code UAM-R-404".into())
    );
}

#[test]
fn bundle_with_dangling_control_code_is_refused() {
    let mut b = bundle();
    b.test_procedures[0].control_code = "NOPE".into();
    assert_eq!(
        plan_bundle_install(&b).unwrap_err(),
        AppError::Message(
            "library bundle v0.1.0: test procedure UAM-T-001 references unknown control code NOPE".into()
        )
    );
}

#[test]
fn installed_version_is_skipped() {
    assert!(already_installed(3));
    assert!(!already_installed(0));
}

#[test]
fn library_rows_decode_json_columns() {
    let r = risk_summary("id".into(), "C".into(), "T".into(), None, &Some("[\"erp\"]".into()));
    assert_eq!(r.applicable_system_types, vec!["erp".to_string()]);
    let p = procedure_summary(
        "tp".into(),
        "UAM-T-001".into(),
        "n".into(),
        "o".into(),
        &"[\"a\",\"b\"]".to_string(),
        "full".into(),
        "rule-based".into(),
        &Some("broken".into()),
    );
    assert_eq!(p.steps, vec!["a".to_string(), "b".to_string()]);
    assert!(p.evidence_checklist.is_empty());
    assert!(related_risk_ids(&None).is_empty());
    assert_eq!(version_or_empty(&None), "");
    assert_eq!(version_or_empty(&Some("0.5.0".into())), "0.5.0");
}
