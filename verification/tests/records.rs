use audit_app::clients::{client_created_fields, validate_new_client, NewClientInput};
use audit_app::csv::parse_csv_metadata;
use audit_app::engagements::{
    check_client_in_firm, engagement_created_fields, engagement_created_summary, is_iso_date, period_created_fields,
    plan_engagement_ids, validate_new_engagement, NewEngagementInput,
};
use audit_app::error::AppError;
use audit_app::evidence::{
    attach_activity, check_attach, check_finding_in_engagement, check_owned, check_test_in_engagement,
    detach_activity, upload_activity, validate_evidence_upload, validate_link, AttachRow, EvidenceLinkInput,
    UploadEvidenceInput, EVIDENCE_SOURCE_AUDITOR_UPLOAD, EVIDENCE_SOURCE_DATA_IMPORT, EVIDENCE_SOURCE_MATCHER_REPORT,
};
use audit_app::identity::{current_user, health_status};
use audit_app::migrations::pending_migrations;
use audit_app::testing::{
    assert_engagement_in_firm, data_import_title, upload_summary, validate_upload, UploadDataImportInput,
    MAX_UPLOAD_BYTES,
};

#[test]
fn create_client_requires_name() {
    let err = validate_new_client(&NewClientInput { name: "   ".into(), country: "ZW".into(), industry_id: None })
        .unwrap_err();
    assert!(matches!(err, AppError::Message(_)));
    assert_eq!(err, AppError::Message("client name is required".into()));
    let err = validate_new_client(&NewClientInput { name: "A".into(), country: " ".into(), industry_id: None })
        .unwrap_err();
    assert_eq!(err, AppError::Message("country is required".into()));
}

#[test]
fn new_client_is_trimmed_and_its_created_fields_listed() {
    let v = validate_new_client(&NewClientInput {
        name: " First Client ".into(),
        country: "ZW".into(),
        industry_id: Some("ind-banking".into()),
    })
    .unwrap();
    assert_eq!(v.name, "First Client");
    let fields = client_created_fields(&v, "firm-test-1");
    let names: Vec<&str> = fields.iter().map(|f| f.field_name.as_str()).collect();
    assert_eq!(names, vec!["name", "country", "status", "firm_id", "industry_id"]);
    assert_eq!(fields[0].new_value_json, "\"First Client\"");
    assert_eq!(fields[2].new_value_json, "\"active\"");
    let v = validate_new_client(&NewClientInput { name: "B".into(), country: "ZW".into(), industry_id: Some(" ".into()) })
        .unwrap();
    assert!(v.industry_id.is_none());
    assert_eq!(client_created_fields(&v, "f").len(), 4);
}

fn engagement_input(fy: Option<&str>, start: Option<&str>, end: Option<&str>) -> NewEngagementInput {
    NewEngagementInput {
        client_id: "client-e1".into(),
        name: "FY2026 audit".into(),
        fiscal_year_label: fy.map(|s| s.into()),
        period_start: start.map(|s| s.into()),
        period_end: end.map(|s| s.into()),
    }
}

#[test]
fn create_engagement_rejects_partial_period() {
    let err = validate_new_engagement(&engagement_input(Some("FY2026"), Some("2026-01-01"), None)).unwrap_err();
    assert_eq!(
        err,
        AppError::Message("period start, end, and fiscal year label must be provided together".into())
    );
    let err = validate_new_engagement(&engagement_input(Some("FY2026"), Some("2026-1-01"), Some("2026-12-31")))
        .unwrap_err();
    assert_eq!(err, AppError::Message("period start must be YYYY-MM-DD".into()));
}

#[test]
fn new_engagement_with_period_plans_ids_and_created_fields() {
    let v = validate_new_engagement(&engagement_input(Some("FY2026"), Some("2026-01-01"), Some("2026-12-31"))).unwrap();
    assert!(v.make_period);
    let ids = plan_engagement_ids(&v);
    assert!(ids.period_id.is_some());
    assert_eq!(ids.keychain_ref, format!("engagement/{}", ids.engagement_id));
    let fields = engagement_created_fields(&v, "v1", &ids.keychain_id, "user-e1", &ids.period_id);
    assert_eq!(fields.len(), 7);
    assert_eq!(fields[2].field_name, "status_id");
    assert_eq!(fields[2].new_value_json, "\"status-planning\"");
    assert_eq!(fields[6].field_name, "period_id");
    let p = period_created_fields(&ids.engagement_id, "2026-01-01", "2026-12-31", "FY2026");
    assert_eq!(p[3].new_value_json, "\"FY2026\"");
    assert_eq!(engagement_created_summary("FY2026 audit"), "Engagement 'FY2026 audit' created");
}

#[test]
fn new_engagement_without_period_plans_no_period() {
    let v = validate_new_engagement(&engagement_input(None, None, Some("   "))).unwrap();
    assert!(!v.make_period);
    let ids = plan_engagement_ids(&v);
    assert!(ids.period_id.is_none());
    assert_eq!(engagement_created_fields(&v, "v1", "k", "u", &None).len(), 6);
}

#[test]
fn iso_dates_and_firm_checks() {
    assert!(is_iso_date("2026-12-31"));
    assert!(!is_iso_date("2026/12/31"));
    assert!(!is_iso_date("2026-12-3"));
    assert_eq!(
        check_client_in_firm(&Some("firm-other".into()), "firm-e3").unwrap_err(),
        AppError::NotFound("client not found".into())
    );
    assert!(check_client_in_firm(&Some("firm-e3".into()), "firm-e3").is_ok());
    assert_eq!(
        assert_engagement_in_firm(&None, "f").unwrap_err(),
        AppError::NotFound("engagement not found".into())
    );
}

fn upload(content: Vec<u8>) -> UploadDataImportInput {
    UploadDataImportInput {
        engagement_id: " eng-u1 ".into(),
        system_id: None,
        source_kind: "CSV".into(),
        purpose_tag: "ad_export".into(),
        filename: "users.csv".into(),
        mime_type: Some("text/csv".into()),
        content,
    }
}

#[test]
fn upload_data_import_rejects_oversize_payload() {
    let err = validate_upload(&upload(vec![b'a'; MAX_UPLOAD_BYTES + 1])).unwrap_err();
    assert_eq!(err, AppError::Message("file exceeds 25 MB limit".into()));
    assert_eq!(validate_upload(&upload(vec![])).unwrap_err(), AppError::Message("file is empty".into()));
    let ok = validate_upload(&upload(b"a,b\n1,2\n".to_vec())).unwrap();
    assert!(ok.is_csv);
    assert_eq!(ok.engagement_id, "eng-u1");
}

#[test]
fn csv_metadata_counts_rows_and_columns() {
    let (rows, schema) =
        parse_csv_metadata(b"employee_id,email,status\n1,a@x.com,active\n2,b@x.com,terminated\n").unwrap();
    assert_eq!(rows, Some(2));
    assert_eq!(schema.as_deref(), Some("[\"employee_id\",\"email\",\"status\"]"));
    let (rows, schema) = parse_csv_metadata("\u{feff}\n \"a\" , b\r\n1,2\r\n\r\n3,4".as_bytes()).unwrap();
    assert_eq!(rows, Some(2));
    assert_eq!(schema.as_deref(), Some("[\"a\",\"b\"]"));
    assert_eq!(parse_csv_metadata(b"\n  \n").unwrap(), (None, None));
    assert!(matches!(parse_csv_metadata(&[0xff, 0xfe]).unwrap_err(), AppError::Message(_)));
}

#[test]
fn upload_activity_lines() {
    assert_eq!(upload_summary("users.csv", Some(2), 99, "ad_export"), "Uploaded users.csv (2 rows) tagged 'ad_export'");
    assert_eq!(upload_summary("x.bin", None, 99, "other"), "Uploaded x.bin (99 bytes) tagged 'other'");
    assert_eq!(data_import_title("ad.csv"), "Data import — ad.csv");
}

fn evidence(content: Vec<u8>) -> UploadEvidenceInput {
    UploadEvidenceInput {
        engagement_id: "eng-e4".into(),
        title: " Email from IT manager confirming disablement ".into(),
        description: Some("  ".into()),
        obtained_from: Some("simba@client.com".into()),
        obtained_at: None,
        test_id: None,
        finding_id: Some(" f-1 ".into()),
        filename: "email.eml".into(),
        mime_type: Some("message/rfc822".into()),
        content,
    }
}

#[test]
fn evidence_upload_rules() {
    let v = validate_evidence_upload(&evidence(b"From: simba@client.com\n".to_vec()), 1234).unwrap();
    assert_eq!(v.title, "Email from IT manager confirming disablement");
    assert!(v.description.is_none());
    assert_eq!(v.finding_id.as_deref(), Some("f-1"));
    assert_eq!(v.obtained_at, 1234);
    let mut e = evidence(b"x".to_vec());
    e.obtained_at = Some(7);
    assert_eq!(validate_evidence_upload(&e, 1234).unwrap().obtained_at, 7);
    assert_eq!(validate_evidence_upload(&evidence(vec![]), 0).unwrap_err(), AppError::Message("file is empty".into()));
    let mut e = evidence(b"x".to_vec());
    e.title = " ".into();
    assert_eq!(validate_evidence_upload(&e, 0).unwrap_err(), AppError::Message("title is required".into()));
    assert_eq!(upload_activity("T", "f.eml"), "Uploaded evidence 'T' (f.eml)");
    assert_eq!(EVIDENCE_SOURCE_AUDITOR_UPLOAD, "auditor_upload");
    assert_eq!(EVIDENCE_SOURCE_DATA_IMPORT, "data_import");
    assert_eq!(EVIDENCE_SOURCE_MATCHER_REPORT, "matcher_report");
}

#[test]
fn evidence_link_checks() {
    assert_eq!(
        validate_link(&EvidenceLinkInput { finding_id: " ".into(), evidence_id: "e".into() }).unwrap_err(),
        AppError::Message("finding and evidence are required".into())
    );
    assert_eq!(
        validate_link(&EvidenceLinkInput { finding_id: " f ".into(), evidence_id: "e".into() }).unwrap(),
        ("f".to_string(), "e".to_string())
    );
    let row = |fe: &str, ee: &str, firm: &str| AttachRow {
        finding_engagement: fe.into(),
        finding_code: "F-001".into(),
        evidence_engagement: ee.into(),
        evidence_title: "t".into(),
        firm_id: firm.into(),
    };
    assert!(check_attach(&Some(row("e", "e", "f")), "f").is_ok());
    assert_eq!(check_attach(&Some(row("e", "e", "g")), "f").unwrap_err(), AppError::NotFound("finding not found".into()));
    assert_eq!(
        check_attach(&Some(row("e", "x", "f")), "f").unwrap_err(),
        AppError::Message("evidence belongs to a different engagement".into())
    );
    assert_eq!(check_attach(&None, "f").unwrap_err(), AppError::NotFound("finding or evidence not found".into()));
    assert_eq!(
        check_test_in_engagement(&Some(("e".into(), "ec-1".into())), "e").unwrap(),
        "ec-1".to_string()
    );
    assert_eq!(
        check_test_in_engagement(&Some(("x".into(), "ec-1".into())), "e").unwrap_err(),
        AppError::NotFound("test not found".into())
    );
    assert!(check_finding_in_engagement(&Some("e".into()), "e").is_ok());
    assert_eq!(
        check_owned(&Some("other".into()), "f", "evidence not found").unwrap_err(),
        AppError::NotFound("evidence not found".into())
    );
    assert_eq!(attach_activity("t", "F-001"), "Attached evidence 't' to F-001");
    assert_eq!(detach_activity("F-001"), "Detached evidence from F-001");
}

#[test]
fn identity_commands() {
    let h = health_status("0.1.0");
    assert_eq!(h.app, "audit-app");
    assert_eq!(h.version, "0.1.0");
    let u = current_user().unwrap();
    assert!(!u.signed_in);
    assert!(u.display_name.is_none());
}

#[test]
fn only_newer_migrations_are_pending() {
    assert_eq!(pending_migrations(&vec![1, 2, 3, 4], 0), vec![0, 1, 2, 3]);
    assert_eq!(pending_migrations(&vec![1, 2, 3, 4], 2), vec![2, 3]);
    assert!(pending_migrations(&vec![1, 2], 2).is_empty());
}

#[test]
fn engagement_firm_check_refuses_other_firm() {
    let err = assert_engagement_in_firm(&Some("firm-B".into()), "firm-A").unwrap_err();
    assert_eq!(err, AppError::NotFound("engagement not found".into()));
}

#[test]
fn engagement_firm_check_reports_not_found() {
    let err = assert_engagement_in_firm(&Some("firm-other".into()), "firm-e5").unwrap_err();
    assert!(matches!(err, AppError::NotFound(_)));
}

#[test]
fn engagement_firm_check_accepts_own_firm_only() {
    let err = assert_engagement_in_firm(&Some("firm-other".into()), "firm-u3").unwrap_err();
    assert!(matches!(err, AppError::NotFound(_)));
    assert!(assert_engagement_in_firm(&Some("firm-u3".into()), "firm-u3").is_ok());
}
