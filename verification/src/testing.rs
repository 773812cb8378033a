//! Fieldwork and testing: data-import uploads, matcher dispatch, import
//! selection, and the bookkeeping of a matcher run.

use vstd::prelude::*;

use crate::error::{message_of, AppError, AppResult};
use crate::rules::{report_exceptions, report_rule, report_summary_spec, rule_names_spec, RuleReport};
use crate::text::{
    clone_opt, concat2, concat3, signed_decimal, signed_decimal_spec, eq_ignore_ascii_case, eq_ignore_ascii_case_spec, non_empty_trimmed,
    non_empty_trimmed_spec, opt_view, str_eq, trim, trim_spec,
};

verus! {

/// Largest upload accepted (25 MiB).
pub const MAX_UPLOAD_BYTES: usize = 26214400;

/// Request to clone a library control into an engagement.
#[derive(Debug, Clone)]
pub struct AddLibraryControlInput {
    pub engagement_id: String,
    pub library_control_id: String,
    pub system_id: Option<String>,
}

/// What a clone created.
#[derive(Debug, Clone)]
pub struct AddLibraryControlResult {
    pub engagement_control_id: String,
    pub engagement_risk_ids: Vec<String>,
    pub test_ids: Vec<String>,
}

/// An uploaded data file.
#[derive(Debug, Clone)]
pub struct UploadDataImportInput {
    pub engagement_id: String,
    pub system_id: Option<String>,
    pub source_kind: String,
    pub purpose_tag: String,
    pub filename: String,
    pub mime_type: Option<String>,
    pub content: Vec<u8>,
}

/// A data import as listed.
#[derive(Debug, Clone)]
pub struct DataImportSummary {
    pub id: String,
    pub filename: Option<String>,
    pub source_kind: String,
    pub purpose_tag: Option<String>,
    pub row_count: Option<i64>,
    pub plaintext_size: Option<i64>,
    pub imported_at: i64,
    pub imported_by: Option<String>,
    pub imported_by_name: Option<String>,
}

/// A test as listed, with its latest result.
#[derive(Debug, Clone)]
pub struct TestSummary {
    pub id: String,
    pub engagement_control_id: String,
    pub control_code: String,
    pub control_title: String,
    pub code: String,
    pub name: String,
    pub objective: String,
    pub automation_tier: String,
    pub status: String,
    pub latest_result_outcome: Option<String>,
    pub latest_result_at: Option<i64>,
    pub latest_result_evidence_count: Option<i64>,
}

/// Request to run the matcher of a test. `overrides` pins a data import
/// (by id) to a purpose tag; later pairs with the same tag win.
#[derive(Debug, Clone)]
pub struct RunMatcherInput {
    pub test_id: String,
    pub overrides: Option<Vec<(String, String)>>,
}

/// Result of a matcher run: the common fields, then counters that only the
/// rule family that owns them fills in.
#[derive(Debug, Clone)]
pub struct MatcherRunResult {
    pub test_result_id: String,
    pub rule: String,
    pub outcome: String,
    pub exception_count: i64,
    pub primary_import_id: String,
    pub primary_import_filename: Option<String>,
    pub supporting_import_id: Option<String>,
    pub supporting_import_filename: Option<String>,
    pub ad_rows_considered: Option<i64>,
    pub ad_rows_skipped_disabled: Option<i64>,
    pub leaver_rows_considered: Option<i64>,
    pub hr_rows_considered: Option<i64>,
    pub ad_rows_skipped_unmatchable: Option<i64>,
    pub ad_rows_skipped_no_last_logon: Option<i64>,
    pub ad_rows_skipped_unparseable: Option<i64>,
    pub dormancy_threshold_days: Option<i64>,
    pub changes_considered: Option<i64>,
    pub changes_skipped_standard: Option<i64>,
    pub changes_skipped_cancelled: Option<i64>,
    pub changes_skipped_not_deployed: Option<i64>,
    pub changes_skipped_no_id: Option<i64>,
    pub changes_skipped_unparseable_dates: Option<i64>,
    pub deploy_rows_considered: Option<i64>,
    pub deploy_rows_skipped_unmatchable: Option<i64>,
    pub source_rows_considered: Option<i64>,
    pub source_rows_skipped_unmatchable: Option<i64>,
    pub intersecting_users: Option<i64>,
    pub jobs_considered: Option<i64>,
    pub jobs_skipped_no_id: Option<i64>,
    pub jobs_skipped_unknown_status: Option<i64>,
    pub transactions_considered: Option<i64>,
    pub transactions_skipped_unparseable: Option<i64>,
    pub transactions_skipped_zero: Option<i64>,
    pub digit_rows_evaluated: Option<i64>,
    pub transactions_skipped_no_key: Option<i64>,
    pub duplicate_group_count: Option<i64>,
    pub total_duplicate_rows: Option<i64>,
}

/// A test result as listed.
#[derive(Debug, Clone)]
pub struct TestResultSummary {
    pub id: String,
    pub test_id: String,
    pub test_code: String,
    pub test_name: String,
    pub outcome: String,
    pub exception_summary: Option<String>,
    pub evidence_count: i64,
    pub performed_at: i64,
    pub performed_by_name: Option<String>,
    pub population_ref_label: Option<String>,
    pub detail_json: Option<String>,
    pub notes_blob_id: Option<String>,
    pub has_linked_finding: bool,
}

/// `hint` with every `-` replaced by `_` (library hints use hyphens, the
/// test's automation tier underscores).
pub open spec fn normalise_tier_spec(hint: Seq<char>) -> Seq<char> {
    hint.map_values(|c: char| if c == '-' { '_' } else { c })
}

/// Converts a library automation hint (`rule-based`) into a test automation
/// tier (`rule_based`).
pub fn normalise_automation_tier(hint: &str) -> (r: String)
    ensures
        r@ == normalise_tier_spec(hint@),
{
    let total = hint.unicode_len();
    let mut out = String::new();
    let mut seg: usize = 0;
    let mut i: usize = 0;
    for c in it: hint.chars()
        invariant
            total == hint@.len(),
            i == it.index(),
            it.seq() == hint@,
            i <= total,
            seg <= i,
            out@ + hint@.subrange(seg as int, i as int) == normalise_tier_spec(
                hint@.subrange(0, i as int),
            ),
    {
        proof {
            assert(hint@.subrange(0, i + 1) =~= hint@.subrange(0, i as int).push(c));
            assert(normalise_tier_spec(hint@.subrange(0, i + 1)) =~= normalise_tier_spec(
                hint@.subrange(0, i as int),
            ).push(if c == '-' { '_' } else { c }));
        }
        assert(c == hint@[i as int]);
        if c == '-' {
            let piece = hint.substring_char(seg, i);
            out.append(piece);
            proof {
                reveal_strlit("_");
            }
            out.append("_");
            seg = i + 1;
            proof {
                assert(hint@.subrange(seg as int, (i + 1) as int) =~= Seq::<char>::empty());
            }
        } else {
            proof {
                assert(hint@.subrange(seg as int, (i + 1) as int) =~= hint@.subrange(
                    seg as int,
                    i as int,
                ).push(c));
            }
        }
        i = i + 1;
    }
    let rest = hint.substring_char(seg, total);
    out.append(rest);
    proof {
        assert(hint@.subrange(0, total as int) =~= hint@);
    }
    out
}

/// Matcher rules, one per wired test procedure.
#[derive(Debug, Clone, Copy, PartialEq, Eq)]
pub enum MatcherRule {
    UarTerminatedButActive,
    UarDormantAccounts,
    UarOrphanAccounts,
    ChgApprovalBeforeDeployment,
    ChgSodDevVsDeploy,
    BkpPerformance,
    ItacBenfordFirstDigit,
    ItacDuplicateTransactions,
}

/// The rule wired to a test code, if any.
pub open spec fn rule_for_code(code: Seq<char>) -> Option<MatcherRule> {
    if code == "UAM-T-001"@ {
        Some(MatcherRule::UarTerminatedButActive)
    } else if code == "UAM-T-003"@ {
        Some(MatcherRule::UarDormantAccounts)
    } else if code == "UAM-T-004"@ {
        Some(MatcherRule::UarOrphanAccounts)
    } else if code == "CHG-T-001"@ {
        Some(MatcherRule::ChgApprovalBeforeDeployment)
    } else if code == "CHG-T-002"@ {
        Some(MatcherRule::ChgSodDevVsDeploy)
    } else if code == "BKP-T-001"@ {
        Some(MatcherRule::BkpPerformance)
    } else if code == "ITAC-T-001"@ {
        Some(MatcherRule::ItacBenfordFirstDigit)
    } else if code == "ITAC-T-002"@ {
        Some(MatcherRule::ItacDuplicateTransactions)
    } else {
        None
    }
}

impl MatcherRule {
    /// The rule for a test code; an error names the code when no matcher
    /// is wired to it.
    pub fn for_test_code(code: &str) -> (r: AppResult<MatcherRule>)
        ensures
            match rule_for_code(code@) {
                Some(rule) => r == Ok::<MatcherRule, AppError>(rule),
                None => r matches Err(e) && e is Message && message_of(e)
                    == "no matcher is wired for test code "@ + code@,
            },
    {
        if str_eq(code, "UAM-T-001") {
            Ok(MatcherRule::UarTerminatedButActive)
        } else if str_eq(code, "UAM-T-003") {
            Ok(MatcherRule::UarDormantAccounts)
        } else if str_eq(code, "UAM-T-004") {
            Ok(MatcherRule::UarOrphanAccounts)
        } else if str_eq(code, "CHG-T-001") {
            Ok(MatcherRule::ChgApprovalBeforeDeployment)
        } else if str_eq(code, "CHG-T-002") {
            Ok(MatcherRule::ChgSodDevVsDeploy)
        } else if str_eq(code, "BKP-T-001") {
            Ok(MatcherRule::BkpPerformance)
        } else if str_eq(code, "ITAC-T-001") {
            Ok(MatcherRule::ItacBenfordFirstDigit)
        } else if str_eq(code, "ITAC-T-002") {
            Ok(MatcherRule::ItacDuplicateTransactions)
        } else {
            Err(AppError::Message(concat2("no matcher is wired for test code ", code)))
        }
    }
}

/// A data import chosen as matcher input.
#[derive(Debug, Clone)]
pub struct ImportRef {
    pub id: String,
    pub filename: Option<String>,
    pub blob_id: Option<String>,
}

/// What one matcher rule produced, before it is persisted.
#[derive(Debug, Clone)]
pub struct RuleOutcome {
    pub rule: String,
    pub family_label: String,
    pub report_kind_slug: String,
    pub report_json: Vec<u8>,
    pub exception_count: i64,
    pub exception_summary: String,
    pub detail_json: String,
    pub primary_import: ImportRef,
    pub primary_import_label: String,
    pub supporting_import: Option<ImportRef>,
    pub ad_rows_considered: Option<i64>,
    pub ad_rows_skipped_disabled: Option<i64>,
    pub leaver_rows_considered: Option<i64>,
    pub ad_rows_skipped_unmatchable: Option<i64>,
    pub ad_rows_skipped_no_last_logon: Option<i64>,
    pub ad_rows_skipped_unparseable: Option<i64>,
    pub dormancy_threshold_days: Option<i64>,
    pub hr_rows_considered: Option<i64>,
    pub changes_considered: Option<i64>,
    pub changes_skipped_standard: Option<i64>,
    pub changes_skipped_cancelled: Option<i64>,
    pub changes_skipped_not_deployed: Option<i64>,
    pub changes_skipped_no_id: Option<i64>,
    pub changes_skipped_unparseable_dates: Option<i64>,
    pub deploy_rows_considered: Option<i64>,
    pub deploy_rows_skipped_unmatchable: Option<i64>,
    pub source_rows_considered: Option<i64>,
    pub source_rows_skipped_unmatchable: Option<i64>,
    pub intersecting_users: Option<i64>,
    pub jobs_considered: Option<i64>,
    pub jobs_skipped_no_id: Option<i64>,
    pub jobs_skipped_unknown_status: Option<i64>,
    pub transactions_considered: Option<i64>,
    pub transactions_skipped_unparseable: Option<i64>,
    pub transactions_skipped_zero: Option<i64>,
    pub digit_rows_evaluated: Option<i64>,
    pub transactions_skipped_no_key: Option<i64>,
    pub duplicate_group_count: Option<i64>,
    pub total_duplicate_rows: Option<i64>,
}

/// Every family-specific counter is unset and there is no supporting import.
pub open spec fn counters_unset(o: RuleOutcome) -> bool {
    &&& o.supporting_import is None
    &&& o.ad_rows_considered is None
    &&& o.ad_rows_skipped_disabled is None
    &&& o.leaver_rows_considered is None
    &&& o.ad_rows_skipped_unmatchable is None
    &&& o.ad_rows_skipped_no_last_logon is None
    &&& o.ad_rows_skipped_unparseable is None
    &&& o.dormancy_threshold_days is None
    &&& o.hr_rows_considered is None
    &&& o.changes_considered is None
    &&& o.changes_skipped_standard is None
    &&& o.changes_skipped_cancelled is None
    &&& o.changes_skipped_not_deployed is None
    &&& o.changes_skipped_no_id is None
    &&& o.changes_skipped_unparseable_dates is None
    &&& o.deploy_rows_considered is None
    &&& o.deploy_rows_skipped_unmatchable is None
    &&& o.source_rows_considered is None
    &&& o.source_rows_skipped_unmatchable is None
    &&& o.intersecting_users is None
    &&& o.jobs_considered is None
    &&& o.jobs_skipped_no_id is None
    &&& o.jobs_skipped_unknown_status is None
    &&& o.transactions_considered is None
    &&& o.transactions_skipped_unparseable is None
    &&& o.transactions_skipped_zero is None
    &&& o.digit_rows_evaluated is None
    &&& o.transactions_skipped_no_key is None
    &&& o.duplicate_group_count is None
    &&& o.total_duplicate_rows is None
}

impl RuleOutcome {
    /// An outcome with the common fields set and every family-specific
    /// counter unset.
    pub fn base(
        rule: String,
        family_label: &str,
        report_kind_slug: &str,
        report_json: Vec<u8>,
        exception_count: i64,
        exception_summary: String,
        detail_json: String,
        primary_import: ImportRef,
        primary_import_label: &str,
    ) -> (o: Self)
        ensures
            o.rule == rule,
            o.family_label@ == family_label@,
            o.report_kind_slug@ == report_kind_slug@,
            o.report_json == report_json,
            o.exception_count == exception_count,
            o.exception_summary == exception_summary,
            o.detail_json == detail_json,
            o.primary_import == primary_import,
            o.primary_import_label@ == primary_import_label@,
            counters_unset(o),
    {
        RuleOutcome {
            rule,
            family_label: family_label.to_owned(),
            report_kind_slug: report_kind_slug.to_owned(),
            report_json,
            exception_count,
            exception_summary,
            detail_json,
            primary_import,
            primary_import_label: primary_import_label.to_owned(),
            supporting_import: None,
            ad_rows_considered: None,
            ad_rows_skipped_disabled: None,
            leaver_rows_considered: None,
            ad_rows_skipped_unmatchable: None,
            ad_rows_skipped_no_last_logon: None,
            ad_rows_skipped_unparseable: None,
            dormancy_threshold_days: None,
            hr_rows_considered: None,
            changes_considered: None,
            changes_skipped_standard: None,
            changes_skipped_cancelled: None,
            changes_skipped_not_deployed: None,
            changes_skipped_no_id: None,
            changes_skipped_unparseable_dates: None,
            deploy_rows_considered: None,
            deploy_rows_skipped_unmatchable: None,
            source_rows_considered: None,
            source_rows_skipped_unmatchable: None,
            intersecting_users: None,
            jobs_considered: None,
            jobs_skipped_no_id: None,
            jobs_skipped_unknown_status: None,
            transactions_considered: None,
            transactions_skipped_unparseable: None,
            transactions_skipped_zero: None,
            digit_rows_evaluated: None,
            transactions_skipped_no_key: None,
            duplicate_group_count: None,
            total_duplicate_rows: None,
        }
    }
}

/// `o` with every rule-specific counter unset.
pub open spec fn without_counters(o: RuleOutcome) -> RuleOutcome {
    RuleOutcome {
        ad_rows_considered: None,
        ad_rows_skipped_disabled: None,
        leaver_rows_considered: None,
        hr_rows_considered: None,
        ad_rows_skipped_unmatchable: None,
        ad_rows_skipped_no_last_logon: None,
        ad_rows_skipped_unparseable: None,
        dormancy_threshold_days: None,
        changes_considered: None,
        changes_skipped_standard: None,
        changes_skipped_cancelled: None,
        changes_skipped_not_deployed: None,
        changes_skipped_no_id: None,
        changes_skipped_unparseable_dates: None,
        deploy_rows_considered: None,
        deploy_rows_skipped_unmatchable: None,
        source_rows_considered: None,
        source_rows_skipped_unmatchable: None,
        intersecting_users: None,
        jobs_considered: None,
        jobs_skipped_no_id: None,
        jobs_skipped_unknown_status: None,
        transactions_considered: None,
        transactions_skipped_unparseable: None,
        transactions_skipped_zero: None,
        digit_rows_evaluated: None,
        transactions_skipped_no_key: None,
        duplicate_group_count: None,
        total_duplicate_rows: None,
        ..o
    }
}

/// `o` with the counters a report sets, each as the report's count converted
/// to `i64` (`as`), and every other rule-specific counter unset.
pub open spec fn with_report_counters(o: RuleOutcome, r: RuleReport) -> RuleOutcome {
    let c = without_counters(o);
    match r {
        RuleReport::TerminatedButActive { ad_rows_considered, ad_rows_skipped_disabled, ad_rows_skipped_unmatchable, leaver_rows_considered, .. } => RuleOutcome {
            ad_rows_considered: Some(ad_rows_considered as i64),
            ad_rows_skipped_disabled: Some(ad_rows_skipped_disabled as i64),
            leaver_rows_considered: Some(leaver_rows_considered as i64),
            ad_rows_skipped_unmatchable: Some(ad_rows_skipped_unmatchable as i64),
            ..c
        },
        RuleReport::DormantAccounts { ad_rows_considered, ad_rows_skipped_disabled, ad_rows_skipped_no_last_logon, ad_rows_skipped_unparseable, threshold_days, .. } => RuleOutcome {
            ad_rows_considered: Some(ad_rows_considered as i64),
            ad_rows_skipped_disabled: Some(ad_rows_skipped_disabled as i64),
            ad_rows_skipped_no_last_logon: Some(ad_rows_skipped_no_last_logon as i64),
            ad_rows_skipped_unparseable: Some(ad_rows_skipped_unparseable as i64),
            dormancy_threshold_days: Some(threshold_days as i64),
            ..c
        },
        RuleReport::OrphanAccounts { ad_rows_considered, ad_rows_skipped_disabled, ad_rows_skipped_unmatchable, hr_rows_considered, .. } => RuleOutcome {
            ad_rows_considered: Some(ad_rows_considered as i64),
            ad_rows_skipped_disabled: Some(ad_rows_skipped_disabled as i64),
            ad_rows_skipped_unmatchable: Some(ad_rows_skipped_unmatchable as i64),
            hr_rows_considered: Some(hr_rows_considered as i64),
            ..c
        },
        RuleReport::ApprovalBeforeDeployment { changes_considered, changes_skipped_cancelled, changes_skipped_no_id, changes_skipped_not_deployed, changes_skipped_standard, changes_skipped_unparseable_dates, .. } => RuleOutcome {
            changes_considered: Some(changes_considered as i64),
            changes_skipped_standard: Some(changes_skipped_standard as i64),
            changes_skipped_cancelled: Some(changes_skipped_cancelled as i64),
            changes_skipped_not_deployed: Some(changes_skipped_not_deployed as i64),
            changes_skipped_no_id: Some(changes_skipped_no_id as i64),
            changes_skipped_unparseable_dates: Some(changes_skipped_unparseable_dates as i64),
            ..c
        },
        RuleReport::SodDevVsDeploy { deploy_rows_considered, deploy_rows_skipped_unmatchable, intersecting_users, source_rows_considered, source_rows_skipped_unmatchable, .. } => RuleOutcome {
            deploy_rows_considered: Some(deploy_rows_considered as i64),
            deploy_rows_skipped_unmatchable: Some(deploy_rows_skipped_unmatchable as i64),
            source_rows_considered: Some(source_rows_considered as i64),
            source_rows_skipped_unmatchable: Some(source_rows_skipped_unmatchable as i64),
            intersecting_users: Some(intersecting_users as i64),
            ..c
        },
        RuleReport::BackupPerformance { jobs_considered, jobs_skipped_no_id, jobs_skipped_unknown_status, .. } => RuleOutcome {
            jobs_considered: Some(jobs_considered as i64),
            jobs_skipped_no_id: Some(jobs_skipped_no_id as i64),
            jobs_skipped_unknown_status: Some(jobs_skipped_unknown_status as i64),
            ..c
        },
        RuleReport::BenfordFirstDigit { digit_rows_evaluated, rows_considered, rows_skipped_unparseable, rows_skipped_zero, .. } => RuleOutcome {
            transactions_considered: Some(rows_considered as i64),
            transactions_skipped_unparseable: Some(rows_skipped_unparseable as i64),
            transactions_skipped_zero: Some(rows_skipped_zero as i64),
            digit_rows_evaluated: Some(digit_rows_evaluated as i64),
            ..c
        },
        RuleReport::DuplicateTransactions { duplicate_group_count, rows_considered, rows_skipped_no_key, rows_skipped_unparseable, rows_skipped_zero, total_duplicate_rows, .. } => RuleOutcome {
            transactions_considered: Some(rows_considered as i64),
            transactions_skipped_unparseable: Some(rows_skipped_unparseable as i64),
            transactions_skipped_zero: Some(rows_skipped_zero as i64),
            transactions_skipped_no_key: Some(rows_skipped_no_key as i64),
            duplicate_group_count: Some(duplicate_group_count as i64),
            total_duplicate_rows: Some(total_duplicate_rows as i64),
            ..c
        },
    }
}

/// The documented relations between a rule's counters: the users on both
/// permission lists are the SoD exceptions, the duplicate groups are the
/// duplicate-transaction exceptions and cover at least two rows each, and the
/// Benford digit rows are the considered transactions less the skipped ones.
pub open spec fn outcome_relations(o: RuleOutcome) -> bool {
    &&& o.intersecting_users matches Some(n) ==> n == o.exception_count
    &&& o.duplicate_group_count matches Some(g) ==> g == o.exception_count && (o.total_duplicate_rows matches Some(
        t,
    ) && t >= 2 * g)
    &&& o.digit_rows_evaluated matches Some(d) ==> (o.transactions_considered matches Some(c)
        && o.transactions_skipped_unparseable matches Some(u) && o.transactions_skipped_zero matches Some(z) && d
        == c - u - z)
}

/// A report keeps the relations its matcher documents, with every count
/// within `i64`.
pub open spec fn report_consistent(r: RuleReport) -> bool {
    match r {
        RuleReport::SodDevVsDeploy { exceptions, intersecting_users, .. } => intersecting_users == exceptions,
        RuleReport::DuplicateTransactions { exceptions, duplicate_group_count, total_duplicate_rows, .. } => {
            &&& duplicate_group_count == exceptions
            &&& total_duplicate_rows <= i64::MAX
            &&& total_duplicate_rows >= 2 * duplicate_group_count
        },
        RuleReport::BenfordFirstDigit {
            rows_considered,
            rows_skipped_unparseable,
            rows_skipped_zero,
            digit_rows_evaluated,
            ..
        } => {
            &&& rows_considered <= i64::MAX
            &&& digit_rows_evaluated + rows_skipped_unparseable + rows_skipped_zero == rows_considered
        },
        _ => true,
    }
}

/// The outcome of a run from its report: the rule's family, report slug and
/// input label, the exception count and summary line of the report, and the
/// rule's own counters (every other counter unset). Counts are converted to
/// `i64` with `as`. When the report keeps its documented relations, so do
/// the outcome's counters.
pub fn outcome_from_report(
    report: &RuleReport,
    rule: String,
    report_json: Vec<u8>,
    detail_json: String,
    primary_import: ImportRef,
    supporting_import: Option<ImportRef>,
) -> (o: RuleOutcome)
    ensures
        o.rule == rule,
        (o.family_label@, o.report_kind_slug@, o.primary_import_label@) == rule_names_spec(report_rule(*report)),
        o.report_json == report_json,
        o.exception_count == report_exceptions(*report) as i64,
        o.exception_summary@ == report_summary_spec(*report),
        o.detail_json == detail_json,
        o.primary_import == primary_import,
        o.supporting_import == supporting_import,
        o == with_report_counters(o, *report),
        report_consistent(*report) ==> outcome_relations(o),
{
    let (family, slug, label) = report.rule().names();
    let mut o = RuleOutcome::base(
        rule,
        family,
        slug,
        report_json,
        report.exceptions() as i64,
        report.summary(),
        detail_json,
        primary_import,
        label,
    );
    o.supporting_import = supporting_import;
    match report {
        RuleReport::TerminatedButActive { ad_rows_considered, ad_rows_skipped_disabled, ad_rows_skipped_unmatchable, leaver_rows_considered, .. } => {
            o.ad_rows_considered = Some(*ad_rows_considered as i64);
            o.ad_rows_skipped_disabled = Some(*ad_rows_skipped_disabled as i64);
            o.leaver_rows_considered = Some(*leaver_rows_considered as i64);
            o.ad_rows_skipped_unmatchable = Some(*ad_rows_skipped_unmatchable as i64);
        },
        RuleReport::DormantAccounts { ad_rows_considered, ad_rows_skipped_disabled, ad_rows_skipped_no_last_logon, ad_rows_skipped_unparseable, threshold_days, .. } => {
            o.ad_rows_considered = Some(*ad_rows_considered as i64);
            o.ad_rows_skipped_disabled = Some(*ad_rows_skipped_disabled as i64);
            o.ad_rows_skipped_no_last_logon = Some(*ad_rows_skipped_no_last_logon as i64);
            o.ad_rows_skipped_unparseable = Some(*ad_rows_skipped_unparseable as i64);
            o.dormancy_threshold_days = Some(*threshold_days as i64);
        },
        RuleReport::OrphanAccounts { ad_rows_considered, ad_rows_skipped_disabled, ad_rows_skipped_unmatchable, hr_rows_considered, .. } => {
            o.ad_rows_considered = Some(*ad_rows_considered as i64);
            o.ad_rows_skipped_disabled = Some(*ad_rows_skipped_disabled as i64);
            o.ad_rows_skipped_unmatchable = Some(*ad_rows_skipped_unmatchable as i64);
            o.hr_rows_considered = Some(*hr_rows_considered as i64);
        },
        RuleReport::ApprovalBeforeDeployment { changes_considered, changes_skipped_cancelled, changes_skipped_no_id, changes_skipped_not_deployed, changes_skipped_standard, changes_skipped_unparseable_dates, .. } => {
            o.changes_considered = Some(*changes_considered as i64);
            o.changes_skipped_standard = Some(*changes_skipped_standard as i64);
            o.changes_skipped_cancelled = Some(*changes_skipped_cancelled as i64);
            o.changes_skipped_not_deployed = Some(*changes_skipped_not_deployed as i64);
            o.changes_skipped_no_id = Some(*changes_skipped_no_id as i64);
            o.changes_skipped_unparseable_dates = Some(*changes_skipped_unparseable_dates as i64);
        },
        RuleReport::SodDevVsDeploy { deploy_rows_considered, deploy_rows_skipped_unmatchable, intersecting_users, source_rows_considered, source_rows_skipped_unmatchable, .. } => {
            o.deploy_rows_considered = Some(*deploy_rows_considered as i64);
            o.deploy_rows_skipped_unmatchable = Some(*deploy_rows_skipped_unmatchable as i64);
            o.source_rows_considered = Some(*source_rows_considered as i64);
            o.source_rows_skipped_unmatchable = Some(*source_rows_skipped_unmatchable as i64);
            o.intersecting_users = Some(*intersecting_users as i64);
        },
        RuleReport::BackupPerformance { jobs_considered, jobs_skipped_no_id, jobs_skipped_unknown_status, .. } => {
            o.jobs_considered = Some(*jobs_considered as i64);
            o.jobs_skipped_no_id = Some(*jobs_skipped_no_id as i64);
            o.jobs_skipped_unknown_status = Some(*jobs_skipped_unknown_status as i64);
        },
        RuleReport::BenfordFirstDigit { digit_rows_evaluated, rows_considered, rows_skipped_unparseable, rows_skipped_zero, .. } => {
            o.transactions_considered = Some(*rows_considered as i64);
            o.transactions_skipped_unparseable = Some(*rows_skipped_unparseable as i64);
            o.transactions_skipped_zero = Some(*rows_skipped_zero as i64);
            o.digit_rows_evaluated = Some(*digit_rows_evaluated as i64);
        },
        RuleReport::DuplicateTransactions { duplicate_group_count, rows_considered, rows_skipped_no_key, rows_skipped_unparseable, rows_skipped_zero, total_duplicate_rows, .. } => {
            o.transactions_considered = Some(*rows_considered as i64);
            o.transactions_skipped_unparseable = Some(*rows_skipped_unparseable as i64);
            o.transactions_skipped_zero = Some(*rows_skipped_zero as i64);
            o.transactions_skipped_no_key = Some(*rows_skipped_no_key as i64);
            o.duplicate_group_count = Some(*duplicate_group_count as i64);
            o.total_duplicate_rows = Some(*total_duplicate_rows as i64);
        },
    }
    proof {
        assert(o == with_report_counters(o, *report));
        if report_consistent(*report) {
            match *report {
                RuleReport::DuplicateTransactions { total_duplicate_rows, duplicate_group_count, .. } => {
                    assert(duplicate_group_count <= total_duplicate_rows);
                },
                _ => {},
            }
        }
    }
    o
}

/// A run passes when it found no exception.
pub open spec fn result_outcome_spec(exception_count: int) -> Seq<char> {
    if exception_count == 0 {
        "pass"@
    } else {
        "exception"@
    }
}

/// `pass` or `exception`.
pub fn result_outcome(exception_count: i64) -> (r: &'static str)
    ensures
        r@ == result_outcome_spec(exception_count as int),
{
    if exception_count == 0 {
        "pass"
    } else {
        "exception"
    }
}

/// A run is recorded as a pass exactly when it found no exception; any
/// exception at all makes it an exception.
pub proof fn lemma_outcome_is_pass_iff_no_exception(exception_count: int)
    ensures
        (result_outcome_spec(exception_count) == "pass"@) <==> exception_count == 0,
        exception_count != 0 ==> result_outcome_spec(exception_count) == "exception"@,
{
    reveal_strlit("pass");
    reveal_strlit("exception");
    if exception_count != 0 {
        assert("exception"@.len() != "pass"@.len());
    }
}

/// Status a test moves to after a matcher run.
pub open spec fn status_after_run() -> Seq<char> {
    "in_review"@
}

/// Whether a run changes the test's status (it is not already in review).
pub fn run_changes_status(status: &str) -> (r: bool)
    ensures
        r == (status@ != status_after_run()),
{
    !str_eq(status, "in_review")
}

/// File name of the persisted matcher report: `{slug}-{test code}.json`.
pub fn report_filename(slug: &str, test_code: &str) -> (r: String)
    ensures
        r@ == slug@ + "-"@ + test_code@ + ".json"@,
{
    let mut s = concat3(slug, "-", test_code);
    s.append(".json");
    s
}

/// `{label}: {filename}`, with `(unnamed)` for an import without a name.
pub fn population_label(label: &str, filename: &Option<String>) -> (r: String)
    ensures
        r@ == label@ + ": "@ + match *filename {
            Some(f) => f@,
            None => "(unnamed)"@,
        },
{
    match filename {
        Some(f) => concat3(label, ": ", f.as_str()),
        None => concat3(label, ": ", "(unnamed)"),
    }
}

/// The blob holding the primary population; an error when the import has
/// no file attached.
pub fn primary_blob(import: &ImportRef, label: &str) -> (r: AppResult<String>)
    ensures
        match import.blob_id {
            Some(b) => r == Ok::<String, AppError>(b),
            None => r matches Err(e) && e is Message && message_of(e) == label@
                + " has no attached file"@,
        },
{
    match &import.blob_id {
        Some(b) => Ok(b.clone()),
        None => Err(AppError::Message(concat2(label, " has no attached file"))),
    }
}

/// The engagement must belong to the caller's firm; anything else reads as
/// "engagement not found" (so other firms' ids are not disclosed).
pub fn assert_engagement_in_firm(engagement_firm: &Option<String>, firm_id: &str) -> (r: AppResult<()>)
    ensures
        (engagement_firm matches Some(f) && f@ == firm_id@) ==> r is Ok,
        !(engagement_firm matches Some(f) && f@ == firm_id@) ==> (r matches Err(e) && e is NotFound
            && message_of(e) == "engagement not found"@),
{
    match engagement_firm {
        Some(f) => if str_eq(f.as_str(), firm_id) {
            Ok(())
        } else {
            Err(AppError::NotFound("engagement not found".to_owned()))
        },
        None => Err(AppError::NotFound("engagement not found".to_owned())),
    }
}

/// An override pair survives normalisation when both sides are non-blank.
pub open spec fn kept_pair(p: (String, String)) -> bool {
    trim_spec(p.0@).len() != 0 && trim_spec(p.1@).len() != 0
}

/// The normalised overrides: each pair trimmed, blank ones dropped, order kept.
pub open spec fn normalised_overrides_spec(pairs: Seq<(String, String)>) -> Seq<(Seq<char>, Seq<char>)>
    decreases pairs.len(),
{
    if pairs.len() == 0 {
        Seq::empty()
    } else {
        let prev = normalised_overrides_spec(pairs.drop_last());
        let p = pairs.last();
        if kept_pair(p) {
            prev.push((trim_spec(p.0@), trim_spec(p.1@)))
        } else {
            prev
        }
    }
}

pub open spec fn pair_views(v: Seq<(String, String)>) -> Seq<(Seq<char>, Seq<char>)> {
    v.map_values(|p: (String, String)| (p.0@, p.1@))
}

/// Trims override keys and values and drops pairs that become empty.
pub fn normalise_overrides(overrides: &Option<Vec<(String, String)>>) -> (r: Vec<(String, String)>)
    ensures
        pair_views(r@) == match overrides {
            Some(v) => normalised_overrides_spec(v@),
            None => Seq::empty(),
        },
{
    let mut out: Vec<(String, String)> = Vec::new();
    match overrides {
        None => {
            assert(pair_views(out@) =~= Seq::<(Seq<char>, Seq<char>)>::empty());
        },
        Some(v) => {
            let mut i: usize = 0;
            while i < v.len()
                invariant
                    i <= v@.len(),
                    pair_views(out@) == normalised_overrides_spec(v@.subrange(0, i as int)),
                decreases v@.len() - i,
            {
                proof {
                    assert(v@.subrange(0, i + 1).drop_last() =~= v@.subrange(0, i as int));
                }
                let k = trim(v[i].0.as_str());
                let val = trim(v[i].1.as_str());
                if k.unicode_len() != 0 && val.unicode_len() != 0 {
                    let ghost before = out@;
                    out.push((k, val));
                    proof {
                        assert(pair_views(out@) =~= pair_views(before).push((k@, val@)));
                    }
                }
                i = i + 1;
            }
            assert(v@.subrange(0, v@.len() as int) =~= v@);
        },
    }
    out
}

/// A matcher run request, trimmed.
#[derive(Debug, Clone)]
pub struct RunRequest {
    pub test_id: String,
    pub overrides: Vec<(String, String)>,
}

/// Trims the run request; the test is required. The overrides are
/// normalised as [`normalise_overrides`] does.
pub fn prepare_run(input: &RunMatcherInput) -> (r: AppResult<RunRequest>)
    ensures
        trim_spec(input.test_id@).len() == 0 ==> (r matches Err(e) && e is Message && message_of(e)
            == "test is required"@),
        trim_spec(input.test_id@).len() != 0 ==> (r matches Ok(q) && q.test_id@ == trim_spec(input.test_id@)
            && pair_views(q.overrides@) == match input.overrides {
            Some(v) => normalised_overrides_spec(v@),
            None => Seq::empty(),
        }),
{
    let test_id = trim(input.test_id.as_str());
    if test_id.unicode_len() == 0 {
        return Err(AppError::Message("test is required".to_owned()));
    }
    Ok(RunRequest { test_id, overrides: normalise_overrides(&input.overrides) })
}

/// The value of the last pair whose key is `key`.
pub open spec fn lookup_spec(pairs: Seq<(Seq<char>, Seq<char>)>, key: Seq<char>) -> Option<Seq<char>>
    decreases pairs.len(),
{
    if pairs.len() == 0 {
        None
    } else if pairs.last().0 == key {
        Some(pairs.last().1)
    } else {
        lookup_spec(pairs.drop_last(), key)
    }
}

/// The first of `keys` that has an override, tried in order.
pub open spec fn pick_spec(pairs: Seq<(Seq<char>, Seq<char>)>, keys: Seq<Seq<char>>) -> Option<
    Seq<char>,
>
    decreases keys.len(),
{
    if keys.len() == 0 {
        None
    } else {
        match lookup_spec(pairs, keys[0]) {
            Some(v) => Some(v),
            None => pick_spec(pairs, keys.drop_first()),
        }
    }
}

fn lookup(pairs: &Vec<(String, String)>, key: &str) -> (r: Option<String>)
    ensures
        opt_view(r) == lookup_spec(pair_views(pairs@), key@),
    decreases pairs@.len(),
{
    let mut i: usize = pairs.len();
    assert(pairs@.subrange(0, pairs@.len() as int) =~= pairs@);
    while i > 0
        invariant
            i <= pairs@.len(),
            lookup_spec(pair_views(pairs@), key@) == lookup_spec(
                pair_views(pairs@.subrange(0, i as int)),
                key@,
            ),
        decreases i,
    {
        let ghost sub = pairs@.subrange(0, i as int);
        proof {
            assert(pair_views(sub).drop_last() =~= pair_views(pairs@.subrange(0, i - 1)));
            assert(pair_views(sub).last() == (pairs@[i - 1].0@, pairs@[i - 1].1@));
        }
        if str_eq(pairs[i - 1].0.as_str(), key) {
            return Some(pairs[i - 1].1.clone());
        }
        i = i - 1;
    }
    proof {
        assert(pair_views(pairs@.subrange(0, 0)) =~= Seq::<(Seq<char>, Seq<char>)>::empty());
    }
    None
}

/// The override of the first key (in order) that has one.
pub fn pick_override(pairs: &Vec<(String, String)>, keys: &[&str]) -> (r: Option<String>)
    ensures
        opt_view(r) == pick_spec(pair_views(pairs@), keys@.map_values(|k: &str| k@)),
{
    let mut i: usize = 0;
    assert(keys@.subrange(0, keys@.len() as int) =~= keys@);
    while i < keys.len()
        invariant
            i <= keys@.len(),
            pick_spec(pair_views(pairs@), keys@.map_values(|k: &str| k@)) == pick_spec(
                pair_views(pairs@),
                keys@.subrange(i as int, keys@.len() as int).map_values(|k: &str| k@),
            ),
        decreases keys@.len() - i,
    {
        let ghost rest = keys@.subrange(i as int, keys@.len() as int).map_values(|k: &str| k@);
        proof {
            assert(rest.drop_first() =~= keys@.subrange(i + 1, keys@.len() as int).map_values(
                |k: &str| k@,
            ));
        }
        match lookup(pairs, keys[i]) {
            Some(v) => {
                return Some(v);
            },
            None => {},
        }
        i = i + 1;
    }
    proof {
        assert(keys@.subrange(i as int, keys@.len() as int).map_values(|k: &str| k@) =~= Seq::<
            Seq<char>,
        >::empty());
    }
    None
}

/// A `DataImport` row fetched by id.
#[derive(Debug, Clone)]
pub struct ImportRow {
    pub id: String,
    pub filename: Option<String>,
    pub blob_id: Option<String>,
    pub purpose_tag: Option<String>,
    pub engagement_id: String,
}

/// The tag is one of `tags`.
pub open spec fn tag_allowed(tag: Option<String>, tags: Seq<&str>) -> bool {
    match tag {
        Some(p) => exists|k: int| 0 <= k < tags.len() && #[trigger] tags[k]@ == p@,
        None => false,
    }
}

fn tag_in(tags: &[&str], p: &str) -> (r: bool)
    ensures
        r == exists|k: int| 0 <= k < tags@.len() && #[trigger] tags@[k]@ == p@,
{
    let mut k: usize = 0;
    while k < tags.len()
        invariant
            k <= tags@.len(),
            forall|m: int| 0 <= m < k ==> #[trigger] tags@[m]@ != p@,
        decreases tags@.len() - k,
    {
        if str_eq(tags[k], p) {
            assert(tags@[k as int]@ == p@);
            return true;
        }
        k = k + 1;
    }
    false
}

/// Checks a pinned import: it must exist in this engagement and carry one
/// of the rule's purpose tags.
pub fn check_pinned_import(
    row: Option<ImportRow>,
    engagement_id: &str,
    purpose_tags: &[&str],
    label: &str,
) -> (r: AppResult<ImportRef>)
    ensures
        match row {
            None => r matches Err(e) && e is NotFound && message_of(e) == label@
                + " import not found"@,
            Some(x) => if x.engagement_id@ != engagement_id@ {
                r matches Err(e) && e is NotFound && message_of(e) == label@ + " import not found"@
            } else if tag_allowed(x.purpose_tag, purpose_tags@) {
                r matches Ok(i) && i.id == x.id && i.filename == x.filename && i.blob_id == x.blob_id
            } else {
                r matches Err(e) && e is Message && message_of(e) == "selected import is not an "@
                    + label@
            },
        },
{
    let x = match row {
        Some(x) => x,
        None => {
            return Err(AppError::NotFound(concat2(label, " import not found")));
        },
    };
    if !str_eq(x.engagement_id.as_str(), engagement_id) {
        return Err(AppError::NotFound(concat2(label, " import not found")));
    }
    let allowed = match &x.purpose_tag {
        Some(p) => tag_in(purpose_tags, p.as_str()),
        None => false,
    };
    if allowed {
        Ok(ImportRef { id: x.id, filename: x.filename, blob_id: x.blob_id })
    } else {
        Err(AppError::Message(concat2("selected import is not an ", label)))
    }
}

/// A data import of the engagement with the time it was imported.
#[derive(Debug, Clone)]
pub struct DatedImport {
    pub id: String,
    pub filename: Option<String>,
    pub blob_id: Option<String>,
    pub purpose_tag: Option<String>,
    pub engagement_id: String,
    pub imported_at: i64,
}

/// The import belongs to the engagement and carries one of the tags.
pub open spec fn candidate(x: DatedImport, engagement_id: Seq<char>, tags: Seq<&str>) -> bool {
    x.engagement_id@ == engagement_id && tag_allowed(x.purpose_tag, tags)
}

/// `k` is the first of the candidates imported last.
pub open spec fn newest_at(rows: Seq<DatedImport>, k: int, engagement_id: Seq<char>, tags: Seq<&str>) -> bool {
    &&& 0 <= k < rows.len()
    &&& candidate(rows[k], engagement_id, tags)
    &&& forall|j: int|
        0 <= j < rows.len() && #[trigger] candidate(rows[j], engagement_id, tags) ==> rows[j].imported_at
            <= rows[k].imported_at
    &&& forall|j: int|
        0 <= j < k && #[trigger] candidate(rows[j], engagement_id, tags) ==> rows[j].imported_at
            < rows[k].imported_at
}

/// Picks, among `rows`, the newest import of the engagement with one of the
/// rule's purpose tags (the first such when several share the latest time);
/// an error says none has been uploaded when there is no such import.
pub fn pick_newest_import(
    rows: &Vec<DatedImport>,
    engagement_id: &str,
    purpose_tags: &[&str],
    label: &str,
) -> (r: AppResult<ImportRef>)
    ensures
        (exists|j: int| 0 <= j < rows@.len() && #[trigger] candidate(rows@[j], engagement_id@, purpose_tags@))
            <==> r is Ok,
        r matches Ok(i) ==> exists|k: int|
            #[trigger] newest_at(rows@, k, engagement_id@, purpose_tags@) && i.id@ == rows@[k].id@ && opt_view(
                i.filename,
            ) == opt_view(rows@[k].filename) && opt_view(i.blob_id) == opt_view(rows@[k].blob_id),
        r matches Err(e) ==> e is Message && message_of(e) == "no "@ + label@
            + " has been uploaded for this engagement"@,
{
    let mut best: Option<usize> = None;
    let mut i: usize = 0;
    while i < rows.len()
        invariant
            i <= rows@.len(),
            best is None <==> forall|j: int| 0 <= j < i ==> !#[trigger] candidate(rows@[j], engagement_id@, purpose_tags@),
            best matches Some(b) ==> {
                &&& b < i
                &&& candidate(rows@[b as int], engagement_id@, purpose_tags@)
                &&& forall|j: int|
                    0 <= j < i && #[trigger] candidate(rows@[j], engagement_id@, purpose_tags@) ==> rows@[j].imported_at
                        <= rows@[b as int].imported_at
                &&& forall|j: int|
                    0 <= j < b && #[trigger] candidate(rows@[j], engagement_id@, purpose_tags@) ==> rows@[j].imported_at
                        < rows@[b as int].imported_at
            },
        decreases rows@.len() - i,
    {
        let x = &rows[i];
        let ok = str_eq(x.engagement_id.as_str(), engagement_id) && match &x.purpose_tag {
            Some(p) => tag_in(purpose_tags, p.as_str()),
            None => false,
        };
        proof {
            assert(ok == candidate(rows@[i as int], engagement_id@, purpose_tags@));
        }
        if ok {
            match best {
                None => {
                    best = Some(i);
                },
                Some(b) => {
                    if rows[b].imported_at < x.imported_at {
                        best = Some(i);
                    }
                },
            }
        }
        i = i + 1;
    }
    match best {
        Some(b) => {
            let x = &rows[b];
            proof {
                assert(newest_at(rows@, b as int, engagement_id@, purpose_tags@));
            }
            Ok(ImportRef { id: x.id.clone(), filename: clone_opt(&x.filename), blob_id: clone_opt(&x.blob_id) })
        },
        None => Err(AppError::Message(concat3("no ", label, " has been uploaded for this engagement"))),
    }
}

/// Upload fields after trimming.
#[derive(Debug, Clone)]
pub struct ValidUpload {
    pub engagement_id: String,
    pub system_id: Option<String>,
    pub source_kind: String,
    pub purpose_tag: String,
    pub filename: String,
    pub mime_type: Option<String>,
    /// The source kind is `csv` (any ASCII case): row count and columns are
    /// extracted.
    pub is_csv: bool,
}

/// Which rule, if any, rejects an upload (checked in this order).
pub open spec fn upload_rejection(input: UploadDataImportInput) -> Option<Seq<char>> {
    if trim_spec(input.engagement_id@).len() == 0 {
        Some("engagement is required"@)
    } else if trim_spec(input.source_kind@).len() == 0 {
        Some("source kind is required"@)
    } else if trim_spec(input.purpose_tag@).len() == 0 {
        Some("purpose tag is required"@)
    } else if trim_spec(input.filename@).len() == 0 {
        Some("filename is required"@)
    } else if input.content@.len() == 0 {
        Some("file is empty"@)
    } else if input.content@.len() > MAX_UPLOAD_BYTES {
        Some("file exceeds 25 MB limit"@)
    } else {
        None
    }
}

fn opt_field(o: &Option<String>) -> (r: Option<String>)
    ensures
        opt_view(r) == match *o {
            Some(s) => non_empty_trimmed_spec(s@),
            None => None,
        },
{
    non_empty_trimmed(o)
}

/// Checks an upload: engagement, source kind, purpose tag and file name are
/// required, the file must be non-empty and at most 25 MiB.
pub fn validate_upload(input: &UploadDataImportInput) -> (r: AppResult<ValidUpload>)
    ensures
        match upload_rejection(*input) {
            Some(m) => r matches Err(e) && e is Message && message_of(e) == m,
            None => r matches Ok(v) && v.engagement_id@ == trim_spec(input.engagement_id@)
                && v.source_kind@ == trim_spec(input.source_kind@) && v.purpose_tag@ == trim_spec(
                input.purpose_tag@,
            ) && v.filename@ == trim_spec(input.filename@) && opt_view(v.system_id) == match input.system_id {
                Some(s) => non_empty_trimmed_spec(s@),
                None => None,
            } && opt_view(v.mime_type) == match input.mime_type {
                Some(s) => non_empty_trimmed_spec(s@),
                None => None,
            } && v.is_csv == eq_ignore_ascii_case_spec(trim_spec(input.source_kind@), "csv"@),
        },
{
    let engagement_id = trim(input.engagement_id.as_str());
    let system_id = opt_field(&input.system_id);
    let source_kind = trim(input.source_kind.as_str());
    let purpose_tag = trim(input.purpose_tag.as_str());
    let filename = trim(input.filename.as_str());
    let mime_type = opt_field(&input.mime_type);
    if engagement_id.unicode_len() == 0 {
        return Err(AppError::Message("engagement is required".to_owned()));
    }
    if source_kind.unicode_len() == 0 {
        return Err(AppError::Message("source kind is required".to_owned()));
    }
    if purpose_tag.unicode_len() == 0 {
        return Err(AppError::Message("purpose tag is required".to_owned()));
    }
    if filename.unicode_len() == 0 {
        return Err(AppError::Message("filename is required".to_owned()));
    }
    if input.content.len() == 0 {
        return Err(AppError::Message("file is empty".to_owned()));
    }
    if input.content.len() > MAX_UPLOAD_BYTES {
        return Err(AppError::Message("file exceeds 25 MB limit".to_owned()));
    }
    let is_csv = eq_ignore_ascii_case(source_kind.as_str(), "csv");
    Ok(ValidUpload { engagement_id, system_id, source_kind, purpose_tag, filename, mime_type, is_csv })
}

/// The activity line of a data upload: the row count when the file is a
/// CSV with one, else its size.
pub open spec fn upload_summary_spec(
    filename: Seq<char>,
    row_count: Option<int>,
    plaintext_size: int,
    purpose_tag: Seq<char>,
) -> Seq<char> {
    let size = match row_count {
        Some(n) => signed_decimal_spec(n) + " rows"@,
        None => signed_decimal_spec(plaintext_size) + " bytes"@,
    };
    "Uploaded "@ + filename + " ("@ + size + ") tagged '"@ + purpose_tag + "'"@
}

/// `Uploaded {file} ({n} rows | {size} bytes) tagged '{tag}'`.
pub fn upload_summary(filename: &str, row_count: Option<i64>, plaintext_size: i64, purpose_tag: &str) -> (r: String)
    ensures
        r@ == upload_summary_spec(
            filename@,
            match row_count {
                Some(n) => Some(n as int),
                None => None,
            },
            plaintext_size as int,
            purpose_tag@,
        ),
{
    let mut s = concat3("Uploaded ", filename, " (");
    match row_count {
        Some(n) => {
            s.append(signed_decimal(n).as_str());
            s.append(" rows");
        },
        None => {
            s.append(signed_decimal(plaintext_size).as_str());
            s.append(" bytes");
        },
    }
    s.append(") tagged '");
    s.append(purpose_tag);
    s.append("'");
    s
}

/// The title of the evidence row wrapping a data import.
pub fn data_import_title(filename: &str) -> (r: String)
    ensures
        r@ == "Data import — "@ + filename@,
{
    concat2("Data import — ", filename)
}

} // verus!
