//! Engagement records: creation input rules and the dashboard's data shapes.

use vstd::prelude::*;

use crate::audit::{created_views, entry, push_field, CreatedField};
use crate::error::{message_of, AppError, AppResult};
use crate::ids::{is_hyphenated_uuid, new_record_id};
use crate::text::{concat2, concat3, non_empty_trimmed, non_empty_trimmed_spec, opt_view, str_eq, trim, trim_spec};

verus! {

/// One row of the engagement list.
#[derive(Debug, Clone)]
pub struct EngagementSummary {
    pub id: String,
    pub name: String,
    pub client_name: String,
    pub status: String,
    pub fiscal_year: Option<String>,
    pub created_at: i64,
}

/// Form input for creating an engagement.
#[derive(Debug, Clone)]
pub struct NewEngagementInput {
    pub client_id: String,
    pub name: String,
    pub fiscal_year_label: Option<String>,
    pub period_start: Option<String>,
    pub period_end: Option<String>,
}

/// Header card data for the engagement dashboard.
#[derive(Debug, Clone)]
pub struct EngagementHeader {
    pub id: String,
    pub name: String,
    pub client_name: String,
    pub status: String,
    pub fiscal_year: Option<String>,
    pub period_start: Option<String>,
    pub period_end: Option<String>,
    pub library_version_at_start: String,
    pub created_at: i64,
    pub closed_at: Option<i64>,
    pub lead_partner_name: Option<String>,
}

/// Roll-up counters across the engagement. Empty buckets are zero.
#[derive(Debug, Clone)]
pub struct StatusCounts {
    pub controls_total: i64,
    pub risks_total: i64,
    pub tests_total: i64,
    pub tests_not_started: i64,
    pub tests_in_progress: i64,
    pub tests_in_review: i64,
    pub tests_completed: i64,
    pub results_total: i64,
    pub results_pass: i64,
    pub results_exception: i64,
    pub results_fail: i64,
    pub findings_total: i64,
    pub findings_draft: i64,
    pub findings_issued: i64,
    pub findings_remediated: i64,
    pub findings_closed: i64,
    pub findings_critical: i64,
    pub findings_high: i64,
    pub findings_medium: i64,
    pub findings_low: i64,
    pub findings_observation: i64,
    pub data_imports_total: i64,
    pub evidence_total: i64,
}

/// One row of the per-risk coverage strip.
#[derive(Debug, Clone)]
pub struct RiskCoverageEntry {
    pub risk_id: String,
    pub risk_code: String,
    pub risk_title: String,
    pub inherent_rating: String,
    pub residual_rating: Option<String>,
    pub control_count: i64,
    pub test_count: i64,
    pub tests_with_results: i64,
    pub tests_with_exceptions: i64,
    pub findings_open: i64,
    /// `uncovered`, `untested`, `tested_clean` or `tested_with_exceptions`.
    pub coverage_state: String,
}

/// One entry of the "needs attention" list.
#[derive(Debug, Clone)]
pub struct AttentionItem {
    pub kind: String,
    /// `high`, `medium` or `low`.
    pub priority: String,
    pub label: String,
    pub entity_type: Option<String>,
    pub entity_id: Option<String>,
}

/// One row of the recent-activity timeline.
#[derive(Debug, Clone)]
pub struct RecentActivityEntry {
    pub at: i64,
    pub actor_name: Option<String>,
    pub action: String,
    pub entity_type: String,
    pub entity_id: String,
    pub summary: Option<String>,
}

/// Everything the engagement dashboard renders.
#[derive(Debug, Clone)]
pub struct EngagementOverview {
    pub engagement: EngagementHeader,
    pub status_counts: StatusCounts,
    pub risk_coverage: Vec<RiskCoverageEntry>,
    pub needs_attention: Vec<AttentionItem>,
    pub recent_activity: Vec<RecentActivityEntry>,
}

/// Number of activity entries the dashboard shows.
pub const RECENT_ACTIVITY_LIMIT: i64 = 12;


/// An ASCII decimal digit.
pub open spec fn is_digit(c: char) -> bool {
    '0' <= c && c <= '9'
}

/// `YYYY-MM-DD` shape: ten characters, dashes at positions 4 and 7, digits
/// elsewhere (no calendar check).
pub open spec fn is_iso_date_spec(s: Seq<char>) -> bool {
    &&& s.len() == 10
    &&& s[4] == '-'
    &&& s[7] == '-'
    &&& forall|i: int| 0 <= i < 10 && i != 4 && i != 7 ==> is_digit(#[trigger] s[i])
}

/// Checks the `YYYY-MM-DD` shape.
pub fn is_iso_date(s: &str) -> (r: bool)
    ensures
        r == is_iso_date_spec(s@),
{
    if s.unicode_len() != 10 {
        return false;
    }
    if s.get_char(4) != '-' || s.get_char(7) != '-' {
        return false;
    }
    let mut i: usize = 0;
    while i < 10
        invariant
            s@.len() == 10,
            i <= 10,
            forall|k: int| 0 <= k < i && k != 4 && k != 7 ==> is_digit(#[trigger] s@[k]),
        decreases 10 - i,
    {
        if i != 4 && i != 7 {
            let c = s.get_char(i);
            if !('0' <= c && c <= '9') {
                assert(!is_digit(s@[i as int]));
                return false;
            }
        }
        i = i + 1;
    }
    true
}

/// Engagement fields after trimming and the period rule.
#[derive(Debug, Clone)]
pub struct ValidEngagement {
    pub client_id: String,
    pub name: String,
    pub fiscal_year_label: Option<String>,
    pub period_start: Option<String>,
    pub period_end: Option<String>,
    /// Whether an `EngagementPeriod` row is written.
    pub make_period: bool,
}

/// The optional field after trimming (`None` when blank).
pub open spec fn field(o: Option<String>) -> Option<Seq<char>> {
    match o {
        Some(s) => non_empty_trimmed_spec(s@),
        None => None,
    }
}

/// Which rule, if any, rejects the engagement form (checked in this order).
pub open spec fn engagement_rejection(input: NewEngagementInput) -> Option<Seq<char>> {
    let fy = field(input.fiscal_year_label);
    let ps = field(input.period_start);
    let pe = field(input.period_end);
    if trim_spec(input.client_id@).len() == 0 {
        Some("client is required"@)
    } else if trim_spec(input.name@).len() == 0 {
        Some("engagement name is required"@)
    } else if !((ps is Some && pe is Some && fy is Some) || (ps is None && pe is None && fy is None)) {
        Some("period start, end, and fiscal year label must be provided together"@)
    } else if ps matches Some(d) && !is_iso_date_spec(d) {
        Some("period start must be YYYY-MM-DD"@)
    } else if pe matches Some(d) && !is_iso_date_spec(d) {
        Some("period end must be YYYY-MM-DD"@)
    } else {
        None
    }
}

/// An accepted form's period dates are ten characters, digits with dashes
/// at positions 4 and 7. A form that passes the earlier checks (client,
/// name, all three period fields given, a well-shaped start) but whose
/// trimmed period end is not of that shape is refused with
/// "period end must be YYYY-MM-DD", and likewise a badly shaped start with
/// "period start must be YYYY-MM-DD".
pub proof fn lemma_period_dates_are_checked(input: NewEngagementInput)
    ensures
        engagement_rejection(input) is None ==> (field(input.period_start) matches Some(d) ==> (d.len() == 10 && d[4] == '-' && d[7] == '-' && forall|i: int| 0 <= i < 10 && i != 4 && i != 7 ==> '0' <= #[trigger] d[i] <= '9')),
        engagement_rejection(input) is None ==> (field(input.period_end) matches Some(d) ==> (d.len() == 10 && d[4] == '-' && d[7] == '-' && forall|i: int| 0 <= i < 10 && i != 4 && i != 7 ==> '0' <= #[trigger] d[i] <= '9')),
        trim_spec(input.client_id@).len() != 0 && trim_spec(input.name@).len() != 0 && field(
            input.fiscal_year_label,
        ) is Some && field(input.period_end) is Some && (field(input.period_start) matches Some(d) && !(d.len() == 10 && d[4] == '-' && d[7] == '-' && forall|i: int| 0 <= i < 10 && i != 4 && i != 7 ==> '0' <= #[trigger] d[i] <= '9'))
            ==> engagement_rejection(input) == Some("period start must be YYYY-MM-DD"@),
        trim_spec(input.client_id@).len() != 0 && trim_spec(input.name@).len() != 0 && field(
            input.fiscal_year_label,
        ) is Some && (field(input.period_start) matches Some(d) && (d.len() == 10 && d[4] == '-' && d[7] == '-' && forall|i: int| 0 <= i < 10 && i != 4 && i != 7 ==> '0' <= #[trigger] d[i] <= '9')) && (field(input.period_end) matches Some(
            e,
        ) && !(e.len() == 10 && e[4] == '-' && e[7] == '-' && forall|i: int| 0 <= i < 10 && i != 4 && i != 7 ==> '0' <= #[trigger] e[i] <= '9')) ==> engagement_rejection(input) == Some("period end must be YYYY-MM-DD"@),
{
}

/// An accepted engagement form names a client and the engagement (both
/// non-blank once trimmed), and gives the fiscal year label, period start
/// and period end all together or none of them.
pub proof fn lemma_accepted_form_is_complete(input: NewEngagementInput)
    requires
        engagement_rejection(input) is None,
    ensures
        trim_spec(input.client_id@).len() > 0,
        trim_spec(input.name@).len() > 0,
        (field(input.fiscal_year_label) is Some) == (field(input.period_start) is Some),
        (field(input.period_start) is Some) == (field(input.period_end) is Some),
{
}

fn message(m: &str) -> (e: AppError)
    ensures
        e is Message,
        message_of(e) == m@,
{
    AppError::Message(m.to_owned())
}

/// Checks the new-engagement form: client and name are required, the
/// period fields come all together or not at all, and dates are
/// `YYYY-MM-DD`.
pub fn validate_new_engagement(input: &NewEngagementInput) -> (r: AppResult<ValidEngagement>)
    ensures
        match engagement_rejection(*input) {
            Some(m) => r matches Err(e) && e is Message && message_of(e) == m,
            None => r matches Ok(v) && v.client_id@ == trim_spec(input.client_id@) && v.name@
                == trim_spec(input.name@) && opt_view(v.fiscal_year_label) == field(
                input.fiscal_year_label,
            ) && opt_view(v.period_start) == field(input.period_start) && opt_view(v.period_end)
                == field(input.period_end) && v.make_period == field(input.period_start) is Some,
        },
{
    let client_id = trim(input.client_id.as_str());
    let name = trim(input.name.as_str());
    let fiscal_year_label = non_empty_trimmed(&input.fiscal_year_label);
    let period_start = non_empty_trimmed(&input.period_start);
    let period_end = non_empty_trimmed(&input.period_end);
    if client_id.unicode_len() == 0 {
        return Err(message("client is required"));
    }
    if name.unicode_len() == 0 {
        return Err(message("engagement name is required"));
    }
    let all = period_start.is_some() && period_end.is_some() && fiscal_year_label.is_some();
    let none = period_start.is_none() && period_end.is_none() && fiscal_year_label.is_none();
    if !all && !none {
        return Err(message("period start, end, and fiscal year label must be provided together"));
    }
    if let Some(d) = &period_start {
        if !is_iso_date(d.as_str()) {
            return Err(message("period start must be YYYY-MM-DD"));
        }
    }
    if let Some(d) = &period_end {
        if !is_iso_date(d.as_str()) {
            return Err(message("period end must be YYYY-MM-DD"));
        }
    }
    Ok(ValidEngagement {
        client_id,
        name,
        fiscal_year_label,
        period_start,
        period_end,
        make_period: all,
    })
}

/// Ids of the rows a new engagement creates: the engagement, its keychain
/// entry, and its period when the form has one.
#[derive(Debug, Clone)]
pub struct EngagementIds {
    pub engagement_id: String,
    pub keychain_id: String,
    pub period_id: Option<String>,
    /// The keychain entry's key reference, `engagement/{engagement id}`.
    pub keychain_ref: String,
}

/// Fresh ids for a new engagement.
pub fn plan_engagement_ids(valid: &ValidEngagement) -> (r: EngagementIds)
    ensures
        is_hyphenated_uuid(r.engagement_id@),
        is_hyphenated_uuid(r.keychain_id@),
        r.period_id is Some == valid.make_period,
        r.period_id matches Some(p) ==> is_hyphenated_uuid(p@),
        r.keychain_ref@ == "engagement/"@ + r.engagement_id@,
{
    let engagement_id = new_record_id();
    let keychain_id = new_record_id();
    let period_id = if valid.make_period {
        Some(new_record_id())
    } else {
        None
    };
    let keychain_ref = concat2("engagement/", engagement_id.as_str());
    EngagementIds { engagement_id, keychain_id, period_id, keychain_ref }
}

/// The change-log entries of a new engagement: client, name, status,
/// library version, key, lead partner, then the period when there is one.
pub open spec fn engagement_fields_spec(
    client_id: Seq<char>,
    name: Seq<char>,
    library_version: Seq<char>,
    keychain_id: Seq<char>,
    lead_partner_id: Seq<char>,
    period_id: Option<Seq<char>>,
) -> Seq<(Seq<char>, Seq<char>)> {
    let base = seq![
        entry("client_id"@, client_id),
        entry("name"@, name),
        entry("status_id"@, "status-planning"@),
        entry("library_version_at_start"@, library_version),
        entry("encryption_key_id"@, keychain_id),
        entry("lead_partner_id"@, lead_partner_id),
    ];
    match period_id {
        Some(p) => base.push(entry("period_id"@, p)),
        None => base,
    }
}

/// One change-log entry per field a new engagement sets.
pub fn engagement_created_fields(
    valid: &ValidEngagement,
    library_version: &str,
    keychain_id: &str,
    lead_partner_id: &str,
    period_id: &Option<String>,
) -> (r: Vec<CreatedField>)
    ensures
        created_views(r@) == engagement_fields_spec(
            valid.client_id@,
            valid.name@,
            library_version@,
            keychain_id@,
            lead_partner_id@,
            opt_view(*period_id),
        ),
{
    let mut out: Vec<CreatedField> = Vec::new();
    assert(created_views(out@) =~= Seq::<(Seq<char>, Seq<char>)>::empty());
    push_field(&mut out, "client_id", valid.client_id.as_str());
    push_field(&mut out, "name", valid.name.as_str());
    push_field(&mut out, "status_id", "status-planning");
    push_field(&mut out, "library_version_at_start", library_version);
    push_field(&mut out, "encryption_key_id", keychain_id);
    push_field(&mut out, "lead_partner_id", lead_partner_id);
    if let Some(p) = period_id {
        push_field(&mut out, "period_id", p.as_str());
    }
    out
}

/// The change-log entries of a new engagement period.
pub open spec fn period_fields_spec(
    engagement_id: Seq<char>,
    start: Seq<char>,
    end: Seq<char>,
    fiscal_year: Seq<char>,
) -> Seq<(Seq<char>, Seq<char>)> {
    seq![
        entry("engagement_id"@, engagement_id),
        entry("start_date"@, start),
        entry("end_date"@, end),
        entry("fiscal_year_label"@, fiscal_year),
    ]
}

/// One change-log entry per field of a new engagement period.
pub fn period_created_fields(engagement_id: &str, start: &str, end: &str, fiscal_year: &str) -> (r: Vec<
    CreatedField,
>)
    ensures
        created_views(r@) == period_fields_spec(engagement_id@, start@, end@, fiscal_year@),
{
    let mut out: Vec<CreatedField> = Vec::new();
    assert(created_views(out@) =~= Seq::<(Seq<char>, Seq<char>)>::empty());
    push_field(&mut out, "engagement_id", engagement_id);
    push_field(&mut out, "start_date", start);
    push_field(&mut out, "end_date", end);
    push_field(&mut out, "fiscal_year_label", fiscal_year);
    out
}

/// The activity line of a new engagement: `Engagement '{name}' created`.
pub fn engagement_created_summary(name: &str) -> (r: String)
    ensures
        r@ == "Engagement '"@ + name@ + "' created"@,
{
    concat3("Engagement '", name, "' created")
}

/// The client must belong to the signed-in firm: `client_firm` is the firm
/// of the client row, if it exists.
pub fn check_client_in_firm(client_firm: &Option<String>, firm_id: &str) -> (r: AppResult<()>)
    ensures
        r is Ok <==> (client_firm matches Some(f) && f@ == firm_id@),
        r matches Err(e) ==> e matches AppError::NotFound(m) && m@ == "client not found"@,
{
    match client_firm {
        Some(f) => if str_eq(f.as_str(), firm_id) {
            Ok(())
        } else {
            Err(AppError::NotFound("client not found".to_owned()))
        },
        None => Err(AppError::NotFound("client not found".to_owned())),
    }
}

} // verus!
