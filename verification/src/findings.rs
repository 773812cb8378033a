//! Findings: elevating a test result with exceptions into a draft finding,
//! and editing a finding with a field-level audit trail.

use vstd::prelude::*;

use crate::codec::{encode_json_string, json_encode_string};
use crate::error::{message_of, AppError, AppResult};
use crate::text::{
    clone_opt, concat2, decimal, decimal_spec, non_empty_trimmed, non_empty_trimmed_spec, opt_view,
    signed_decimal, signed_decimal_spec, str_eq, trim, trim_spec, zero_pad, zero_pad_spec,
};

verus! {

/// Request to elevate a test result.
#[derive(Debug, Clone)]
pub struct ElevateFindingInput {
    pub test_result_id: String,
    /// Optional; defaults to the test's name.
    pub title: Option<String>,
    /// Optional; defaults to `sev-medium`.
    pub severity_id: Option<String>,
}

/// Request to edit a finding.
#[derive(Debug, Clone)]
pub struct UpdateFindingInput {
    pub finding_id: String,
    pub title: String,
    /// Blank clears the column.
    pub condition_text: Option<String>,
    pub recommendation_text: Option<String>,
    pub severity_id: String,
}

/// A finding as listed.
#[derive(Debug, Clone)]
pub struct FindingSummary {
    pub id: String,
    pub engagement_id: String,
    pub code: String,
    pub title: String,
    pub condition_text: Option<String>,
    pub recommendation_text: Option<String>,
    pub severity_id: Option<String>,
    pub severity_name: Option<String>,
    pub status: String,
    pub test_id: Option<String>,
    pub test_code: Option<String>,
    pub engagement_control_id: Option<String>,
    pub control_code: Option<String>,
    pub identified_at: i64,
    pub identified_by_name: Option<String>,
    pub linked_test_result_ids: Vec<String>,
}

/// A severity level.
#[derive(Debug, Clone)]
pub struct SeveritySummary {
    pub id: String,
    pub name: String,
    pub sort_order: i64,
    pub description: Option<String>,
}

/// Severity given to an elevated finding when none is chosen.
pub open spec fn default_severity() -> Seq<char> {
    "sev-medium"@
}

/// The recommendation every elevated finding starts with.
pub open spec fn default_recommendation() -> Seq<char> {
    "Confirm with management the reason each exception remains outstanding, agree a remediation plan with target dates, and re-test once the plan is complete."@
}

/// `F-` followed by the number, zero-padded to three digits.
pub open spec fn finding_code_spec(existing_count: int) -> Seq<char> {
    "F-"@ + zero_pad_spec(decimal_spec((existing_count + 1) as nat), 3)
}

/// The code of the next finding of an engagement that already has
/// `existing_count` findings: `F-001`, `F-002`, ...
pub fn finding_code(existing_count: i64) -> (r: String)
    requires
        0 <= existing_count < i64::MAX,
    ensures
        r@ == finding_code_spec(existing_count as int),
{
    let n = decimal((existing_count + 1) as u64);
    let padded = zero_pad(n.as_str(), 3);
    concat2("F-", padded.as_str())
}

/// Elevation only applies to a result that is not a pass and counted at
/// least one exception.
pub open spec fn can_elevate(outcome: Seq<char>, evidence_count: int) -> bool {
    outcome != "pass"@ && evidence_count > 0
}

/// Refuses to elevate a result without exceptions.
pub fn check_elevation(outcome: &str, evidence_count: i64) -> (r: AppResult<()>)
    ensures
        can_elevate(outcome@, evidence_count as int) ==> r is Ok,
        !can_elevate(outcome@, evidence_count as int) ==> (r matches Err(e) && e is Message
            && message_of(e) == "cannot elevate a test result that had no exceptions"@),
{
    if str_eq(outcome, "pass") || evidence_count <= 0 {
        Err(AppError::Message("cannot elevate a test result that had no exceptions".to_owned()))
    } else {
        Ok(())
    }
}

/// Elevation request after trimming.
#[derive(Debug, Clone)]
pub struct ElevateRequest {
    pub test_result_id: String,
    pub title: Option<String>,
    pub severity_id: Option<String>,
}

/// Trims the elevation request; the test result is required.
pub fn prepare_elevation(input: &ElevateFindingInput) -> (r: AppResult<ElevateRequest>)
    ensures
        trim_spec(input.test_result_id@).len() == 0 ==> (r matches Err(e) && e is Message
            && message_of(e) == "test result is required"@),
        trim_spec(input.test_result_id@).len() != 0 ==> (r matches Ok(q) && q.test_result_id@
            == trim_spec(input.test_result_id@) && opt_view(q.title) == match input.title {
            Some(t) => non_empty_trimmed_spec(t@),
            None => None,
        } && opt_view(q.severity_id) == match input.severity_id {
            Some(t) => non_empty_trimmed_spec(t@),
            None => None,
        }),
{
    let test_result_id = trim(input.test_result_id.as_str());
    if test_result_id.unicode_len() == 0 {
        return Err(AppError::Message("test result is required".to_owned()));
    }
    Ok(ElevateRequest {
        test_result_id,
        title: non_empty_trimmed(&input.title),
        severity_id: non_empty_trimmed(&input.severity_id),
    })
}

/// The condition text of an elevated finding.
pub open spec fn condition_spec(
    test_code: Seq<char>,
    evidence_count: int,
    exception_summary: Option<Seq<char>>,
    population_ref_label: Option<Seq<char>>,
) -> Seq<char> {
    let summary = match exception_summary {
        Some(s) => s,
        None => "exceptions identified by the automated matcher"@,
    };
    let population = match population_ref_label {
        Some(p) => " Population reviewed: "@ + p + "."@,
        None => Seq::empty(),
    };
    "Testing performed under "@ + test_code + " identified "@ + signed_decimal_spec(evidence_count)
        + ": "@ + summary + "."@ + population
}

/// Builds the condition text: which test found how many exceptions, the
/// matcher's summary (or a generic phrase), and the population reviewed.
pub fn finding_condition(
    test_code: &str,
    evidence_count: i64,
    exception_summary: &Option<String>,
    population_ref_label: &Option<String>,
) -> (r: String)
    ensures
        r@ == condition_spec(
            test_code@,
            evidence_count as int,
            opt_view(*exception_summary),
            opt_view(*population_ref_label),
        ),
{
    let mut s = "Testing performed under ".to_owned();
    s.append(test_code);
    s.append(" identified ");
    let n = signed_decimal(evidence_count);
    s.append(n.as_str());
    s.append(": ");
    match exception_summary {
        Some(x) => s.append(x.as_str()),
        None => s.append("exceptions identified by the automated matcher"),
    }
    s.append(".");
    match population_ref_label {
        Some(p) => {
            s.append(" Population reviewed: ");
            s.append(p.as_str());
            s.append(".");
        },
        None => {},
    }
    proof {
        let pop = match opt_view(*population_ref_label) {
            Some(p) => " Population reviewed: "@ + p + "."@,
            None => Seq::<char>::empty(),
        };
        assert(s@ =~= condition_spec(
            test_code@,
            evidence_count as int,
            opt_view(*exception_summary),
            opt_view(*population_ref_label),
        ));
    }
    s
}

/// The recommendation text an elevated finding starts with.
pub fn default_recommendation_text() -> (r: String)
    ensures
        r@ == default_recommendation(),
{
    "Confirm with management the reason each exception remains outstanding, agree a remediation plan with target dates, and re-test once the plan is complete.".to_owned()
}

/// Title and severity of an elevated finding: the supplied ones, or the
/// test's name and `sev-medium`.
pub fn elevation_defaults(req: &ElevateRequest, test_name: &str) -> (r: (String, String))
    ensures
        r.0@ == match req.title {
            Some(t) => t@,
            None => test_name@,
        },
        r.1@ == match req.severity_id {
            Some(s) => s@,
            None => default_severity(),
        },
{
    let title = match &req.title {
        Some(t) => t.clone(),
        None => test_name.to_owned(),
    };
    let severity = match &req.severity_id {
        Some(s) => s.clone(),
        None => "sev-medium".to_owned(),
    };
    (title, severity)
}

/// Edit request after trimming.
#[derive(Debug, Clone)]
pub struct FindingEdit {
    pub finding_id: String,
    pub title: String,
    pub condition: Option<String>,
    pub recommendation: Option<String>,
    pub severity_id: String,
}

/// Which rule, if any, rejects an edit (checked in this order).
pub open spec fn edit_rejection(input: UpdateFindingInput) -> Option<Seq<char>> {
    if trim_spec(input.finding_id@).len() == 0 {
        Some("finding is required"@)
    } else if trim_spec(input.title@).len() == 0 {
        Some("title is required"@)
    } else if trim_spec(input.severity_id@).len() == 0 {
        Some("severity is required"@)
    } else {
        None
    }
}

/// Trims an edit; finding, title and severity are required, blank
/// condition and recommendation clear the column.
pub fn prepare_edit(input: &UpdateFindingInput) -> (r: AppResult<FindingEdit>)
    ensures
        match edit_rejection(*input) {
            Some(m) => r matches Err(e) && e is Message && message_of(e) == m,
            None => r matches Ok(q) && q.finding_id@ == trim_spec(input.finding_id@) && q.title@
                == trim_spec(input.title@) && q.severity_id@ == trim_spec(input.severity_id@)
                && opt_view(q.condition) == match input.condition_text {
                Some(t) => non_empty_trimmed_spec(t@),
                None => None,
            } && opt_view(q.recommendation) == match input.recommendation_text {
                Some(t) => non_empty_trimmed_spec(t@),
                None => None,
            },
        },
{
    let finding_id = trim(input.finding_id.as_str());
    if finding_id.unicode_len() == 0 {
        return Err(AppError::Message("finding is required".to_owned()));
    }
    let title = trim(input.title.as_str());
    if title.unicode_len() == 0 {
        return Err(AppError::Message("title is required".to_owned()));
    }
    let severity_id = trim(input.severity_id.as_str());
    if severity_id.unicode_len() == 0 {
        return Err(AppError::Message("severity is required".to_owned()));
    }
    Ok(FindingEdit {
        finding_id,
        title,
        condition: non_empty_trimmed(&input.condition_text),
        recommendation: non_empty_trimmed(&input.recommendation_text),
        severity_id,
    })
}

/// The editable columns of a finding as stored.
#[derive(Debug, Clone)]
pub struct EditableFinding {
    pub title: String,
    pub condition: Option<String>,
    pub recommendation: Option<String>,
    pub severity_id: Option<String>,
}

/// One changed column: name, old value, new value.
#[derive(Debug, Clone)]
pub struct FieldChange {
    pub field: String,
    pub old: Option<String>,
    pub new: Option<String>,
}

pub struct ChangeView {
    pub field: Seq<char>,
    pub old: Option<Seq<char>>,
    pub new: Option<Seq<char>>,
}

pub open spec fn change_view(c: FieldChange) -> ChangeView {
    ChangeView { field: c.field@, old: opt_view(c.old), new: opt_view(c.new) }
}

/// The candidate changes in column order, before dropping unchanged ones.
pub open spec fn candidate_changes(old: EditableFinding, edit: FindingEdit) -> Seq<ChangeView> {
    seq![
        ChangeView { field: "title"@, old: Some(old.title@), new: Some(edit.title@) },
        ChangeView { field: "condition_text"@, old: opt_view(old.condition), new: opt_view(edit.condition) },
        ChangeView {
            field: "recommendation_text"@,
            old: opt_view(old.recommendation),
            new: opt_view(edit.recommendation),
        },
        ChangeView { field: "severity_id"@, old: opt_view(old.severity_id), new: Some(edit.severity_id@) },
    ]
}

/// The changed columns, in column order.
pub open spec fn changes_spec(old: EditableFinding, edit: FindingEdit) -> Seq<ChangeView> {
    candidate_changes(old, edit).filter(|c: ChangeView| c.old != c.new)
}

fn opt_eq(a: &Option<String>, b: &Option<String>) -> (r: bool)
    ensures
        r == (opt_view(*a) == opt_view(*b)),
{
    match (a, b) {
        (Some(x), Some(y)) => str_eq(x.as_str(), y.as_str()),
        (None, None) => true,
        _ => false,
    }
}

fn push_change(out: &mut Vec<FieldChange>, field: &str, before: Option<String>, after: Option<String>)
    ensures
        final(out)@.map_values(|c: FieldChange| change_view(c)) == old(out)@.map_values(
            |c: FieldChange| change_view(c),
        ).push(ChangeView { field: field@, old: opt_view(before), new: opt_view(after) }),
{
    let c = FieldChange { field: field.to_owned(), old: before, new: after };
    out.push(c);
    assert(out@.map_values(|c: FieldChange| change_view(c)) =~= old(out)@.map_values(
        |c: FieldChange| change_view(c),
    ).push(ChangeView { field: field@, old: opt_view(before), new: opt_view(after) }));
}

/// The columns an edit changes (title, condition, recommendation,
/// severity, in that order), each with its old and new value. Empty when
/// the edit changes nothing.
pub fn finding_changes(old: &EditableFinding, edit: &FindingEdit) -> (r: Vec<FieldChange>)
    ensures
        r@.map_values(|c: FieldChange| change_view(c)) == changes_spec(*old, *edit),
{
    let mut out: Vec<FieldChange> = Vec::new();
    let ghost cands = candidate_changes(*old, *edit);
    let t_old = Some(old.title.clone());
    let t_new = Some(edit.title.clone());
    if !opt_eq(&t_old, &t_new) {
        push_change(&mut out, "title", t_old, t_new);
    }
    if !opt_eq(&old.condition, &edit.condition) {
        push_change(&mut out, "condition_text", clone_opt(&old.condition), clone_opt(&edit.condition));
    }
    if !opt_eq(&old.recommendation, &edit.recommendation) {
        push_change(
            &mut out,
            "recommendation_text",
            clone_opt(&old.recommendation),
            clone_opt(&edit.recommendation),
        );
    }
    let s_new = Some(edit.severity_id.clone());
    if !opt_eq(&old.severity_id, &s_new) {
        push_change(&mut out, "severity_id", clone_opt(&old.severity_id), s_new);
    }
    proof {
        let f = |c: ChangeView| c.old != c.new;
        reveal_with_fuel(Seq::<ChangeView>::filter, 5);
        assert(cands.subrange(0, 4) =~= cands);
        assert(cands.take(4) =~= cands);
        assert(cands.drop_last() =~= seq![cands[0], cands[1], cands[2]]);
        assert(cands.drop_last().drop_last() =~= seq![cands[0], cands[1]]);
        assert(cands.drop_last().drop_last().drop_last() =~= seq![cands[0]]);
        assert(cands.drop_last().drop_last().drop_last().drop_last() =~= Seq::<ChangeView>::empty());
        assert(out@.map_values(|c: FieldChange| change_view(c)) =~= changes_spec(*old, *edit));
    }
    out
}

/// An edit's change list names each editable column exactly when its stored
/// value differs from the edited one, with both values: the title, the
/// condition, the recommendation and the severity. It lists nothing else,
/// and holds one entry per differing column.
pub proof fn lemma_changes_are_the_differing_columns(old: EditableFinding, edit: FindingEdit)
    ensures
        changes_spec(old, edit).contains(ChangeView { field: "title"@, old: Some(old.title@), new: Some(edit.title@) }) <==> old.title@ != edit.title@,
        changes_spec(old, edit).contains(ChangeView { field: "condition_text"@, old: opt_view(old.condition), new: opt_view(edit.condition) }) <==> opt_view(old.condition) != opt_view(edit.condition),
        changes_spec(old, edit).contains(ChangeView { field: "recommendation_text"@, old: opt_view(old.recommendation), new: opt_view(edit.recommendation) }) <==> opt_view(old.recommendation) != opt_view(
            edit.recommendation,
        ),
        changes_spec(old, edit).contains(ChangeView { field: "severity_id"@, old: opt_view(old.severity_id), new: Some(edit.severity_id@) }) <==> opt_view(old.severity_id) != Some(edit.severity_id@),
        forall|k: int|
            0 <= k < changes_spec(old, edit).len() ==> {
                let c = #[trigger] changes_spec(old, edit)[k];
                c == ChangeView { field: "title"@, old: Some(old.title@), new: Some(edit.title@) } || c == ChangeView { field: "condition_text"@, old: opt_view(old.condition), new: opt_view(edit.condition) } || c == ChangeView { field: "recommendation_text"@, old: opt_view(old.recommendation), new: opt_view(edit.recommendation) } || c == ChangeView { field: "severity_id"@, old: opt_view(old.severity_id), new: Some(edit.severity_id@) }
            },
        changes_spec(old, edit).len() == (if old.title@ != edit.title@ {
            1int
        } else {
            0int
        }) + (if opt_view(old.condition) != opt_view(edit.condition) {
            1int
        } else {
            0int
        }) + (if opt_view(old.recommendation) != opt_view(edit.recommendation) {
            1int
        } else {
            0int
        }) + (if opt_view(old.severity_id) != Some(edit.severity_id@) {
            1int
        } else {
            0int
        }),
{
    let cands = candidate_changes(old, edit);
    let pred = |c: ChangeView| c.old != c.new;
    let cs = changes_spec(old, edit);
    assert(cs == cands.filter(pred));
    assert forall|j: int| 0 <= j < 4 && pred(cands[j]) implies cs.contains(cands[j]) by {
        cands.lemma_filter_contains(pred, j);
    }
    assert forall|x: ChangeView| cs.contains(x) implies pred(x) && cands.contains(x) by {
        let k = choose|k: int| 0 <= k < cs.len() && cs[k] == x;
        cands.lemma_filter_pred(pred, k);
        cands.lemma_filter_contains_rev(pred, x);
    }
    assert forall|k: int| 0 <= k < cs.len() implies {
        let c = #[trigger] cs[k];
        c == cands[0] || c == cands[1] || c == cands[2] || c == cands[3]
    } by {
        assert(cs.contains(cs[k]));
        let j = choose|j: int| 0 <= j < cands.len() && cands[j] == cs[k];
    }
    assert(cands[0] == ChangeView { field: "title"@, old: Some(old.title@), new: Some(edit.title@) });
    assert(cands[3] == ChangeView { field: "severity_id"@, old: opt_view(old.severity_id), new: Some(edit.severity_id@) });
    reveal_with_fuel(Seq::<ChangeView>::filter, 5);
    assert(cands.drop_last() =~= seq![cands[0], cands[1], cands[2]]);
    assert(cands.drop_last().drop_last() =~= seq![cands[0], cands[1]]);
    assert(cands.drop_last().drop_last().drop_last() =~= seq![cands[0]]);
    assert(cands.drop_last().drop_last().drop_last().drop_last() =~= Seq::<ChangeView>::empty());
}

/// Saving an edit that matches the stored values records no change.
pub proof fn lemma_unchanged_edit_is_noop(old: EditableFinding, edit: FindingEdit)
    requires
        old.title@ == edit.title@,
        opt_view(old.condition) == opt_view(edit.condition),
        opt_view(old.recommendation) == opt_view(edit.recommendation),
        opt_view(old.severity_id) == Some(edit.severity_id@),
    ensures
        changes_spec(old, edit).len() == 0,
{
    let cands = candidate_changes(old, edit);
    reveal_with_fuel(Seq::<ChangeView>::filter, 5);
    assert(cands.drop_last() =~= seq![cands[0], cands[1], cands[2]]);
    assert(cands.drop_last().drop_last() =~= seq![cands[0], cands[1]]);
    assert(cands.drop_last().drop_last().drop_last() =~= seq![cands[0]]);
    assert(cands.drop_last().drop_last().drop_last().drop_last() =~= Seq::<ChangeView>::empty());
}

/// `""` for one, `"s"` otherwise.
pub open spec fn plural_spec(n: int) -> Seq<char> {
    if n == 1 {
        Seq::empty()
    } else {
        "s"@
    }
}

/// The plural suffix for a count.
pub fn plural(n: i64) -> (r: &'static str)
    ensures
        r@ == plural_spec(n as int),
{
    if n == 1 {
        proof {
            reveal_strlit("");
        }
        ""
    } else {
        "s"
    }
}

/// The activity-log summary of an edit.
pub open spec fn edit_summary_spec(code: Seq<char>, changed: nat) -> Seq<char> {
    "Edited finding "@ + code + " ("@ + decimal_spec(changed) + " field"@ + plural_spec(changed as int)
        + " changed)"@
}

/// `Edited finding F-001 (2 fields changed)`.
pub fn edit_summary(code: &str, changed: usize) -> (r: String)
    requires
        changed <= i64::MAX,
    ensures
        r@ == edit_summary_spec(code@, changed as nat),
{
    let mut s = "Edited finding ".to_owned();
    s.append(code);
    s.append(" (");
    let n = decimal(changed as u64);
    s.append(n.as_str());
    s.append(" field");
    s.append(plural(changed as i64));
    s.append(" changed)");
    s
}

/// One change-log row of a saved edit: the column and its old and new
/// values as JSON string literals (`None` for NULL).
#[derive(Debug, Clone)]
pub struct ChangeLogRow {
    pub field_name: String,
    pub old_value_json: Option<String>,
    pub new_value_json: Option<String>,
}

/// What saving an edit writes besides the finding itself.
#[derive(Debug, Clone)]
pub struct EditRecord {
    /// One row per changed column, in column order.
    pub log_rows: Vec<ChangeLogRow>,
    /// The finding's sync version after the save; `None` when nothing is
    /// written.
    pub version: Option<i64>,
    /// The activity line; `None` when nothing is written.
    pub activity: Option<String>,
}

/// A value as its JSON string literal, `None` staying `None`.
pub open spec fn json_opt(v: Option<Seq<char>>) -> Option<Seq<char>> {
    match v {
        Some(s) => Some(json_encode_string(s)),
        None => None,
    }
}

/// The change-log row written for one change.
pub open spec fn log_row_spec(row: ChangeLogRow, c: ChangeView) -> bool {
    &&& row.field_name@ == c.field
    &&& opt_view(row.old_value_json) == json_opt(c.old)
    &&& opt_view(row.new_value_json) == json_opt(c.new)
}

fn json_of(v: &Option<String>) -> (r: Option<String>)
    ensures
        opt_view(r) == json_opt(opt_view(*v)),
{
    match v {
        Some(s) => Some(encode_json_string(s.as_str())),
        None => None,
    }
}

/// What saving an edit of the finding coded `code` writes, given its changes
/// and the version of its sync record (`None` when it has none). An edit
/// that changes nothing writes nothing. Otherwise there is one change-log row
/// per change, the version rises by one (a missing sync record starts at
/// one), and one activity line names the finding and the number of changes.
pub fn plan_edit_record(code: &str, changes: &Vec<FieldChange>, current_version: Option<i64>) -> (r: EditRecord)
    requires
        changes@.len() <= i64::MAX,
        current_version matches Some(v) ==> v < i64::MAX,
    ensures
        r.log_rows@.len() == changes@.len(),
        forall|i: int|
            0 <= i < changes@.len() ==> log_row_spec(#[trigger] r.log_rows@[i], change_view(changes@[i])),
        changes@.len() == 0 ==> r.version is None && r.activity is None,
        changes@.len() > 0 ==> r.version == Some(
            match current_version {
                Some(v) => (v + 1) as i64,
                None => 1i64,
            },
        ),
        changes@.len() > 0 ==> (r.activity matches Some(a) && a@ == edit_summary_spec(code@, changes@.len())),
{
    let mut rows: Vec<ChangeLogRow> = Vec::new();
    let mut i: usize = 0;
    while i < changes.len()
        invariant
            i <= changes@.len(),
            rows@.len() == i,
            forall|k: int| 0 <= k < i ==> log_row_spec(#[trigger] rows@[k], change_view(changes@[k])),
        decreases changes@.len() - i,
    {
        let c = &changes[i];
        rows.push(ChangeLogRow {
            field_name: c.field.clone(),
            old_value_json: json_of(&c.old),
            new_value_json: json_of(&c.new),
        });
        i = i + 1;
    }
    if changes.len() == 0 {
        return EditRecord { log_rows: rows, version: None, activity: None };
    }
    let version = match current_version {
        Some(v) => v + 1,
        None => 1,
    };
    EditRecord { log_rows: rows, version: Some(version), activity: Some(edit_summary(code, changes.len())) }
}

/// A severity named by the user must exist: `known` says whether the
/// severity row was found.
pub fn check_severity(known: bool) -> (r: AppResult<()>)
    ensures
        r is Ok <==> known,
        r matches Err(e) ==> e matches AppError::NotFound(m) && m@ == "severity not found"@,
{
    if known {
        Ok(())
    } else {
        Err(AppError::NotFound("severity not found".to_owned()))
    }
}

/// The facts of a test result that elevating it reads.
#[derive(Debug, Clone)]
pub struct ElevationSource {
    pub outcome: String,
    pub exception_summary: Option<String>,
    pub evidence_count: i64,
    pub population_ref_label: Option<String>,
    pub test_code: String,
    pub test_name: String,
}

/// The finding an elevation creates, before it is given an id.
#[derive(Debug, Clone)]
pub struct ElevationPlan {
    pub code: String,
    pub title: String,
    pub severity_id: String,
    pub condition_text: String,
    pub recommendation_text: String,
    pub status: String,
    pub linked_test_result_ids: Vec<String>,
}

/// The finding an elevation of `req` over `src` creates in an engagement
/// that already has `existing_count` findings.
pub open spec fn elevation_plan_spec(
    p: ElevationPlan,
    req: ElevateRequest,
    src: ElevationSource,
    existing_count: int,
) -> bool {
    &&& p.code@ == finding_code_spec(existing_count)
    &&& p.title@ == match req.title {
        Some(t) => t@,
        None => src.test_name@,
    }
    &&& p.severity_id@ == match req.severity_id {
        Some(s) => s@,
        None => default_severity(),
    }
    &&& p.condition_text@ == condition_spec(
        src.test_code@,
        src.evidence_count as int,
        opt_view(src.exception_summary),
        opt_view(src.population_ref_label),
    )
    &&& p.recommendation_text@ == default_recommendation()
    &&& p.status@ == "draft"@
    &&& p.linked_test_result_ids@.len() == 1
    &&& p.linked_test_result_ids@[0]@ == req.test_result_id@
}

/// Decides an elevation: a result without exceptions is refused, then a
/// chosen severity that does not exist (`severity_known` is read only when
/// a severity was chosen); otherwise the new finding is a draft coded after
/// the engagement's `existing_count` findings, titled and graded as chosen
/// or by default, and linked to the one result it came from.
pub fn plan_elevation(
    req: &ElevateRequest,
    src: &ElevationSource,
    severity_known: bool,
    existing_count: i64,
) -> (r: AppResult<ElevationPlan>)
    requires
        0 <= existing_count < i64::MAX,
    ensures
        !can_elevate(src.outcome@, src.evidence_count as int) ==> (r matches Err(e) && e is Message
            && message_of(e) == "cannot elevate a test result that had no exceptions"@),
        can_elevate(src.outcome@, src.evidence_count as int) && req.severity_id is Some && !severity_known ==> (
        r matches Err(e) && e is NotFound && message_of(e) == "severity not found"@),
        can_elevate(src.outcome@, src.evidence_count as int) && (req.severity_id is None || severity_known) ==> (
        r matches Ok(p) && elevation_plan_spec(p, *req, *src, existing_count as int)),
{
    match check_elevation(src.outcome.as_str(), src.evidence_count) {
        Ok(()) => {},
        Err(e) => {
            return Err(e);
        },
    }
    if req.severity_id.is_some() && !severity_known {
        return Err(AppError::NotFound("severity not found".to_owned()));
    }
    let (title, severity_id) = elevation_defaults(req, src.test_name.as_str());
    let mut linked: Vec<String> = Vec::new();
    linked.push(req.test_result_id.clone());
    Ok(ElevationPlan {
        code: finding_code(existing_count),
        title,
        severity_id,
        condition_text: finding_condition(
            src.test_code.as_str(),
            src.evidence_count,
            &src.exception_summary,
            &src.population_ref_label,
        ),
        recommendation_text: default_recommendation_text(),
        status: "draft".to_owned(),
        linked_test_result_ids: linked,
    })
}

/// The activity line of an elevation.
pub open spec fn elevation_summary_spec(evidence_count: int, test_code: Seq<char>, finding_code: Seq<char>) -> Seq<
    char,
> {
    "Elevated "@ + signed_decimal_spec(evidence_count) + " exception(s) from "@ + test_code + " into finding "@
        + finding_code
}

/// `Elevated {n} exception(s) from {test code} into finding {code}`.
pub fn elevation_summary(evidence_count: i64, test_code: &str, finding_code: &str) -> (r: String)
    ensures
        r@ == elevation_summary_spec(evidence_count as int, test_code@, finding_code@),
{
    let mut s = "Elevated ".to_owned();
    s.append(signed_decimal(evidence_count).as_str());
    s.append(" exception(s) from ");
    s.append(test_code);
    s.append(" into finding ");
    s.append(finding_code);
    s
}

} // verus!
