//! Browsing the installed library: the current version, its risks and
//! controls, and a control's detail with its risks, framework references
//! and test procedures. JSON list columns decode to empty lists when NULL
//! or malformed.

use vstd::prelude::*;

use crate::codec::{parse_string_array, string_array_or_empty, string_views};
use crate::text::opt_view;

verus! {

/// The installed library version and the frameworks its rows cite. An
/// empty version means no library is installed.
#[derive(Debug, Clone)]
pub struct LibraryVersion {
    pub version: String,
    pub frameworks: Vec<String>,
}

/// A library risk as listed.
#[derive(Debug, Clone)]
pub struct LibraryRiskSummary {
    pub id: String,
    pub code: String,
    pub title: String,
    pub default_inherent_rating: Option<String>,
    pub applicable_system_types: Vec<String>,
}

/// A library control as listed.
#[derive(Debug, Clone)]
pub struct LibraryControlSummary {
    pub id: String,
    pub code: String,
    pub title: String,
    pub objective: String,
    pub control_type: String,
    pub frequency: Option<String>,
    pub applicable_system_types: Vec<String>,
    pub frameworks: Vec<String>,
    pub test_procedure_count: i64,
}

/// A library control with everything hanging off it.
#[derive(Debug, Clone)]
pub struct LibraryControlDetail {
    pub id: String,
    pub code: String,
    pub title: String,
    pub description: String,
    pub objective: String,
    pub control_type: String,
    pub frequency: Option<String>,
    pub applicable_system_types: Vec<String>,
    pub related_risks: Vec<LibraryRiskSummary>,
    pub framework_mappings: Vec<LibraryFrameworkMapping>,
    pub test_procedures: Vec<LibraryTestProcedureSummary>,
    pub library_version: String,
}

/// A framework reference of a library row.
#[derive(Debug, Clone)]
pub struct LibraryFrameworkMapping {
    pub framework: String,
    pub reference: String,
}

/// A test procedure as shown in a control's detail.
#[derive(Debug, Clone)]
pub struct LibraryTestProcedureSummary {
    pub id: String,
    pub code: String,
    pub name: String,
    pub objective: String,
    pub steps: Vec<String>,
    pub sampling_default: String,
    pub automation_hint: String,
    pub evidence_checklist: Vec<String>,
}

/// The version to report: the newest current one, or empty when none is
/// installed (then no frameworks are listed either).
pub fn version_or_empty(newest: &Option<String>) -> (r: String)
    ensures
        r@ == match newest {
            Some(v) => v@,
            None => Seq::<char>::empty(),
        },
{
    match newest {
        Some(v) => v.clone(),
        None => String::new(),
    }
}

/// A library risk row with its system-types column decoded.
pub fn risk_summary(
    id: String,
    code: String,
    title: String,
    default_inherent_rating: Option<String>,
    system_types_json: &Option<String>,
) -> (r: LibraryRiskSummary)
    ensures
        r.id == id,
        r.code == code,
        r.title == title,
        r.default_inherent_rating == default_inherent_rating,
        string_views(r.applicable_system_types@) == string_array_or_empty(opt_view(*system_types_json)),
{
    LibraryRiskSummary {
        id,
        code,
        title,
        default_inherent_rating,
        applicable_system_types: parse_string_array(system_types_json),
    }
}

/// A test procedure row with its steps and checklist columns decoded.
pub fn procedure_summary(
    id: String,
    code: String,
    name: String,
    objective: String,
    steps_json: &String,
    sampling_default: String,
    automation_hint: String,
    checklist_json: &Option<String>,
) -> (r: LibraryTestProcedureSummary)
    ensures
        r.id == id,
        r.code == code,
        r.name == name,
        r.objective == objective,
        string_views(r.steps@) == string_array_or_empty(Some(steps_json@)),
        r.sampling_default == sampling_default,
        r.automation_hint == automation_hint,
        string_views(r.evidence_checklist@) == string_array_or_empty(opt_view(*checklist_json)),
{
    let steps = parse_string_array(&Some(steps_json.clone()));
    LibraryTestProcedureSummary {
        id,
        code,
        name,
        objective,
        steps,
        sampling_default,
        automation_hint,
        evidence_checklist: parse_string_array(checklist_json),
    }
}

/// The ids of a control's related risks, from its JSON column.
pub fn related_risk_ids(related_risk_ids_json: &Option<String>) -> (r: Vec<String>)
    ensures
        string_views(r@) == string_array_or_empty(opt_view(*related_risk_ids_json)),
{
    parse_string_array(related_risk_ids_json)
}

} // verus!
