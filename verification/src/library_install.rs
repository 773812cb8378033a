//! Installing a library bundle: the risks, controls and test procedures of
//! one library version, cross-referenced by code. Installing assigns each
//! row a fresh id and turns the code references into id references; a
//! reference to a code the bundle does not define refuses the whole
//! bundle. A version already present is not installed again.

use vstd::prelude::*;

use crate::codec::{encode_json_string_array, json_encode_string_array, string_views};
use crate::error::{message_of, AppError, AppResult};
use crate::ids::{is_hyphenated_uuid, new_record_id};
use crate::testing::lookup_spec;
use crate::text::{concat3, opt_view, str_eq};

verus! {

/// A framework reference of a library row (`ISO 27001`, `A.5.15`).
#[derive(Debug, Clone)]
pub struct BundleFrameworkMapping {
    pub framework: String,
    pub reference: String,
}

/// A risk of a bundle.
#[derive(Debug, Clone)]
pub struct BundleRisk {
    pub code: String,
    pub title: String,
    pub description: String,
    pub applicable_system_types: Vec<String>,
    pub default_inherent_rating: Option<String>,
    pub framework_mappings: Vec<BundleFrameworkMapping>,
}

/// A control of a bundle; it names its risks by code.
#[derive(Debug, Clone)]
pub struct BundleControl {
    pub code: String,
    pub title: String,
    pub description: String,
    pub objective: String,
    pub applicable_system_types: Vec<String>,
    pub control_type: String,
    pub frequency: Option<String>,
    pub related_risk_codes: Vec<String>,
    pub framework_mappings: Vec<BundleFrameworkMapping>,
}

/// The evidence a test procedure expects.
#[derive(Debug, Clone)]
pub struct BundleEvidenceChecklist {
    pub items: Vec<String>,
}

/// A test procedure of a bundle; it names its control by code.
#[derive(Debug, Clone)]
pub struct BundleTestProcedure {
    pub code: String,
    pub control_code: String,
    pub name: String,
    pub objective: String,
    pub steps: Vec<String>,
    pub sampling_default: String,
    pub automation_hint: String,
    pub evidence_checklist: Option<BundleEvidenceChecklist>,
}

/// One library version.
#[derive(Debug, Clone)]
pub struct Bundle {
    pub version: String,
    pub published_at: i64,
    pub frameworks_included: Vec<String>,
    pub risks: Vec<BundleRisk>,
    pub controls: Vec<BundleControl>,
    pub test_procedures: Vec<BundleTestProcedure>,
}

/// What installing adds to a bundle risk: its id and the JSON of its
/// system types (NULL when there are none).
#[derive(Debug, Clone)]
pub struct RiskRows {
    pub id: String,
    pub applicable_system_types_json: Option<String>,
}

/// What installing adds to a bundle control: its id, the JSON of its
/// system types, and the JSON array of its risks' ids (NULL when none).
#[derive(Debug, Clone)]
pub struct ControlRows {
    pub id: String,
    pub applicable_system_types_json: Option<String>,
    pub related_risk_ids_json: Option<String>,
}

/// An expected-evidence checklist row: its id and JSON items.
#[derive(Debug, Clone)]
pub struct ChecklistRows {
    pub id: String,
    pub items_json: String,
}

/// What installing adds to a bundle test procedure: its id, its control's
/// id, the JSON of its steps, and its checklist row if it has one.
#[derive(Debug, Clone)]
pub struct ProcedureRows {
    pub id: String,
    pub control_id: String,
    pub steps_json: String,
    pub checklist: Option<ChecklistRows>,
}

/// The rows of a bundle install, index by index with the bundle's lists.
#[derive(Debug, Clone)]
pub struct InstallPlan {
    pub risks: Vec<RiskRows>,
    pub controls: Vec<ControlRows>,
    pub procedures: Vec<ProcedureRows>,
}

/// A version already has rows (`count` library risks carry it): installing
/// it again does nothing. Every install writes at least one risk in the
/// same transaction as everything else, so a version is never half there.
pub fn already_installed(count: i64) -> (r: bool)
    ensures
        r == (count > 0),
{
    count > 0
}

/// A JSON array of strings, NULL when empty.
pub open spec fn json_list_or_null(items: Seq<Seq<char>>) -> Option<Seq<char>> {
    if items.len() == 0 {
        None
    } else {
        Some(json_encode_string_array(items))
    }
}

fn list_or_null(items: &Vec<String>) -> (r: Option<String>)
    ensures
        opt_view(r) == json_list_or_null(string_views(items@)),
{
    if items.len() == 0 {
        None
    } else {
        Some(encode_json_string_array(items))
    }
}

/// The first of `refs` that `known` lacks.
pub open spec fn unknown_ref(known: Seq<Seq<char>>, refs: Seq<Seq<char>>) -> Option<Seq<char>>
    decreases refs.len(),
{
    if refs.len() == 0 {
        None
    } else if !known.contains(refs[0]) {
        Some(refs[0])
    } else {
        unknown_ref(known, refs.drop_first())
    }
}

/// Codes of the bundle's risks.
pub open spec fn risk_codes(risks: Seq<BundleRisk>) -> Seq<Seq<char>> {
    risks.map_values(|r: BundleRisk| r.code@)
}

/// Codes of the bundle's controls.
pub open spec fn control_codes(controls: Seq<BundleControl>) -> Seq<Seq<char>> {
    controls.map_values(|c: BundleControl| c.code@)
}

/// The message for a control that names an unknown risk.
pub open spec fn bad_risk_ref_msg(version: Seq<char>, control: Seq<char>, code: Seq<char>) -> Seq<char> {
    "library bundle v"@ + version + ": control "@ + control + " references unknown risk code "@ + code
}

/// The message for a test procedure that names an unknown control.
pub open spec fn bad_control_ref_msg(version: Seq<char>, procedure: Seq<char>, code: Seq<char>) -> Seq<char> {
    "library bundle v"@ + version + ": test procedure "@ + procedure + " references unknown control code "@
        + code
}

/// The first control (in order) naming a risk the bundle lacks, as an
/// error message.
pub open spec fn control_ref_error(version: Seq<char>, known: Seq<Seq<char>>, controls: Seq<BundleControl>) -> Option<
    Seq<char>,
>
    decreases controls.len(),
{
    if controls.len() == 0 {
        None
    } else {
        match unknown_ref(known, string_views(controls[0].related_risk_codes@)) {
            Some(c) => Some(bad_risk_ref_msg(version, controls[0].code@, c)),
            None => control_ref_error(version, known, controls.drop_first()),
        }
    }
}

/// The first test procedure (in order) naming a control the bundle lacks,
/// as an error message.
pub open spec fn procedure_ref_error(
    version: Seq<char>,
    known: Seq<Seq<char>>,
    procedures: Seq<BundleTestProcedure>,
) -> Option<Seq<char>>
    decreases procedures.len(),
{
    if procedures.len() == 0 {
        None
    } else if !known.contains(procedures[0].control_code@) {
        Some(bad_control_ref_msg(version, procedures[0].code@, procedures[0].control_code@))
    } else {
        procedure_ref_error(version, known, procedures.drop_first())
    }
}

/// Why a bundle is refused, if it is: controls are checked before test
/// procedures.
pub open spec fn bundle_error(b: Bundle) -> Option<Seq<char>> {
    match control_ref_error(b.version@, risk_codes(b.risks@), b.controls@) {
        Some(m) => Some(m),
        None => procedure_ref_error(b.version@, control_codes(b.controls@), b.test_procedures@),
    }
}

/// (code, id) of each installed row, for resolving references; a code
/// that occurs twice resolves to its last row.
pub open spec fn keyed(codes: Seq<Seq<char>>, ids: Seq<Seq<char>>) -> Seq<(Seq<char>, Seq<char>)> {
    Seq::new(codes.len(), |i: int| (codes[i], ids[i]))
}

/// The id a code resolves to (empty when it does not resolve).
pub open spec fn resolve(keys: Seq<(Seq<char>, Seq<char>)>, code: Seq<char>) -> Seq<char> {
    match lookup_spec(keys, code) {
        Some(id) => id,
        None => Seq::empty(),
    }
}

pub open spec fn risk_ids(rows: Seq<RiskRows>) -> Seq<Seq<char>> {
    rows.map_values(|r: RiskRows| r.id@)
}

pub open spec fn control_ids(rows: Seq<ControlRows>) -> Seq<Seq<char>> {
    rows.map_values(|r: ControlRows| r.id@)
}

/// The rows planned for a risk.
pub open spec fn risk_rows_ok(rows: RiskRows, risk: BundleRisk) -> bool {
    &&& is_hyphenated_uuid(rows.id@)
    &&& opt_view(rows.applicable_system_types_json) == json_list_or_null(string_views(risk.applicable_system_types@))
}

/// The rows planned for a control, whose risks resolve through `keys`.
pub open spec fn control_rows_ok(rows: ControlRows, control: BundleControl, keys: Seq<(Seq<char>, Seq<char>)>) -> bool {
    &&& is_hyphenated_uuid(rows.id@)
    &&& opt_view(rows.applicable_system_types_json) == json_list_or_null(
        string_views(control.applicable_system_types@),
    )
    &&& opt_view(rows.related_risk_ids_json) == json_list_or_null(
        string_views(control.related_risk_codes@).map_values(|c: Seq<char>| resolve(keys, c)),
    )
}

/// The rows planned for a test procedure, whose control resolves through
/// `keys`.
pub open spec fn procedure_rows_ok(
    rows: ProcedureRows,
    tp: BundleTestProcedure,
    keys: Seq<(Seq<char>, Seq<char>)>,
) -> bool {
    &&& is_hyphenated_uuid(rows.id@)
    &&& lookup_spec(keys, tp.control_code@) == Some(rows.control_id@)
    &&& rows.steps_json@ == json_encode_string_array(string_views(tp.steps@))
    &&& match (rows.checklist, tp.evidence_checklist) {
        (Some(c), Some(e)) => is_hyphenated_uuid(c.id@) && c.items_json@ == json_encode_string_array(
            string_views(e.items@),
        ),
        (None, None) => true,
        _ => false,
    }
}

/// What a successful install plan promises, index by index.
pub open spec fn install_plan_ok(b: Bundle, p: InstallPlan) -> bool {
    let rkeys = keyed(risk_codes(b.risks@), risk_ids(p.risks@));
    let ckeys = keyed(control_codes(b.controls@), control_ids(p.controls@));
    &&& p.risks@.len() == b.risks@.len()
    &&& p.controls@.len() == b.controls@.len()
    &&& p.procedures@.len() == b.test_procedures@.len()
    &&& forall|i: int| 0 <= i < b.risks@.len() ==> risk_rows_ok(#[trigger] p.risks@[i], b.risks@[i])
    &&& forall|i: int| 0 <= i < b.controls@.len() ==> control_rows_ok(#[trigger] p.controls@[i], b.controls@[i], rkeys)
    &&& forall|i: int|
        0 <= i < b.test_procedures@.len() ==> procedure_rows_ok(#[trigger] p.procedures@[i], b.test_procedures@[i], ckeys)
}

proof fn lemma_keyed_push(codes: Seq<Seq<char>>, ids: Seq<Seq<char>>, c: Seq<char>, id: Seq<char>)
    requires
        codes.len() == ids.len(),
    ensures
        keyed(codes.push(c), ids.push(id)) == keyed(codes, ids).push((c, id)),
{
    assert(keyed(codes.push(c), ids.push(id)) =~= keyed(codes, ids).push((c, id)));
}

/// A code found among the keys was among the codes, and back.
proof fn lemma_lookup_keyed(codes: Seq<Seq<char>>, ids: Seq<Seq<char>>, c: Seq<char>)
    requires
        codes.len() == ids.len(),
    ensures
        (lookup_spec(keyed(codes, ids), c) is Some) == codes.contains(c),
    decreases codes.len(),
{
    if codes.len() > 0 {
        let k = keyed(codes, ids);
        assert(k.drop_last() =~= keyed(codes.drop_last(), ids.drop_last()));
        lemma_lookup_keyed(codes.drop_last(), ids.drop_last(), c);
        if codes.last() == c {
            assert(codes.contains(c)) by {
                assert(codes[codes.len() - 1] == c);
            }
        } else {
            if codes.contains(c) {
                let j = choose|j: int| 0 <= j < codes.len() && codes[j] == c;
                assert(codes.drop_last()[j] == c);
            }
            if codes.drop_last().contains(c) {
                let j = choose|j: int| 0 <= j < codes.drop_last().len() && codes.drop_last()[j] == c;
                assert(codes[j] == c);
            }
        }
    }
}

fn find_id(keys: &Vec<(String, String)>, code: &str) -> (r: Option<String>)
    ensures
        opt_view(r) == lookup_spec(keys@.map_values(|p: (String, String)| (p.0@, p.1@)), code@),
{
    let ghost kv = keys@.map_values(|p: (String, String)| (p.0@, p.1@));
    let mut i: usize = keys.len();
    assert(kv.subrange(0, kv.len() as int) =~= kv);
    while i > 0
        invariant
            i <= keys@.len(),
            kv == keys@.map_values(|p: (String, String)| (p.0@, p.1@)),
            lookup_spec(kv, code@) == lookup_spec(kv.subrange(0, i as int), code@),
        decreases i,
    {
        proof {
            assert(kv.subrange(0, i as int).drop_last() =~= kv.subrange(0, i - 1));
        }
        if str_eq(keys[i - 1].0.as_str(), code) {
            return Some(keys[i - 1].1.clone());
        }
        i = i - 1;
    }
    assert(kv.subrange(0, 0) =~= Seq::<(Seq<char>, Seq<char>)>::empty());
    None
}

fn risk_ref_message(version: &str, control: &str, code: &str) -> (e: AppError)
    ensures
        e is Message,
        message_of(e) == bad_risk_ref_msg(version@, control@, code@),
{
    let mut s = concat3("library bundle v", version, ": control ");
    s.append(control);
    s.append(" references unknown risk code ");
    s.append(code);
    AppError::Message(s)
}

fn control_ref_message(version: &str, procedure: &str, code: &str) -> (e: AppError)
    ensures
        e is Message,
        message_of(e) == bad_control_ref_msg(version@, procedure@, code@),
{
    let mut s = concat3("library bundle v", version, ": test procedure ");
    s.append(procedure);
    s.append(" references unknown control code ");
    s.append(code);
    AppError::Message(s)
}

/// Resolves a control's risk codes to ids, or names the first unknown code.
fn resolve_risk_refs(keys: &Vec<(String, String)>, codes: &Vec<String>) -> (r: Result<Vec<String>, String>)
    ensures
        match unknown_ref(
            keys@.map_values(|p: (String, String)| p.0@),
            string_views(codes@),
        ) {
            Some(c) => r matches Err(x) && x@ == c,
            None => r matches Ok(ids) && string_views(ids@) == string_views(codes@).map_values(
                |c: Seq<char>| resolve(keys@.map_values(|p: (String, String)| (p.0@, p.1@)), c),
            ),
        },
{
    let ghost kv = keys@.map_values(|p: (String, String)| (p.0@, p.1@));
    let ghost known = keys@.map_values(|p: (String, String)| p.0@);
    let ghost cv = string_views(codes@);
    proof {
        assert(kv.map_values(|p: (Seq<char>, Seq<char>)| p.0) =~= known);
        lemma_lookup_keyed(known, kv.map_values(|p: (Seq<char>, Seq<char>)| p.1), Seq::empty());
    }
    let mut out: Vec<String> = Vec::new();
    let mut i: usize = 0;
    assert(cv.subrange(0, cv.len() as int) =~= cv);
    while i < codes.len()
        invariant
            i <= codes@.len(),
            kv == keys@.map_values(|p: (String, String)| (p.0@, p.1@)),
            known == keys@.map_values(|p: (String, String)| p.0@),
            cv == string_views(codes@),
            unknown_ref(known, cv) == unknown_ref(known, cv.subrange(i as int, cv.len() as int)),
            string_views(out@) == cv.subrange(0, i as int).map_values(|c: Seq<char>| resolve(kv, c)),
        decreases codes@.len() - i,
    {
        let ghost rest = cv.subrange(i as int, cv.len() as int);
        proof {
            assert(rest.drop_first() =~= cv.subrange(i + 1, cv.len() as int));
            assert(rest[0] == codes@[i as int]@);
            lemma_lookup_is_known(keys@, codes@[i as int]@);
        }
        match find_id(keys, codes[i].as_str()) {
            Some(id) => {
                let ghost before = out@;
                out.push(id);
                proof {
                    assert(cv.subrange(0, i + 1) =~= cv.subrange(0, i as int).push(cv[i as int]));
                    assert(string_views(out@) =~= string_views(before).push(id@));
                    assert(cv.subrange(0, i + 1).map_values(|c: Seq<char>| resolve(kv, c)) =~= cv.subrange(
                        0,
                        i as int,
                    ).map_values(|c: Seq<char>| resolve(kv, c)).push(resolve(kv, cv[i as int])));
                }
            },
            None => {
                return Err(codes[i].clone());
            },
        }
        i = i + 1;
    }
    proof {
        assert(cv.subrange(i as int, cv.len() as int) =~= Seq::<Seq<char>>::empty());
        assert(cv.subrange(0, cv.len() as int) =~= cv);
    }
    Ok(out)
}

/// A code resolves among (code, id) pairs exactly when it is one of their
/// codes.
proof fn lemma_lookup_is_known(keys: Seq<(String, String)>, c: Seq<char>)
    ensures
        (lookup_spec(keys.map_values(|p: (String, String)| (p.0@, p.1@)), c) is Some) == keys.map_values(
            |p: (String, String)| p.0@,
        ).contains(c),
{
    let kv = keys.map_values(|p: (String, String)| (p.0@, p.1@));
    let codes = keys.map_values(|p: (String, String)| p.0@);
    let ids = keys.map_values(|p: (String, String)| p.1@);
    assert(kv =~= keyed(codes, ids));
    lemma_lookup_keyed(codes, ids, c);
}

/// Plans the rows of a bundle install.
pub fn plan_bundle_install(b: &Bundle) -> (r: AppResult<InstallPlan>)
    ensures
        match bundle_error(*b) {
            Some(m) => r matches Err(e) && e is Message && message_of(e) == m,
            None => r matches Ok(p) && install_plan_ok(*b, p),
        },
{
    // Risks: fresh ids, in order.
    let mut risk_keys: Vec<(String, String)> = Vec::new();
    let mut risks: Vec<RiskRows> = Vec::new();
    let mut i: usize = 0;
    while i < b.risks.len()
        invariant
            i <= b.risks@.len(),
            risks@.len() == i,
            risk_keys@.map_values(|p: (String, String)| (p.0@, p.1@)) == keyed(
                risk_codes(b.risks@.subrange(0, i as int)),
                risk_ids(risks@),
            ),
            risk_keys@.map_values(|p: (String, String)| p.0@) == risk_codes(b.risks@.subrange(0, i as int)),
            forall|k: int| 0 <= k < i ==> risk_rows_ok(#[trigger] risks@[k], b.risks@[k]),
        decreases b.risks@.len() - i,
    {
        let risk = &b.risks[i];
        let id = new_record_id();
        let row = RiskRows { id: id.clone(), applicable_system_types_json: list_or_null(&risk.applicable_system_types) };
        let ghost kbefore = risk_keys@;
        let ghost rbefore = risks@;
        risk_keys.push((risk.code.clone(), id));
        risks.push(row);
        proof {
            let sub = b.risks@.subrange(0, i as int);
            assert(b.risks@.subrange(0, i + 1) =~= sub.push(b.risks@[i as int]));
            assert(risk_codes(sub.push(b.risks@[i as int])) =~= risk_codes(sub).push(risk.code@));
            assert(risk_ids(risks@) =~= risk_ids(rbefore).push(row.id@));
            lemma_keyed_push(risk_codes(sub), risk_ids(rbefore), risk.code@, row.id@);
            assert(risk_keys@.map_values(|p: (String, String)| (p.0@, p.1@)) =~= kbefore.map_values(
                |p: (String, String)| (p.0@, p.1@),
            ).push((risk.code@, row.id@)));
            assert(risk_keys@.map_values(|p: (String, String)| p.0@) =~= kbefore.map_values(
                |p: (String, String)| p.0@,
            ).push(risk.code@));
        }
        i = i + 1;
    }
    proof {
        assert(b.risks@.subrange(0, b.risks@.len() as int) =~= b.risks@);
    }
    let ghost rkeys = keyed(risk_codes(b.risks@), risk_ids(risks@));
    // Controls: fresh ids, risk references resolved.
    let mut control_keys: Vec<(String, String)> = Vec::new();
    let mut controls: Vec<ControlRows> = Vec::new();
    let mut j: usize = 0;
    assert(b.controls@.subrange(0, b.controls@.len() as int) =~= b.controls@);
    assert(b.controls@.subrange(0, 0) =~= Seq::<BundleControl>::empty());
    while j < b.controls.len()
        invariant
            j <= b.controls@.len(),
            controls@.len() == j,
            risks@.len() == b.risks@.len(),
            rkeys == keyed(risk_codes(b.risks@), risk_ids(risks@)),
            risk_keys@.map_values(|p: (String, String)| (p.0@, p.1@)) == rkeys,
            risk_keys@.map_values(|p: (String, String)| p.0@) == risk_codes(b.risks@),
            control_ref_error(b.version@, risk_codes(b.risks@), b.controls@) == control_ref_error(
                b.version@,
                risk_codes(b.risks@),
                b.controls@.subrange(j as int, b.controls@.len() as int),
            ),
            control_keys@.map_values(|p: (String, String)| (p.0@, p.1@)) == keyed(
                control_codes(b.controls@.subrange(0, j as int)),
                control_ids(controls@),
            ),
            control_keys@.map_values(|p: (String, String)| p.0@) == control_codes(
                b.controls@.subrange(0, j as int),
            ),
            forall|k: int| 0 <= k < j ==> control_rows_ok(#[trigger] controls@[k], b.controls@[k], rkeys),
        decreases b.controls@.len() - j,
    {
        let control = &b.controls[j];
        let ghost rest = b.controls@.subrange(j as int, b.controls@.len() as int);
        proof {
            assert(rest.drop_first() =~= b.controls@.subrange(j + 1, b.controls@.len() as int));
            assert(rest[0] == b.controls@[j as int]);
        }
        let related = match resolve_risk_refs(&risk_keys, &control.related_risk_codes) {
            Ok(ids) => ids,
            Err(code) => {
                return Err(risk_ref_message(b.version.as_str(), control.code.as_str(), code.as_str()));
            },
        };
        proof {
            assert(string_views(related@).len() == string_views(control.related_risk_codes@).len());
        }
        let id = new_record_id();
        let row = ControlRows {
            id: id.clone(),
            applicable_system_types_json: list_or_null(&control.applicable_system_types),
            related_risk_ids_json: list_or_null(&related),
        };
        let ghost kbefore = control_keys@;
        let ghost cbefore = controls@;
        control_keys.push((control.code.clone(), id));
        controls.push(row);
        proof {
            let sub = b.controls@.subrange(0, j as int);
            assert(b.controls@.subrange(0, j + 1) =~= sub.push(b.controls@[j as int]));
            assert(control_codes(sub.push(b.controls@[j as int])) =~= control_codes(sub).push(control.code@));
            assert(control_ids(controls@) =~= control_ids(cbefore).push(row.id@));
            lemma_keyed_push(control_codes(sub), control_ids(cbefore), control.code@, row.id@);
            assert(control_keys@.map_values(|p: (String, String)| (p.0@, p.1@)) =~= kbefore.map_values(
                |p: (String, String)| (p.0@, p.1@),
            ).push((control.code@, row.id@)));
            assert(control_keys@.map_values(|p: (String, String)| p.0@) =~= kbefore.map_values(
                |p: (String, String)| p.0@,
            ).push(control.code@));
            assert(json_list_or_null(string_views(related@)) == json_list_or_null(
                string_views(control.related_risk_codes@).map_values(|c: Seq<char>| resolve(rkeys, c)),
            ));
        }
        j = j + 1;
    }
    proof {
        assert(b.controls@.subrange(0, b.controls@.len() as int) =~= b.controls@);
        assert(b.controls@.subrange(j as int, b.controls@.len() as int) =~= Seq::<BundleControl>::empty());
    }
    let ghost ckeys = keyed(control_codes(b.controls@), control_ids(controls@));
    // Test procedures: control references resolved, steps and checklists encoded.
    let mut procedures: Vec<ProcedureRows> = Vec::new();
    let mut t: usize = 0;
    assert(b.test_procedures@.subrange(0, b.test_procedures@.len() as int) =~= b.test_procedures@);
    while t < b.test_procedures.len()
        invariant
            t <= b.test_procedures@.len(),
            procedures@.len() == t,
            controls@.len() == b.controls@.len(),
            ckeys == keyed(control_codes(b.controls@), control_ids(controls@)),
            control_keys@.map_values(|p: (String, String)| (p.0@, p.1@)) == ckeys,
            control_keys@.map_values(|p: (String, String)| p.0@) == control_codes(b.controls@),
            control_ref_error(b.version@, risk_codes(b.risks@), b.controls@) is None,
            procedure_ref_error(b.version@, control_codes(b.controls@), b.test_procedures@)
                == procedure_ref_error(
                b.version@,
                control_codes(b.controls@),
                b.test_procedures@.subrange(t as int, b.test_procedures@.len() as int),
            ),
            forall|k: int|
                0 <= k < t ==> procedure_rows_ok(#[trigger] procedures@[k], b.test_procedures@[k], ckeys),
        decreases b.test_procedures@.len() - t,
    {
        let tp = &b.test_procedures[t];
        let ghost rest = b.test_procedures@.subrange(t as int, b.test_procedures@.len() as int);
        proof {
            assert(rest.drop_first() =~= b.test_procedures@.subrange(t + 1, b.test_procedures@.len() as int));
            assert(rest[0] == b.test_procedures@[t as int]);
            lemma_lookup_is_known(control_keys@, tp.control_code@);
        }
        let control_id = match find_id(&control_keys, tp.control_code.as_str()) {
            Some(id) => id,
            None => {
                return Err(control_ref_message(b.version.as_str(), tp.code.as_str(), tp.control_code.as_str()));
            },
        };
        let checklist = match &tp.evidence_checklist {
            Some(c) => Some(ChecklistRows { id: new_record_id(), items_json: encode_json_string_array(&c.items) }),
            None => None,
        };
        let row = ProcedureRows {
            id: new_record_id(),
            control_id,
            steps_json: encode_json_string_array(&tp.steps),
            checklist,
        };
        procedures.push(row);
        t = t + 1;
    }
    proof {
        assert(b.test_procedures@.subrange(t as int, b.test_procedures@.len() as int) =~= Seq::<
            BundleTestProcedure,
        >::empty());
    }
    Ok(InstallPlan { risks, controls, procedures })
}

/// A code that resolves among (code, id) pairs resolves to the id of a
/// pair with that code.
proof fn lemma_lookup_keyed_witness(codes: Seq<Seq<char>>, ids: Seq<Seq<char>>, c: Seq<char>)
    requires
        codes.len() == ids.len(),
        lookup_spec(keyed(codes, ids), c) is Some,
    ensures
        exists|j: int| 0 <= j < codes.len() && codes[j] == c && Some(ids[j]) == lookup_spec(keyed(codes, ids), c),
    decreases codes.len(),
{
    let k = keyed(codes, ids);
    let n = codes.len() as int;
    if codes[n - 1] == c {
        assert(k.last() == (codes[n - 1], ids[n - 1]));
        assert(codes[n - 1] == c && Some(ids[n - 1]) == lookup_spec(k, c));
    } else {
        assert(k.drop_last() =~= keyed(codes.drop_last(), ids.drop_last()));
        lemma_lookup_keyed_witness(codes.drop_last(), ids.drop_last(), c);
        let j = choose|j: int|
            0 <= j < codes.drop_last().len() && codes.drop_last()[j] == c && Some(ids.drop_last()[j])
                == lookup_spec(keyed(codes.drop_last(), ids.drop_last()), c);
        assert(codes[j] == c && Some(ids[j]) == lookup_spec(k, c));
    }
}

/// After an install, every test procedure row points at a control of the
/// same bundle that has the code the procedure names.
pub proof fn lemma_procedures_point_at_their_controls(b: Bundle, p: InstallPlan, t: int)
    requires
        install_plan_ok(b, p),
        0 <= t < b.test_procedures@.len(),
    ensures
        exists|j: int|
            0 <= j < b.controls@.len() && (#[trigger] b.controls@[j]).code@ == b.test_procedures@[t].control_code@
                && p.controls@[j].id@ == p.procedures@[t].control_id@,
{
    let codes = control_codes(b.controls@);
    let ids = control_ids(p.controls@);
    let c = b.test_procedures@[t].control_code@;
    assert(procedure_rows_ok(p.procedures@[t], b.test_procedures@[t], keyed(codes, ids)));
    lemma_lookup_keyed_witness(codes, ids, c);
    let j = choose|j: int| 0 <= j < codes.len() && codes[j] == c && Some(ids[j]) == lookup_spec(keyed(codes, ids), c);
    assert(b.controls@[j].code@ == c);
    assert(p.controls@[j].id@ == ids[j]);
}

/// After an install of a bundle it accepted, every risk id a control lists
/// is the id of a risk of the same bundle with the code the control names.
pub proof fn lemma_controls_point_at_their_risks(b: Bundle, p: InstallPlan, i: int, k: int)
    requires
        install_plan_ok(b, p),
        bundle_error(b) is None,
        0 <= i < b.controls@.len(),
        0 <= k < b.controls@[i].related_risk_codes@.len(),
    ensures
        exists|j: int|
            0 <= j < b.risks@.len() && (#[trigger] b.risks@[j]).code@ == b.controls@[i].related_risk_codes@[k]@
                && p.risks@[j].id@ == resolve(
                keyed(risk_codes(b.risks@), risk_ids(p.risks@)),
                b.controls@[i].related_risk_codes@[k]@,
            ),
{
    let codes = risk_codes(b.risks@);
    let ids = risk_ids(p.risks@);
    let c = b.controls@[i].related_risk_codes@[k]@;
    lemma_control_refs_known(b.version@, codes, b.controls@, i, k);
    lemma_lookup_keyed(codes, ids, c);
    lemma_lookup_keyed_witness(codes, ids, c);
    let j = choose|j: int| 0 <= j < codes.len() && codes[j] == c && Some(ids[j]) == lookup_spec(keyed(codes, ids), c);
    assert(b.risks@[j].code@ == c);
    assert(p.risks@[j].id@ == ids[j]);
}

/// Without a control reference error, every code a control names is known.
proof fn lemma_control_refs_known(
    version: Seq<char>,
    known: Seq<Seq<char>>,
    controls: Seq<BundleControl>,
    i: int,
    k: int,
)
    requires
        control_ref_error(version, known, controls) is None,
        0 <= i < controls.len(),
        0 <= k < controls[i].related_risk_codes@.len(),
    ensures
        known.contains(controls[i].related_risk_codes@[k]@),
    decreases controls.len(),
{
    if i == 0 {
        lemma_unknown_ref_none(known, string_views(controls[0].related_risk_codes@), k);
    } else {
        assert(controls.drop_first()[i - 1] == controls[i]);
        lemma_control_refs_known(version, known, controls.drop_first(), i - 1, k);
    }
}

/// Without an unknown reference, every reference is known.
proof fn lemma_unknown_ref_none(known: Seq<Seq<char>>, refs: Seq<Seq<char>>, k: int)
    requires
        unknown_ref(known, refs) is None,
        0 <= k < refs.len(),
    ensures
        known.contains(refs[k]),
    decreases refs.len(),
{
    if k > 0 {
        assert(refs.drop_first()[k - 1] == refs[k]);
        lemma_unknown_ref_none(known, refs.drop_first(), k - 1);
    }
}

} // verus!
