//! Cloning a library control into an engagement.
//!
//! A clone yields one engagement control, one engagement risk per related
//! library risk, and one test per test procedure. Risks are keyed by code
//! within an engagement: a risk whose code the engagement already has is
//! reused, so sibling controls that share a risk share one row. Tests are
//! always created fresh.

use vstd::prelude::*;

use crate::codec::{encode_json_string_array, json_encode_string_array, string_views};
use crate::error::{AppError, AppResult};
use crate::ids::{is_hyphenated_uuid, new_record_id};
use crate::testing::{lookup_spec, normalise_automation_tier, normalise_tier_spec, AddLibraryControlInput};
use crate::text::{
    clone_opt, concat3, decimal, decimal_spec, non_empty_trimmed, non_empty_trimmed_spec, opt_view, str_eq, trim,
    trim_spec,
};

verus! {

/// A current library control.
#[derive(Debug, Clone)]
pub struct LibraryControlRow {
    pub id: String,
    pub code: String,
    pub title: String,
    pub description: String,
    pub objective: String,
    pub control_type: String,
    pub frequency: Option<String>,
    pub related_risk_ids_json: Option<String>,
    pub library_version: String,
}

/// A library risk a control refers to.
#[derive(Debug, Clone)]
pub struct LibraryRiskRow {
    pub id: String,
    pub code: String,
    pub title: String,
    pub description: String,
    pub default_inherent_rating: Option<String>,
    pub library_version: String,
}

/// A test procedure of a library control.
#[derive(Debug, Clone)]
pub struct TestProcedureRow {
    pub id: String,
    pub code: String,
    pub name: String,
    pub objective: String,
    pub steps_json: String,
    pub automation_hint: String,
    pub library_version: String,
}

/// A validated clone request.
#[derive(Debug, Clone)]
pub struct CloneRequest {
    pub engagement_id: String,
    pub library_control_id: String,
    pub system_id: Option<String>,
}

/// Why a clone request is refused, if it is.
pub open spec fn clone_rejection(input: AddLibraryControlInput) -> Option<Seq<char>> {
    if trim_spec(input.engagement_id@).len() == 0 {
        Some("engagement is required"@)
    } else if trim_spec(input.library_control_id@).len() == 0 {
        Some("library control is required"@)
    } else {
        None
    }
}

/// Trims the request; the system id is dropped when blank.
pub fn prepare_clone(input: &AddLibraryControlInput) -> (r: AppResult<CloneRequest>)
    ensures
        match clone_rejection(*input) {
            Some(m) => r matches Err(AppError::Message(e)) && e@ == m,
            None => r matches Ok(c) && c.engagement_id@ == trim_spec(input.engagement_id@)
                && c.library_control_id@ == trim_spec(input.library_control_id@) && opt_view(c.system_id)
                == match input.system_id {
                Some(s) => non_empty_trimmed_spec(s@),
                None => None,
            },
        },
{
    let engagement_id = trim(input.engagement_id.as_str());
    let library_control_id = trim(input.library_control_id.as_str());
    let system_id = non_empty_trimmed(&input.system_id);
    if engagement_id.unicode_len() == 0 {
        return Err(AppError::Message("engagement is required".to_owned()));
    }
    if library_control_id.unicode_len() == 0 {
        return Err(AppError::Message("library control is required".to_owned()));
    }
    Ok(CloneRequest { engagement_id, library_control_id, system_id })
}

/// A system named in a clone must belong to the engagement:
/// `system_engagement` is the engagement the system row points at, if the
/// row exists.
pub fn check_system_in_engagement(system_engagement: &Option<String>, engagement_id: &str) -> (r:
    AppResult<()>)
    ensures
        r is Ok <==> (system_engagement matches Some(e) && e@ == engagement_id@),
        r matches Err(e) ==> e matches AppError::NotFound(m) && m@ == "system not found"@,
{
    match system_engagement {
        Some(e) => if str_eq(e.as_str(), engagement_id) {
            Ok(())
        } else {
            Err(AppError::NotFound("system not found".to_owned()))
        },
        None => Err(AppError::NotFound("system not found".to_owned())),
    }
}

/// The related library risk ids of a control, as stored (JSON array).
pub open spec fn applicable_systems_spec(system_id: Option<Seq<char>>) -> Option<Seq<char>> {
    match system_id {
        Some(s) => Some(json_encode_string_array(seq![s])),
        None => None,
    }
}

/// The `applicable_system_ids_json` column of cloned rows: a one-element
/// JSON array with the system, or NULL.
pub fn applicable_systems_json(system_id: &Option<String>) -> (r: Option<String>)
    ensures
        opt_view(r) == applicable_systems_spec(opt_view(*system_id)),
{
    match system_id {
        Some(s) => {
            let v = vec![s.clone()];
            assert(string_views(v@) =~= seq![s@]);
            Some(encode_json_string_array(&v))
        },
        None => None,
    }
}

/// An engagement risk to insert.
#[derive(Debug, Clone)]
pub struct NewEngagementRisk {
    pub id: String,
    pub derived_from: String,
    pub source_library_version: String,
    pub code: String,
    pub title: String,
    pub description: String,
    pub inherent_rating: String,
}

/// The risks of a clone: the engagement risk id for each related library
/// risk, in order, and the rows to insert.
#[derive(Debug, Clone)]
pub struct RiskPlan {
    pub engagement_risk_ids: Vec<String>,
    pub new_risks: Vec<NewEngagementRisk>,
}

/// A library risk's default inherent rating, `medium` when it has none.
pub open spec fn rating_or_medium(r: Option<String>) -> Seq<char> {
    match r {
        Some(s) => s@,
        None => "medium"@,
    }
}

/// `n` is the engagement risk derived from library risk `r`.
pub open spec fn derived_risk(n: NewEngagementRisk, r: LibraryRiskRow) -> bool {
    &&& n.derived_from@ == r.id@
    &&& n.source_library_version@ == r.library_version@
    &&& n.code@ == r.code@
    &&& n.title@ == r.title@
    &&& n.description@ == r.description@
    &&& n.inherent_rating@ == rating_or_medium(r.default_inherent_rating)
}

/// (code, id) of each new risk.
pub open spec fn new_risk_keys(n: Seq<NewEngagementRisk>) -> Seq<(Seq<char>, Seq<char>)> {
    n.map_values(|x: NewEngagementRisk| (x.code@, x.id@))
}

/// `n` is derived from the first library risk in `lib` with its code.
pub open spec fn from_first_with_code(lib: Seq<LibraryRiskRow>, n: NewEngagementRisk) -> bool {
    exists|i: int|
        0 <= i < lib.len() && #[trigger] derived_risk(n, lib[i]) && forall|h: int|
            0 <= h < i ==> (#[trigger] lib[h]).code@ != lib[i].code@
}

/// What a risk plan promises, for library risks `lib` on an engagement
/// whose risks are `existing` as (code, id):
/// - each library risk gets the id the engagement has for its code, counting
///   the risks the plan creates;
/// - a risk is created only for a code the engagement lacks, at most once
///   per code, from the first library risk with that code, with a fresh id.
pub open spec fn risk_plan_ok(
    lib: Seq<LibraryRiskRow>,
    existing: Seq<(Seq<char>, Seq<char>)>,
    ids: Seq<Seq<char>>,
    new: Seq<NewEngagementRisk>,
) -> bool {
    let known = existing + new_risk_keys(new);
    &&& ids.len() == lib.len()
    &&& forall|i: int| 0 <= i < lib.len() ==> lookup_spec(known, #[trigger] lib[i].code@) == Some(ids[i])
    &&& forall|j: int| 0 <= j < new.len() ==> lookup_spec(existing, #[trigger] new[j].code@) is None
    &&& forall|j: int, k: int| 0 <= j < k < new.len() ==> #[trigger] new[j].code@ != #[trigger] new[k].code@
    &&& forall|j: int| 0 <= j < new.len() ==> #[trigger] from_first_with_code(lib, new[j])
    &&& forall|j: int| 0 <= j < new.len() ==> is_hyphenated_uuid(#[trigger] new[j].id@)
    &&& new.len() <= lib.len()
}

proof fn lemma_lookup_push(known: Seq<(Seq<char>, Seq<char>)>, code: Seq<char>, id: Seq<char>, other: Seq<char>)
    ensures
        lookup_spec(known.push((code, id)), code) == Some(id),
        other != code ==> lookup_spec(known.push((code, id)), other) == lookup_spec(known, other),
{
    assert(known.push((code, id)).drop_last() =~= known);
}

fn copy_string(s: &String) -> (r: String)
    ensures
        r@ == s@,
{
    s.clone()
}

fn find_known(known: &Vec<(String, String)>, code: &str) -> (r: Option<String>)
    ensures
        opt_view(r) == lookup_spec(known@.map_values(|p: (String, String)| (p.0@, p.1@)), code@),
{
    let ghost kv = known@.map_values(|p: (String, String)| (p.0@, p.1@));
    let mut i: usize = known.len();
    assert(kv.subrange(0, kv.len() as int) =~= kv);
    while i > 0
        invariant
            i <= known@.len(),
            kv == known@.map_values(|p: (String, String)| (p.0@, p.1@)),
            lookup_spec(kv, code@) == lookup_spec(kv.subrange(0, i as int), code@),
        decreases i,
    {
        proof {
            assert(kv.subrange(0, i as int).drop_last() =~= kv.subrange(0, i - 1));
        }
        if str_eq(known[i - 1].0.as_str(), code) {
            return Some(known[i - 1].1.clone());
        }
        i = i - 1;
    }
    assert(kv.subrange(0, 0) =~= Seq::<(Seq<char>, Seq<char>)>::empty());
    None
}

/// Plans the engagement risks for a control's related library risks.
/// `existing` lists (code, id) of the risks the engagement already has.
pub fn plan_engagement_risks(lib: &Vec<LibraryRiskRow>, existing: &Vec<(String, String)>) -> (r: RiskPlan)
    ensures
        risk_plan_ok(
            lib@,
            existing@.map_values(|p: (String, String)| (p.0@, p.1@)),
            string_views(r.engagement_risk_ids@),
            r.new_risks@,
        ),
{
    let ghost ev = existing@.map_values(|p: (String, String)| (p.0@, p.1@));
    let mut known: Vec<(String, String)> = Vec::new();
    let mut k: usize = 0;
    while k < existing.len()
        invariant
            k <= existing@.len(),
            ev == existing@.map_values(|p: (String, String)| (p.0@, p.1@)),
            known@.map_values(|p: (String, String)| (p.0@, p.1@)) == ev.subrange(0, k as int),
        decreases existing@.len() - k,
    {
        let pair = (copy_string(&existing[k].0), copy_string(&existing[k].1));
        let ghost before = known@;
        known.push(pair);
        proof {
            assert(ev[k as int] == (existing@[k as int].0@, existing@[k as int].1@));
            assert(known@.map_values(|p: (String, String)| (p.0@, p.1@)) =~= before.map_values(
                |p: (String, String)| (p.0@, p.1@),
            ).push(ev[k as int]));
            assert(ev.subrange(0, k + 1) =~= ev.subrange(0, k as int).push(ev[k as int]));
        }
        k = k + 1;
    }
    assert(ev.subrange(0, ev.len() as int) =~= ev);
    let mut ids: Vec<String> = Vec::new();
    let mut new_risks: Vec<NewEngagementRisk> = Vec::new();
    let mut i: usize = 0;
    while i < lib.len()
        invariant
            i <= lib@.len(),
            ev == existing@.map_values(|p: (String, String)| (p.0@, p.1@)),
            known@.map_values(|p: (String, String)| (p.0@, p.1@)) == ev + new_risk_keys(new_risks@),
            risk_plan_ok(lib@.subrange(0, i as int), ev, string_views(ids@), new_risks@),
        decreases lib@.len() - i,
    {
        let ghost sub = lib@.subrange(0, i as int);
        let ghost sub1 = lib@.subrange(0, i + 1);
        let ghost kv = ev + new_risk_keys(new_risks@);
        let r = &lib[i];
        assert(sub1[i as int] == lib@[i as int]);
        assert forall|h: int| 0 <= h < i implies sub1[h] == sub[h] by {}
        match find_known(&known, r.code.as_str()) {
            Some(id) => {
                let ghost old_ids = string_views(ids@);
                ids.push(id);
                proof {
                    assert(string_views(ids@) =~= old_ids.push(id@));
                    assert forall|j: int| 0 <= j < new_risks@.len() implies #[trigger] from_first_with_code(
                        sub1,
                        new_risks@[j],
                    ) by {
                        assert(from_first_with_code(sub, new_risks@[j]));
                        let x = choose|x: int|
                            0 <= x < sub.len() && #[trigger] derived_risk(new_risks@[j], sub[x]) && forall|h: int|
                                0 <= h < x ==> (#[trigger] sub[h]).code@ != sub[x].code@;
                        assert(sub1[x] == sub[x]);
                        assert(derived_risk(new_risks@[j], sub1[x]));
                    }
                }
            },
            None => {
                let id = new_record_id();
                let rating = match &r.default_inherent_rating {
                    Some(s) => copy_string(s),
                    None => "medium".to_owned(),
                };
                let n = NewEngagementRisk {
                    id: copy_string(&id),
                    derived_from: copy_string(&r.id),
                    source_library_version: copy_string(&r.library_version),
                    code: copy_string(&r.code),
                    title: copy_string(&r.title),
                    description: copy_string(&r.description),
                    inherent_rating: rating,
                };
                let ghost old_new = new_risks@;
                let ghost old_ids = string_views(ids@);
                let key = (copy_string(&r.code), copy_string(&id));
                known.push(key);
                new_risks.push(n);
                ids.push(id);
                proof {
                    let code = r.code@;
                    assert(new_risk_keys(new_risks@) =~= new_risk_keys(old_new).push((code, id@)));
                    assert(ev + new_risk_keys(new_risks@) =~= kv.push((code, id@)));
                    assert(string_views(ids@) =~= old_ids.push(id@));
                    lemma_lookup_push(kv, code, id@, code);
                    // earlier library risks keep their ids
                    assert forall|x: int| 0 <= x < i implies lookup_spec(kv.push((code, id@)), #[trigger] sub1[x].code@)
                        == Some(string_views(ids@)[x]) by {
                        assert(sub1[x] == sub[x]);
                        assert(lookup_spec(kv, sub[x].code@) == Some(old_ids[x]));
                        if sub[x].code@ == code {
                            assert(lookup_spec(kv, code) is None);
                        }
                        lemma_lookup_push(kv, code, id@, sub[x].code@);
                    }
                    // the code was absent from the existing risks
                    assert(lookup_spec(ev, code) is None) by {
                        lemma_lookup_append_absent(ev, new_risk_keys(old_new), code);
                    }
                    // no earlier library risk had this code
                    assert forall|h: int| 0 <= h < i implies sub1[h].code@ != sub1[i as int].code@ by {
                        assert(sub1[h] == sub[h]);
                        assert(lookup_spec(kv, sub[h].code@) == Some(old_ids[h]));
                    }
                    assert(derived_risk(new_risks@[old_new.len() as int], sub1[i as int]));
                    // the new code differs from the codes created before
                    assert forall|j: int| 0 <= j < old_new.len() implies #[trigger] old_new[j].code@ != code by {
                        lemma_lookup_new_key(ev, old_new, j);
                    }
                    assert forall|j: int| 0 <= j < new_risks@.len() implies #[trigger] from_first_with_code(
                        sub1,
                        new_risks@[j],
                    ) by {
                        if j < old_new.len() {
                            assert(new_risks@[j] == old_new[j]);
                            assert(from_first_with_code(sub, old_new[j]));
                            let x = choose|x: int|
                                0 <= x < sub.len() && #[trigger] derived_risk(old_new[j], sub[x]) && forall|h: int|
                                    0 <= h < x ==> (#[trigger] sub[h]).code@ != sub[x].code@;
                            assert(sub1[x] == sub[x]);
                            assert(derived_risk(new_risks@[j], sub1[x]));
                        } else {
                            assert(derived_risk(new_risks@[j], sub1[i as int]));
                        }
                    }
                    assert forall|j: int, m: int| 0 <= j < m < new_risks@.len() implies #[trigger] new_risks@[j].code@
                        != #[trigger] new_risks@[m].code@ by {
                        if m == old_new.len() {
                            assert(old_new[j].code@ != code);
                        } else {
                            assert(old_new[j].code@ != old_new[m].code@);
                        }
                    }
                }
            },
        }
        i = i + 1;
    }
    assert(lib@.subrange(0, lib@.len() as int) =~= lib@);
    RiskPlan { engagement_risk_ids: ids, new_risks }
}

/// Looking up a key that none of the appended risks has ignores them.
proof fn lemma_lookup_append_other(a: Seq<(Seq<char>, Seq<char>)>, new: Seq<NewEngagementRisk>, key: Seq<char>)
    requires
        forall|j: int| 0 <= j < new.len() ==> #[trigger] new[j].code@ != key,
    ensures
        lookup_spec(a + new_risk_keys(new), key) == lookup_spec(a, key),
    decreases new.len(),
{
    if new.len() == 0 {
        assert(a + new_risk_keys(new) =~= a);
    } else {
        assert((a + new_risk_keys(new)).drop_last() =~= a + new_risk_keys(new.drop_last()));
        assert(new.last().code@ != key);
        lemma_lookup_append_other(a, new.drop_last(), key);
    }
}

/// Cloning a second control after a first on the same engagement: a risk
/// the two controls share keeps the single engagement risk the first clone
/// gave it, and no risk code is inserted by both clones.
pub proof fn lemma_sibling_clones_share_risks(
    lib1: Seq<LibraryRiskRow>,
    lib2: Seq<LibraryRiskRow>,
    existing: Seq<(Seq<char>, Seq<char>)>,
    ids1: Seq<Seq<char>>,
    new1: Seq<NewEngagementRisk>,
    ids2: Seq<Seq<char>>,
    new2: Seq<NewEngagementRisk>,
)
    requires
        risk_plan_ok(lib1, existing, ids1, new1),
        risk_plan_ok(lib2, existing + new_risk_keys(new1), ids2, new2),
    ensures
        forall|i: int, k: int|
            0 <= i < lib1.len() && 0 <= k < lib2.len() && (#[trigger] lib1[i]).code@ == (#[trigger] lib2[k]).code@
                ==> ids2[k] == ids1[i],
        forall|j: int, m: int|
            0 <= j < new1.len() && 0 <= m < new2.len() ==> (#[trigger] new1[j]).code@ != (#[trigger] new2[m]).code@,
{
    let k1 = existing + new_risk_keys(new1);
    assert forall|j: int, m: int| 0 <= j < new1.len() && 0 <= m < new2.len() implies (#[trigger] new1[j]).code@
        != (#[trigger] new2[m]).code@ by {
        lemma_lookup_new_key(existing, new1, j);
        assert(lookup_spec(k1, new2[m].code@) is None);
    }
    assert forall|i: int, k: int|
        0 <= i < lib1.len() && 0 <= k < lib2.len() && (#[trigger] lib1[i]).code@ == (#[trigger] lib2[k]).code@
            implies ids2[k] == ids1[i] by {
        let code = lib1[i].code@;
        assert(lookup_spec(k1, code) == Some(ids1[i]));
        assert forall|m: int| 0 <= m < new2.len() implies #[trigger] new2[m].code@ != code by {
            assert(lookup_spec(k1, new2[m].code@) is None);
        }
        lemma_lookup_append_other(k1, new2, code);
        assert(lookup_spec(k1 + new_risk_keys(new2), lib2[k].code@) == Some(ids2[k]));
    }
}

/// A key of the later part of a concatenation is found there.
proof fn lemma_lookup_new_key(ev: Seq<(Seq<char>, Seq<char>)>, new: Seq<NewEngagementRisk>, j: int)
    requires
        0 <= j < new.len(),
    ensures
        lookup_spec(ev + new_risk_keys(new), new[j].code@) is Some,
    decreases new.len(),
{
    let all = ev + new_risk_keys(new);
    assert(all.drop_last() =~= ev + new_risk_keys(new.drop_last()));
    if j < new.len() - 1 {
        if all.last().0 != new[j].code@ {
            lemma_lookup_new_key(ev, new.drop_last(), j);
        }
    }
}

/// A key missing from a concatenation is missing from its first part.
proof fn lemma_lookup_append_absent(
    a: Seq<(Seq<char>, Seq<char>)>,
    b: Seq<(Seq<char>, Seq<char>)>,
    key: Seq<char>,
)
    requires
        lookup_spec(a + b, key) is None,
    ensures
        lookup_spec(a, key) is None,
    decreases b.len(),
{
    if b.len() == 0 {
        assert(a + b =~= a);
    } else {
        assert((a + b).drop_last() =~= a + b.drop_last());
        lemma_lookup_append_absent(a, b.drop_last(), key);
    }
}

/// An engagement control to insert.
#[derive(Debug, Clone)]
pub struct NewEngagementControl {
    pub id: String,
    pub derived_from: String,
    pub source_library_version: String,
    pub code: String,
    pub title: String,
    pub description: String,
    pub objective: String,
    pub control_type: String,
    pub frequency: Option<String>,
    pub related_engagement_risk_ids_json: Option<String>,
    pub applicable_system_ids_json: Option<String>,
}

/// The `related_engagement_risk_ids_json` column: NULL when the control has
/// no risks, else the JSON array of their ids.
pub open spec fn related_risks_spec(ids: Seq<Seq<char>>) -> Option<Seq<char>> {
    if ids.len() == 0 {
        None
    } else {
        Some(json_encode_string_array(ids))
    }
}

/// The engagement control cloned from library control `lib`.
pub fn plan_engagement_control(lib: &LibraryControlRow, risk_ids: &Vec<String>, system_id: &Option<String>) -> (r:
    NewEngagementControl)
    ensures
        is_hyphenated_uuid(r.id@),
        r.derived_from@ == lib.id@,
        r.source_library_version@ == lib.library_version@,
        r.code@ == lib.code@,
        r.title@ == lib.title@,
        r.description@ == lib.description@,
        r.objective@ == lib.objective@,
        r.control_type@ == lib.control_type@,
        r.frequency == lib.frequency,
        opt_view(r.related_engagement_risk_ids_json) == related_risks_spec(string_views(risk_ids@)),
        opt_view(r.applicable_system_ids_json) == applicable_systems_spec(opt_view(*system_id)),
{
    let related = if risk_ids.len() == 0 {
        None
    } else {
        Some(encode_json_string_array(risk_ids))
    };
    NewEngagementControl {
        id: new_record_id(),
        derived_from: copy_string(&lib.id),
        source_library_version: copy_string(&lib.library_version),
        code: copy_string(&lib.code),
        title: copy_string(&lib.title),
        description: copy_string(&lib.description),
        objective: copy_string(&lib.objective),
        control_type: copy_string(&lib.control_type),
        frequency: clone_opt(&lib.frequency),
        related_engagement_risk_ids_json: related,
        applicable_system_ids_json: applicable_systems_json(system_id),
    }
}

/// A test to insert; it starts `not_started`.
#[derive(Debug, Clone)]
pub struct NewTest {
    pub id: String,
    pub derived_from: String,
    pub source_library_version: String,
    pub code: String,
    pub name: String,
    pub objective: String,
    pub steps_json: String,
    pub automation_tier: String,
}

/// `t` is the test cloned from test procedure `p`.
pub open spec fn test_from_procedure(t: NewTest, p: TestProcedureRow) -> bool {
    &&& is_hyphenated_uuid(t.id@)
    &&& t.derived_from@ == p.id@
    &&& t.source_library_version@ == p.library_version@
    &&& t.code@ == p.code@
    &&& t.name@ == p.name@
    &&& t.objective@ == p.objective@
    &&& t.steps_json@ == p.steps_json@
    &&& t.automation_tier@ == normalise_tier_spec(p.automation_hint@)
}

/// One fresh test per test procedure, in the same order.
pub fn plan_tests(procedures: &Vec<TestProcedureRow>) -> (r: Vec<NewTest>)
    ensures
        r@.len() == procedures@.len(),
        forall|i: int| 0 <= i < procedures@.len() ==> test_from_procedure(#[trigger] r@[i], procedures@[i]),
{
    let mut out: Vec<NewTest> = Vec::new();
    let mut i: usize = 0;
    while i < procedures.len()
        invariant
            i <= procedures@.len(),
            out@.len() == i,
            forall|k: int| 0 <= k < i ==> test_from_procedure(#[trigger] out@[k], procedures@[k]),
        decreases procedures@.len() - i,
    {
        let p = &procedures[i];
        let t = NewTest {
            id: new_record_id(),
            derived_from: copy_string(&p.id),
            source_library_version: copy_string(&p.library_version),
            code: copy_string(&p.code),
            name: copy_string(&p.name),
            objective: copy_string(&p.objective),
            steps_json: copy_string(&p.steps_json),
            automation_tier: normalise_automation_tier(p.automation_hint.as_str()),
        };
        out.push(t);
        i = i + 1;
    }
    out
}

/// The activity-log line of a clone.
pub open spec fn clone_summary_spec(code: Seq<char>, title: Seq<char>, tests: nat) -> Seq<char> {
    "Added library control "@ + code + " ("@ + title + ") with "@ + decimal_spec(tests) + " test(s)"@
}

/// `Added library control {code} ({title}) with {n} test(s)`.
pub fn clone_summary(code: &str, title: &str, tests: usize) -> (r: String)
    ensures
        r@ == clone_summary_spec(code@, title@, tests as nat),
{
    let n = decimal(tests as u64);
    let mut s = concat3("Added library control ", code, " (");
    s.append(title);
    s.append(") with ");
    s.append(n.as_str());
    s.append(" test(s)");
    proof {
        reveal_strlit("Added library control ");
        reveal_strlit(" (");
        reveal_strlit(") with ");
        reveal_strlit(" test(s)");
    }
    s
}

} // verus!
