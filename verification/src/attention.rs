//! The dashboard's "needs attention" list: high-priority items first
//! (tests awaiting review, exceptions without a finding, serious draft
//! findings), then risks no control addresses, then controls without tests.

use vstd::prelude::*;

use crate::engagements::AttentionItem;
use crate::text::str_eq;

verus! {

/// A row with an id, a code and a display name (tests, risks, controls).
#[derive(Debug, Clone)]
pub struct NamedRow {
    pub id: String,
    pub code: String,
    pub name: String,
}

/// A draft finding of critical or high severity.
#[derive(Debug, Clone)]
pub struct SevereFindingRow {
    pub id: String,
    pub code: String,
    pub title: String,
    pub severity_name: String,
}

/// Rows the attention list is built from, each already in display order.
#[derive(Debug, Clone)]
pub struct AttentionRows {
    /// Tests with status `in_review`, ordered by code.
    pub tests_in_review: Vec<NamedRow>,
    /// Exception results with no linked finding (id is the result's), newest first.
    pub unlinked_exceptions: Vec<NamedRow>,
    /// Draft findings of critical or high severity, most severe first.
    pub severe_draft_findings: Vec<SevereFindingRow>,
    /// All engagement risks, ordered by code.
    pub risks: Vec<NamedRow>,
    /// For each control, the risk ids it is linked to.
    pub control_risk_ids: Vec<Vec<String>>,
    /// Controls without any test, ordered by code.
    pub untested_controls: Vec<NamedRow>,
}

/// Abstract value of an attention item.
pub struct ItemView {
    pub kind: Seq<char>,
    pub priority: Seq<char>,
    pub label: Seq<char>,
    pub entity_type: Option<Seq<char>>,
    pub entity_id: Option<Seq<char>>,
}

pub open spec fn item_view(i: AttentionItem) -> ItemView {
    ItemView {
        kind: i.kind@,
        priority: i.priority@,
        label: i.label@,
        entity_type: match i.entity_type {
            Some(s) => Some(s@),
            None => None,
        },
        entity_id: match i.entity_id {
            Some(s) => Some(s@),
            None => None,
        },
    }
}

pub open spec fn item_spec(
    kind: Seq<char>,
    priority: Seq<char>,
    label: Seq<char>,
    entity_type: Seq<char>,
    id: Seq<char>,
) -> ItemView {
    ItemView { kind, priority, label, entity_type: Some(entity_type), entity_id: Some(id) }
}

pub open spec fn in_review_item(r: NamedRow) -> ItemView {
    item_spec(
        "test_in_review"@,
        "high"@,
        r.code@ + " — "@ + r.name@ + ": matcher exception awaiting decision"@,
        "Test"@,
        r.id@,
    )
}

pub open spec fn exception_item(r: NamedRow) -> ItemView {
    item_spec(
        "exception_no_finding"@,
        "high"@,
        r.code@ + " — "@ + r.name@ + ": exception not yet elevated to a finding"@,
        "TestResult"@,
        r.id@,
    )
}

pub open spec fn severe_finding_item(f: SevereFindingRow) -> ItemView {
    item_spec(
        "finding_draft_high_severity"@,
        "high"@,
        f.severity_name@ + " finding "@ + f.code@ + " — "@ + f.title@ + ": still in draft"@,
        "Finding"@,
        f.id@,
    )
}

pub open spec fn risk_item(r: NamedRow) -> ItemView {
    item_spec(
        "risk_no_control"@,
        "medium"@,
        r.code@ + " — "@ + r.name@ + ": no controls linked"@,
        "EngagementRisk"@,
        r.id@,
    )
}

pub open spec fn control_item(r: NamedRow) -> ItemView {
    item_spec(
        "control_no_test"@,
        "low"@,
        r.code@ + " — "@ + r.name@ + ": no test procedures yet"@,
        "EngagementControl"@,
        r.id@,
    )
}

/// Some control lists risk id `r`.
pub open spec fn risk_is_linked(lists: Seq<Vec<String>>, r: Seq<char>) -> bool {
    exists|c: int, k: int|
        0 <= c < lists.len() && 0 <= k < lists[c]@.len() && #[trigger] lists[c]@[k]@ == r
}

/// Items for the risks among the first `n` that no control lists.
pub open spec fn unlinked_risk_items(risks: Seq<NamedRow>, lists: Seq<Vec<String>>, n: int) -> Seq<
    ItemView,
>
    decreases n,
{
    if n <= 0 {
        Seq::empty()
    } else {
        let prev = unlinked_risk_items(risks, lists, n - 1);
        if risk_is_linked(lists, risks[n - 1].id@) {
            prev
        } else {
            prev.push(risk_item(risks[n - 1]))
        }
    }
}

/// The whole list, in the order it is shown.
pub open spec fn attention_spec(rows: AttentionRows) -> Seq<ItemView> {
    rows.tests_in_review@.map_values(|r: NamedRow| in_review_item(r))
        + rows.unlinked_exceptions@.map_values(|r: NamedRow| exception_item(r))
        + rows.severe_draft_findings@.map_values(|f: SevereFindingRow| severe_finding_item(f))
        + unlinked_risk_items(rows.risks@, rows.control_risk_ids@, rows.risks@.len() as int)
        + rows.untested_controls@.map_values(|r: NamedRow| control_item(r))
}

pub open spec fn views(s: Seq<AttentionItem>) -> Seq<ItemView> {
    s.map_values(|i: AttentionItem| item_view(i))
}

fn make_item(kind: &str, priority: &str, label: String, entity_type: &str, id: &String) -> (i:
    AttentionItem)
    ensures
        item_view(i) == item_spec(kind@, priority@, label@, entity_type@, id@),
{
    AttentionItem {
        kind: kind.to_owned(),
        priority: priority.to_owned(),
        label,
        entity_type: Some(entity_type.to_owned()),
        entity_id: Some(id.clone()),
    }
}

fn label4(a: &str, b: &str, c: &str, d: &str) -> (s: String)
    ensures
        s@ == a@ + b@ + c@ + d@,
{
    let mut s = a.to_owned();
    s.append(b);
    s.append(c);
    s.append(d);
    s
}

fn push_view(out: &mut Vec<AttentionItem>, item: AttentionItem)
    ensures
        views(final(out)@) == views(old(out)@).push(item_view(item)),
{
    out.push(item);
    assert(views(out@) =~= views(old(out)@).push(item_view(item)));
}

/// Whether some control lists risk id `r`.
fn linked(lists: &Vec<Vec<String>>, r: &String) -> (b: bool)
    ensures
        b == risk_is_linked(lists@, r@),
{
    let mut c: usize = 0;
    while c < lists.len()
        invariant
            c <= lists@.len(),
            forall|cc: int, k: int|
                0 <= cc < c && 0 <= k < lists@[cc]@.len() ==> #[trigger] lists@[cc]@[k]@ != r@,
        decreases lists@.len() - c,
    {
        let ids = &lists[c];
        let mut k: usize = 0;
        while k < ids.len()
            invariant
                k <= ids@.len(),
                c < lists@.len(),
                *ids == lists@[c as int],
                forall|kk: int| 0 <= kk < k ==> #[trigger] ids@[kk]@ != r@,
            decreases ids@.len() - k,
        {
            if str_eq(ids[k].as_str(), r.as_str()) {
                assert(lists@[c as int]@[k as int]@ == r@);
                return true;
            }
            k = k + 1;
        }
        c = c + 1;
    }
    false
}

/// Builds the attention list: high, then medium, then low priority.
pub fn needs_attention(rows: &AttentionRows) -> (out: Vec<AttentionItem>)
    ensures
        views(out@) == attention_spec(*rows),
{
    let mut out: Vec<AttentionItem> = Vec::new();
    let ghost a = rows.tests_in_review@.map_values(|r: NamedRow| in_review_item(r));
    let ghost b = rows.unlinked_exceptions@.map_values(|r: NamedRow| exception_item(r));
    let ghost c = rows.severe_draft_findings@.map_values(|f: SevereFindingRow| severe_finding_item(f));
    let ghost d = unlinked_risk_items(rows.risks@, rows.control_risk_ids@, rows.risks@.len() as int);
    let ghost e = rows.untested_controls@.map_values(|r: NamedRow| control_item(r));
    assert(views(out@) =~= Seq::<ItemView>::empty());

    let mut i: usize = 0;
    while i < rows.tests_in_review.len()
        invariant
            i <= rows.tests_in_review@.len(),
            a == rows.tests_in_review@.map_values(|r: NamedRow| in_review_item(r)),
            views(out@) =~= a.subrange(0, i as int),
        decreases rows.tests_in_review@.len() - i,
    {
        let r = &rows.tests_in_review[i];
        let label = label4(r.code.as_str(), " — ", r.name.as_str(), ": matcher exception awaiting decision");
        let item = make_item("test_in_review", "high", label, "Test", &r.id);
        push_view(&mut out, item);
        assert(a.subrange(0, i + 1) =~= a.subrange(0, i as int).push(a[i as int]));
        i = i + 1;
    }
    assert(a.subrange(0, a.len() as int) =~= a);

    let ghost base = views(out@);
    let mut i: usize = 0;
    while i < rows.unlinked_exceptions.len()
        invariant
            i <= rows.unlinked_exceptions@.len(),
            b == rows.unlinked_exceptions@.map_values(|r: NamedRow| exception_item(r)),
            views(out@) =~= base + b.subrange(0, i as int),
        decreases rows.unlinked_exceptions@.len() - i,
    {
        let r = &rows.unlinked_exceptions[i];
        let label = label4(
            r.code.as_str(),
            " — ",
            r.name.as_str(),
            ": exception not yet elevated to a finding",
        );
        let item = make_item("exception_no_finding", "high", label, "TestResult", &r.id);
        push_view(&mut out, item);
        assert(b.subrange(0, i + 1) =~= b.subrange(0, i as int).push(b[i as int]));
        i = i + 1;
    }
    assert(b.subrange(0, b.len() as int) =~= b);

    let ghost base = views(out@);
    let mut i: usize = 0;
    while i < rows.severe_draft_findings.len()
        invariant
            i <= rows.severe_draft_findings@.len(),
            c == rows.severe_draft_findings@.map_values(
                |f: SevereFindingRow| severe_finding_item(f),
            ),
            views(out@) =~= base + c.subrange(0, i as int),
        decreases rows.severe_draft_findings@.len() - i,
    {
        let f = &rows.severe_draft_findings[i];
        let mut label = f.severity_name.clone();
        label.append(" finding ");
        label.append(f.code.as_str());
        label.append(" — ");
        label.append(f.title.as_str());
        label.append(": still in draft");
        let item = make_item("finding_draft_high_severity", "high", label, "Finding", &f.id);
        push_view(&mut out, item);
        assert(c.subrange(0, i + 1) =~= c.subrange(0, i as int).push(c[i as int]));
        i = i + 1;
    }
    assert(c.subrange(0, c.len() as int) =~= c);

    let ghost base = views(out@);
    let mut i: usize = 0;
    while i < rows.risks.len()
        invariant
            i <= rows.risks@.len(),
            views(out@) =~= base + unlinked_risk_items(
                rows.risks@,
                rows.control_risk_ids@,
                i as int,
            ),
        decreases rows.risks@.len() - i,
    {
        let r = &rows.risks[i];
        if !linked(&rows.control_risk_ids, &r.id) {
            let label = label4(r.code.as_str(), " — ", r.name.as_str(), ": no controls linked");
            let item = make_item("risk_no_control", "medium", label, "EngagementRisk", &r.id);
            push_view(&mut out, item);
        }
        i = i + 1;
    }

    let ghost base = views(out@);
    let mut i: usize = 0;
    while i < rows.untested_controls.len()
        invariant
            i <= rows.untested_controls@.len(),
            e == rows.untested_controls@.map_values(|r: NamedRow| control_item(r)),
            views(out@) =~= base + e.subrange(0, i as int),
        decreases rows.untested_controls@.len() - i,
    {
        let r = &rows.untested_controls[i];
        let label = label4(r.code.as_str(), " — ", r.name.as_str(), ": no test procedures yet");
        let item = make_item("control_no_test", "low", label, "EngagementControl", &r.id);
        push_view(&mut out, item);
        assert(e.subrange(0, i + 1) =~= e.subrange(0, i as int).push(e[i as int]));
        i = i + 1;
    }
    assert(e.subrange(0, e.len() as int) =~= e);
    out
}

/// Priority rank used for the ordering law.
pub open spec fn rank(p: Seq<char>) -> int {
    if p == "high"@ {
        0
    } else if p == "medium"@ {
        1
    } else {
        2
    }
}

/// The list is ordered high, then medium, then low priority.
pub proof fn lemma_attention_ordered_by_priority(rows: AttentionRows, i: int, j: int)
    requires
        0 <= i <= j < attention_spec(rows).len(),
    ensures
        rank(attention_spec(rows)[i].priority) <= rank(attention_spec(rows)[j].priority),
{
    let a = rows.tests_in_review@.map_values(|r: NamedRow| in_review_item(r));
    let b = rows.unlinked_exceptions@.map_values(|r: NamedRow| exception_item(r));
    let c = rows.severe_draft_findings@.map_values(|f: SevereFindingRow| severe_finding_item(f));
    let d = unlinked_risk_items(rows.risks@, rows.control_risk_ids@, rows.risks@.len() as int);
    let e = rows.untested_controls@.map_values(|r: NamedRow| control_item(r));
    lemma_risk_items_medium(rows.risks@, rows.control_risk_ids@, rows.risks@.len() as int);
    let s = attention_spec(rows);
    assert(s == a + b + c + d + e);
    let h = a.len() + b.len() + c.len();
    assert forall|k: int| 0 <= k < h implies #[trigger] s[k].priority == "high"@ by {
        if k < a.len() {
            assert(s[k] == a[k]);
        } else if k < a.len() + b.len() {
            assert(s[k] == b[k - a.len()]);
        } else {
            assert(s[k] == c[k - a.len() - b.len()]);
        }
    }
    assert forall|k: int| h <= k < h + d.len() implies #[trigger] s[k].priority == "medium"@ by {
        assert(s[k] == d[k - h]);
    }
    assert forall|k: int| h + d.len() <= k < s.len() implies #[trigger] s[k].priority == "low"@ by {
        assert(s[k] == e[k - h - d.len()]);
    }
    reveal_strlit("high");
    reveal_strlit("medium");
    reveal_strlit("low");
    crate::overview::differ_at("high"@, "medium"@, 0);
    crate::overview::differ_at("high"@, "low"@, 0);
    crate::overview::differ_at("medium"@, "low"@, 0);
    if i < h {
        assert(s[i].priority == "high"@);
    } else if i < h + d.len() {
        assert(s[i].priority == "medium"@);
        assert(j >= h);
        if j < h + d.len() {
            assert(s[j].priority == "medium"@);
        } else {
            assert(s[j].priority == "low"@);
        }
    } else {
        assert(s[j].priority == "low"@);
    }
}

proof fn lemma_risk_items_medium(risks: Seq<NamedRow>, lists: Seq<Vec<String>>, n: int)
    ensures
        forall|k: int|
            0 <= k < unlinked_risk_items(risks, lists, n).len() ==> (#[trigger] unlinked_risk_items(
                risks,
                lists,
                n,
            )[k]).priority == "medium"@,
    decreases n,
{
    if n > 0 {
        lemma_risk_items_medium(risks, lists, n - 1);
    }
}

/// A risk gets a `risk_no_control` item exactly when no control lists it.
pub proof fn lemma_unlinked_risk_listed(risks: Seq<NamedRow>, lists: Seq<Vec<String>>, n: int, i: int)
    requires
        0 <= i < n <= risks.len(),
    ensures
        !risk_is_linked(lists, risks[i].id@) ==> unlinked_risk_items(risks, lists, n).contains(
            risk_item(risks[i]),
        ),
    decreases n,
{
    if i < n - 1 {
        lemma_unlinked_risk_listed(risks, lists, n - 1, i);
        if !risk_is_linked(lists, risks[i].id@) {
            let prev = unlinked_risk_items(risks, lists, n - 1);
            let k = choose|k: int| 0 <= k < prev.len() && prev[k] == risk_item(risks[i]);
            if !risk_is_linked(lists, risks[n - 1].id@) {
                assert(prev.push(risk_item(risks[n - 1]))[k] == risk_item(risks[i]));
            }
        }
    } else {
        if !risk_is_linked(lists, risks[i].id@) {
            let prev = unlinked_risk_items(risks, lists, n - 1);
            assert(prev.push(risk_item(risks[i]))[prev.len() as int] == risk_item(risks[i]));
        }
    }
}

/// Every item the risk part of the list holds is the item of some risk among
/// the first `n` that no control lists.
proof fn lemma_risk_items_come_from_unlinked_risks(risks: Seq<NamedRow>, lists: Seq<Vec<String>>, n: int, k: int)
    requires
        0 <= n <= risks.len(),
        0 <= k < unlinked_risk_items(risks, lists, n).len(),
    ensures
        exists|j: int|
            0 <= j < n && unlinked_risk_items(risks, lists, n)[k] == risk_item(risks[j]) && !risk_is_linked(
                lists,
                #[trigger] risks[j].id@,
            ),
    decreases n,
{
    let prev = unlinked_risk_items(risks, lists, n - 1);
    if k < prev.len() {
        lemma_risk_items_come_from_unlinked_risks(risks, lists, n - 1, k);
        let j = choose|j: int|
            0 <= j < n - 1 && prev[k] == risk_item(risks[j]) && !risk_is_linked(lists, #[trigger] risks[j].id@);
        if !risk_is_linked(lists, risks[n - 1].id@) {
            assert(prev.push(risk_item(risks[n - 1]))[k] == prev[k]);
        }
    } else {
        assert(!risk_is_linked(lists, risks[n - 1].id@));
        assert(unlinked_risk_items(risks, lists, n)[k] == risk_item(risks[n - 1]));
    }
}

/// A risk of the engagement gets a `risk_no_control` item exactly when its id
/// appears nowhere, at no position, in the linked-risk list of any control.
pub proof fn lemma_risk_flagged_iff_no_control_lists_it(rows: AttentionRows, i: int)
    requires
        0 <= i < rows.risks@.len(),
    ensures
        (exists|k: int|
            0 <= k < attention_spec(rows).len() && (#[trigger] attention_spec(rows)[k]).kind == "risk_no_control"@
                && attention_spec(rows)[k].entity_id == Some(rows.risks@[i].id@)) <==> !(exists|c: int, p: int|
            0 <= c < rows.control_risk_ids@.len() && 0 <= p < rows.control_risk_ids@[c]@.len()
                && #[trigger] rows.control_risk_ids@[c]@[p]@ == rows.risks@[i].id@),
{
    let a = rows.tests_in_review@.map_values(|r: NamedRow| in_review_item(r));
    let b = rows.unlinked_exceptions@.map_values(|r: NamedRow| exception_item(r));
    let c = rows.severe_draft_findings@.map_values(|f: SevereFindingRow| severe_finding_item(f));
    let risks = rows.risks@;
    let lists = rows.control_risk_ids@;
    let d = unlinked_risk_items(risks, lists, risks.len() as int);
    let e = rows.untested_controls@.map_values(|r: NamedRow| control_item(r));
    let s = attention_spec(rows);
    let r = risks[i].id@;
    assert(s == a + b + c + d + e);
    let h = a.len() + b.len() + c.len();
    reveal_strlit("risk_no_control");
    reveal_strlit("test_in_review");
    reveal_strlit("exception_no_finding");
    reveal_strlit("finding_draft_high_severity");
    reveal_strlit("control_no_test");
    crate::overview::differ_at("risk_no_control"@, "test_in_review"@, 0);
    crate::overview::differ_at("risk_no_control"@, "exception_no_finding"@, 0);
    crate::overview::differ_at("risk_no_control"@, "finding_draft_high_severity"@, 0);
    crate::overview::differ_at("risk_no_control"@, "control_no_test"@, 0);
    if !risk_is_linked(lists, r) {
        lemma_unlinked_risk_listed(risks, lists, risks.len() as int, i);
        let k = choose|k: int| 0 <= k < d.len() && d[k] == risk_item(risks[i]);
        assert(s[h + k] == d[k]);
        assert(s[h + k].kind == "risk_no_control"@ && s[h + k].entity_id == Some(r));
    }
    assert forall|k: int|
        0 <= k < s.len() && (#[trigger] s[k]).kind == "risk_no_control"@ && s[k].entity_id == Some(r) implies !risk_is_linked(
        lists,
        r,
    ) by {
        if k < a.len() {
            assert(s[k] == a[k]);
        } else if k < a.len() + b.len() {
            assert(s[k] == b[k - a.len()]);
        } else if k < h {
            assert(s[k] == c[k - a.len() - b.len()]);
        } else if k < h + d.len() {
            assert(s[k] == d[k - h]);
            lemma_risk_items_come_from_unlinked_risks(risks, lists, risks.len() as int, k - h);
            let j = choose|j: int|
                0 <= j < risks.len() && d[k - h] == risk_item(risks[j]) && !risk_is_linked(
                    lists,
                    #[trigger] risks[j].id@,
                );
            assert(risks[j].id@ == r);
        } else {
            assert(s[k] == e[k - h - d.len()]);
        }
    }
}

/// Some item of `items` is of kind `kind` and names the row `id`.
pub open spec fn listed_as(items: Seq<ItemView>, kind: Seq<char>, id: Seq<char>) -> bool {
    exists|k: int| 0 <= k < items.len() && (#[trigger] items[k]).kind == kind && items[k].entity_id == Some(id)
}

/// Every test awaiting review, exception without a finding, serious draft
/// finding and control without tests has its item in the list, naming the
/// row by id.
pub proof fn lemma_every_flagged_row_is_listed(rows: AttentionRows)
    ensures
        forall|j: int|
            0 <= j < rows.tests_in_review@.len() ==> listed_as(
                attention_spec(rows),
                "test_in_review"@,
                #[trigger] rows.tests_in_review@[j].id@,
            ),
        forall|j: int|
            0 <= j < rows.unlinked_exceptions@.len() ==> listed_as(
                attention_spec(rows),
                "exception_no_finding"@,
                #[trigger] rows.unlinked_exceptions@[j].id@,
            ),
        forall|j: int|
            0 <= j < rows.severe_draft_findings@.len() ==> listed_as(
                attention_spec(rows),
                "finding_draft_high_severity"@,
                #[trigger] rows.severe_draft_findings@[j].id@,
            ),
        forall|j: int|
            0 <= j < rows.untested_controls@.len() ==> listed_as(
                attention_spec(rows),
                "control_no_test"@,
                #[trigger] rows.untested_controls@[j].id@,
            ),
{
    let a = rows.tests_in_review@.map_values(|r: NamedRow| in_review_item(r));
    let b = rows.unlinked_exceptions@.map_values(|r: NamedRow| exception_item(r));
    let c = rows.severe_draft_findings@.map_values(|f: SevereFindingRow| severe_finding_item(f));
    let d = unlinked_risk_items(rows.risks@, rows.control_risk_ids@, rows.risks@.len() as int);
    let e = rows.untested_controls@.map_values(|r: NamedRow| control_item(r));
    let s = attention_spec(rows);
    assert(s == a + b + c + d + e);
    assert forall|j: int| 0 <= j < rows.tests_in_review@.len() implies listed_as(
        s,
        "test_in_review"@,
        #[trigger] rows.tests_in_review@[j].id@,
    ) by {
        assert(s[j] == a[j]);
    }
    assert forall|j: int| 0 <= j < rows.unlinked_exceptions@.len() implies listed_as(
        s,
        "exception_no_finding"@,
        #[trigger] rows.unlinked_exceptions@[j].id@,
    ) by {
        assert(s[a.len() + j] == b[j]);
    }
    assert forall|j: int| 0 <= j < rows.severe_draft_findings@.len() implies listed_as(
        s,
        "finding_draft_high_severity"@,
        #[trigger] rows.severe_draft_findings@[j].id@,
    ) by {
        assert(s[a.len() + b.len() + j] == c[j]);
    }
    assert forall|j: int| 0 <= j < rows.untested_controls@.len() implies listed_as(
        s,
        "control_no_test"@,
        #[trigger] rows.untested_controls@[j].id@,
    ) by {
        assert(s[a.len() + b.len() + c.len() + d.len() + j] == e[j]);
    }
}

} // verus!
