//! Per-risk coverage roll-up for the engagement dashboard.
//!
//! The database hands over the engagement's risks, the risk ids each control
//! is linked to, the tests (by control), the test results and the findings.
//! Each risk is then summarised: how many controls address it, how many
//! tests those controls have, how many of those tests have results and
//! exceptions, how many open findings hang off the controls, and a coverage
//! state derived from those counters.

use vstd::prelude::*;

use crate::engagements::RiskCoverageEntry;
use crate::text::{
    clone_opt, code_point_less, code_point_lt, lemma_code_point_lt_total, lemma_code_point_lt_transitive, str_eq,
};

verus! {

/// An engagement risk, as loaded (ordered by code).
#[derive(Debug, Clone)]
pub struct RiskRow {
    pub id: String,
    pub code: String,
    pub title: String,
    pub inherent_rating: String,
    pub residual_rating: Option<String>,
}

/// A control and the engagement-risk ids it is linked to.
#[derive(Debug, Clone)]
pub struct ControlLink {
    pub control_id: String,
    pub risk_ids: Vec<String>,
}

/// A test and the control it belongs to.
#[derive(Debug, Clone)]
pub struct TestLink {
    pub test_id: String,
    pub control_id: String,
}

/// One test result: the test it belongs to and its outcome.
#[derive(Debug, Clone)]
pub struct OutcomeRow {
    pub test_id: String,
    pub outcome: String,
}

/// A finding: the control and test it is attributed to, and its status.
#[derive(Debug, Clone)]
pub struct FindingLink {
    pub control_id: Option<String>,
    pub test_id: Option<String>,
    pub status: String,
}

/// Everything the roll-up reads.
#[derive(Debug, Clone)]
pub struct CoverageRows {
    pub risks: Vec<RiskRow>,
    pub controls: Vec<ControlLink>,
    pub tests: Vec<TestLink>,
    pub results: Vec<OutcomeRow>,
    pub findings: Vec<FindingLink>,
}

/// Number of elements of `s` satisfying `p`.
pub open spec fn count_where<A>(s: Seq<A>, p: spec_fn(A) -> bool) -> nat
    decreases s.len(),
{
    if s.len() == 0 {
        0
    } else {
        count_where(s.drop_last(), p) + if p(s.last()) {
            1nat
        } else {
            0nat
        }
    }
}

/// Predicate: the string equals `r`.
pub open spec fn equals_id(r: Seq<char>) -> spec_fn(String) -> bool {
    |x: String| x@ == r
}

/// Some result of test `t` exists.
pub open spec fn has_result(results: Seq<OutcomeRow>, t: Seq<char>) -> bool {
    exists|k: int| 0 <= k < results.len() && #[trigger] results[k].test_id@ == t
}

/// `exception` and `fail` outcomes count as exceptions.
pub open spec fn is_exception_outcome(o: Seq<char>) -> bool {
    o == "exception"@ || o == "fail"@
}

/// Some result of test `t` is an exception or a failure.
pub open spec fn has_exception(results: Seq<OutcomeRow>, t: Seq<char>) -> bool {
    exists|k: int|
        0 <= k < results.len() && #[trigger] results[k].test_id@ == t && is_exception_outcome(
            results[k].outcome@,
        )
}

/// Predicate on tests: belongs to control `c`.
pub open spec fn test_of(c: Seq<char>) -> spec_fn(TestLink) -> bool {
    |t: TestLink| t.control_id@ == c
}

/// Predicate on tests: belongs to control `c` and has a result.
pub open spec fn tested_of(results: Seq<OutcomeRow>, c: Seq<char>) -> spec_fn(TestLink) -> bool {
    |t: TestLink| t.control_id@ == c && has_result(results, t.test_id@)
}

/// Predicate on tests: belongs to control `c` and has an exception.
pub open spec fn excepted_of(results: Seq<OutcomeRow>, c: Seq<char>) -> spec_fn(
    TestLink,
) -> bool {
    |t: TestLink| t.control_id@ == c && has_exception(results, t.test_id@)
}

/// The finding is attributed to control `c` and its status is not `closed`.
pub open spec fn is_open_finding_of(f: FindingLink, c: Seq<char>) -> bool {
    &&& match f.control_id {
        Some(x) => x@ == c,
        None => false,
    }
    &&& f.status@ != "closed"@
}

/// Predicate on findings: open and attributed to control `c`.
pub open spec fn open_finding_of(c: Seq<char>) -> spec_fn(FindingLink) -> bool {
    |f: FindingLink| is_open_finding_of(f, c)
}

/// Per-control weights used by the roll-up.
pub open spec fn weight_one() -> spec_fn(Seq<char>) -> nat {
    |c: Seq<char>| 1nat
}

pub open spec fn weight_tests(rows: CoverageRows) -> spec_fn(Seq<char>) -> nat {
    |c: Seq<char>| count_where(rows.tests@, test_of(c))
}

pub open spec fn weight_tested(rows: CoverageRows) -> spec_fn(Seq<char>) -> nat {
    |c: Seq<char>| count_where(rows.tests@, tested_of(rows.results@, c))
}

pub open spec fn weight_excepted(rows: CoverageRows) -> spec_fn(Seq<char>) -> nat {
    |c: Seq<char>| count_where(rows.tests@, excepted_of(rows.results@, c))
}

pub open spec fn weight_findings(rows: CoverageRows) -> spec_fn(Seq<char>) -> nat {
    |c: Seq<char>| count_where(rows.findings@, open_finding_of(c))
}

/// Entry `k` is the last control row with its id: later rows with the same
/// id replace earlier ones (controls are keyed by id).
pub open spec fn is_last_of_id(controls: Seq<ControlLink>, k: int) -> bool {
    forall|j: int| k < j < controls.len() ==> #[trigger] controls[j].control_id@ != controls[k].control_id@
}

/// Risk `i` is the first risk row with its id: a later duplicate receives no
/// controls (each control link is handed out once).
pub open spec fn is_first_risk(risks: Seq<RiskRow>, i: int) -> bool {
    forall|j: int| 0 <= j < i ==> #[trigger] risks[j].id@ != risks[i].id@
}

/// Sum over the first `n` (effective) control rows of
/// (number of times the control lists risk `r`) * `w(control id)`.
pub open spec fn link_sum(
    controls: Seq<ControlLink>,
    n: int,
    r: Seq<char>,
    w: spec_fn(Seq<char>) -> nat,
) -> nat
    decreases n,
{
    if n <= 0 {
        0
    } else {
        link_sum(controls, n - 1, r, w) + if is_last_of_id(controls, n - 1) {
            count_where(controls[n - 1].risk_ids@, equals_id(r)) * w(
                controls[n - 1].control_id@,
            )
        } else {
            0nat
        }
    }
}

/// Total number of risk references over the first `n` control rows.
pub open spec fn partial_links(controls: Seq<ControlLink>, n: int) -> nat
    decreases n,
{
    if n <= 0 {
        0
    } else {
        partial_links(controls, n - 1) + controls[n - 1].risk_ids@.len()
    }
}

/// The counter for risk `i` with per-control weight `w`: zero for a repeated
/// risk id, otherwise the sum over all controls.
pub open spec fn risk_counter(rows: CoverageRows, i: int, w: spec_fn(Seq<char>) -> nat) -> nat {
    if is_first_risk(rows.risks@, i) {
        link_sum(rows.controls@, rows.controls@.len() as int, rows.risks@[i].id@, w)
    } else {
        0
    }
}

/// Coverage classification from the counters.
pub open spec fn coverage_state_spec(control_count: nat, with_results: nat, with_exceptions: nat) -> Seq<
    char,
> {
    if control_count == 0 {
        "uncovered"@
    } else if with_results == 0 {
        "untested"@
    } else if with_exceptions == 0 {
        "tested_clean"@
    } else {
        "tested_with_exceptions"@
    }
}

/// What the entry for risk `i` holds.
pub open spec fn coverage_entry_spec(rows: CoverageRows, i: int, e: RiskCoverageEntry) -> bool {
    let risk = rows.risks@[i];
    &&& e.risk_id == risk.id
    &&& e.risk_code == risk.code
    &&& e.risk_title == risk.title
    &&& e.inherent_rating == risk.inherent_rating
    &&& e.residual_rating == risk.residual_rating
    &&& e.control_count == risk_counter(rows, i, weight_one())
    &&& e.test_count == risk_counter(rows, i, weight_tests(rows))
    &&& e.tests_with_results == risk_counter(rows, i, weight_tested(rows))
    &&& e.tests_with_exceptions == risk_counter(rows, i, weight_excepted(rows))
    &&& e.findings_open == risk_counter(rows, i, weight_findings(rows))
    &&& e.coverage_state@ == coverage_state_spec(
        risk_counter(rows, i, weight_one()),
        risk_counter(rows, i, weight_tested(rows)),
        risk_counter(rows, i, weight_excepted(rows)),
    )
}

/// The coverage state of an entry read off its own counters: no control
/// means `uncovered`; with a control, `untested` exactly when no test has a
/// result, `tested_clean` when results came back without exception, and
/// `tested_with_exceptions` when some result is an exception.
pub proof fn lemma_coverage_state_from_counters(rows: CoverageRows, i: int, e: RiskCoverageEntry)
    requires
        0 <= i < rows.risks@.len(),
        coverage_entry_spec(rows, i, e),
    ensures
        e.control_count == 0 ==> e.coverage_state@ == "uncovered"@,
        e.control_count > 0 ==> (e.coverage_state@ == "untested"@ <==> e.tests_with_results == 0),
        e.control_count > 0 && e.tests_with_results > 0 && e.tests_with_exceptions == 0 ==> e.coverage_state@
            == "tested_clean"@,
        e.control_count > 0 && e.tests_with_results > 0 && e.tests_with_exceptions > 0 ==> e.coverage_state@
            == "tested_with_exceptions"@,
{
    reveal_strlit("untested");
    reveal_strlit("tested_clean");
    reveal_strlit("tested_with_exceptions");
    assert("untested"@.len() != "tested_clean"@.len());
    assert("untested"@.len() != "tested_with_exceptions"@.len());
}

/// Sizes stay within what `i64` counters hold.
pub open spec fn coverage_fits(rows: CoverageRows) -> bool {
    partial_links(rows.controls@, rows.controls@.len() as int) * (rows.tests@.len()
        + rows.findings@.len() + 1) <= i64::MAX
}

proof fn lemma_count_where_step<A>(s: Seq<A>, p: spec_fn(A) -> bool, i: int)
    requires
        0 <= i < s.len(),
    ensures
        count_where(s.subrange(0, i + 1), p) == count_where(s.subrange(0, i), p) + if p(s[i]) {
            1nat
        } else {
            0nat
        },
{
    assert(s.subrange(0, i + 1).drop_last() =~= s.subrange(0, i));
}

proof fn lemma_count_where_le<A>(s: Seq<A>, p: spec_fn(A) -> bool)
    ensures
        count_where(s, p) <= s.len(),
    decreases s.len(),
{
    if s.len() > 0 {
        lemma_count_where_le(s.drop_last(), p);
    }
}

proof fn lemma_count_where_implies<A>(s: Seq<A>, p: spec_fn(A) -> bool, q: spec_fn(A) -> bool)
    requires
        forall|a: A| #[trigger] p(a) ==> q(a),
    ensures
        count_where(s, p) <= count_where(s, q),
    decreases s.len(),
{
    if s.len() > 0 {
        lemma_count_where_implies(s.drop_last(), p, q);
    }
}

proof fn lemma_partial_links_mono(controls: Seq<ControlLink>, n: int, m: int)
    requires
        n <= m,
    ensures
        partial_links(controls, n) <= partial_links(controls, m),
    decreases m - n,
{
    if n < m {
        lemma_partial_links_mono(controls, n, m - 1);
    }
}

proof fn lemma_link_sum_bound(
    controls: Seq<ControlLink>,
    n: int,
    r: Seq<char>,
    w: spec_fn(Seq<char>) -> nat,
    bound: nat,
)
    requires
        0 <= n <= controls.len(),
        forall|c: Seq<char>| #[trigger] w(c) <= bound,
    ensures
        link_sum(controls, n, r, w) <= partial_links(controls, n) * bound,
    decreases n,
{
    if n > 0 {
        lemma_link_sum_bound(controls, n - 1, r, w, bound);
        let ids = controls[n - 1].risk_ids@;
        let o = count_where(ids, equals_id(r));
        lemma_count_where_le(ids, equals_id(r));
        let wc = w(controls[n - 1].control_id@);
        assert(o * wc <= ids.len() * bound) by (nonlinear_arith)
            requires
                o <= ids.len(),
                wc <= bound,
        ;
        let p = partial_links(controls, n - 1);
        assert(p * bound + ids.len() * bound == (p + ids.len()) * bound) by (nonlinear_arith);
    }
}

proof fn lemma_link_sum_mono(
    controls: Seq<ControlLink>,
    n: int,
    r: Seq<char>,
    w: spec_fn(Seq<char>) -> nat,
    v: spec_fn(Seq<char>) -> nat,
)
    requires
        0 <= n <= controls.len(),
        forall|c: Seq<char>| #[trigger] w(c) <= v(c),
    ensures
        link_sum(controls, n, r, w) <= link_sum(controls, n, r, v),
    decreases n,
{
    if n > 0 {
        lemma_link_sum_mono(controls, n - 1, r, w, v);
        let o = count_where(controls[n - 1].risk_ids@, equals_id(r));
        let a = w(controls[n - 1].control_id@);
        let b = v(controls[n - 1].control_id@);
        assert(o * a <= o * b) by (nonlinear_arith)
            requires
                a <= b,
        ;
    }
}

/// Counters of one risk never disagree: every test with an exception has a
/// result, every test with a result is a test.
pub proof fn lemma_coverage_counters_ordered(rows: CoverageRows, i: int)
    requires
        0 <= i < rows.risks@.len(),
    ensures
        risk_counter(rows, i, weight_excepted(rows)) <= risk_counter(rows, i, weight_tested(rows)),
        risk_counter(rows, i, weight_tested(rows)) <= risk_counter(rows, i, weight_tests(rows)),
{
    let n = rows.controls@.len() as int;
    assert forall|c: Seq<char>| #[trigger]
        weight_excepted(rows)(c) <= weight_tested(rows)(c) by {
        assert forall|t: TestLink| #[trigger] excepted_of(rows.results@, c)(t) implies tested_of(
            rows.results@,
            c,
        )(t) by {
            let k = choose|k: int|
                0 <= k < rows.results@.len() && #[trigger] rows.results@[k].test_id@ == t.test_id@
                    && is_exception_outcome(rows.results@[k].outcome@);
            assert(rows.results@[k].test_id@ == t.test_id@);
        }
        lemma_count_where_implies(
            rows.tests@,
            excepted_of(rows.results@, c),
            tested_of(rows.results@, c),
        );
    }
    assert forall|c: Seq<char>| #[trigger] weight_tested(rows)(c) <= weight_tests(rows)(c) by {
        lemma_count_where_implies(rows.tests@, tested_of(rows.results@, c), test_of(c));
    }
    if is_first_risk(rows.risks@, i) {
        let r = rows.risks@[i].id@;
        lemma_link_sum_mono(rows.controls@, n, r, weight_excepted(rows), weight_tested(rows));
        lemma_link_sum_mono(rows.controls@, n, r, weight_tested(rows), weight_tests(rows));
    }
}

/// Number of times `r` occurs in `ids`.
fn count_occurrences(ids: &Vec<String>, r: &String) -> (n: u64)
    ensures
        n == count_where(ids@, equals_id(r@)),
{
    let mut n: u64 = 0;
    let mut i: usize = 0;
    while i < ids.len()
        invariant
            i <= ids@.len(),
            n == count_where(ids@.subrange(0, i as int), equals_id(r@)),
            n <= i,
        decreases ids@.len() - i,
    {
        proof {
            lemma_count_where_step(ids@, equals_id(r@), i as int);
        }
        if str_eq(ids[i].as_str(), r.as_str()) {
            n = n + 1;
        }
        i = i + 1;
    }
    assert(ids@.subrange(0, ids@.len() as int) =~= ids@);
    n
}

/// Whether control row `k` is the last one with its id.
fn last_of_id(controls: &Vec<ControlLink>, k: usize) -> (b: bool)
    requires
        k < controls@.len(),
    ensures
        b == is_last_of_id(controls@, k as int),
{
    let n = controls.len();
    let mut j: usize = k + 1;
    while j < n
        invariant
            k < j <= n,
            n == controls@.len(),
            forall|m: int| k < m < j ==> #[trigger] controls@[m].control_id@ != controls@[k as int].control_id@,
        decreases controls@.len() - j,
    {
        if str_eq(controls[j].control_id.as_str(), controls[k].control_id.as_str()) {
            return false;
        }
        j = j + 1;
    }
    true
}

/// Whether risk row `i` is the first one with its id.
fn first_risk(risks: &Vec<RiskRow>, i: usize) -> (b: bool)
    requires
        i < risks@.len(),
    ensures
        b == is_first_risk(risks@, i as int),
{
    let mut j: usize = 0;
    while j < i
        invariant
            j <= i < risks@.len(),
            forall|m: int| 0 <= m < j ==> #[trigger] risks@[m].id@ != risks@[i as int].id@,
        decreases i - j,
    {
        if str_eq(risks[j].id.as_str(), risks[i].id.as_str()) {
            return false;
        }
        j = j + 1;
    }
    true
}

/// Whether test `t` has any result, and whether it has an exception.
fn result_flags(results: &Vec<OutcomeRow>, t: &String) -> (r: (bool, bool))
    ensures
        r.0 == has_result(results@, t@),
        r.1 == has_exception(results@, t@),
{
    let mut any = false;
    let mut exc = false;
    let mut k: usize = 0;
    while k < results.len()
        invariant
            k <= results@.len(),
            any == exists|m: int| 0 <= m < k && #[trigger] results@[m].test_id@ == t@,
            exc == exists|m: int|
                0 <= m < k && #[trigger] results@[m].test_id@ == t@ && is_exception_outcome(
                    results@[m].outcome@,
                ),
        decreases results@.len() - k,
    {
        if str_eq(results[k].test_id.as_str(), t.as_str()) {
            any = true;
            let o = results[k].outcome.as_str();
            if str_eq(o, "exception") || str_eq(o, "fail") {
                exc = true;
            }
        }
        k = k + 1;
    }
    (any, exc)
}

/// Tests of control `c`: all of them, those with results, those with exceptions.
fn control_test_counts(rows: &CoverageRows, c: &String) -> (r: (u64, u64, u64))
    ensures
        r.0 == count_where(rows.tests@, test_of(c@)),
        r.1 == count_where(rows.tests@, tested_of(rows.results@, c@)),
        r.2 == count_where(rows.tests@, excepted_of(rows.results@, c@)),
{
    let tests = &rows.tests;
    let mut a: u64 = 0;
    let mut b: u64 = 0;
    let mut e: u64 = 0;
    let mut i: usize = 0;
    while i < tests.len()
        invariant
            i <= tests@.len(),
            tests@ == rows.tests@,
            a == count_where(tests@.subrange(0, i as int), test_of(c@)),
            b == count_where(tests@.subrange(0, i as int), tested_of(rows.results@, c@)),
            e == count_where(tests@.subrange(0, i as int), excepted_of(rows.results@, c@)),
            a <= i,
            b <= i,
            e <= i,
        decreases tests@.len() - i,
    {
        proof {
            lemma_count_where_step(tests@, test_of(c@), i as int);
            lemma_count_where_step(tests@, tested_of(rows.results@, c@), i as int);
            lemma_count_where_step(tests@, excepted_of(rows.results@, c@), i as int);
        }
        if str_eq(tests[i].control_id.as_str(), c.as_str()) {
            let flags = result_flags(&rows.results, &tests[i].test_id);
            a = a + 1;
            if flags.0 {
                b = b + 1;
            }
            if flags.1 {
                e = e + 1;
            }
        }
        i = i + 1;
    }
    assert(tests@.subrange(0, tests@.len() as int) =~= tests@);
    (a, b, e)
}

/// Open findings attributed to control `c`.
fn open_findings_for(findings: &Vec<FindingLink>, c: &String) -> (n: u64)
    ensures
        n == count_where(findings@, open_finding_of(c@)),
{
    let mut n: u64 = 0;
    let mut i: usize = 0;
    while i < findings.len()
        invariant
            i <= findings@.len(),
            n == count_where(findings@.subrange(0, i as int), open_finding_of(c@)),
            n <= i,
        decreases findings@.len() - i,
    {
        proof {
            lemma_count_where_step(findings@, open_finding_of(c@), i as int);
        }
        let f = &findings[i];
        let hit = match &f.control_id {
            Some(x) => str_eq(x.as_str(), c.as_str()) && !str_eq(f.status.as_str(), "closed"),
            None => false,
        };
        if hit {
            n = n + 1;
        }
        i = i + 1;
    }
    assert(findings@.subrange(0, findings@.len() as int) =~= findings@);
    n
}

/// The coverage classification as a string.
fn coverage_state(control_count: i64, with_results: i64, with_exceptions: i64) -> (s: String)
    requires
        control_count >= 0,
        with_results >= 0,
        with_exceptions >= 0,
    ensures
        s@ == coverage_state_spec(control_count as nat, with_results as nat, with_exceptions as nat),
{
    if control_count == 0 {
        "uncovered".to_owned()
    } else if with_results == 0 {
        "untested".to_owned()
    } else if with_exceptions == 0 {
        "tested_clean".to_owned()
    } else {
        "tested_with_exceptions".to_owned()
    }
}

/// Coverage entry for risk `i`.
fn risk_entry(rows: &CoverageRows, i: usize) -> (e: RiskCoverageEntry)
    requires
        i < rows.risks@.len(),
        coverage_fits(*rows),
    ensures
        coverage_entry_spec(*rows, i as int, e),
        e.tests_with_exceptions <= e.tests_with_results <= e.test_count,
{
    let risk = &rows.risks[i];
    let ghost r = risk.id@;
    let ghost cs = rows.controls@;
    let ghost total = partial_links(cs, cs.len() as int);
    let ghost big = rows.tests@.len() + rows.findings@.len() + 1;
    let mut cc: u64 = 0;
    let mut tc: u64 = 0;
    let mut rc: u64 = 0;
    let mut ec: u64 = 0;
    let mut fc: u64 = 0;
    if first_risk(&rows.risks, i) {
        let mut k: usize = 0;
        while k < rows.controls.len()
            invariant
                k <= cs.len(),
                cs == rows.controls@,
                r == rows.risks@[i as int].id@,
                *risk == rows.risks@[i as int],
                total * big <= i64::MAX,
                total == partial_links(cs, cs.len() as int),
                big == rows.tests@.len() + rows.findings@.len() + 1,
                cc == link_sum(cs, k as int, r, weight_one()),
                tc == link_sum(cs, k as int, r, weight_tests(*rows)),
                rc == link_sum(cs, k as int, r, weight_tested(*rows)),
                ec == link_sum(cs, k as int, r, weight_excepted(*rows)),
                fc == link_sum(cs, k as int, r, weight_findings(*rows)),
                cc <= i64::MAX,
                tc <= i64::MAX,
                rc <= i64::MAX,
                ec <= i64::MAX,
                fc <= i64::MAX,
            decreases cs.len() - k,
        {
            let ghost kk = (k + 1) as int;
            proof {
                lemma_partial_links_mono(cs, kk, cs.len() as int);
                assert forall|c: Seq<char>| #[trigger] weight_one()(c) <= big by {}
                assert forall|c: Seq<char>| #[trigger] weight_tests(*rows)(c) <= big by {
                    lemma_count_where_le(rows.tests@, test_of(c));
                }
                assert forall|c: Seq<char>| #[trigger] weight_tested(*rows)(c) <= big by {
                    lemma_count_where_le(rows.tests@, tested_of(rows.results@, c));
                }
                assert forall|c: Seq<char>| #[trigger] weight_excepted(*rows)(c) <= big by {
                    lemma_count_where_le(rows.tests@, excepted_of(rows.results@, c));
                }
                assert forall|c: Seq<char>| #[trigger] weight_findings(*rows)(c) <= big by {
                    lemma_count_where_le(rows.findings@, open_finding_of(c));
                }
                lemma_link_sum_bound(cs, kk, r, weight_one(), big);
                lemma_link_sum_bound(cs, kk, r, weight_tests(*rows), big);
                lemma_link_sum_bound(cs, kk, r, weight_tested(*rows), big);
                lemma_link_sum_bound(cs, kk, r, weight_excepted(*rows), big);
                lemma_link_sum_bound(cs, kk, r, weight_findings(*rows), big);
                let p = partial_links(cs, kk);
                assert(p * big <= total * big) by (nonlinear_arith)
                    requires
                        p <= total,
                ;
            }
            if last_of_id(&rows.controls, k) {
                let ctrl = &rows.controls[k];
                let o = count_occurrences(&ctrl.risk_ids, &risk.id);
                let counts = control_test_counts(rows, &ctrl.control_id);
                let fo = open_findings_for(&rows.findings, &ctrl.control_id);
                proof {
                    lemma_count_where_le(ctrl.risk_ids@, equals_id(r));
                    lemma_count_where_le(rows.tests@, test_of(ctrl.control_id@));
                    lemma_count_where_le(rows.findings@, open_finding_of(ctrl.control_id@));
                    assert(counts.1 <= counts.0) by {
                        lemma_count_where_implies(
                            rows.tests@,
                            tested_of(rows.results@, ctrl.control_id@),
                            test_of(ctrl.control_id@),
                        );
                    }
                    assert(counts.2 <= counts.0) by {
                        assert forall|t: TestLink| #[trigger]
                            excepted_of(rows.results@, ctrl.control_id@)(t) implies test_of(
                            ctrl.control_id@,
                        )(t) by {}
                        lemma_count_where_implies(
                            rows.tests@,
                            excepted_of(rows.results@, ctrl.control_id@),
                            test_of(ctrl.control_id@),
                        );
                    }
                    assert(o * counts.0 <= o * big) by (nonlinear_arith)
                        requires
                            counts.0 <= big,
                    ;
                    assert(o * counts.1 <= o * counts.0) by (nonlinear_arith)
                        requires
                            counts.1 <= counts.0,
                    ;
                    assert(o * counts.2 <= o * counts.0) by (nonlinear_arith)
                        requires
                            counts.2 <= counts.0,
                    ;
                    assert(o * fo <= o * big) by (nonlinear_arith)
                        requires
                            fo <= big,
                    ;
                    assert(o <= o * big) by (nonlinear_arith)
                        requires
                            1 <= big,
                    ;
                }
                assert(weight_one()(ctrl.control_id@) == 1nat);
                assert(link_sum(cs, kk, r, weight_one()) == link_sum(cs, k as int, r, weight_one())
                    + count_where(cs[k as int].risk_ids@, equals_id(r)) * weight_one()(cs[k as int].control_id@));
                let ghost x = count_where(cs[k as int].risk_ids@, equals_id(r));
                let ghost y = weight_one()(cs[k as int].control_id@);
                assert(x * y == o) by (nonlinear_arith)
                    requires
                        x == o,
                        y == 1,
                ;
                assert(link_sum(cs, kk, r, weight_one()) == cc + o);
                assert(link_sum(cs, kk, r, weight_tests(*rows)) == tc + o * counts.0);
                assert(link_sum(cs, kk, r, weight_tested(*rows)) == rc + o * counts.1);
                assert(link_sum(cs, kk, r, weight_excepted(*rows)) == ec + o * counts.2);
                assert(link_sum(cs, kk, r, weight_findings(*rows)) == fc + o * fo);
                cc = cc + o;
                tc = tc + o * counts.0;
                rc = rc + o * counts.1;
                ec = ec + o * counts.2;
                fc = fc + o * fo;
            } else {
                assert(link_sum(cs, kk, r, weight_one()) == cc);
                assert(link_sum(cs, kk, r, weight_tests(*rows)) == tc);
                assert(link_sum(cs, kk, r, weight_tested(*rows)) == rc);
                assert(link_sum(cs, kk, r, weight_excepted(*rows)) == ec);
                assert(link_sum(cs, kk, r, weight_findings(*rows)) == fc);
            }
            k = k + 1;
        }
    }
    proof {
        lemma_coverage_counters_ordered(*rows, i as int);
    }
    let state = coverage_state(cc as i64, rc as i64, ec as i64);
    RiskCoverageEntry {
        risk_id: risk.id.clone(),
        risk_code: risk.code.clone(),
        risk_title: risk.title.clone(),
        inherent_rating: risk.inherent_rating.clone(),
        residual_rating: clone_opt(&risk.residual_rating),
        control_count: cc as i64,
        test_count: tc as i64,
        tests_with_results: rc as i64,
        tests_with_exceptions: ec as i64,
        findings_open: fc as i64,
        coverage_state: state,
    }
}

/// The per-risk coverage strip, one entry per risk row, in risk order. In
/// every entry the tests with exceptions are among the tests with results,
/// and those among the tests.
pub fn compute_risk_coverage(rows: &CoverageRows) -> (out: Vec<RiskCoverageEntry>)
    requires
        coverage_fits(*rows),
    ensures
        out@.len() == rows.risks@.len(),
        forall|i: int| 0 <= i < out@.len() ==> coverage_entry_spec(*rows, i, #[trigger] out@[i]),
        forall|i: int|
            0 <= i < out@.len() ==> (#[trigger] out@[i]).tests_with_exceptions <= out@[i].tests_with_results
                <= out@[i].test_count,
{
    let mut out: Vec<RiskCoverageEntry> = Vec::new();
    let mut i: usize = 0;
    while i < rows.risks.len()
        invariant
            i <= rows.risks@.len(),
            coverage_fits(*rows),
            out@.len() == i,
            forall|m: int| 0 <= m < i ==> coverage_entry_spec(*rows, m, #[trigger] out@[m]),
            forall|m: int|
                0 <= m < i ==> (#[trigger] out@[m]).tests_with_exceptions <= out@[m].tests_with_results
                    <= out@[m].test_count,
        decreases rows.risks@.len() - i,
    {
        let e = risk_entry(rows, i);
        out.push(e);
        i = i + 1;
    }
    out
}

/// The entries are in ascending risk-code order.
pub open spec fn ordered_by_code(v: Seq<RiskCoverageEntry>) -> bool {
    forall|i: int, j: int| 0 <= i < j < v.len() ==> !code_point_lt(#[trigger] v[j].risk_code@, #[trigger] v[i].risk_code@)
}

/// The first position in the ordered `v` whose code sorts after `code`.
fn insertion_point(v: &Vec<RiskCoverageEntry>, code: &str) -> (p: usize)
    requires
        ordered_by_code(v@),
    ensures
        p <= v@.len(),
        forall|j: int| 0 <= j < p ==> !code_point_lt(code@, #[trigger] v@[j].risk_code@),
        forall|j: int| p <= j < v@.len() ==> code_point_lt(code@, #[trigger] v@[j].risk_code@),
{
    let mut p: usize = 0;
    while p < v.len()
        invariant
            p <= v@.len(),
            ordered_by_code(v@),
            forall|j: int| 0 <= j < p ==> !code_point_lt(code@, #[trigger] v@[j].risk_code@),
        decreases v@.len() - p,
    {
        if code_point_less(code, v[p].risk_code.as_str()) {
            proof {
                assert forall|j: int| p <= j < v@.len() implies code_point_lt(code@, #[trigger] v@[j].risk_code@) by {
                    if j > p {
                        assert(!code_point_lt(v@[j].risk_code@, v@[p as int].risk_code@));
                        lemma_code_point_lt_total(v@[j].risk_code@, v@[p as int].risk_code@);
                        if v@[j].risk_code@ != v@[p as int].risk_code@ {
                            lemma_code_point_lt_transitive(code@, v@[p as int].risk_code@, v@[j].risk_code@);
                        }
                    }
                }
            }
            return p;
        }
        p = p + 1;
    }
    p
}

/// The entries put in ascending risk-code order (the order the dashboard
/// shows them in); nothing is added or lost.
pub fn order_by_code(entries: Vec<RiskCoverageEntry>) -> (out: Vec<RiskCoverageEntry>)
    ensures
        out@.to_multiset() == entries@.to_multiset(),
        ordered_by_code(out@),
{
    let ghost orig = entries@;
    let mut rest = entries;
    let mut out: Vec<RiskCoverageEntry> = Vec::new();
    proof {
        assert(out@.to_multiset() =~= vstd::multiset::Multiset::<RiskCoverageEntry>::empty()) by {
            broadcast use vstd::seq_lib::to_multiset_len;

            out@.to_multiset_ensures();
        }
    }
    while rest.len() > 0
        invariant
            out@.to_multiset().add(rest@.to_multiset()) == orig.to_multiset(),
            ordered_by_code(out@),
        decreases rest@.len(),
    {
        let ghost before = rest@;
        let x = match rest.pop() {
            Some(x) => x,
            None => {
                return out;
            },
        };
        proof {
            assert(before =~= rest@.push(x));
        }
        let p = insertion_point(&out, x.risk_code.as_str());
        let ghost prev = out@;
        out.insert(p, x);
        proof {
            assert(out@ =~= prev.insert(p as int, x));
            assert forall|i: int, j: int| 0 <= i < j < out@.len() implies !code_point_lt(
                #[trigger] out@[j].risk_code@,
                #[trigger] out@[i].risk_code@,
            ) by {
                if i < p && j == p {
                    lemma_code_point_lt_total(x.risk_code@, prev[i].risk_code@);
                    if x.risk_code@ != prev[i].risk_code@ {
                        assert(!code_point_lt(x.risk_code@, prev[i].risk_code@));
                    }
                    crate::text::lemma_code_point_lt_irreflexive(x.risk_code@);
                } else if i == p && j > p {
                    assert(code_point_lt(x.risk_code@, prev[j - 1].risk_code@));
                    if code_point_lt(prev[j - 1].risk_code@, x.risk_code@) {
                        lemma_code_point_lt_transitive(x.risk_code@, prev[j - 1].risk_code@, x.risk_code@);
                        crate::text::lemma_code_point_lt_irreflexive(x.risk_code@);
                    }
                } else if i < p && j > p {
                    assert(!code_point_lt(prev[j - 1].risk_code@, prev[i].risk_code@));
                } else if i > p {
                    assert(!code_point_lt(prev[j - 1].risk_code@, prev[i - 1].risk_code@));
                } else {
                    assert(!code_point_lt(prev[j].risk_code@, prev[i].risk_code@));
                }
            }
            vstd::seq_lib::to_multiset_insert(prev, p as int, x);
            vstd::seq_lib::to_multiset_build(rest@, x);
            assert(out@.to_multiset() == prev.to_multiset().insert(x));
            assert(before.to_multiset() == rest@.to_multiset().insert(x));
            assert(out@.to_multiset().add(rest@.to_multiset()) =~= prev.to_multiset().add(before.to_multiset())) by {
                broadcast use vstd::multiset::group_multiset_axioms;

            }
        }
    }
    proof {
        assert(rest@ =~= Seq::<RiskCoverageEntry>::empty());
        assert(rest@.to_multiset() =~= vstd::multiset::Multiset::<RiskCoverageEntry>::empty()) by {
            broadcast use vstd::seq_lib::to_multiset_len;

            rest@.to_multiset_ensures();
        }
        assert(out@.to_multiset() =~= orig.to_multiset());
    }
    out
}

/// The dashboard's coverage strip: one entry per risk row, each as
/// [`compute_risk_coverage`] makes it, in ascending risk-code order.
pub fn risk_coverage_in_code_order(rows: &CoverageRows) -> (out: Vec<RiskCoverageEntry>)
    requires
        coverage_fits(*rows),
    ensures
        out@.len() == rows.risks@.len(),
        ordered_by_code(out@),
        exists|v: Seq<RiskCoverageEntry>|
            #![trigger v.to_multiset()]
            v.len() == rows.risks@.len() && (forall|i: int| 0 <= i < v.len() ==> coverage_entry_spec(*rows, i, #[trigger] v[i]))
                && out@.to_multiset() == v.to_multiset(),
        forall|i: int|
            0 <= i < out@.len() ==> (#[trigger] out@[i]).tests_with_exceptions <= out@[i].tests_with_results
                <= out@[i].test_count,
{
    let v = compute_risk_coverage(rows);
    let ghost vs = v@;
    let out = order_by_code(v);
    proof {
        out@.to_multiset_ensures();
        vs.to_multiset_ensures();
        assert forall|i: int| 0 <= i < out@.len() implies (#[trigger] out@[i]).tests_with_exceptions
            <= out@[i].tests_with_results <= out@[i].test_count by {
            assert(out@.contains(out@[i]));
            vstd::seq_lib::to_multiset_contains(out@, out@[i]);
            vstd::seq_lib::to_multiset_contains(vs, out@[i]);
            assert(vs.contains(out@[i]));
            let k = choose|k: int| 0 <= k < vs.len() && vs[k] == out@[i];
            assert(vs[k] == out@[i]);
        }
    }
    out
}

} // verus!
