//! Status counters and the "needs attention" list of the engagement dashboard.

use vstd::prelude::*;

use crate::coverage::{count_where, equals_id};
use crate::engagements::StatusCounts;
use crate::text::str_eq;

verus! {

/// Per-row values the status counters are computed from.
#[derive(Debug, Clone)]
pub struct StatusRows {
    pub controls_total: i64,
    pub risks_total: i64,
    /// `Test.status` of every test of the engagement.
    pub test_statuses: Vec<String>,
    /// `TestResult.outcome` of every result of the engagement's tests.
    pub result_outcomes: Vec<String>,
    /// `Finding.status` of every finding of the engagement.
    pub finding_statuses: Vec<String>,
    /// `Finding.severity_id` of every finding of the engagement.
    pub finding_severities: Vec<Option<String>>,
    pub data_imports_total: i64,
    pub evidence_total: i64,
}

/// Predicate on optional ids: present and equal to `r`.
pub open spec fn equals_some_id(r: Seq<char>) -> spec_fn(Option<String>) -> bool {
    |x: Option<String>|
        match x {
            Some(s) => s@ == r,
            None => false,
        }
}

/// Number of rows of `s` equal to `key`.
pub open spec fn bucket(s: Seq<String>, key: Seq<char>) -> nat {
    count_where(s, equals_id(key))
}

/// Number of findings with severity `key`.
pub open spec fn severity_bucket(s: Seq<Option<String>>, key: Seq<char>) -> nat {
    count_where(s, equals_some_id(key))
}

/// The row counts fit the `i64` counters.
pub open spec fn status_rows_fit(rows: StatusRows) -> bool {
    &&& rows.test_statuses@.len() <= i64::MAX
    &&& rows.result_outcomes@.len() <= i64::MAX
    &&& rows.finding_statuses@.len() <= i64::MAX
    &&& rows.finding_severities@.len() <= i64::MAX
}

/// What the counters hold.
pub open spec fn status_counts_spec(rows: StatusRows, c: StatusCounts) -> bool {
    &&& c.controls_total == rows.controls_total
    &&& c.risks_total == rows.risks_total
    &&& c.tests_total == rows.test_statuses@.len()
    &&& c.tests_not_started == bucket(rows.test_statuses@, "not_started"@)
    &&& c.tests_in_progress == bucket(rows.test_statuses@, "in_progress"@)
    &&& c.tests_in_review == bucket(rows.test_statuses@, "in_review"@)
    &&& c.tests_completed == bucket(rows.test_statuses@, "completed"@)
    &&& c.results_total == rows.result_outcomes@.len()
    &&& c.results_pass == bucket(rows.result_outcomes@, "pass"@)
    &&& c.results_exception == bucket(rows.result_outcomes@, "exception"@)
    &&& c.results_fail == bucket(rows.result_outcomes@, "fail"@)
    &&& c.findings_total == rows.finding_statuses@.len()
    &&& c.findings_draft == bucket(rows.finding_statuses@, "draft"@)
    &&& c.findings_issued == bucket(rows.finding_statuses@, "issued"@)
    &&& c.findings_remediated == bucket(rows.finding_statuses@, "remediated"@)
    &&& c.findings_closed == bucket(rows.finding_statuses@, "closed"@)
    &&& c.findings_critical == severity_bucket(rows.finding_severities@, "sev-critical"@)
    &&& c.findings_high == severity_bucket(rows.finding_severities@, "sev-high"@)
    &&& c.findings_medium == severity_bucket(rows.finding_severities@, "sev-medium"@)
    &&& c.findings_low == severity_bucket(rows.finding_severities@, "sev-low"@)
    &&& c.findings_observation == severity_bucket(rows.finding_severities@, "sev-observation"@)
    &&& c.data_imports_total == rows.data_imports_total
    &&& c.evidence_total == rows.evidence_total
}

proof fn lemma_count_step<A>(s: Seq<A>, p: spec_fn(A) -> bool, i: int)
    requires
        0 <= i < s.len(),
    ensures
        count_where(s.subrange(0, i + 1), p) == count_where(s.subrange(0, i), p) + if p(s[i]) {
            1nat
        } else {
            0nat
        },
{
    assert(s.subrange(0, i + 1).drop_last() =~= s.subrange(0, i));
}

/// Rows of `s` equal to `key`.
fn count_bucket(s: &Vec<String>, key: &str) -> (n: i64)
    requires
        s@.len() <= i64::MAX,
    ensures
        n == bucket(s@, key@),
{
    let mut n: i64 = 0;
    let mut i: usize = 0;
    while i < s.len()
        invariant
            i <= s@.len(),
            s@.len() <= i64::MAX,
            n == count_where(s@.subrange(0, i as int), equals_id(key@)),
            0 <= n <= i,
        decreases s@.len() - i,
    {
        proof {
            lemma_count_step(s@, equals_id(key@), i as int);
        }
        if str_eq(s[i].as_str(), key) {
            n = n + 1;
        }
        i = i + 1;
    }
    assert(s@.subrange(0, s@.len() as int) =~= s@);
    n
}

/// Findings whose severity is `key`.
fn count_severity(s: &Vec<Option<String>>, key: &str) -> (n: i64)
    requires
        s@.len() <= i64::MAX,
    ensures
        n == severity_bucket(s@, key@),
{
    let mut n: i64 = 0;
    let mut i: usize = 0;
    while i < s.len()
        invariant
            i <= s@.len(),
            s@.len() <= i64::MAX,
            n == count_where(s@.subrange(0, i as int), equals_some_id(key@)),
            0 <= n <= i,
        decreases s@.len() - i,
    {
        proof {
            lemma_count_step(s@, equals_some_id(key@), i as int);
        }
        let hit = match &s[i] {
            Some(v) => str_eq(v.as_str(), key),
            None => false,
        };
        if hit {
            n = n + 1;
        }
        i = i + 1;
    }
    assert(s@.subrange(0, s@.len() as int) =~= s@);
    n
}

/// The dashboard's roll-up counters.
pub fn compute_status_counts(rows: &StatusRows) -> (c: StatusCounts)
    requires
        status_rows_fit(*rows),
    ensures
        status_counts_spec(*rows, c),
{
    StatusCounts {
        controls_total: rows.controls_total,
        risks_total: rows.risks_total,
        tests_total: rows.test_statuses.len() as i64,
        tests_not_started: count_bucket(&rows.test_statuses, "not_started"),
        tests_in_progress: count_bucket(&rows.test_statuses, "in_progress"),
        tests_in_review: count_bucket(&rows.test_statuses, "in_review"),
        tests_completed: count_bucket(&rows.test_statuses, "completed"),
        results_total: rows.result_outcomes.len() as i64,
        results_pass: count_bucket(&rows.result_outcomes, "pass"),
        results_exception: count_bucket(&rows.result_outcomes, "exception"),
        results_fail: count_bucket(&rows.result_outcomes, "fail"),
        findings_total: rows.finding_statuses.len() as i64,
        findings_draft: count_bucket(&rows.finding_statuses, "draft"),
        findings_issued: count_bucket(&rows.finding_statuses, "issued"),
        findings_remediated: count_bucket(&rows.finding_statuses, "remediated"),
        findings_closed: count_bucket(&rows.finding_statuses, "closed"),
        findings_critical: count_severity(&rows.finding_severities, "sev-critical"),
        findings_high: count_severity(&rows.finding_severities, "sev-high"),
        findings_medium: count_severity(&rows.finding_severities, "sev-medium"),
        findings_low: count_severity(&rows.finding_severities, "sev-low"),
        findings_observation: count_severity(&rows.finding_severities, "sev-observation"),
        data_imports_total: rows.data_imports_total,
        evidence_total: rows.evidence_total,
    }
}

/// Counting rows that satisfy one of two exclusive predicates counts each
/// row at most once.
proof fn lemma_two_buckets<A>(s: Seq<A>, p: spec_fn(A) -> bool, q: spec_fn(A) -> bool)
    requires
        forall|a: A| #[trigger] p(a) ==> !q(a),
    ensures
        count_where(s, p) + count_where(s, q) == count_where(s, |a: A| p(a) || q(a)),
    decreases s.len(),
{
    if s.len() > 0 {
        lemma_two_buckets(s.drop_last(), p, q);
    }
}

proof fn lemma_count_le<A>(s: Seq<A>, p: spec_fn(A) -> bool)
    ensures
        count_where(s, p) <= s.len(),
    decreases s.len(),
{
    if s.len() > 0 {
        lemma_count_le(s.drop_last(), p);
    }
}

/// The four status buckets never add up to more than the number of tests,
/// and likewise the result and finding-status buckets.
pub proof fn lemma_status_buckets_within_totals(rows: StatusRows, c: StatusCounts)
    requires
        status_counts_spec(rows, c),
    ensures
        c.tests_not_started + c.tests_in_progress + c.tests_in_review + c.tests_completed
            <= c.tests_total,
        c.results_pass + c.results_exception + c.results_fail <= c.results_total,
        c.findings_draft + c.findings_issued + c.findings_remediated + c.findings_closed
            <= c.findings_total,
{
    reveal_strlit("not_started");
    reveal_strlit("in_progress");
    reveal_strlit("in_review");
    reveal_strlit("completed");
    reveal_strlit("pass");
    reveal_strlit("exception");
    reveal_strlit("fail");
    reveal_strlit("draft");
    reveal_strlit("issued");
    reveal_strlit("remediated");
    reveal_strlit("closed");
    differ_at("not_started"@, "in_progress"@, 0);
    differ_at("not_started"@, "in_review"@, 0);
    differ_at("not_started"@, "completed"@, 0);
    differ_at("in_progress"@, "in_review"@, 3);
    differ_at("in_progress"@, "completed"@, 0);
    differ_at("in_review"@, "completed"@, 0);
    differ_at("draft"@, "issued"@, 0);
    differ_at("draft"@, "remediated"@, 0);
    differ_at("draft"@, "closed"@, 0);
    differ_at("issued"@, "remediated"@, 0);
    differ_at("issued"@, "closed"@, 0);
    differ_at("remediated"@, "closed"@, 0);
    differ_at("pass"@, "exception"@, 0);
    differ_at("pass"@, "fail"@, 0);
    differ_at("exception"@, "fail"@, 0);
    four_buckets(rows.test_statuses@, "not_started"@, "in_progress"@, "in_review"@, "completed"@);
    four_buckets(rows.finding_statuses@, "draft"@, "issued"@, "remediated"@, "closed"@);
    let s = rows.result_outcomes@;
    let p = equals_id("pass"@);
    let q = equals_id("exception"@);
    let r = equals_id("fail"@);
    lemma_two_buckets(s, p, q);
    let pq = |a: String| p(a) || q(a);
    lemma_two_buckets(s, pq, r);
    lemma_count_le(s, |a: String| pq(a) || r(a));
}

/// Two sequences that differ at an index differ.
pub(crate) proof fn differ_at<A>(a: Seq<A>, b: Seq<A>, i: int)
    requires
        0 <= i < a.len(),
        i < b.len(),
        a[i] != b[i],
    ensures
        a != b,
{
}

proof fn four_buckets(s: Seq<String>, k1: Seq<char>, k2: Seq<char>, k3: Seq<char>, k4: Seq<char>)
    requires
        k1 != k2,
        k1 != k3,
        k1 != k4,
        k2 != k3,
        k2 != k4,
        k3 != k4,
    ensures
        bucket(s, k1) + bucket(s, k2) + bucket(s, k3) + bucket(s, k4) <= s.len(),
{
    let p1 = equals_id(k1);
    let p2 = equals_id(k2);
    let p3 = equals_id(k3);
    let p4 = equals_id(k4);
    lemma_two_buckets(s, p1, p2);
    let a = |x: String| p1(x) || p2(x);
    lemma_two_buckets(s, a, p3);
    let b = |x: String| a(x) || p3(x);
    lemma_two_buckets(s, b, p4);
    lemma_count_le(s, |x: String| b(x) || p4(x));
}

} // verus!
