//! What each matcher rule reads and how its run is reported: the data
//! inputs it resolves (override keys, accepted purpose tags, labels), the
//! family and report names it is filed under, and the one-line exception
//! summary of its outcome.

use vstd::prelude::*;

use crate::findings::plural_spec;
use crate::testing::MatcherRule;
use crate::text::{concat3, decimal, decimal_spec};

verus! {

/// Views of a list of string slices.
pub open spec fn strs(v: Seq<&str>) -> Seq<Seq<char>> {
    v.map_values(|k: &str| k@)
}

/// One data input of a rule.
#[derive(Debug, Clone)]
pub struct RuleInput {
    /// Override keys tried in order to pin a specific import.
    pub override_keys: Vec<&'static str>,
    /// Purpose tags an import for this input may carry.
    pub purpose_tags: Vec<&'static str>,
    /// How the input is named when it cannot be resolved.
    pub label: &'static str,
    /// How the input is named when its file cannot be read.
    pub file_label: &'static str,
}

/// The view of a rule input: keys, tags, label, file label.
pub open spec fn input_view(i: RuleInput) -> (Seq<Seq<char>>, Seq<Seq<char>>, Seq<char>, Seq<char>) {
    (strs(i.override_keys@), strs(i.purpose_tags@), i.label@, i.file_label@)
}

/// The primary input each rule resolves.
pub open spec fn primary_input_spec(rule: MatcherRule) -> (Seq<Seq<char>>, Seq<Seq<char>>, Seq<char>, Seq<char>) {
    match rule {
        MatcherRule::UarTerminatedButActive | MatcherRule::UarDormantAccounts | MatcherRule::UarOrphanAccounts => (
            seq!["ad_export"@, "entra_export"@, "primary"@],
            seq!["ad_export"@, "entra_export"@],
            "AD or Entra export"@,
            "AD export"@,
        ),
        MatcherRule::ChgApprovalBeforeDeployment => (
            seq!["change_log"@, "change_register"@, "primary"@],
            seq!["change_log"@, "change_register"@],
            "change log"@,
            "change log"@,
        ),
        MatcherRule::ChgSodDevVsDeploy => (
            seq!["deploy_permissions"@, "deployment_access"@, "primary"@],
            seq!["deploy_permissions"@, "deployment_access"@],
            "deployment permission export"@,
            "deployment permission export"@,
        ),
        MatcherRule::BkpPerformance => (
            seq!["backup_log"@, "backup_register"@, "primary"@],
            seq!["backup_log"@, "backup_register"@],
            "backup log"@,
            "backup log"@,
        ),
        MatcherRule::ItacBenfordFirstDigit | MatcherRule::ItacDuplicateTransactions => (
            seq!["transaction_register"@, "transactions"@, "gl_export"@, "primary"@],
            seq!["transaction_register"@, "transactions"@, "gl_export"@],
            "transaction register"@,
            "transaction register"@,
        ),
    }
}

/// The second input a rule reconciles against, if it has one.
pub open spec fn supporting_input_spec(rule: MatcherRule) -> Option<
    (Seq<Seq<char>>, Seq<Seq<char>>, Seq<char>, Seq<char>),
> {
    match rule {
        MatcherRule::UarTerminatedButActive => Some(
            (
                seq!["hr_leavers"@, "supporting"@],
                seq!["hr_leavers"@],
                "HR leavers list"@,
                "HR leavers list"@,
            ),
        ),
        MatcherRule::UarOrphanAccounts => Some(
            (
                seq!["hr_master"@, "hr_roster"@, "supporting"@],
                seq!["hr_master"@, "hr_roster"@],
                "HR master roster"@,
                "HR master roster"@,
            ),
        ),
        MatcherRule::ChgSodDevVsDeploy => Some(
            (
                seq!["source_access"@, "source_repo_access"@, "supporting"@],
                seq!["source_access"@, "source_repo_access"@],
                "source repository access export"@,
                "source repository access export"@,
            ),
        ),
        _ => None,
    }
}

/// Family label, report slug and primary-input label of each rule.
pub open spec fn rule_names_spec(rule: MatcherRule) -> (Seq<char>, Seq<char>, Seq<char>) {
    match rule {
        MatcherRule::UarTerminatedButActive | MatcherRule::UarDormantAccounts | MatcherRule::UarOrphanAccounts => (
            "User access review"@,
            "access-review"@,
            "AD export"@,
        ),
        MatcherRule::ChgApprovalBeforeDeployment => ("Change management"@, "change-management"@, "Change log"@),
        MatcherRule::ChgSodDevVsDeploy => (
            "Change management"@,
            "change-management-sod"@,
            "Deployment permission export"@,
        ),
        MatcherRule::BkpPerformance => ("Backup"@, "backup"@, "Backup log"@),
        MatcherRule::ItacBenfordFirstDigit => (
            "IT application controls"@,
            "itac-benford"@,
            "Transaction register"@,
        ),
        MatcherRule::ItacDuplicateTransactions => (
            "IT application controls"@,
            "itac-duplicates"@,
            "Transaction register"@,
        ),
    }
}

fn strs2(a: &'static str, b: &'static str) -> (r: Vec<&'static str>)
    ensures
        strs(r@) == seq![a@, b@],
{
    let v = vec![a, b];
    assert(strs(v@) =~= seq![a@, b@]);
    v
}

fn strs3(a: &'static str, b: &'static str, c: &'static str) -> (r: Vec<&'static str>)
    ensures
        strs(r@) == seq![a@, b@, c@],
{
    let v = vec![a, b, c];
    assert(strs(v@) =~= seq![a@, b@, c@]);
    v
}

fn strs4(a: &'static str, b: &'static str, c: &'static str, d: &'static str) -> (r: Vec<&'static str>)
    ensures
        strs(r@) == seq![a@, b@, c@, d@],
{
    let v = vec![a, b, c, d];
    assert(strs(v@) =~= seq![a@, b@, c@, d@]);
    v
}

fn one_tag(a: &'static str) -> (r: Vec<&'static str>)
    ensures
        strs(r@) == seq![a@],
{
    let v = vec![a];
    assert(strs(v@) =~= seq![a@]);
    v
}

impl MatcherRule {
    /// The primary input of the rule.
    pub fn primary_input(&self) -> (r: RuleInput)
        ensures
            input_view(r) == primary_input_spec(*self),
    {
        match self {
            MatcherRule::UarTerminatedButActive | MatcherRule::UarDormantAccounts | MatcherRule::UarOrphanAccounts => {
                RuleInput {
                    override_keys: strs3("ad_export", "entra_export", "primary"),
                    purpose_tags: strs2("ad_export", "entra_export"),
                    label: "AD or Entra export",
                    file_label: "AD export",
                }
            },
            MatcherRule::ChgApprovalBeforeDeployment => RuleInput {
                override_keys: strs3("change_log", "change_register", "primary"),
                purpose_tags: strs2("change_log", "change_register"),
                label: "change log",
                file_label: "change log",
            },
            MatcherRule::ChgSodDevVsDeploy => RuleInput {
                override_keys: strs3("deploy_permissions", "deployment_access", "primary"),
                purpose_tags: strs2("deploy_permissions", "deployment_access"),
                label: "deployment permission export",
                file_label: "deployment permission export",
            },
            MatcherRule::BkpPerformance => RuleInput {
                override_keys: strs3("backup_log", "backup_register", "primary"),
                purpose_tags: strs2("backup_log", "backup_register"),
                label: "backup log",
                file_label: "backup log",
            },
            MatcherRule::ItacBenfordFirstDigit | MatcherRule::ItacDuplicateTransactions => RuleInput {
                override_keys: strs4("transaction_register", "transactions", "gl_export", "primary"),
                purpose_tags: strs3("transaction_register", "transactions", "gl_export"),
                label: "transaction register",
                file_label: "transaction register",
            },
        }
    }

    /// The supporting input of the rule, if it reads one.
    pub fn supporting_input(&self) -> (r: Option<RuleInput>)
        ensures
            match r {
                Some(i) => supporting_input_spec(*self) == Some(input_view(i)),
                None => supporting_input_spec(*self) is None,
            },
    {
        match self {
            MatcherRule::UarTerminatedButActive => Some(
                RuleInput {
                    override_keys: strs2("hr_leavers", "supporting"),
                    purpose_tags: one_tag("hr_leavers"),
                    label: "HR leavers list",
                    file_label: "HR leavers list",
                },
            ),
            MatcherRule::UarOrphanAccounts => Some(
                RuleInput {
                    override_keys: strs3("hr_master", "hr_roster", "supporting"),
                    purpose_tags: strs2("hr_master", "hr_roster"),
                    label: "HR master roster",
                    file_label: "HR master roster",
                },
            ),
            MatcherRule::ChgSodDevVsDeploy => Some(
                RuleInput {
                    override_keys: strs3("source_access", "source_repo_access", "supporting"),
                    purpose_tags: strs2("source_access", "source_repo_access"),
                    label: "source repository access export",
                    file_label: "source repository access export",
                },
            ),
            _ => None,
        }
    }

    /// Family label, report slug and primary-input label.
    pub fn names(&self) -> (r: (&'static str, &'static str, &'static str))
        ensures
            (r.0@, r.1@, r.2@) == rule_names_spec(*self),
    {
        match self {
            MatcherRule::UarTerminatedButActive | MatcherRule::UarDormantAccounts | MatcherRule::UarOrphanAccounts => (
                "User access review",
                "access-review",
                "AD export",
            ),
            MatcherRule::ChgApprovalBeforeDeployment => ("Change management", "change-management", "Change log"),
            MatcherRule::ChgSodDevVsDeploy => (
                "Change management",
                "change-management-sod",
                "Deployment permission export",
            ),
            MatcherRule::BkpPerformance => ("Backup", "backup", "Backup log"),
            MatcherRule::ItacBenfordFirstDigit => ("IT application controls", "itac-benford", "Transaction register"),
            MatcherRule::ItacDuplicateTransactions => (
                "IT application controls",
                "itac-duplicates",
                "Transaction register",
            ),
        }
    }
}

// ---------------------------------------------------------------------------
// Exception summaries
// ---------------------------------------------------------------------------

/// `{n} {noun}` with the noun pluralised unless `n` is one.
pub open spec fn count_phrase(n: nat, noun: Seq<char>) -> Seq<char> {
    decimal_spec(n) + " "@ + noun + plural_spec(n as int)
}

fn plural_count(n: u64) -> (r: &'static str)
    ensures
        r@ == plural_spec(n as int),
{
    if n == 1 {
        proof {
            reveal_strlit("");
        }
        ""
    } else {
        "s"
    }
}

fn phrase(n: u64, noun: &str) -> (r: String)
    ensures
        r@ == count_phrase(n as nat, noun@),
{
    let d = decimal(n);
    let mut s = concat3(d.as_str(), " ", noun);
    s.append(plural_count(n));
    s
}

/// Summary of a terminated-but-active run.
pub open spec fn terminated_summary_spec(exceptions: nat, ad_rows: nat, leaver_rows: nat) -> Seq<char> {
    if exceptions == 0 {
        "No terminated users still enabled across "@ + decimal_spec(ad_rows) + " AD rows and "@ + decimal_spec(
            leaver_rows,
        ) + " leaver rows"@
    } else {
        count_phrase(exceptions, "terminated user"@) + " still enabled in AD"@
    }
}

/// `N terminated users still enabled in AD`, or the all-clear line.
pub fn terminated_summary(exceptions: u64, ad_rows: u64, leaver_rows: u64) -> (r: String)
    ensures
        r@ == terminated_summary_spec(exceptions as nat, ad_rows as nat, leaver_rows as nat),
{
    if exceptions == 0 {
        let mut s = "No terminated users still enabled across ".to_owned();
        s.append(decimal(ad_rows).as_str());
        s.append(" AD rows and ");
        s.append(decimal(leaver_rows).as_str());
        s.append(" leaver rows");
        s
    } else {
        let mut s = phrase(exceptions, "terminated user");
        s.append(" still enabled in AD");
        s
    }
}

/// Summary of a dormant-accounts run at `threshold_days`.
pub open spec fn dormant_summary_spec(exceptions: nat, ad_rows: nat, threshold_days: nat) -> Seq<char> {
    if exceptions == 0 {
        "No dormant accounts across "@ + decimal_spec(ad_rows) + " AD rows at a "@ + decimal_spec(threshold_days)
            + "-day threshold"@
    } else {
        count_phrase(exceptions, "dormant account"@) + " exceeding the "@ + decimal_spec(threshold_days)
            + "-day threshold"@
    }
}

/// `N dormant accounts exceeding the D-day threshold`, or the all-clear line.
pub fn dormant_summary(exceptions: u64, ad_rows: u64, threshold_days: u64) -> (r: String)
    ensures
        r@ == dormant_summary_spec(exceptions as nat, ad_rows as nat, threshold_days as nat),
{
    if exceptions == 0 {
        let mut s = "No dormant accounts across ".to_owned();
        s.append(decimal(ad_rows).as_str());
        s.append(" AD rows at a ");
        s.append(decimal(threshold_days).as_str());
        s.append("-day threshold");
        s
    } else {
        let mut s = phrase(exceptions, "dormant account");
        s.append(" exceeding the ");
        s.append(decimal(threshold_days).as_str());
        s.append("-day threshold");
        s
    }
}

/// Summary of an orphan-accounts run.
pub open spec fn orphan_summary_spec(exceptions: nat, ad_rows: nat, hr_rows: nat) -> Seq<char> {
    if exceptions == 0 {
        "No orphan accounts across "@ + count_phrase(ad_rows, "AD row"@) + " and "@ + count_phrase(
            hr_rows,
            "HR row"@,
        )
    } else {
        count_phrase(exceptions, "orphan account"@) + " with no HR record"@
    }
}

/// `N orphan accounts with no HR record`, or the all-clear line.
pub fn orphan_summary(exceptions: u64, ad_rows: u64, hr_rows: u64) -> (r: String)
    ensures
        r@ == orphan_summary_spec(exceptions as nat, ad_rows as nat, hr_rows as nat),
{
    if exceptions == 0 {
        let mut s = "No orphan accounts across ".to_owned();
        s.append(phrase(ad_rows, "AD row").as_str());
        s.append(" and ");
        s.append(phrase(hr_rows, "HR row").as_str());
        s
    } else {
        let mut s = phrase(exceptions, "orphan account");
        s.append(" with no HR record");
        s
    }
}

/// Summary of a change-approval run.
pub open spec fn approval_summary_spec(exceptions: nat, changes: nat) -> Seq<char> {
    if exceptions == 0 {
        "No approval exceptions across "@ + count_phrase(changes, "in-scope change"@)
    } else {
        count_phrase(exceptions, "approval exception"@) + " across "@ + count_phrase(changes, "in-scope change"@)
    }
}

/// `N approval exceptions across M in-scope changes`, or the all-clear line.
pub fn approval_summary(exceptions: u64, changes: u64) -> (r: String)
    ensures
        r@ == approval_summary_spec(exceptions as nat, changes as nat),
{
    if exceptions == 0 {
        let mut s = "No approval exceptions across ".to_owned();
        s.append(phrase(changes, "in-scope change").as_str());
        s
    } else {
        let mut s = phrase(exceptions, "approval exception");
        s.append(" across ");
        s.append(phrase(changes, "in-scope change").as_str());
        s
    }
}

/// Summary of a segregation-of-duties run.
pub open spec fn sod_summary_spec(exceptions: nat, deploy_rows: nat, source_rows: nat) -> Seq<char> {
    if exceptions == 0 {
        "No SoD overlap across "@ + count_phrase(deploy_rows, "deploy-permission row"@) + " and "@ + count_phrase(
            source_rows,
            "source-access row"@,
        )
    } else {
        count_phrase(exceptions, "user"@) + " with both deploy-to-production and source-write access"@
    }
}

/// `N users with both deploy-to-production and source-write access`, or
/// the all-clear line.
pub fn sod_summary(exceptions: u64, deploy_rows: u64, source_rows: u64) -> (r: String)
    ensures
        r@ == sod_summary_spec(exceptions as nat, deploy_rows as nat, source_rows as nat),
{
    if exceptions == 0 {
        let mut s = "No SoD overlap across ".to_owned();
        s.append(phrase(deploy_rows, "deploy-permission row").as_str());
        s.append(" and ");
        s.append(phrase(source_rows, "source-access row").as_str());
        s
    } else {
        let mut s = phrase(exceptions, "user");
        s.append(" with both deploy-to-production and source-write access");
        s
    }
}

/// Summary of a backup-performance run.
pub open spec fn backup_summary_spec(exceptions: nat, jobs: nat) -> Seq<char> {
    if exceptions == 0 {
        "No failed or unverified backups across "@ + count_phrase(jobs, "job"@)
    } else {
        count_phrase(exceptions, "backup exception"@) + " across "@ + count_phrase(jobs, "job"@)
    }
}

/// `N backup exceptions across M jobs`, or the all-clear line.
pub fn backup_summary(exceptions: u64, jobs: u64) -> (r: String)
    ensures
        r@ == backup_summary_spec(exceptions as nat, jobs as nat),
{
    if exceptions == 0 {
        let mut s = "No failed or unverified backups across ".to_owned();
        s.append(phrase(jobs, "job").as_str());
        s
    } else {
        let mut s = phrase(exceptions, "backup exception");
        s.append(" across ");
        s.append(phrase(jobs, "job").as_str());
        s
    }
}

/// Summary of a Benford first-digit run; `too_small` says whether the
/// population fell short of `min_rows` digit rows.
pub open spec fn benford_summary_spec(exceptions: nat, too_small: bool, digit_rows: nat, min_rows: nat) -> Seq<
    char,
> {
    if exceptions == 0 {
        "Population consistent with Benford across "@ + count_phrase(digit_rows, "evaluated transaction"@)
    } else if too_small {
        "Population too small for Benford analysis ("@ + count_phrase(digit_rows, "digit row"@) + "; "@
            + decimal_spec(min_rows) + " required)"@
    } else {
        count_phrase(exceptions, "digit"@) + " deviate materially from Benford across "@ + count_phrase(
            digit_rows,
            "evaluated transaction"@,
        )
    }
}

/// The Benford run's summary line.
pub fn benford_summary(exceptions: u64, too_small: bool, digit_rows: u64, min_rows: u64) -> (r: String)
    ensures
        r@ == benford_summary_spec(exceptions as nat, too_small, digit_rows as nat, min_rows as nat),
{
    if exceptions == 0 {
        let mut s = "Population consistent with Benford across ".to_owned();
        s.append(phrase(digit_rows, "evaluated transaction").as_str());
        s
    } else if too_small {
        let mut s = "Population too small for Benford analysis (".to_owned();
        s.append(phrase(digit_rows, "digit row").as_str());
        s.append("; ");
        s.append(decimal(min_rows).as_str());
        s.append(" required)");
        s
    } else {
        let mut s = phrase(exceptions, "digit");
        s.append(" deviate materially from Benford across ");
        s.append(phrase(digit_rows, "evaluated transaction").as_str());
        s
    }
}

/// Summary of a duplicate-transaction run.
pub open spec fn duplicates_summary_spec(exceptions: nat, groups: nat, duplicate_rows: nat, rows: nat) -> Seq<
    char,
> {
    if exceptions == 0 {
        "No duplicate transactions found across "@ + count_phrase(rows, "considered row"@)
    } else {
        count_phrase(groups, "duplicate group"@) + " covering "@ + count_phrase(duplicate_rows, "row"@)
            + " across "@ + count_phrase(rows, "considered row"@)
    }
}

/// The duplicate-transaction run's summary line.
pub fn duplicates_summary(exceptions: u64, groups: u64, duplicate_rows: u64, rows: u64) -> (r: String)
    ensures
        r@ == duplicates_summary_spec(exceptions as nat, groups as nat, duplicate_rows as nat, rows as nat),
{
    if exceptions == 0 {
        let mut s = "No duplicate transactions found across ".to_owned();
        s.append(phrase(rows, "considered row").as_str());
        s
    } else {
        let mut s = phrase(groups, "duplicate group");
        s.append(" covering ");
        s.append(phrase(duplicate_rows, "row").as_str());
        s.append(" across ");
        s.append(phrase(rows, "considered row").as_str());
        s
    }
}

/// What a rule's matcher reports about one run: the number of exceptions
/// and the rule's own counters.
#[derive(Debug, Clone, Copy)]
pub enum RuleReport {
    TerminatedButActive {
        exceptions: u64,
        ad_rows_considered: u64,
        ad_rows_skipped_disabled: u64,
        leaver_rows_considered: u64,
        ad_rows_skipped_unmatchable: u64,
    },
    DormantAccounts {
        exceptions: u64,
        ad_rows_considered: u64,
        ad_rows_skipped_disabled: u64,
        ad_rows_skipped_no_last_logon: u64,
        ad_rows_skipped_unparseable: u64,
        threshold_days: u64,
    },
    OrphanAccounts {
        exceptions: u64,
        ad_rows_considered: u64,
        ad_rows_skipped_disabled: u64,
        ad_rows_skipped_unmatchable: u64,
        hr_rows_considered: u64,
    },
    ApprovalBeforeDeployment {
        exceptions: u64,
        changes_considered: u64,
        changes_skipped_standard: u64,
        changes_skipped_cancelled: u64,
        changes_skipped_not_deployed: u64,
        changes_skipped_no_id: u64,
        changes_skipped_unparseable_dates: u64,
    },
    SodDevVsDeploy {
        exceptions: u64,
        deploy_rows_considered: u64,
        deploy_rows_skipped_unmatchable: u64,
        source_rows_considered: u64,
        source_rows_skipped_unmatchable: u64,
        intersecting_users: u64,
    },
    BackupPerformance { exceptions: u64, jobs_considered: u64, jobs_skipped_no_id: u64, jobs_skipped_unknown_status: u64 },
    BenfordFirstDigit {
        exceptions: u64,
        /// One of the exceptions says the population is too small to test.
        population_too_small: bool,
        rows_considered: u64,
        rows_skipped_unparseable: u64,
        rows_skipped_zero: u64,
        digit_rows_evaluated: u64,
        min_digit_rows: u64,
    },
    DuplicateTransactions {
        exceptions: u64,
        rows_considered: u64,
        rows_skipped_unparseable: u64,
        rows_skipped_zero: u64,
        rows_skipped_no_key: u64,
        duplicate_group_count: u64,
        total_duplicate_rows: u64,
    },
}

/// The rule a report belongs to.
pub open spec fn report_rule(r: RuleReport) -> MatcherRule {
    match r {
        RuleReport::TerminatedButActive { .. } => MatcherRule::UarTerminatedButActive,
        RuleReport::DormantAccounts { .. } => MatcherRule::UarDormantAccounts,
        RuleReport::OrphanAccounts { .. } => MatcherRule::UarOrphanAccounts,
        RuleReport::ApprovalBeforeDeployment { .. } => MatcherRule::ChgApprovalBeforeDeployment,
        RuleReport::SodDevVsDeploy { .. } => MatcherRule::ChgSodDevVsDeploy,
        RuleReport::BackupPerformance { .. } => MatcherRule::BkpPerformance,
        RuleReport::BenfordFirstDigit { .. } => MatcherRule::ItacBenfordFirstDigit,
        RuleReport::DuplicateTransactions { .. } => MatcherRule::ItacDuplicateTransactions,
    }
}

/// The number of exceptions a report holds.
pub open spec fn report_exceptions(r: RuleReport) -> u64 {
    match r {
        RuleReport::TerminatedButActive { exceptions, .. } => exceptions,
        RuleReport::DormantAccounts { exceptions, .. } => exceptions,
        RuleReport::OrphanAccounts { exceptions, .. } => exceptions,
        RuleReport::ApprovalBeforeDeployment { exceptions, .. } => exceptions,
        RuleReport::SodDevVsDeploy { exceptions, .. } => exceptions,
        RuleReport::BackupPerformance { exceptions, .. } => exceptions,
        RuleReport::BenfordFirstDigit { exceptions, .. } => exceptions,
        RuleReport::DuplicateTransactions { exceptions, .. } => exceptions,
    }
}

/// The summary line of a run that produced `r`.
pub open spec fn report_summary_spec(r: RuleReport) -> Seq<char> {
    match r {
        RuleReport::TerminatedButActive { exceptions, ad_rows_considered, leaver_rows_considered, .. } =>
            terminated_summary_spec(exceptions as nat, ad_rows_considered as nat, leaver_rows_considered as nat),
        RuleReport::DormantAccounts { exceptions, ad_rows_considered, threshold_days, .. } => dormant_summary_spec(
            exceptions as nat,
            ad_rows_considered as nat,
            threshold_days as nat,
        ),
        RuleReport::OrphanAccounts { exceptions, ad_rows_considered, hr_rows_considered, .. } =>
            orphan_summary_spec(exceptions as nat, ad_rows_considered as nat, hr_rows_considered as nat),
        RuleReport::ApprovalBeforeDeployment { exceptions, changes_considered, .. } => approval_summary_spec(
            exceptions as nat,
            changes_considered as nat,
        ),
        RuleReport::SodDevVsDeploy { exceptions, deploy_rows_considered, source_rows_considered, .. } =>
            sod_summary_spec(exceptions as nat, deploy_rows_considered as nat, source_rows_considered as nat),
        RuleReport::BackupPerformance { exceptions, jobs_considered, .. } => backup_summary_spec(
            exceptions as nat,
            jobs_considered as nat,
        ),
        RuleReport::BenfordFirstDigit {
            exceptions,
            population_too_small,
            digit_rows_evaluated,
            min_digit_rows,
            ..
        } => benford_summary_spec(
            exceptions as nat,
            population_too_small,
            digit_rows_evaluated as nat,
            min_digit_rows as nat,
        ),
        RuleReport::DuplicateTransactions {
            exceptions,
            rows_considered,
            duplicate_group_count,
            total_duplicate_rows,
            ..
        } => duplicates_summary_spec(
            exceptions as nat,
            duplicate_group_count as nat,
            total_duplicate_rows as nat,
            rows_considered as nat,
        ),
    }
}

impl RuleReport {
    /// The rule the report belongs to.
    pub fn rule(&self) -> (r: MatcherRule)
        ensures
            r == report_rule(*self),
    {
        match self {
            RuleReport::TerminatedButActive { .. } => MatcherRule::UarTerminatedButActive,
            RuleReport::DormantAccounts { .. } => MatcherRule::UarDormantAccounts,
            RuleReport::OrphanAccounts { .. } => MatcherRule::UarOrphanAccounts,
            RuleReport::ApprovalBeforeDeployment { .. } => MatcherRule::ChgApprovalBeforeDeployment,
            RuleReport::SodDevVsDeploy { .. } => MatcherRule::ChgSodDevVsDeploy,
            RuleReport::BackupPerformance { .. } => MatcherRule::BkpPerformance,
            RuleReport::BenfordFirstDigit { .. } => MatcherRule::ItacBenfordFirstDigit,
            RuleReport::DuplicateTransactions { .. } => MatcherRule::ItacDuplicateTransactions,
        }
    }

    /// The number of exceptions.
    pub fn exceptions(&self) -> (r: u64)
        ensures
            r == report_exceptions(*self),
    {
        match self {
            RuleReport::TerminatedButActive { exceptions, .. } => *exceptions,
            RuleReport::DormantAccounts { exceptions, .. } => *exceptions,
            RuleReport::OrphanAccounts { exceptions, .. } => *exceptions,
            RuleReport::ApprovalBeforeDeployment { exceptions, .. } => *exceptions,
            RuleReport::SodDevVsDeploy { exceptions, .. } => *exceptions,
            RuleReport::BackupPerformance { exceptions, .. } => *exceptions,
            RuleReport::BenfordFirstDigit { exceptions, .. } => *exceptions,
            RuleReport::DuplicateTransactions { exceptions, .. } => *exceptions,
        }
    }

    /// The one-line exception summary of the run.
    pub fn summary(&self) -> (r: String)
        ensures
            r@ == report_summary_spec(*self),
    {
        match self {
            RuleReport::TerminatedButActive { exceptions, ad_rows_considered, leaver_rows_considered, .. } =>
                terminated_summary(*exceptions, *ad_rows_considered, *leaver_rows_considered),
            RuleReport::DormantAccounts { exceptions, ad_rows_considered, threshold_days, .. } => dormant_summary(
                *exceptions,
                *ad_rows_considered,
                *threshold_days,
            ),
            RuleReport::OrphanAccounts { exceptions, ad_rows_considered, hr_rows_considered, .. } => orphan_summary(
                *exceptions,
                *ad_rows_considered,
                *hr_rows_considered,
            ),
            RuleReport::ApprovalBeforeDeployment { exceptions, changes_considered, .. } => approval_summary(
                *exceptions,
                *changes_considered,
            ),
            RuleReport::SodDevVsDeploy { exceptions, deploy_rows_considered, source_rows_considered, .. } =>
                sod_summary(*exceptions, *deploy_rows_considered, *source_rows_considered),
            RuleReport::BackupPerformance { exceptions, jobs_considered, .. } => backup_summary(
                *exceptions,
                *jobs_considered,
            ),
            RuleReport::BenfordFirstDigit {
                exceptions,
                population_too_small,
                digit_rows_evaluated,
                min_digit_rows,
                ..
            } => benford_summary(*exceptions, *population_too_small, *digit_rows_evaluated, *min_digit_rows),
            RuleReport::DuplicateTransactions {
                exceptions,
                rows_considered,
                duplicate_group_count,
                total_duplicate_rows,
                ..
            } => duplicates_summary(*exceptions, *duplicate_group_count, *total_duplicate_rows, *rows_considered),
        }
    }
}

/// The activity-log line of a matcher run.
pub open spec fn run_activity_spec(family: Seq<char>, test_code: Seq<char>, summary: Seq<char>) -> Seq<char> {
    family + " matcher on "@ + test_code + ": "@ + summary
}

/// `{family} matcher on {test code}: {summary}`.
pub fn run_activity(family: &str, test_code: &str, summary: &str) -> (r: String)
    ensures
        r@ == run_activity_spec(family@, test_code@, summary@),
{
    let mut s = concat3(family, " matcher on ", test_code);
    s.append(": ");
    s.append(summary);
    s
}

/// The title of a matcher report's evidence row.
pub open spec fn report_title_spec(test_code: Seq<char>) -> Seq<char> {
    "Matcher report — "@ + test_code
}

/// `Matcher report — {test code}`.
pub fn report_title(test_code: &str) -> (r: String)
    ensures
        r@ == report_title_spec(test_code@),
{
    let mut s = "Matcher report — ".to_owned();
    s.append(test_code);
    s
}

} // verus!
