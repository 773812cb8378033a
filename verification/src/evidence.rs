//! Evidence: the browsable face of an encrypted blob, with a title, a
//! source, a chain of custody, and the test or finding it supports. This
//! module holds the upload form, the ownership checks on links, and the
//! activity lines of evidence actions.

use vstd::prelude::*;

use crate::error::{message_of, AppError, AppResult};
use crate::testing::MAX_UPLOAD_BYTES;
use crate::text::{concat3, non_empty_trimmed, non_empty_trimmed_spec, opt_view, str_eq, trim, trim_spec};

verus! {

/// Source of a file an auditor attached by hand.
pub const EVIDENCE_SOURCE_AUDITOR_UPLOAD: &'static str = "auditor_upload";

/// Source of the evidence row created for a data import.
pub const EVIDENCE_SOURCE_DATA_IMPORT: &'static str = "data_import";

/// Source of the evidence row created for a matcher report.
pub const EVIDENCE_SOURCE_MATCHER_REPORT: &'static str = "matcher_report";

/// A file an auditor attaches as evidence.
#[derive(Debug, Clone)]
pub struct UploadEvidenceInput {
    pub engagement_id: String,
    pub title: String,
    pub description: Option<String>,
    pub obtained_from: Option<String>,
    /// When the evidence was obtained (epoch seconds); defaults to now.
    pub obtained_at: Option<i64>,
    pub test_id: Option<String>,
    pub finding_id: Option<String>,
    pub filename: String,
    pub mime_type: Option<String>,
    pub content: Vec<u8>,
}

/// A finding and a piece of evidence to link or unlink.
#[derive(Debug, Clone)]
pub struct EvidenceLinkInput {
    pub finding_id: String,
    pub evidence_id: String,
}

/// Evidence as listed.
#[derive(Debug, Clone)]
pub struct EvidenceSummary {
    pub id: String,
    pub engagement_id: String,
    pub title: String,
    pub description: Option<String>,
    pub source: String,
    pub filename: Option<String>,
    pub mime_type: Option<String>,
    pub plaintext_size: Option<i64>,
    pub test_id: Option<String>,
    pub test_code: Option<String>,
    pub test_result_id: Option<String>,
    pub data_import_id: Option<String>,
    pub obtained_at: i64,
    pub obtained_from: Option<String>,
    pub created_at: i64,
    pub created_by_name: Option<String>,
    pub linked_test_ids: Vec<String>,
    pub linked_finding_ids: Vec<String>,
}

/// A downloaded piece of evidence.
#[derive(Debug, Clone)]
pub struct EvidencePayload {
    pub id: String,
    pub filename: Option<String>,
    pub mime_type: Option<String>,
    pub content: Vec<u8>,
}

/// Upload fields after trimming; blank optional fields are dropped.
#[derive(Debug, Clone)]
pub struct ValidEvidenceUpload {
    pub engagement_id: String,
    pub title: String,
    pub filename: String,
    pub description: Option<String>,
    pub obtained_from: Option<String>,
    pub test_id: Option<String>,
    pub finding_id: Option<String>,
    pub mime_type: Option<String>,
    pub obtained_at: i64,
}

/// An optional text field after trimming.
pub open spec fn opt_field(o: Option<String>) -> Option<Seq<char>> {
    match o {
        Some(s) => non_empty_trimmed_spec(s@),
        None => None,
    }
}

/// Which rule, if any, rejects an evidence upload (checked in this order).
pub open spec fn evidence_rejection(input: UploadEvidenceInput) -> Option<Seq<char>> {
    if trim_spec(input.engagement_id@).len() == 0 {
        Some("engagement is required"@)
    } else if trim_spec(input.title@).len() == 0 {
        Some("title is required"@)
    } else if trim_spec(input.filename@).len() == 0 {
        Some("filename is required"@)
    } else if input.content@.len() == 0 {
        Some("file is empty"@)
    } else if input.content@.len() > MAX_UPLOAD_BYTES {
        Some("file exceeds 25 MB limit"@)
    } else {
        None
    }
}

/// Checks an evidence upload: engagement, title and file name are
/// required, the file must be non-empty and at most 25 MiB. The obtained
/// time defaults to `now`.
pub fn validate_evidence_upload(input: &UploadEvidenceInput, now: i64) -> (r: AppResult<ValidEvidenceUpload>)
    ensures
        match evidence_rejection(*input) {
            Some(m) => r matches Err(e) && e is Message && message_of(e) == m,
            None => r matches Ok(v) && {
                &&& v.engagement_id@ == trim_spec(input.engagement_id@)
                &&& v.title@ == trim_spec(input.title@)
                &&& v.filename@ == trim_spec(input.filename@)
                &&& opt_view(v.description) == opt_field(input.description)
                &&& opt_view(v.obtained_from) == opt_field(input.obtained_from)
                &&& opt_view(v.test_id) == opt_field(input.test_id)
                &&& opt_view(v.finding_id) == opt_field(input.finding_id)
                &&& opt_view(v.mime_type) == opt_field(input.mime_type)
                &&& v.obtained_at == match input.obtained_at {
                    Some(t) => t,
                    None => now,
                }
            },
        },
{
    let engagement_id = trim(input.engagement_id.as_str());
    let title = trim(input.title.as_str());
    let filename = trim(input.filename.as_str());
    let description = non_empty_trimmed(&input.description);
    let obtained_from = non_empty_trimmed(&input.obtained_from);
    let test_id = non_empty_trimmed(&input.test_id);
    let finding_id = non_empty_trimmed(&input.finding_id);
    let mime_type = non_empty_trimmed(&input.mime_type);
    if engagement_id.unicode_len() == 0 {
        return Err(AppError::Message("engagement is required".to_owned()));
    }
    if title.unicode_len() == 0 {
        return Err(AppError::Message("title is required".to_owned()));
    }
    if filename.unicode_len() == 0 {
        return Err(AppError::Message("filename is required".to_owned()));
    }
    if input.content.len() == 0 {
        return Err(AppError::Message("file is empty".to_owned()));
    }
    if input.content.len() > MAX_UPLOAD_BYTES {
        return Err(AppError::Message("file exceeds 25 MB limit".to_owned()));
    }
    let obtained_at = match input.obtained_at {
        Some(t) => t,
        None => now,
    };
    Ok(ValidEvidenceUpload {
        engagement_id,
        title,
        filename,
        description,
        obtained_from,
        test_id,
        finding_id,
        mime_type,
        obtained_at,
    })
}

/// The test an upload cites must belong to the engagement. `test_row` is
/// the (engagement, engagement control) of the test row, if it exists; the
/// control is returned so the evidence can be filed under it.
pub fn check_test_in_engagement(test_row: &Option<(String, String)>, engagement_id: &str) -> (r: AppResult<
    String,
>)
    ensures
        match test_row {
            Some((e, c)) => if e@ == engagement_id@ {
                r matches Ok(x) && x@ == c@
            } else {
                r matches Err(AppError::NotFound(m)) && m@ == "test not found"@
            },
            None => r matches Err(AppError::NotFound(m)) && m@ == "test not found"@,
        },
{
    match test_row {
        Some((e, c)) => if str_eq(e.as_str(), engagement_id) {
            Ok(c.clone())
        } else {
            Err(AppError::NotFound("test not found".to_owned()))
        },
        None => Err(AppError::NotFound("test not found".to_owned())),
    }
}

/// The finding an upload cites must belong to the engagement.
/// `finding_engagement` is the finding row's engagement, if it exists.
pub fn check_finding_in_engagement(finding_engagement: &Option<String>, engagement_id: &str) -> (r: AppResult<
    (),
>)
    ensures
        r is Ok <==> (finding_engagement matches Some(e) && e@ == engagement_id@),
        r matches Err(e) ==> e matches AppError::NotFound(m) && m@ == "finding not found"@,
{
    match finding_engagement {
        Some(e) => if str_eq(e.as_str(), engagement_id) {
            Ok(())
        } else {
            Err(AppError::NotFound("finding not found".to_owned()))
        },
        None => Err(AppError::NotFound("finding not found".to_owned())),
    }
}

/// The activity line of an upload.
pub open spec fn upload_activity_spec(title: Seq<char>, filename: Seq<char>) -> Seq<char> {
    "Uploaded evidence '"@ + title + "' ("@ + filename + ")"@
}

/// `Uploaded evidence '{title}' ({filename})`.
pub fn upload_activity(title: &str, filename: &str) -> (r: String)
    ensures
        r@ == upload_activity_spec(title@, filename@),
{
    let mut s = concat3("Uploaded evidence '", title, "' (");
    s.append(filename);
    s.append(")");
    s
}

/// Trims a link request; both ids are required.
pub fn validate_link(input: &EvidenceLinkInput) -> (r: AppResult<(String, String)>)
    ensures
        match r {
            Ok((f, e)) => f@ == trim_spec(input.finding_id@) && e@ == trim_spec(input.evidence_id@) && f@.len()
                != 0 && e@.len() != 0,
            Err(e) => (trim_spec(input.finding_id@).len() == 0 || trim_spec(input.evidence_id@).len() == 0)
                && e is Message && message_of(e) == "finding and evidence are required"@,
        },
        (trim_spec(input.finding_id@).len() != 0 && trim_spec(input.evidence_id@).len() != 0) ==> r is Ok,
{
    let f = trim(input.finding_id.as_str());
    let e = trim(input.evidence_id.as_str());
    if f.unicode_len() == 0 || e.unicode_len() == 0 {
        return Err(AppError::Message("finding and evidence are required".to_owned()));
    }
    Ok((f, e))
}

/// What attaching reads about a finding and a piece of evidence.
#[derive(Debug, Clone)]
pub struct AttachRow {
    pub finding_engagement: String,
    pub finding_code: String,
    pub evidence_engagement: String,
    pub evidence_title: String,
    pub firm_id: String,
}

/// Evidence may be cited by a finding of the signed-in firm in the same
/// engagement. `row` is `None` when the finding or the evidence is missing.
pub fn check_attach(row: &Option<AttachRow>, firm_id: &str) -> (r: AppResult<()>)
    ensures
        match row {
            None => r matches Err(AppError::NotFound(m)) && m@ == "finding or evidence not found"@,
            Some(a) => if a.firm_id@ != firm_id@ {
                r matches Err(AppError::NotFound(m)) && m@ == "finding not found"@
            } else if a.finding_engagement@ != a.evidence_engagement@ {
                r matches Err(AppError::Message(m)) && m@ == "evidence belongs to a different engagement"@
            } else {
                r is Ok
            },
        },
{
    match row {
        None => Err(AppError::NotFound("finding or evidence not found".to_owned())),
        Some(a) => {
            if !str_eq(a.firm_id.as_str(), firm_id) {
                Err(AppError::NotFound("finding not found".to_owned()))
            } else if !str_eq(a.finding_engagement.as_str(), a.evidence_engagement.as_str()) {
                Err(AppError::Message("evidence belongs to a different engagement".to_owned()))
            } else {
                Ok(())
            }
        },
    }
}

/// A finding (or evidence) row must belong to the signed-in firm; the
/// error names `what` as not found.
pub fn check_owned(row_firm: &Option<String>, firm_id: &str, not_found: &str) -> (r: AppResult<()>)
    ensures
        r is Ok <==> (row_firm matches Some(f) && f@ == firm_id@),
        r matches Err(e) ==> e matches AppError::NotFound(m) && m@ == not_found@,
{
    match row_firm {
        Some(f) => if str_eq(f.as_str(), firm_id) {
            Ok(())
        } else {
            Err(AppError::NotFound(not_found.to_owned()))
        },
        None => Err(AppError::NotFound(not_found.to_owned())),
    }
}

/// The activity line of an attach: `Attached evidence '{title}' to {code}`.
pub fn attach_activity(evidence_title: &str, finding_code: &str) -> (r: String)
    ensures
        r@ == "Attached evidence '"@ + evidence_title@ + "' to "@ + finding_code@,
{
    let mut s = concat3("Attached evidence '", evidence_title, "' to ");
    s.append(finding_code);
    s
}

/// The activity line of a detach: `Detached evidence from {code}`.
pub fn detach_activity(finding_code: &str) -> (r: String)
    ensures
        r@ == "Detached evidence from "@ + finding_code@,
{
    let mut s = "Detached evidence from ".to_owned();
    s.append(finding_code);
    s
}

} // verus!
