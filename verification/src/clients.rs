//! Clients: the new-client form and the audit trail of a created client.
//! Client creation writes no engagement activity (activity is
//! engagement-scoped); its history is the per-field change log.

use vstd::prelude::*;

use crate::audit::{created_views, entry, push_field, CreatedField};
use crate::error::{message_of, AppError, AppResult};
use crate::text::{non_empty_trimmed, non_empty_trimmed_spec, opt_view, trim, trim_spec};

verus! {

/// A client as listed.
#[derive(Debug, Clone)]
pub struct ClientSummary {
    pub id: String,
    pub name: String,
    pub country: String,
    pub industry: Option<String>,
    pub status: String,
}

/// An industry a client can be filed under.
#[derive(Debug, Clone)]
pub struct IndustrySummary {
    pub id: String,
    pub name: String,
}

/// The new-client form.
#[derive(Debug, Clone)]
pub struct NewClientInput {
    pub name: String,
    pub country: String,
    pub industry_id: Option<String>,
}

/// Client fields after trimming; a blank industry is dropped.
#[derive(Debug, Clone)]
pub struct ValidClient {
    pub name: String,
    pub country: String,
    pub industry_id: Option<String>,
}

/// Why the new-client form is refused, if it is.
pub open spec fn client_rejection(input: NewClientInput) -> Option<Seq<char>> {
    if trim_spec(input.name@).len() == 0 {
        Some("client name is required"@)
    } else if trim_spec(input.country@).len() == 0 {
        Some("country is required"@)
    } else {
        None
    }
}

/// Checks the new-client form: name and country are required.
pub fn validate_new_client(input: &NewClientInput) -> (r: AppResult<ValidClient>)
    ensures
        match client_rejection(*input) {
            Some(m) => r matches Err(e) && e is Message && message_of(e) == m,
            None => r matches Ok(v) && v.name@ == trim_spec(input.name@) && v.country@ == trim_spec(
                input.country@,
            ) && opt_view(v.industry_id) == match input.industry_id {
                Some(s) => non_empty_trimmed_spec(s@),
                None => None,
            },
        },
{
    let name = trim(input.name.as_str());
    let country = trim(input.country.as_str());
    let industry_id = non_empty_trimmed(&input.industry_id);
    if name.unicode_len() == 0 {
        return Err(AppError::Message("client name is required".to_owned()));
    }
    if country.unicode_len() == 0 {
        return Err(AppError::Message("country is required".to_owned()));
    }
    Ok(ValidClient { name, country, industry_id })
}

/// The change-log entries of a new client: name, country, status, firm,
/// then the industry when one is set.
pub open spec fn client_fields_spec(
    name: Seq<char>,
    country: Seq<char>,
    firm_id: Seq<char>,
    industry_id: Option<Seq<char>>,
) -> Seq<(Seq<char>, Seq<char>)> {
    let base = seq![
        entry("name"@, name),
        entry("country"@, country),
        entry("status"@, "active"@),
        entry("firm_id"@, firm_id),
    ];
    match industry_id {
        Some(i) => base.push(entry("industry_id"@, i)),
        None => base,
    }
}

/// One change-log entry per field a new client sets.
pub fn client_created_fields(client: &ValidClient, firm_id: &str) -> (r: Vec<CreatedField>)
    ensures
        created_views(r@) == client_fields_spec(client.name@, client.country@, firm_id@, opt_view(client.industry_id)),
{
    let mut out: Vec<CreatedField> = Vec::new();
    assert(created_views(out@) =~= Seq::<(Seq<char>, Seq<char>)>::empty());
    push_field(&mut out, "name", client.name.as_str());
    push_field(&mut out, "country", client.country.as_str());
    push_field(&mut out, "status", "active");
    push_field(&mut out, "firm_id", firm_id);
    if let Some(ind) = &client.industry_id {
        push_field(&mut out, "industry_id", ind.as_str());
    }
    out
}

} // verus!
