//! Who is signed in, and the application's health check.

use vstd::prelude::*;

use crate::error::AppResult;

verus! {

/// The application's name and version.
#[derive(Debug, Clone)]
pub struct HealthStatus {
    pub app: &'static str,
    pub version: &'static str,
}

/// The signed-in user as the shell shows it.
#[derive(Debug, Clone)]
pub struct CurrentUser {
    pub signed_in: bool,
    pub display_name: Option<String>,
    pub firm_name: Option<String>,
    pub role: Option<String>,
}

/// The health check for a build of `version`.
pub fn health_status(version: &'static str) -> (r: HealthStatus)
    ensures
        r.app@ == "audit-app"@,
        r.version@ == version@,
{
    HealthStatus { app: "audit-app", version }
}

/// The shell's user card: nobody is reported signed in.
pub fn current_user() -> (r: AppResult<CurrentUser>)
    ensures
        r matches Ok(u) && !u.signed_in && u.display_name is None && u.firm_name is None && u.role is None,
{
    Ok(CurrentUser { signed_in: false, display_name: None, firm_name: None, role: None })
}

} // verus!
