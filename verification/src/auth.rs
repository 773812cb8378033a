//! Sessions and the sign-in rules: who is signed in, which screen the
//! application starts on, and how onboarding and login input is checked.

use vstd::prelude::*;

use crate::error::{message_of, AppError, AppResult};
use crate::keyvault::UserCredential;
use crate::text::{trim, trim_spec};

verus! {

/// The signed-in auditor.
#[derive(Debug, Clone)]
pub struct Session {
    pub user_id: String,
    pub firm_id: String,
    pub display_name: String,
    pub email: String,
}

/// A field-by-field copy of a session.
pub fn copy_session(s: &Session) -> (r: Session)
    ensures
        r == *s,
{
    Session {
        user_id: s.user_id.clone(),
        firm_id: s.firm_id.clone(),
        display_name: s.display_name.clone(),
        email: s.email.clone(),
    }
}

/// The session slot. Every write path asks it for the session first, so
/// that no write is anonymous.
pub struct AuthState {
    session: Option<Session>,
}

impl AuthState {
    /// The session held, if any.
    pub closed spec fn view_session(&self) -> Option<Session> {
        self.session
    }

    /// No one signed in.
    pub fn new() -> (r: Self)
        ensures
            r.view_session() is None,
    {
        AuthState { session: None }
    }

    /// Signs `session` in, replacing any previous one.
    pub fn set(&mut self, session: Session)
        ensures
            final(self).view_session() == Some(session),
    {
        self.session = Some(session);
    }

    /// Signs out.
    pub fn clear(&mut self)
        ensures
            final(self).view_session() is None,
    {
        self.session = None;
    }

    /// The current session, if any.
    pub fn current(&self) -> (r: Option<Session>)
        ensures
            r == self.view_session(),
    {
        match &self.session {
            Some(s) => Some(copy_session(s)),
            None => None,
        }
    }

    /// The current session, or `Unauthorised("no active session")`.
    pub fn require(&self) -> (r: AppResult<Session>)
        ensures
            match self.view_session() {
                Some(s) => r == Ok::<Session, AppError>(s),
                None => r matches Err(e) && e is Unauthorised && message_of(e) == "no active session"@,
            },
    {
        match &self.session {
            Some(s) => Ok(copy_session(s)),
            None => Err(AppError::Unauthorised("no active session".to_owned())),
        }
    }
}

impl Default for AuthState {
    /// No one signed in.
    fn default() -> (r: Self)
        ensures
            r.view_session() is None,
    {
        AuthState::new()
    }
}

/// Which screen the application starts on.
#[derive(Debug, Clone)]
pub enum AuthStatus {
    OnboardingRequired,
    SignInRequired,
    SignedIn { user: Session },
}

/// Signed in if there is a session; otherwise sign-in when an identity file
/// exists, onboarding when none does.
pub fn auth_status(current: Option<Session>, identity_exists: bool) -> (r: AuthStatus)
    ensures
        match current {
            Some(s) => r == AuthStatus::SignedIn { user: s },
            None => if identity_exists {
                r is SignInRequired
            } else {
                r is OnboardingRequired
            },
        },
{
    match current {
        Some(user) => AuthStatus::SignedIn { user },
        None => if identity_exists {
            AuthStatus::SignInRequired
        } else {
            AuthStatus::OnboardingRequired
        },
    }
}

/// Onboarding form.
#[derive(Debug, Clone)]
pub struct OnboardInput {
    pub firm_name: String,
    pub firm_country: String,
    pub display_name: String,
    pub email: String,
    pub password: String,
}

/// Login form.
#[derive(Debug, Clone)]
pub struct LoginInput {
    pub email: String,
    pub password: String,
}

/// What `str::to_lowercase` returns (full Unicode lower-casing).
pub uninterp spec fn unicode_lowercase(s: Seq<char>) -> Seq<char>;

/// `str::to_lowercase`.
#[verifier::external_body]
pub(crate) fn to_lowercase(s: &str) -> (r: String)
    ensures
        r@ == unicode_lowercase(s@),
{
    s.to_lowercase()
}

/// An address is plausible when it contains `@` and is at least three
/// bytes long.
pub open spec fn email_ok(email: Seq<char>) -> bool {
    email.contains('@') && vstd::utf8::encode_utf8(email).len() >= 3
}

/// Passwords must be at least eight bytes long.
pub open spec fn password_ok(password: Seq<char>) -> bool {
    vstd::utf8::encode_utf8(password).len() >= 8
}

fn contains_char(s: &str, c: char) -> (r: bool)
    ensures
        r == s@.contains(c),
{
    let n = s.unicode_len();
    let mut i: usize = 0;
    while i < n
        invariant
            n == s@.len(),
            i <= n,
            forall|k: int| 0 <= k < i ==> s@[k] != c,
        decreases n - i,
    {
        if s.get_char(i) == c {
            assert(s@[i as int] == c);
            return true;
        }
        i = i + 1;
    }
    false
}

/// Rejects an implausible email address.
pub fn validate_email(email: &str) -> (r: AppResult<()>)
    ensures
        email_ok(email@) ==> r is Ok,
        !email_ok(email@) ==> (r matches Err(e) && e is Message && message_of(e)
            == "please enter a valid email address"@),
{
    if contains_char(email, '@') && email.as_bytes().len() >= 3 {
        Ok(())
    } else {
        Err(AppError::Message("please enter a valid email address".to_owned()))
    }
}

/// Rejects a password shorter than eight bytes.
pub fn validate_password(password: &str) -> (r: AppResult<()>)
    ensures
        password_ok(password@) ==> r is Ok,
        !password_ok(password@) ==> (r matches Err(e) && e is Message && message_of(e)
            == "password must be at least 8 characters"@),
{
    if password.as_bytes().len() >= 8 {
        Ok(())
    } else {
        Err(AppError::Message("password must be at least 8 characters".to_owned()))
    }
}

/// Onboarding fields after trimming; the email is lower-cased too.
#[derive(Debug, Clone)]
pub struct OnboardFields {
    pub firm_name: String,
    pub firm_country: String,
    pub display_name: String,
    pub email: String,
}

/// Which onboarding rule, if any, rejects the input (checked in this order).
pub open spec fn onboard_rejection(input: OnboardInput, identity_exists: bool) -> Option<Seq<char>> {
    let email = unicode_lowercase(trim_spec(input.email@));
    if trim_spec(input.firm_name@).len() == 0 {
        Some("firm name is required"@)
    } else if trim_spec(input.firm_country@).len() == 0 {
        Some("firm country is required"@)
    } else if trim_spec(input.display_name@).len() == 0 {
        Some("display name is required"@)
    } else if !email_ok(email) {
        Some("please enter a valid email address"@)
    } else if !password_ok(input.password@) {
        Some("password must be at least 8 characters"@)
    } else if identity_exists {
        Some("identity already exists; sign in instead"@)
    } else {
        None
    }
}

/// Checks the onboarding form: firm name, country and display name are
/// required (after trimming), the email (trimmed, lower-cased) must be
/// plausible, the password long enough, and no identity may exist yet.
pub fn prepare_onboard(input: &OnboardInput, identity_exists: bool) -> (r: AppResult<OnboardFields>)
    ensures
        match onboard_rejection(*input, identity_exists) {
            Some(m) => r matches Err(e) && e is Message && message_of(e) == m,
            None => r matches Ok(f) && f.firm_name@ == trim_spec(input.firm_name@)
                && f.firm_country@ == trim_spec(input.firm_country@) && f.display_name@
                == trim_spec(input.display_name@) && f.email@ == unicode_lowercase(
                trim_spec(input.email@),
            ),
        },
{
    let firm_name = trim(input.firm_name.as_str());
    let firm_country = trim(input.firm_country.as_str());
    let display_name = trim(input.display_name.as_str());
    let trimmed_email = trim(input.email.as_str());
    let email = to_lowercase(trimmed_email.as_str());
    if firm_name.unicode_len() == 0 {
        return Err(AppError::Message("firm name is required".to_owned()));
    }
    if firm_country.unicode_len() == 0 {
        return Err(AppError::Message("firm country is required".to_owned()));
    }
    if display_name.unicode_len() == 0 {
        return Err(AppError::Message("display name is required".to_owned()));
    }
    validate_email(email.as_str())?;
    validate_password(input.password.as_str())?;
    if identity_exists {
        return Err(AppError::Message("identity already exists; sign in instead".to_owned()));
    }
    Ok(OnboardFields { firm_name, firm_country, display_name, email })
}

/// Which login rule, if any, rejects the input.
pub open spec fn login_rejection(input: LoginInput) -> Option<Seq<char>> {
    if !email_ok(unicode_lowercase(trim_spec(input.email@))) {
        Some("please enter a valid email address"@)
    } else if input.password@.len() == 0 {
        Some("password is required"@)
    } else {
        None
    }
}

/// Checks the login form and returns the normalised (trimmed,
/// lower-cased) email.
pub fn prepare_login(input: &LoginInput) -> (r: AppResult<String>)
    ensures
        match login_rejection(*input) {
            Some(m) => r matches Err(e) && e is Message && message_of(e) == m,
            None => r matches Ok(email) && email@ == unicode_lowercase(trim_spec(input.email@)),
        },
{
    let trimmed = trim(input.email.as_str());
    let email = to_lowercase(trimmed.as_str());
    validate_email(email.as_str())?;
    if input.password.unicode_len() == 0 {
        return Err(AppError::Message("password is required".to_owned()));
    }
    Ok(email)
}

/// The session of a user who just signed in: the display name kept in the
/// database when it has one, else the one in the identity file.
pub fn login_session(credential: &UserCredential, stored_display_name: Option<String>) -> (r: Session)
    ensures
        r.user_id@ == credential.user_id@,
        r.firm_id@ == credential.firm_id@,
        r.email@ == credential.email@,
        r.display_name@ == match stored_display_name {
            Some(n) => n@,
            None => credential.display_name@,
        },
{
    let display_name = match stored_display_name {
        Some(n) => n,
        None => credential.display_name.clone(),
    };
    Session {
        user_id: credential.user_id.clone(),
        firm_id: credential.firm_id.clone(),
        display_name,
        email: credential.email.clone(),
    }
}

/// The session of the user an onboarding created.
pub fn onboard_session(fields: &OnboardFields, user_id: &str, firm_id: &str) -> (r: Session)
    ensures
        r.user_id@ == user_id@,
        r.firm_id@ == firm_id@,
        r.display_name@ == fields.display_name@,
        r.email@ == fields.email@,
{
    Session {
        user_id: user_id.to_owned(),
        firm_id: firm_id.to_owned(),
        display_name: fields.display_name.clone(),
        email: fields.email.clone(),
    }
}

} // verus!
