use audit_app::auth::{
    auth_status, login_session, onboard_session, prepare_login, prepare_onboard, validate_email,
    validate_password, AuthState, AuthStatus, LoginInput, OnboardInput, Session,
};
use audit_app::error::AppError;
use audit_app::keyvault::{
    check_version, create_first_user, find_by_email, path, sign_in, unlock, Identity, UserCredential,
    CURRENT_VERSION,
};

fn credential(email: &str) -> UserCredential {
    UserCredential {
        user_id: format!("id-{email}"),
        firm_id: "firm".into(),
        email: email.into(),
        display_name: "Someone".into(),
        argon2_hash: "x".into(),
        kek_salt: "00".into(),
        mk_nonce: "00".into(),
        mk_wrapped: "00".into(),
    }
}

#[test]
fn create_then_unlock_returns_same_master_key() {
    let (identity, mk) = create_first_user(
        "user-1",
        "firm-1",
        "simba@example.com",
        "Simba G.",
        "correct horse battery staple",
    )
    .unwrap();

    let cred = &identity.users[0];
    let recovered = unlock(cred, "correct horse battery staple").unwrap();
    assert_eq!(mk, recovered);
}

#[test]
fn unlock_rejects_wrong_password() {
    let (identity, _) = create_first_user(
        "user-1",
        "firm-1",
        "simba@example.com",
        "Simba G.",
        "correct horse battery staple",
    )
    .unwrap();

    let cred = &identity.users[0];
    let err = unlock(cred, "stapler horse battery").unwrap_err();
    assert!(matches!(err, AppError::Unauthorised(_)));
}

#[test]
fn two_identities_have_different_master_keys() {
    let (_, mk1) = create_first_user("u1", "f1", "a@x.com", "A", "correct horse battery staple").unwrap();
    let (_, mk2) = create_first_user("u2", "f2", "b@x.com", "B", "correct horse battery staple").unwrap();
    assert_ne!(mk1, mk2, "each new identity gets a unique random master key");
}

#[test]
fn created_credential_records_its_inputs() {
    let (identity, _) =
        create_first_user("user-9", "firm-9", "x@y.com", "X Y", "correct horse battery staple").unwrap();
    assert_eq!(identity.version, CURRENT_VERSION);
    assert_eq!(identity.users.len(), 1);
    let c = &identity.users[0];
    assert_eq!(c.user_id, "user-9");
    assert_eq!(c.firm_id, "firm-9");
    assert_eq!(c.email, "x@y.com");
    assert_eq!(c.display_name, "X Y");
    assert_eq!(c.kek_salt.len(), 32);
    assert_eq!(c.mk_nonce.len(), 24);
    assert_eq!(c.mk_wrapped.len(), 2 * (32 + 16));
    assert!(c.argon2_hash.starts_with("$argon2id$"));
}

#[test]
fn unlock_reports_malformed_salt_as_crypto_error() {
    let (mut identity, _) =
        create_first_user("u", "f", "a@b.com", "A", "correct horse battery staple").unwrap();
    identity.users[0].kek_salt = "zz".into();
    let err = unlock(&identity.users[0], "correct horse battery staple").unwrap_err();
    assert!(matches!(err, AppError::Crypto(_)));
}

#[test]
fn unlock_checks_salt_length_before_the_nonce() {
    let (mut identity, _) =
        create_first_user("u", "f", "a@b.com", "A", "correct horse battery staple").unwrap();
    identity.users[0].kek_salt = "0011".into();
    identity.users[0].mk_nonce = "not hex".into();
    let err = unlock(&identity.users[0], "correct horse battery staple").unwrap_err();
    assert_eq!(err, AppError::Crypto("kek_salt length".into()));
    identity.users[0].kek_salt = "00112233445566778899aabbccddeeff".into();
    let err = unlock(&identity.users[0], "correct horse battery staple").unwrap_err();
    assert!(matches!(err, AppError::Crypto(m) if m.starts_with("mk_nonce hex: ")));
}

#[test]
fn sign_in_finds_user_ignoring_ascii_case() {
    let (identity, mk) =
        create_first_user("u", "f", "Simba@Example.com", "Simba", "correct horse battery staple").unwrap();
    let (cred, key) = sign_in(&identity, "simba@example.com", "correct horse battery staple").unwrap();
    assert_eq!(key, mk);
    assert_eq!(cred.user_id, "u");
}

#[test]
fn sign_in_treats_unknown_email_like_wrong_password() {
    let (identity, _) =
        create_first_user("u", "f", "simba@example.com", "Simba", "correct horse battery staple").unwrap();
    let unknown = sign_in(&identity, "nobody@example.com", "correct horse battery staple").unwrap_err();
    let wrong = sign_in(&identity, "simba@example.com", "wrong password here").unwrap_err();
    assert_eq!(unknown, AppError::Unauthorised("invalid email or password".into()));
    assert_eq!(wrong, AppError::Unauthorised("invalid email or password".into()));
}

#[test]
fn find_by_email_returns_first_match() {
    let mut second = credential("A@X.COM");
    second.user_id = "second".into();
    let identity = Identity {
        version: 1,
        users: vec![credential("b@x.com"), credential("a@x.com"), second],
    };
    let found = find_by_email(&identity, "a@x.com").unwrap();
    assert_eq!(found.user_id, "id-a@x.com");
    assert!(find_by_email(&identity, "c@x.com").is_none());
}

#[test]
fn identity_path_is_inside_data_dir() {
    assert_eq!(path("/data/app"), "/data/app/identity.json");
    assert_eq!(path("/data/app/"), "/data/app/identity.json");
}

#[test]
fn check_version_rejects_other_versions() {
    let ok = check_version(Identity { version: 1, users: vec![] }).unwrap();
    assert_eq!(ok.version, 1);
    let err = check_version(Identity { version: 2, users: vec![] }).unwrap_err();
    assert_eq!(err, AppError::Message("unsupported identity file version 2".into()));
}

fn session() -> Session {
    Session {
        user_id: "u".into(),
        firm_id: "f".into(),
        display_name: "D".into(),
        email: "e@x.com".into(),
    }
}

#[test]
fn session_set_then_require_then_clear() {
    let mut state = AuthState::new();
    assert_eq!(state.require().unwrap_err(), AppError::Unauthorised("no active session".into()));
    state.set(session());
    assert_eq!(state.require().unwrap().user_id, "u");
    assert_eq!(state.current().unwrap().email, "e@x.com");
    state.clear();
    assert!(state.current().is_none());
    assert!(AuthState::default().current().is_none());
}

#[test]
fn auth_status_picks_the_start_screen() {
    assert!(matches!(auth_status(None, false), AuthStatus::OnboardingRequired));
    assert!(matches!(auth_status(None, true), AuthStatus::SignInRequired));
    match auth_status(Some(session()), true) {
        AuthStatus::SignedIn { user } => assert_eq!(user.user_id, "u"),
        _ => panic!("expected signed in"),
    }
}

#[test]
fn email_and_password_rules() {
    assert!(validate_email("a@b").is_ok());
    assert_eq!(
        validate_email("ab").unwrap_err(),
        AppError::Message("please enter a valid email address".into())
    );
    assert!(validate_email("a@").is_err());
    assert!(validate_password("12345678").is_ok());
    assert_eq!(
        validate_password("1234567").unwrap_err(),
        AppError::Message("password must be at least 8 characters".into())
    );
}

fn onboard_input() -> OnboardInput {
    OnboardInput {
        firm_name: " Acme ".into(),
        firm_country: " ZW ".into(),
        display_name: " Simba ".into(),
        email: "  Simba@Example.COM ".into(),
        password: "correct horse battery staple".into(),
    }
}

#[test]
fn onboarding_trims_and_lowercases() {
    let f = prepare_onboard(&onboard_input(), false).unwrap();
    assert_eq!(f.firm_name, "Acme");
    assert_eq!(f.firm_country, "ZW");
    assert_eq!(f.display_name, "Simba");
    assert_eq!(f.email, "simba@example.com");
    let s = onboard_session(&f, "user-1", "firm-1");
    assert_eq!(s.user_id, "user-1");
    assert_eq!(s.firm_id, "firm-1");
    assert_eq!(s.email, "simba@example.com");
}

#[test]
fn onboarding_rejections_in_order() {
    let mut i = onboard_input();
    i.firm_name = "  ".into();
    assert_eq!(prepare_onboard(&i, false).unwrap_err(), AppError::Message("firm name is required".into()));
    let mut i = onboard_input();
    i.firm_country = "".into();
    assert_eq!(prepare_onboard(&i, false).unwrap_err(), AppError::Message("firm country is required".into()));
    let mut i = onboard_input();
    i.display_name = " ".into();
    assert_eq!(prepare_onboard(&i, false).unwrap_err(), AppError::Message("display name is required".into()));
    let mut i = onboard_input();
    i.password = "short".into();
    assert_eq!(
        prepare_onboard(&i, false).unwrap_err(),
        AppError::Message("password must be at least 8 characters".into())
    );
    assert_eq!(
        prepare_onboard(&onboard_input(), true).unwrap_err(),
        AppError::Message("identity already exists; sign in instead".into())
    );
}

#[test]
fn login_form_rules() {
    let ok = prepare_login(&LoginInput { email: " A@B.com ".into(), password: "p".into() }).unwrap();
    assert_eq!(ok, "a@b.com");
    let err = prepare_login(&LoginInput { email: "a@b.com".into(), password: "".into() }).unwrap_err();
    assert_eq!(err, AppError::Message("password is required".into()));
}

#[test]
fn login_session_prefers_stored_display_name() {
    let c = credential("a@x.com");
    assert_eq!(login_session(&c, Some("Renamed".into())).display_name, "Renamed");
    assert_eq!(login_session(&c, None).display_name, "Someone");
    assert_eq!(login_session(&c, None).user_id, "id-a@x.com");
}
