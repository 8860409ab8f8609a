use arcadia::auth::{
    activate_session, check_otp, compare_otp, current_otp, enrollment_payload, fresh_secret,
    fresh_token, get_capabilities, login, mfa_check_status, render_enrollment, reset_mfa,
    OauthConfig, PROTOCOL_VERSION, TOKEN_MAX_LENGTH, TOKEN_MIN_LENGTH,
};
use arcadia::capability::{Capability, UserPerms};
use arcadia::error::ErrorKind;
use arcadia::session::{AuthError, OtpCheck, SessionState};
use arcadia::store::SessionStore;

const RFC_SECRET: &str = "GEZDGNBVGY3TQOJQGEZDGNBVGY3TQOJQ";
const NOW: u64 = 1_700_000_000;

fn config() -> OauthConfig {
    OauthConfig {
        client_id: "815553000470478850".to_string(),
        client_secret: "SECRET-REDACTED".to_string(),
        redirect_urls: vec![
            "https://panel.infinitybots.gg/login/authorize".to_string(),
            "http://localhost:5173/login/authorize".to_string(),
        ],
    }
}

fn enrolled_secret(store: &mut SessionStore, token: &str) -> String {
    mfa_check_status(store, token).unwrap().info.unwrap().secret
}

fn active_session(store: &mut SessionStore, user: &str) -> (String, String) {
    let token = login(store, user, true, NOW).unwrap();
    let secret = match mfa_check_status(store, &token).unwrap().info {
        Some(info) => info.secret,
        None => store.mfa_record_of(user).unwrap().secret,
    };
    let otp = current_otp(&secret, NOW).unwrap();
    activate_session(store, &token, &otp, NOW).unwrap();
    (token, secret)
}

#[test]
fn login_url_needs_version_and_allowed_redirect() {
    let config = config();
    assert_eq!(
        config.get_login_url(PROTOCOL_VERSION, "http://localhost:5173/login/authorize"),
        Ok("https://discord.com/api/oauth2/authorize?client_id=815553000470478850&redirect_uri=http://localhost:5173/login/authorize&response_type=code&scope=identify".to_string())
    );
    assert_eq!(
        config.get_login_url(1, "http://localhost:5173/login/authorize"),
        Err(AuthError::InvalidVersion)
    );
    assert_eq!(
        config.get_login_url(2, "https://evil.example/"),
        Err(AuthError::InvalidRedirect)
    );
    assert_eq!(config.get_login_url(3, "https://evil.example/"), Err(AuthError::InvalidVersion));
    assert_eq!(config.check_redirect("https://evil.example/"), Err(AuthError::InvalidRedirect));
    assert_eq!(config.check_redirect("https://panel.infinitybots.gg/login/authorize"), Ok(()));
}

#[test]
fn non_staff_login_creates_no_session() {
    let mut store = SessionStore::new();
    assert_eq!(login(&mut store, "42", false, NOW), Err(AuthError::NotStaff));
    assert_eq!(store.session_count(), 0);
    assert!(store.mfa_record_of("42").is_none());
    assert_eq!(AuthError::NotStaff.kind(), ErrorKind::Authorization);
    assert_eq!(AuthError::NotStaff.status(), 403);
    assert_eq!(AuthError::NotStaff.message(), "You are not staff");
}

#[test]
fn login_leaves_exactly_one_pending_session() {
    let mut store = SessionStore::new();
    let first = login(&mut store, "42", true, NOW).unwrap();
    let other = login(&mut store, "7", true, NOW).unwrap();
    let second = login(&mut store, "42", true, NOW + 5).unwrap();
    assert_ne!(first, second);
    let sessions = store.sessions_of_user("42");
    assert_eq!(sessions.len(), 1);
    assert_eq!(sessions[0].token, second);
    assert_eq!(sessions[0].state, SessionState::Pending);
    assert_eq!(sessions[0].created_at, NOW + 5);
    assert_eq!(store.session_count(), 2);
    assert!(store.check_auth_insecure(&first).is_err());
    assert!(store.check_auth_insecure(&other).is_ok());
    assert!(store.mfa_record_of("42").is_some());
    assert!(!store.mfa_record_of("42").unwrap().verified);
}

#[test]
fn login_token_has_random_length_in_range() {
    let token = fresh_token();
    assert!(token.len() >= TOKEN_MIN_LENGTH && token.len() < TOKEN_MAX_LENGTH);
    assert!(token.chars().all(|c| c.is_ascii_alphanumeric()));
    let mut store = SessionStore::new();
    let token = login(&mut store, "42", true, NOW).unwrap();
    assert!(token.len() >= 4196 && token.len() < 6000);
}

#[test]
fn login_keeps_an_existing_secret() {
    let mut store = SessionStore::new();
    login(&mut store, "42", true, NOW).unwrap();
    let secret = store.mfa_record_of("42").unwrap().secret;
    login(&mut store, "42", true, NOW + 1).unwrap();
    assert_eq!(store.mfa_record_of("42").unwrap().secret, secret);
}

#[test]
fn login_with_a_token_in_use_is_refused() {
    let mut store = SessionStore::new();
    assert_eq!(store.login_with("1", true, "tok".to_string(), "S".to_string(), NOW), Ok(()));
    assert_eq!(
        store.login_with("2", true, "tok".to_string(), "S".to_string(), NOW),
        Err(AuthError::TokenInUse)
    );
    assert_eq!(store.session_count(), 1);
    assert!(store.mfa_record_of("2").is_none());
    assert_eq!(store.login_with("1", true, "tok".to_string(), "S".to_string(), NOW), Ok(()));
    assert_eq!(store.session_count(), 1);
}

#[test]
fn check_auth_needs_an_active_session() {
    let mut store = SessionStore::new();
    let token = login(&mut store, "42", true, NOW).unwrap();
    assert_eq!(store.check_auth(&token).err(), Some(AuthError::InvalidOrExpiredToken));
    let data = store.check_auth_insecure(&token).unwrap();
    assert_eq!(data.user_id, "42");
    assert_eq!(data.state, SessionState::Pending);
    assert_eq!(data.created_at, NOW);
    assert_eq!(store.check_auth("unknown").err(), Some(AuthError::InvalidOrExpiredToken));
    assert_eq!(store.check_auth_insecure("unknown").err(), Some(AuthError::InvalidOrExpiredToken));
    assert_eq!(AuthError::InvalidOrExpiredToken.kind(), ErrorKind::Authentication);
}

#[test]
fn status_check_hands_out_a_fresh_secret_until_verified() {
    let mut store = SessionStore::new();
    let token = login(&mut store, "42", true, NOW).unwrap();
    let before = store.mfa_record_of("42").unwrap().secret;
    let info = mfa_check_status(&mut store, &token).unwrap().info.unwrap();
    assert_ne!(info.secret, before);
    assert_eq!(store.mfa_record_of("42").unwrap().secret, info.secret);
    assert!(info.otp_url.starts_with("otpauth://totp/Infinity%20Bot%20List%3Astaff%40infinitybots%2Egg?secret="));
    assert!(info.otp_url.contains(&info.secret));
    assert!(info.otp_url.ends_with("&issuer=Infinity%20Bot%20List"));
    assert!(info.qr_code.contains("<svg"));
    let again = mfa_check_status(&mut store, &token).unwrap().info.unwrap();
    assert_ne!(again.secret, info.secret);
    assert_eq!(mfa_check_status(&mut store, "unknown").err(), Some(AuthError::InvalidOrExpiredToken));
}

#[test]
fn status_check_is_empty_once_verified_and_refused_once_active() {
    let mut store = SessionStore::new();
    let (token, secret) = active_session(&mut store, "42");
    assert_eq!(mfa_check_status(&mut store, &token).err(), Some(AuthError::SessionAlreadyActive));
    let next = login(&mut store, "42", true, NOW + 60).unwrap();
    let status = mfa_check_status(&mut store, &next).unwrap();
    assert!(status.info.is_none());
    assert_eq!(store.mfa_record_of("42").unwrap().secret, secret);
}

#[test]
fn round_trip_activates_exactly_once() {
    let mut store = SessionStore::new();
    let token = login(&mut store, "42", true, NOW).unwrap();
    let secret = enrolled_secret(&mut store, &token);
    let otp = current_otp(&secret, NOW).unwrap();
    assert_eq!(otp.len(), 6);
    assert!(otp.chars().all(|c| c.is_ascii_digit()));
    assert_eq!(activate_session(&mut store, &token, &otp, NOW + 3), Ok(()));
    let data = store.check_auth(&token).unwrap();
    assert_eq!(data.state, SessionState::Active);
    assert!(store.mfa_record_of("42").unwrap().verified);
    assert_eq!(
        activate_session(&mut store, &token, &otp, NOW + 3),
        Err(AuthError::SessionAlreadyActive)
    );
}

#[test]
fn wrong_code_leaves_the_session_pending_and_retryable() {
    let mut store = SessionStore::new();
    let token = login(&mut store, "42", true, NOW).unwrap();
    let secret = enrolled_secret(&mut store, &token);
    let otp = current_otp(&secret, NOW).unwrap();
    let wrong = if otp == "000000" { "000001" } else { "000000" };
    assert_eq!(activate_session(&mut store, &token, wrong, NOW), Err(AuthError::MfaInvalidCode));
    assert_eq!(store.check_auth_insecure(&token).unwrap().state, SessionState::Pending);
    assert!(!store.mfa_record_of("42").unwrap().verified);
    assert_eq!(activate_session(&mut store, &token, &otp, NOW), Ok(()));
}

#[test]
fn code_of_another_time_step_is_refused() {
    let mut store = SessionStore::new();
    let token = login(&mut store, "42", true, NOW).unwrap();
    let secret = enrolled_secret(&mut store, &token);
    let otp = current_otp(&secret, NOW).unwrap();
    let later = NOW + 30;
    if current_otp(&secret, later).unwrap() != otp {
        assert_eq!(
            activate_session(&mut store, &token, &otp, later),
            Err(AuthError::MfaInvalidCode)
        );
    }
    assert_eq!(activate_session(&mut store, "unknown", &otp, NOW), Err(AuthError::InvalidOrExpiredToken));
}

#[test]
fn reset_needs_an_active_session_and_revokes_all_sessions() {
    let mut store = SessionStore::new();
    let pending = login(&mut store, "42", true, NOW).unwrap();
    let secret = enrolled_secret(&mut store, &pending);
    let otp = current_otp(&secret, NOW).unwrap();
    assert_eq!(reset_mfa(&mut store, &pending, &otp, NOW), Err(AuthError::InvalidOrExpiredToken));
    activate_session(&mut store, &pending, &otp, NOW).unwrap();
    let other = login(&mut store, "7", true, NOW).unwrap();
    let wrong = if otp == "111111" { "111112" } else { "111111" };
    assert_eq!(reset_mfa(&mut store, &pending, wrong, NOW), Err(AuthError::MfaInvalidCode));
    assert!(store.check_auth(&pending).is_ok());
    assert_eq!(reset_mfa(&mut store, &pending, &otp, NOW), Ok(()));
    let failure = store.check_auth(&pending).err().unwrap();
    assert_eq!(failure, AuthError::InvalidOrExpiredToken);
    assert_eq!(failure.kind(), ErrorKind::Authentication);
    assert!(store.sessions_of_user("42").is_empty());
    assert!(!store.mfa_record_of("42").unwrap().verified);
    assert!(store.check_auth_insecure(&other).is_ok());
}

#[test]
fn logout_is_idempotent() {
    let mut store = SessionStore::new();
    let token = login(&mut store, "42", true, NOW).unwrap();
    let other = login(&mut store, "7", true, NOW).unwrap();
    assert_eq!(store.logout(&token), 1);
    assert_eq!(store.logout(&token), 0);
    assert_eq!(store.logout("unknown"), 0);
    assert!(store.check_auth_insecure(&token).is_err());
    assert!(store.check_auth_insecure(&other).is_ok());
    assert_eq!(store.session_count(), 1);
}

#[test]
fn capabilities_come_from_the_flags_of_the_session_user() {
    let mut store = SessionStore::new();
    let (token, _) = active_session(&mut store, "42");
    let perms = UserPerms { owner: false, hadmin: false, iblhdev: false, admin: true, staff: true };
    let caps = get_capabilities(&store, &token, "42", &perms).unwrap();
    assert!(caps.contains(&Capability::Rpc));
    assert!(caps.contains(&Capability::CdnManagement));
    assert!(!caps.contains(&Capability::PartnerManagement));
    assert_eq!(get_capabilities(&store, &token, "7", &perms), Err(AuthError::UserMismatch));
    assert_eq!(
        get_capabilities(&store, "unknown", "42", &perms),
        Err(AuthError::InvalidOrExpiredToken)
    );
    let pending = login(&mut store, "7", true, NOW).unwrap();
    assert_eq!(
        get_capabilities(&store, &pending, "7", &perms),
        Err(AuthError::InvalidOrExpiredToken)
    );
}

#[test]
fn known_one_time_codes() {
    assert_eq!(current_otp(RFC_SECRET, 59), Some("287082".to_string()));
    assert_eq!(current_otp(RFC_SECRET, 1111111109), Some("081804".to_string()));
    assert_eq!(current_otp(RFC_SECRET, 1234567890), Some("005924".to_string()));
    assert_eq!(current_otp(RFC_SECRET, 30), Some("287082".to_string()));
    assert_eq!(current_otp("not base32!", 59), None);
}

#[test]
fn code_checks() {
    assert_eq!(check_otp(RFC_SECRET, "287082", 59), OtpCheck::Match);
    assert_eq!(check_otp(RFC_SECRET, "287082", 31), OtpCheck::Match);
    assert_eq!(check_otp(RFC_SECRET, "287082", 29), OtpCheck::Mismatch);
    assert_eq!(check_otp(RFC_SECRET, "287082", 60), OtpCheck::Mismatch);
    assert_eq!(check_otp(RFC_SECRET, "", 59), OtpCheck::Mismatch);
    assert_eq!(check_otp("%%%", "287082", 59), OtpCheck::SecretCorrupt);
    assert_eq!(compare_otp("1", None), OtpCheck::Unavailable);
    assert_eq!(compare_otp("1", Some("1".to_string())), OtpCheck::Match);
    assert_eq!(compare_otp("1", Some("2".to_string())), OtpCheck::Mismatch);
}

#[test]
fn store_level_checks_decide_on_the_code_check() {
    let mut store = SessionStore::new();
    store.login_with("1", true, "tok".to_string(), RFC_SECRET.to_string(), NOW).unwrap();
    assert_eq!(store.pending_secret("tok"), Ok(RFC_SECRET.to_string()));
    assert_eq!(store.active_secret("tok"), Err(AuthError::InvalidOrExpiredToken));
    assert_eq!(store.complete_activation("tok", OtpCheck::Mismatch), Err(AuthError::MfaInvalidCode));
    assert_eq!(
        store.complete_activation("tok", OtpCheck::SecretCorrupt),
        Err(AuthError::MfaSecretCorrupt)
    );
    assert_eq!(store.complete_activation("tok", OtpCheck::Unavailable), Err(AuthError::OtpUnavailable));
    assert_eq!(store.complete_activation("nope", OtpCheck::Match), Err(AuthError::InvalidOrExpiredToken));
    assert_eq!(store.complete_activation("tok", OtpCheck::Match), Ok(()));
    assert_eq!(store.active_secret("tok"), Ok(RFC_SECRET.to_string()));
    assert_eq!(store.pending_secret("tok"), Err(AuthError::SessionAlreadyActive));
    assert_eq!(store.complete_reset("tok", OtpCheck::Mismatch), Err(AuthError::MfaInvalidCode));
    assert_eq!(store.complete_reset("tok", OtpCheck::Match), Ok(()));
    assert_eq!(store.session_count(), 0);
    assert_eq!(store.enrollment_status("tok"), Err(AuthError::InvalidOrExpiredToken));
}

#[test]
fn enrollment_status_and_secret_replacement() {
    let mut store = SessionStore::new();
    store.login_with("1", true, "tok".to_string(), "OLD".to_string(), NOW).unwrap();
    assert_eq!(store.enrollment_status("tok"), Ok(true));
    assert_eq!(store.begin_enrollment("tok", &"NEW".to_string()), Ok(true));
    assert_eq!(store.mfa_record_of("1").unwrap().secret, "NEW");
    assert_eq!(store.begin_enrollment("nope", &"X".to_string()), Err(AuthError::InvalidOrExpiredToken));
    store.complete_activation("tok", OtpCheck::Match).unwrap();
    assert_eq!(store.begin_enrollment("tok", &"X".to_string()), Err(AuthError::SessionAlreadyActive));
    store.login_with("1", true, "tok2".to_string(), "IGNORED".to_string(), NOW).unwrap();
    assert_eq!(store.enrollment_status("tok2"), Ok(false));
    assert_eq!(store.begin_enrollment("tok2", &"X".to_string()), Ok(false));
    assert_eq!(store.mfa_record_of("1").unwrap().secret, "NEW");
}

#[test]
fn fresh_secret_decodes_to_160_bytes() {
    let secret = fresh_secret();
    assert_eq!(secret.len(), 256);
    assert!(secret.chars().all(|c| c.is_ascii_uppercase() || ('2'..='7').contains(&c)));
    assert!(current_otp(&secret, NOW).is_some());
    assert_ne!(fresh_secret(), secret);
}

#[test]
fn enrollment_payload_needs_uri_and_code() {
    let ok = enrollment_payload("S".to_string(), Some("uri".to_string()), Some("qr".to_string()));
    let info = ok.ok().unwrap();
    assert_eq!((info.secret.as_str(), info.otp_url.as_str(), info.qr_code.as_str()), ("S", "uri", "qr"));
    assert_eq!(
        enrollment_payload("S".to_string(), None, Some("qr".to_string())).err(),
        Some(AuthError::EnrollmentFailed)
    );
    assert_eq!(
        enrollment_payload("S".to_string(), Some("uri".to_string()), None).err(),
        Some(AuthError::EnrollmentFailed)
    );
    let rendered = render_enrollment("JBSWY3DPEHPK3PXP".to_string()).ok().unwrap();
    assert_eq!(
        rendered.otp_url,
        "otpauth://totp/Infinity%20Bot%20List%3Astaff%40infinitybots%2Egg?secret=JBSWY3DPEHPK3PXP&issuer=Infinity%20Bot%20List"
    );
}
