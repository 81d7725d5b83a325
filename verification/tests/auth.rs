use sre_audit::config::e2e_enabled;
use sre_audit::services::auth::{
    apply_token, auth_tag, compute_allowed, empty_state, finish_verification, restore_session, restored_state, screen,
    sign_out, start_oauth, token_received, AuthState, Screen,
};
use sre_audit::services::gate::VerifiedProfile;

#[test]
fn gate_requires_verified_allowlisted_email() {
    // no allowlist configured → nobody allowed
    let mut s = AuthState {
        signed_in: true,
        profile: Some(VerifiedProfile {
            email: "nobody@example.com".to_string(),
            email_verified: true,
            sub: "1".to_string(),
            name: String::new(),
        }),
        token: "tok".to_string(),
        ..AuthState::default()
    };
    compute_allowed(&mut s, None);
    assert!(!s.allowed);
}

#[test]
fn unverified_email_never_allowed() {
    let mut s = AuthState {
        signed_in: true,
        profile: Some(VerifiedProfile {
            email: "x@example.com".to_string(),
            email_verified: false,
            sub: "1".to_string(),
            name: String::new(),
        }),
        token: "tok".to_string(),
        ..AuthState::default()
    };
    compute_allowed(&mut s, None);
    assert!(!s.allowed);
}

#[test]
fn no_profile_means_not_allowed() {
    let mut s = AuthState {
        signed_in: true,
        token: "tok".to_string(),
        ..AuthState::default()
    };
    compute_allowed(&mut s, None);
    assert!(!s.allowed);
}

fn profile(email: &str, verified: bool) -> VerifiedProfile {
    VerifiedProfile { email: email.to_string(), email_verified: verified, sub: "1".to_string(), name: String::new() }
}

#[test]
fn allowlisted_verified_email_is_allowed() {
    let mut s = AuthState { signed_in: true, profile: Some(profile("Boss@Corp.io", true)), ..AuthState::default() };
    compute_allowed(&mut s, Some("boss@corp.io,other@corp.io"));
    assert!(s.allowed);
    let mut u = AuthState { signed_in: true, profile: Some(profile("Boss@Corp.io", false)), ..AuthState::default() };
    compute_allowed(&mut u, Some("boss@corp.io"));
    assert!(!u.allowed);
}

#[test]
fn finish_verification_keeps_or_resets_session() {
    let mut s = empty_state(true);
    s.token = "tok".to_string();
    s.signed_in = true;
    assert!(finish_verification(&mut s, Ok(profile("a@b.c", true)), Some("a@b.c"), true));
    assert!(s.allowed && s.signed_in);
    assert_eq!(s.token, "tok");

    let mut t = empty_state(true);
    t.token = "tok".to_string();
    t.signed_in = true;
    assert!(!finish_verification(&mut t, Err("boom".to_string()), Some("a@b.c"), true));
    assert_eq!(t, empty_state(true));

    let mut d = empty_state(false);
    d.signed_in = true;
    assert!(!finish_verification(&mut d, Ok(profile("z@b.c", true)), Some("a@b.c"), false));
    assert!(!d.signed_in && d.profile.is_none());
}

#[test]
fn restored_state_applies_gate() {
    let s = restored_state(Some("tok".to_string()), Some(profile("a@b.c", true)), true, Some("a@b.c"));
    assert!(s.signed_in && s.allowed);
    let n = restored_state(None, None, false, Some("a@b.c"));
    assert!(!n.signed_in && !n.allowed);
    assert_eq!(n.token, "");
}

fn verified(email: &str) -> VerifiedProfile {
    VerifiedProfile { email: email.to_string(), email_verified: true, sub: "7".to_string(), name: "Ann".to_string() }
}

#[test]
fn start_oauth_reports_missing_configuration() {
    let mut s = empty_state(false);
    assert_eq!(start_oauth(&mut s, None, true), None);
    assert_eq!(s.error.as_deref(), Some("GOOGLE_CLIENT_ID not configured at build time"));
    let mut s = empty_state(true);
    assert_eq!(start_oauth(&mut s, Some(""), true), None);
    assert_eq!(s.error.as_deref(), Some("GOOGLE_CLIENT_ID not configured at build time"));
    let mut s = empty_state(true);
    assert_eq!(start_oauth(&mut s, Some("cid"), false), None);
    assert_eq!(s.error.as_deref(), Some("Google Identity Services library not loaded"));
    let mut s = empty_state(true);
    assert_eq!(start_oauth(&mut s, Some("cid"), true), Some("cid".to_string()));
    assert_eq!(s, empty_state(true));
}

#[test]
fn token_received_records_or_reports() {
    let mut s = empty_state(true);
    s.error = Some("old".to_string());
    assert!(token_received(&mut s, Some("tok".to_string())));
    assert!(s.signed_in);
    assert_eq!(s.token, "tok");
    assert_eq!(s.error, None);
    assert!(!token_received(&mut s, None));
    assert!(!s.signed_in);
    assert_eq!(s.error.as_deref(), Some("Google sign-in was cancelled or failed"));
    apply_token(&mut s, "t2".to_string());
    assert!(s.signed_in && s.token == "t2" && s.error.is_none());
}

#[test]
fn restore_session_paths() {
    let mut s = empty_state(true);
    assert!(restore_session(&mut s, Some("tok".to_string()), None, false, true, Some("ann@x.io")));
    assert!(s.signed_in && s.token == "tok" && !s.allowed);

    let mut s = empty_state(true);
    assert!(!restore_session(&mut s, None, None, false, true, None));
    assert_eq!(s, empty_state(true));

    let mut s = empty_state(true);
    assert!(!restore_session(&mut s, Some("tok".to_string()), Some(verified("ann@x.io")), true, true, Some("ann@x.io")));
    assert!(s.signed_in && s.allowed && s.token == "tok");
}

#[test]
fn sign_out_screen_and_tag() {
    let mut s = restored_state(Some("tok".to_string()), Some(verified("ann@x.io")), true, Some("ann@x.io"));
    assert_eq!(screen(&s), Screen::Tools);
    assert_eq!(auth_tag(&s), "signed-in");
    s.allowed = false;
    assert_eq!(screen(&s), Screen::Denied);
    sign_out(&mut s, true);
    assert_eq!(s, empty_state(true));
    assert_eq!(screen(&s), Screen::Login);
    assert_eq!(auth_tag(&s), "out");
    s.allowed = true;
    assert_eq!(auth_tag(&s), "allowed");
}

#[test]
fn e2e_flag_is_exactly_one() {
    assert!(e2e_enabled(Some("1")));
    assert!(!e2e_enabled(Some("0")));
    assert!(!e2e_enabled(Some("11")));
    assert!(!e2e_enabled(Some("")));
    assert!(!e2e_enabled(None));
}

#[test]
fn cancelled_sign_in_drops_access_and_token() {
    let mut s = restored_state(Some("tok".to_string()), Some(verified("ann@x.io")), true, Some("ann@x.io"));
    assert!(s.allowed);
    assert!(!token_received(&mut s, None));
    assert!(!s.signed_in && !s.allowed);
    assert_eq!(s.token, "");
    assert_eq!(s.error.as_deref(), Some("Google sign-in was cancelled or failed"));
    assert_eq!(auth_tag(&s), "out");
}

#[test]
fn no_access_without_sign_in() {
    let s = restored_state(None, Some(verified("ann@x.io")), true, Some("ann@x.io"));
    assert!(!s.signed_in && !s.allowed);
    let mut s = empty_state(true);
    s.profile = Some(verified("ann@x.io"));
    compute_allowed(&mut s, Some("ann@x.io"));
    assert!(!s.allowed);
}
