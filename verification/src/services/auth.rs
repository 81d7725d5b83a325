//! The sign-in session and the access rule deciding whether the signed-in account may use
//! the tools: it must have a verified e-mail that is on the allowlist.
use vstd::prelude::*;
use crate::services::gate::{is_allowed, spec_is_allowed, VerifiedProfile};
use crate::text::{concat2, to_owned_string};

verus! {

/// Google's endpoint returning the signed-in account's verified claims.
pub const USERINFO_URL: &'static str = "https://www.googleapis.com/oauth2/v3/userinfo";

/// The session.
#[derive(Clone, Debug, PartialEq)]
pub struct AuthState {
    pub signed_in: bool,
    pub profile: Option<VerifiedProfile>,
    /// access token for the Drive API (empty when not signed in)
    pub token: String,
    /// true only when signed in with a verified, allowlisted e-mail
    pub allowed: bool,
    pub error: Option<String>,
    pub configured: bool,
}

/// What every session keeps: it is let in only while signed in, and holds no
/// token while signed out.
pub open spec fn spec_session_ok(s: AuthState) -> bool {
    &&& s.allowed ==> s.signed_in
    &&& !s.signed_in ==> s.token@.len() == 0
}

impl Default for AuthState {
    fn default() -> (r: Self)
        ensures
            !r.signed_in,
            r.profile is None,
            r.token@ == Seq::<char>::empty(),
            !r.allowed,
            r.error is None,
            !r.configured,
            spec_session_ok(r),
    {
        AuthState { signed_in: false, profile: None, token: String::new(), allowed: false, error: None, configured: false }
    }
}

/// Whether the session is let in: it has a profile whose e-mail is verified
/// and on the allowlist.
pub open spec fn spec_gate(profile: Option<VerifiedProfile>, allowlist: Option<Seq<char>>) -> bool {
    match profile {
        Some(p) => p.email_verified && spec_is_allowed(allowlist, p.email@),
        None => false,
    }
}

pub open spec fn opt_view(s: Option<&str>) -> Option<Seq<char>> {
    match s {
        Some(x) => Some(x@),
        None => None,
    }
}

/// The signed-out session; `configured` tells whether a client id was built in.
pub fn empty_state(configured: bool) -> (r: AuthState)
    ensures
        !r.signed_in,
        r.profile is None,
        r.token@ == Seq::<char>::empty(),
        !r.allowed,
        r.error is None,
        r.configured == configured,
        spec_session_ok(r),
{
    AuthState { signed_in: false, profile: None, token: String::new(), allowed: false, error: None, configured }
}

/// Sets `allowed`: the session must be signed in, with a profile whose e-mail is
/// verified and on the allowlist; nothing else changes.
pub fn compute_allowed(s: &mut AuthState, allowlist: Option<&str>)
    ensures
        final(s).allowed == (old(s).signed_in && spec_gate(old(s).profile, opt_view(allowlist))),
        spec_session_ok(*old(s)) ==> spec_session_ok(*final(s)),
        final(s).signed_in == old(s).signed_in,
        final(s).profile == old(s).profile,
        final(s).token == old(s).token,
        final(s).error == old(s).error,
        final(s).configured == old(s).configured,
{
    let allowed = match &s.profile {
        Some(p) => p.email_verified && is_allowed(allowlist, p.email.as_str()),
        None => false,
    };
    s.allowed = s.signed_in && allowed;
}

/// Records a freshly obtained access token before its owner is verified: the
/// session is signed in with it and its error cleared; the verification of the
/// account (`finish_verification`) follows.
pub fn apply_token(s: &mut AuthState, token: String)
    ensures
        final(s).token == token,
        final(s).signed_in,
        final(s).error is None,
        final(s).profile == old(s).profile,
        final(s).allowed == old(s).allowed,
        final(s).configured == old(s).configured,
        spec_session_ok(*old(s)) ==> spec_session_ok(*final(s)),
{
    s.token = token;
    s.signed_in = true;
    s.error = None;
}

/// Applies the answer of the identity check to the session and its access flag. When the
/// account is let in the session is kept and `true` is returned (to be stored);
/// otherwise the session is reset to signed-out and `false` is returned (stored
/// session to be erased).
pub fn finish_verification(
    s: &mut AuthState,
    profile: Result<VerifiedProfile, String>,
    allowlist: Option<&str>,
    configured: bool,
) -> (r: bool)
    ensures
        r == final(s).allowed,
        r == (old(s).signed_in && spec_gate(match profile { Ok(p) => Some(p), Err(_) => None }, opt_view(allowlist))),
        spec_session_ok(*old(s)) ==> spec_session_ok(*final(s)),
        r ==> final(s).profile == (match profile { Ok(p) => Some(p), Err(_) => None })
            && final(s).signed_in == old(s).signed_in && final(s).token == old(s).token
            && final(s).error == old(s).error && final(s).configured == old(s).configured,
        !r ==> !final(s).signed_in && final(s).profile is None && final(s).token@.len() == 0
            && final(s).error is None && final(s).configured == configured,
{
    match profile {
        Ok(p) => {
            s.profile = Some(p);
        }
        Err(e) => {
            s.profile = None;
            s.error = Some(concat2("Could not verify identity with Google: ", e.as_str()));
            s.signed_in = false;
        }
    }
    compute_allowed(s, allowlist);
    if s.allowed {
        true
    } else {
        *s = empty_state(configured);
        false
    }
}

/// The session restored from a stored token and profile without asking Google
/// (end-to-end test builds): signed in when a token was stored, and let in only
/// then, when the profile passes the allowlist.
pub fn restored_state(
    token: Option<String>,
    profile: Option<VerifiedProfile>,
    configured: bool,
    allowlist: Option<&str>,
) -> (r: AuthState)
    ensures
        r.signed_in == token is Some,
        r.token@ == (match token { Some(t) => t@, None => Seq::<char>::empty() }),
        r.profile == profile,
        r.allowed == (token is Some && spec_gate(profile, opt_view(allowlist))),
        r.error is None,
        r.configured == configured,
        spec_session_ok(r),
{
    let signed_in = token.is_some();
    let token = match token {
        Some(t) => t,
        None => String::new(),
    };
    let mut s = AuthState { signed_in, profile, token, allowed: false, error: None, configured };
    compute_allowed(&mut s, allowlist);
    s
}

/// The signed-out session: no profile, token, access or error.
pub open spec fn spec_signed_out(s: AuthState, configured: bool) -> bool {
    &&& !s.signed_in
    &&& s.profile is None
    &&& s.token@.len() == 0
    &&& !s.allowed
    &&& s.error is None
    &&& s.configured == configured
}

/// `new` is `old` with its error set to `msg`.
pub open spec fn spec_with_error(old: AuthState, new: AuthState, msg: Seq<char>) -> bool {
    &&& new.error matches Some(e) && e@ == msg
    &&& new.signed_in == old.signed_in
    &&& new.profile == old.profile
    &&& new.token == old.token
    &&& new.allowed == old.allowed
    &&& new.configured == old.configured
}

/// Signs out: the session goes back to signed-out.
pub fn sign_out(s: &mut AuthState, configured: bool)
    ensures
        spec_signed_out(*final(s), configured),
        spec_session_ok(*final(s)),
{
    *s = empty_state(configured);
}

/// Whether a client id was built in: one is, and it is not empty.
pub open spec fn spec_usable_client_id(client_id: Option<Seq<char>>) -> bool {
    client_id matches Some(c) && c.len() > 0
}

/// The start of the sign-in flow. Without a usable client id, or before Google's
/// sign-in library has loaded, the reason is recorded as the session's error and
/// `None` is returned; otherwise the session is left as it is and the client id to
/// hand to Google's token client is returned.
pub fn start_oauth(s: &mut AuthState, client_id: Option<&str>, library_loaded: bool) -> (r: Option<String>)
    ensures
        !spec_usable_client_id(opt_view(client_id)) ==> r is None
            && spec_with_error(*old(s), *final(s), "GOOGLE_CLIENT_ID not configured at build time"@),
        spec_usable_client_id(opt_view(client_id)) && !library_loaded ==> r is None
            && spec_with_error(*old(s), *final(s), "Google Identity Services library not loaded"@),
        spec_usable_client_id(opt_view(client_id)) && library_loaded ==> *final(s) == *old(s)
            && (r matches Some(id) && opt_view(client_id) == Some(id@)),
        spec_session_ok(*old(s)) ==> spec_session_ok(*final(s)),
{
    let cid = match client_id {
        Some(c) => {
            if c.unicode_len() == 0 {
                s.error = Some(to_owned_string("GOOGLE_CLIENT_ID not configured at build time"));
                return None;
            }
            c
        },
        None => {
            s.error = Some(to_owned_string("GOOGLE_CLIENT_ID not configured at build time"));
            return None;
        },
    };
    if !library_loaded {
        s.error = Some(to_owned_string("Google Identity Services library not loaded"));
        return None;
    }
    Some(to_owned_string(cid))
}

/// What Google's token client answered: with a token the session records it and
/// `true` says that the account is to be verified next (`apply_token`); without one
/// the session is signed out (no access, no token) with the reason as its error,
/// and `false` is returned.
pub fn token_received(s: &mut AuthState, token: Option<String>) -> (r: bool)
    ensures
        r == token is Some,
        token matches Some(t) ==> final(s).token == t && final(s).signed_in && final(s).error is None
            && final(s).profile == old(s).profile && final(s).allowed == old(s).allowed
            && final(s).configured == old(s).configured,
        token is None ==> !final(s).signed_in && !final(s).allowed && final(s).token@.len() == 0
            && (final(s).error matches Some(e) && e@ == "Google sign-in was cancelled or failed"@)
            && final(s).profile == old(s).profile && final(s).configured == old(s).configured,
        spec_session_ok(*old(s)) ==> spec_session_ok(*final(s)),
{
    match token {
        Some(t) => {
            apply_token(s, t);
            true
        },
        None => {
            s.signed_in = false;
            s.allowed = false;
            s.token = String::new();
            s.error = Some(to_owned_string("Google sign-in was cancelled or failed"));
            false
        },
    }
}

/// Restores the session when the app loads, from the stored token and profile.
/// End-to-end test builds trust what was stored (`restored_state`). Otherwise a
/// stored token is recorded and `true` says that its owner is to be verified with
/// Google next; without one the session is signed out.
pub fn restore_session(
    s: &mut AuthState,
    token: Option<String>,
    profile: Option<VerifiedProfile>,
    e2e: bool,
    configured: bool,
    allowlist: Option<&str>,
) -> (r: bool)
    ensures
        r == (!e2e && token is Some),
        e2e ==> final(s).signed_in == token is Some
            && final(s).token@ == (match token { Some(t) => t@, None => Seq::<char>::empty() })
            && final(s).profile == profile
            && final(s).allowed == (token is Some && spec_gate(profile, opt_view(allowlist)))
            && final(s).error is None && final(s).configured == configured,
        !e2e && token is Some ==> final(s).token == token->0 && final(s).signed_in && final(s).error is None
            && final(s).profile == old(s).profile && final(s).allowed == old(s).allowed
            && final(s).configured == old(s).configured,
        !e2e && token is None ==> spec_signed_out(*final(s), configured),
        spec_session_ok(*old(s)) ==> spec_session_ok(*final(s)),
{
    if e2e {
        *s = restored_state(token, profile, configured, allowlist);
        return false;
    }
    match token {
        Some(t) => {
            apply_token(s, t);
            true
        },
        None => {
            *s = empty_state(configured);
            false
        },
    }
}

/// What the app shows: the sign-in screen, the access-denied screen, or the tools.
#[derive(Clone, Copy, PartialEq, Eq, Debug, Structural)]
pub enum Screen {
    Login,
    Denied,
    Tools,
}

/// The screen for a session: sign-in when signed out, access denied when signed in
/// but not let in, else the tools.
pub fn screen(s: &AuthState) -> (r: Screen)
    ensures
        r == (if !s.signed_in { Screen::Login } else if !s.allowed { Screen::Denied } else { Screen::Tools }),
{
    if !s.signed_in {
        Screen::Login
    } else if !s.allowed {
        Screen::Denied
    } else {
        Screen::Tools
    }
}

/// The tag of the session set on the page: `signed-in`, `allowed` or `out`.
pub fn auth_tag(s: &AuthState) -> (r: &'static str)
    ensures
        r@ == (if s.signed_in { "signed-in"@ } else if s.allowed { "allowed"@ } else { "out"@ }),
        spec_session_ok(*s) ==> r@ == (if s.signed_in { "signed-in"@ } else { "out"@ }),
{
    if s.signed_in {
        "signed-in"
    } else if s.allowed {
        "allowed"
    } else {
        "out"
    }
}

/// An account whose e-mail is not verified is never let in.
pub proof fn unverified_email_never_allowed(p: VerifiedProfile, allowlist: Option<Seq<char>>)
    requires
        !p.email_verified,
    ensures
        !spec_gate(Some(p), allowlist),
{
}

/// A session without a profile is never let in.
pub proof fn no_profile_never_allowed(allowlist: Option<Seq<char>>)
    ensures
        !spec_gate(None, allowlist),
{
}

} // verus!
