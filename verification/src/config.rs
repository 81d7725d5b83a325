//! Fixed configuration.
use vstd::prelude::*;

verus! {

/// Scopes requested from Google Identity Services: the private per-app Drive
/// folder, and the verified account e-mail for the allowlist gate.
pub const DRIVE_SCOPE: &'static str = "openid email profile https://www.googleapis.com/auth/drive.appdata";

/// Whether the end-to-end test mode is switched on by its build flag: only the
/// exact value `1` does so.
pub fn e2e_enabled(flag: Option<&str>) -> (r: bool)
    ensures
        r == (flag matches Some(s) && s@ == "1"@),
{
    proof {
        reveal_strlit("1");
    }
    match flag {
        Some(s) => crate::text::str_eq(s, "1"),
        None => false,
    }
}

} // verus!
