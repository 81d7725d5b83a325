use sre_audit::services::gate::{
    base64url_decode, is_allowed, jwt_payload, parse_allowlist, profile_from_members, verify_profile, ClaimValue,
};

#[test]
fn parse_allowlist_lowercases_and_trims() {
    let set = parse_allowlist(" Foo@Bar.COM ,baz@x.io,  ,foo@bar.com");
    assert_eq!(set.len(), 2);
    assert!(set.contains(&"foo@bar.com".to_string()));
    assert!(set.contains(&"baz@x.io".to_string()));
}

#[test]
fn parse_allowlist_empty() {
    assert!(parse_allowlist("").is_empty());
    assert!(parse_allowlist("  ,,, ,\n").is_empty());
}

#[test]
fn verify_profile_parses_valid_payload() {
    let p = verify_profile(r#"{"sub":"123","email":"Jane@X.io","email_verified":true}"#).unwrap();
    assert_eq!(p.email, "Jane@X.io");
    assert!(p.email_verified);
    assert_eq!(p.sub, "123");
}

#[test]
fn verify_profile_rejects_missing_email() {
    assert!(verify_profile(r#"{"sub":"1"}"#).is_err());
    assert!(verify_profile("not json").is_err());
}

#[test]
fn verify_profile_reports_unverified_email() {
    let p = verify_profile(r#"{"email":"a@b.c","email_verified":false}"#).unwrap();
    assert!(!p.email_verified);
}

#[test]
fn jwt_payload_decodes_middle_segment() {
    let hdr = "eyJhbGciOiJSUzI1NiJ9";
    let body = "eyJlbWFpbCI6ImFAYi5jIn0";
    let sig = "abc";
    let payload = jwt_payload(&format!("{hdr}.{body}.{sig}")).unwrap();
    assert_eq!(payload, r#"{"email":"a@b.c"}"#);
}

#[test]
fn jwt_payload_rejects_malformed() {
    assert!(jwt_payload("no-dots-here").is_err());
    assert!(jwt_payload("a.b").is_err());
}

#[test]
fn base64url_known_vector() {
    let dec = base64url_decode("YUBiLmM").unwrap();
    assert_eq!(String::from_utf8(dec).unwrap(), "a@b.c");
}

#[test]
fn base64url_rejects_invalid_char() {
    assert!(base64url_decode("ab=!").is_err());
}

#[test]
fn base64url_skips_newlines_like_atob() {
    let dec = base64url_decode("YU\nBiLmM").unwrap();
    assert_eq!(String::from_utf8(dec).unwrap(), "a@b.c");
}

#[test]
fn base64url_error_names_the_byte() {
    assert_eq!(base64url_decode("ab=!").unwrap_err(), "invalid base64url char: 33");
    assert_eq!(base64url_decode("é").unwrap_err(), "invalid base64url char: 195");
}

#[test]
fn base64url_full_groups_and_url_alphabet() {
    assert_eq!(base64url_decode("TWFu").unwrap(), b"Man".to_vec());
    assert_eq!(base64url_decode("TWE=").unwrap(), b"Ma".to_vec());
    assert_eq!(base64url_decode("TQ==").unwrap(), b"M".to_vec());
    assert_eq!(base64url_decode("-_8").unwrap(), vec![0xfb, 0xff]);
    assert_eq!(base64url_decode("").unwrap(), Vec::<u8>::new());
    assert_eq!(base64url_decode("T").unwrap(), Vec::<u8>::new());
    assert_eq!(base64url_decode("T\r\nW=F=u").unwrap(), b"Man".to_vec());
}

#[test]
fn jwt_payload_error_messages() {
    assert_eq!(jwt_payload("a.b").unwrap_err(), "not a JWT (expected 3 segments)");
    assert_eq!(jwt_payload("a.b.c.d").unwrap_err(), "not a JWT (expected 3 segments)");
    assert_eq!(jwt_payload("x.a!b.y").unwrap_err(), "invalid base64url char: 33");
    // 0xff is not UTF-8
    let err = jwt_payload("x._w.y").unwrap_err();
    assert!(err.starts_with("payload not utf8: "), "{err}");
}

#[test]
fn verify_profile_error_messages_and_defaults() {
    assert!(verify_profile("not json").unwrap_err().starts_with("bad payload: "));
    assert_eq!(verify_profile(r#"{"email":1}"#).unwrap_err(), "missing email claim");
    assert_eq!(verify_profile(r#"["email"]"#).unwrap_err(), "missing email claim");
    let p = verify_profile(r#"{"email":"a@b.c","email_verified":"yes","name":"Ann"}"#).unwrap();
    assert!(!p.email_verified);
    assert_eq!(p.sub, "");
    assert_eq!(p.name, "Ann");
}

#[test]
fn is_allowed_checks_cleaned_email() {
    assert!(!is_allowed(None, "a@b.c"));
    assert!(!is_allowed(Some(""), "a@b.c"));
    assert!(is_allowed(Some(" A@B.c , x@y.z"), "  a@b.C "));
    assert!(is_allowed(Some("a@b.c,x@y.z"), "x@y.z"));
    assert!(!is_allowed(Some("a@b.c"), "b@b.c"));
}

#[test]
fn profile_from_members_reads_claims() {
    let members = Some(vec![
        ("email".to_string(), ClaimValue::Str("a@b.c".to_string())),
        ("email_verified".to_string(), ClaimValue::Bool(true)),
        ("name".to_string(), ClaimValue::Other),
    ]);
    let p = profile_from_members(&members).unwrap();
    assert_eq!(p.email, "a@b.c");
    assert!(p.email_verified);
    assert_eq!(p.sub, "");
    assert_eq!(p.name, "");
    assert_eq!(profile_from_members(&None), Err("missing email claim".to_string()));
}

#[test]
fn allowlist_trims_unicode_and_ascii_spaces() {
    assert!(is_allowed(Some("\u{3000}ann@x.io\t"), " ANN@x.io\n"));
    assert!(!is_allowed(Some(" , "), ""));
}

#[test]
fn base64url_round_trips_and_counts_bits() {
    assert_eq!(base64url_decode("aGk").unwrap(), b"hi".to_vec());
    assert_eq!(base64url_decode("aGk=").unwrap(), b"hi".to_vec());
    assert_eq!(base64url_decode("AAEC_-8").unwrap(), vec![0u8, 1, 2, 255, 239]);
    assert!(base64url_decode("a+b").is_err());
}
