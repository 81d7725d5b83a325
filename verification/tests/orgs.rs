use sre_audit::models::MatrixState;
use sre_audit::orgs::{apply_defaults, initial_store, matrix_key, new_id, roadmap_key, OrgStore, Organization};
use sre_audit::services::drive::{
    download_url, matrix_file, roadmap_file, search_query, upload_target, upload_url, UploadTarget,
};

#[test]
fn default_org_uses_legacy_keys() {
    assert_eq!(matrix_key(""), "sre_matrix_audit_cache");
    assert_eq!(roadmap_key(""), "sre_audit_roadmap_cache");
}

#[test]
fn non_default_org_uses_suffixed_keys() {
    assert_eq!(matrix_key("abc"), "sre_matrix_audit_cache__abc");
    assert_eq!(roadmap_key("abc"), "sre_audit_roadmap_cache__abc");
}

#[test]
fn apply_defaults_seeds_from_matrix_company() {
    let m = MatrixState {
        company_name: "  ACME  ".to_string(),
        ..MatrixState::default()
    };
    let store = apply_defaults(OrgStore::default(), &m);
    assert_eq!(store.orgs.len(), 1);
    assert_eq!(store.orgs[0].id, "");
    assert_eq!(store.orgs[0].name, "ACME");
    assert_eq!(store.current, "");
}

#[test]
fn normalize_falls_back_when_current_missing() {
    let mut store = OrgStore {
        orgs: vec![Organization {
            id: "a".into(),
            name: "A".into(),
        }],
        current: "b".into(),
    };
    store.normalize();
    assert_eq!(store.current, "a");
}

#[test]
fn new_id_is_nonempty_hex() {
    let now = std::time::SystemTime::now().duration_since(std::time::UNIX_EPOCH).unwrap().as_millis() as u64;
    let id = new_id(now);
    assert!(!id.is_empty());
    assert!(id.chars().all(|c| c.is_ascii_hexdigit()));
}

#[test]
fn apply_defaults_uses_placeholder_name_for_blank_company() {
    let store = apply_defaults(OrgStore::default(), &MatrixState::default());
    assert_eq!(store.orgs[0].name, "Organisation");
    assert_eq!(store.current, "");
}

#[test]
fn apply_defaults_keeps_existing_current() {
    let store = OrgStore {
        orgs: vec![Organization { id: "x".into(), name: "X".into() }],
        current: "x".into(),
    };
    let store = apply_defaults(store, &MatrixState::default());
    assert_eq!(store.orgs.len(), 2);
    assert_eq!(store.orgs[1].id, "x");
    assert_eq!(store.current, "x");
}

#[test]
fn normalize_with_no_orgs_selects_default_id() {
    let mut store = OrgStore { orgs: vec![], current: "gone".into() };
    store.normalize();
    assert_eq!(store.current, "");
    assert!(store.current_org().is_none());
}

#[test]
fn new_id_is_little_endian_hex() {
    assert_eq!(new_id(0), "0000000000000000");
    assert_eq!(new_id(1), "0100000000000000");
    assert_eq!(new_id(0x0123_4567_89ab_cdef), "efcdab8967452301");
}

#[test]
fn add_makes_new_org_current() {
    let mut store = OrgStore::default();
    let id = store.add("  Acme  ", 0x0123_4567_89ab_cdef);
    assert_eq!(id, "efcdab8967452301");
    assert_eq!(store.current, id);
    let cur = store.current_org().unwrap();
    assert_eq!(cur.name, "Acme");
    assert_eq!(cur.id, id);
}

#[test]
fn add_with_blank_name_uses_default_name() {
    let mut store = OrgStore::default();
    store.add_with_id("k1".to_string(), "   ");
    assert_eq!(store.orgs[0].name, "Nouvelle organisation");
    assert_eq!(store.current, "k1");
}

#[test]
fn rename_and_remove() {
    let mut store = OrgStore::default();
    store.add_with_id("a".to_string(), "A");
    store.add_with_id("b".to_string(), "B");
    assert!(store.rename_org("a", "  Alpha "));
    assert_eq!(store.orgs[0].name, "Alpha");
    assert!(!store.rename_org("zzz", "Nope"));
    assert_eq!(store.current, "b");
    assert_eq!(store.remove("b"), Some("B".to_string()));
    assert_eq!(store.current, "a");
    assert_eq!(store.remove("b"), None);
    assert_eq!(store.orgs.len(), 1);
    assert!(store.orgs[0].is_default() == false);
}

#[test]
fn default_org_can_be_removed() {
    let store = apply_defaults(OrgStore::default(), &MatrixState::default());
    let mut store = store;
    store.add_with_id("n".to_string(), "N");
    store.current = String::new();
    assert!(store.orgs[0].is_default());
    assert_eq!(store.remove(""), Some("Organisation".to_string()));
    assert_eq!(store.current, "n");
}

#[test]
fn drive_file_names() {
    assert_eq!(matrix_file(""), "sre_matrix_data.json");
    assert_eq!(matrix_file("abc"), "sre_matrix_data.json__abc");
    assert_eq!(roadmap_file(""), "sre_roadmap_data.json");
    assert_eq!(roadmap_file("abc"), "sre_roadmap_data.json__abc");
}

#[test]
fn initial_store_prefers_stored_orgs() {
    let mut stored = OrgStore::default();
    stored.add_with_id("b1".to_string(), "Beta");
    let legacy = MatrixState { company_name: "ACME".to_string(), ..MatrixState::default() };
    let s = initial_store(Some(stored.clone()), &legacy);
    assert_eq!(s, stored);
    let s = initial_store(Some(OrgStore::default()), &legacy);
    assert_eq!(s.orgs.len(), 1);
    assert_eq!(s.orgs[0].name, "ACME");
    assert_eq!(s.current, "");
    let s = initial_store(None, &MatrixState::default());
    assert_eq!(s.orgs[0].name, "Organisation");
}

#[test]
fn drive_query_and_addresses() {
    assert_eq!(search_query("f.json"), "name='f.json' and 'appDataFolder' in parents and trashed=false");
    assert_eq!(upload_url("id1"), "https://www.googleapis.com/upload/drive/v3/files/id1?uploadType=media");
    assert_eq!(download_url("id1"), "https://www.googleapis.com/drive/v3/files/id1?alt=media");
}

#[test]
fn upload_reuses_found_file_or_creates() {
    assert_eq!(upload_target(Some("f1".to_string())), UploadTarget::Existing("f1".to_string()));
    assert_eq!(upload_target(None), UploadTarget::Create);
}
