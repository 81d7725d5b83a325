use sre_audit::models::{push_undo, row_id, MatrixLevel, MatrixState, RoadmapState, UNDO_CAP};

#[test]
fn badge_class_names_the_level() {
    let lvl = MatrixLevel { level: 3, badge: "Niveau 3".to_string(), items: vec![] };
    assert_eq!(lvl.badge_class(), "bg-lvl3");
    let lvl = MatrixLevel { level: 12, badge: String::new(), items: vec![] };
    assert_eq!(lvl.badge_class(), "bg-lvl12");
}

#[test]
fn selected_level_reads_the_stored_selection() {
    let mut m = MatrixState::default();
    assert_eq!(m.selected_level(2), None);
    m.select_level(2, 3);
    assert_eq!(m.selected_level(2), Some(3));
    assert_eq!(m.selected_level(3), None);
    m.select_level(2, 4);
    assert_eq!(m.selected_level(2), Some(4));
    assert_eq!(m.selections.len(), 1);
    assert_eq!(m.selections.get("2").unwrap(), "4");
}

#[test]
fn selected_level_ignores_unreadable_values() {
    let mut m = MatrixState::default();
    m.selections.insert("5".to_string(), "x".to_string());
    assert_eq!(m.selected_level(5), None);
    m.selections.insert("6".to_string(), "+2".to_string());
    assert_eq!(m.selected_level(6), Some(2));
    m.selections.insert("7".to_string(), "300".to_string());
    assert_eq!(m.selected_level(7), None);
}

#[test]
fn set_comment_keeps_selections() {
    let mut m = MatrixState::default();
    m.select_level(1, 2);
    m.set_comment(1, "Zabbix partout".to_string());
    assert_eq!(m.comments.get("1").unwrap(), "Zabbix partout");
    assert_eq!(m.selected_level(1), Some(2));
    let c = m.clone();
    assert_eq!(c, m);
}

#[test]
fn row_ids_follow_table_order() {
    assert_eq!(row_id(true, 0), Some("st_obs"));
    assert_eq!(row_id(true, 6), Some("st_simp"));
    assert_eq!(row_id(false, 1), Some("lt_slo"));
    assert_eq!(row_id(false, 5), Some("lt_release"));
    assert_eq!(row_id(true, 7), None);
    assert_eq!(row_id(false, 100), None);
}

#[test]
fn set_field_reads_back_and_pads() {
    let mut s = RoadmapState::default();
    assert_eq!(s.field("st_obs", 0), "");
    s.set_field(true, 0, 2, "Dashboards");
    assert_eq!(s.field("st_obs", 2), "Dashboards");
    assert_eq!(s.field("st_obs", 0), "");
    assert_eq!(s.st.get("st_obs").unwrap().len(), 3);
    s.set_field(false, 1, 0, "SLO visibles");
    assert_eq!(s.field("lt_slo", 0), "SLO visibles");
    assert_eq!(s.field("lt_slo", 9), "");
    assert_eq!(s.field("nope", 0), "");
    s.set_field(true, 9, 0, "ignored");
    assert_eq!(s.st.len(), 1);
    assert_eq!(s.lt.len(), 1);
}

#[test]
fn undo_stack_is_capped() {
    let mut stack: Vec<RoadmapState> = Vec::new();
    for i in 0..(UNDO_CAP + 3) {
        let mut s = RoadmapState::default();
        s.set_field(true, 0, 0, &format!("v{}", i));
        push_undo(&mut stack, &s);
    }
    assert_eq!(stack.len(), UNDO_CAP);
    assert_eq!(stack[0].field("st_obs", 0), "v3");
    assert_eq!(stack[UNDO_CAP - 1].field("st_obs", 0), format!("v{}", UNDO_CAP + 2));
}
