use sre_audit::i18n::{tr, Lang};
use sre_audit::models::{
    LangLines, LangStrings, LevelItem, MatrixData, MatrixLevel, MatrixRow, MatrixState, RoadmapData,
    RoadmapRow, RoadmapState, RoadmapTemplates,
};
use sre_audit::services::roadmap_gen::{
    build_constat, clear, contains_token, detect_tools, fill_draft, level_badge, vision_badge, GenMode,
};
use sre_audit::roadmap_page::{
    clear_with_undo, export_name, generate, lt_vision, same_cells, selection_ready, st_badge, undo, GenOutcome,
};
use sre_audit::strmap::StrMap;

// ── Fixture: a small bank carrying the texts the scenarios look for ──────────

const ST_IDS: [&str; 7] = ["st_obs", "st_slo", "st_risk", "st_toil", "st_auto", "st_release", "st_simp"];
const LT_IDS: [&str; 7] = ["lt_obs", "lt_slo", "lt_risk", "lt_toil", "lt_auto", "lt_release", "lt_simp"];

fn strmap<V>(pairs: Vec<(&str, V)>) -> StrMap<V> {
    let mut m = StrMap::new();
    for (k, v) in pairs {
        m.insert(k.to_string(), v);
    }
    m
}

fn ls(fr: &str, en: &str) -> LangStrings {
    LangStrings { fr: fr.to_string(), en: en.to_string() }
}

fn ll(fr: &[&str], en: &[&str]) -> LangLines {
    LangLines {
        fr: fr.iter().map(|s| s.to_string()).collect(),
        en: en.iter().map(|s| s.to_string()).collect(),
    }
}

fn badge(num: u8, level: u8) -> String {
    match (num, level) {
        (2, 2) => "SLA Contractuels".to_string(),
        (2, 4) => "Gouvernance Valeur".to_string(),
        (7, 4) => "Native & Sobre".to_string(),
        _ => format!("Badge {num}.{level}"),
    }
}

fn matrix() -> MatrixData {
    MatrixData {
        rows: (1..=7u8)
            .map(|num| MatrixRow {
                id: num,
                num,
                title: format!("Principe {num}"),
                aspect: "Aspect".to_string(),
                process: "Processus".to_string(),
                levels: (1..=4u8)
                    .map(|level| MatrixLevel {
                        level,
                        badge: badge(num, level),
                        items: vec![LevelItem { label: "L".to_string(), text: "T".to_string() }],
                    })
                    .collect(),
            })
            .collect(),
    }
}

fn roadmap() -> RoadmapData {
    let row = |id: &str, num: u8, areas: usize| RoadmapRow {
        id: id.to_string(),
        num,
        title: format!("Principe {num}"),
        process: "Processus".to_string(),
        badges: vec!["Badge".to_string()],
        areas: vec![String::new(); areas],
        vision: String::new(),
    };
    RoadmapData {
        st: ST_IDS.iter().enumerate().map(|(i, id)| row(id, i as u8 + 1, 3)).collect(),
        lt: LT_IDS.iter().enumerate().map(|(i, id)| row(id, i as u8 + 1, 2)).collect(),
    }
}

fn constat(num: u8, level: u8) -> LangStrings {
    match (num, level) {
        (2, 2) => ls(
            "Des objectifs contractuels déconnectés de l'expérience réellement vécue par les utilisateurs.",
            "Contractual objectives disconnected from what users actually live.",
        ),
        (7, 4) => ls("Architecture native et sobre, redondance maîtrisée.", "Native and lean architecture."),
        (7, 2) => ls(
            "Inventaires semi-automatiques et début de cartographie, mais exceptions locales persistantes ({tools}) ; failover encore manuel.",
            "Semi-automatic inventories, but local exceptions persist ({tools}); failover still manual.",
        ),
        (4, 1) => ls("Tâches répétitives exécutées à la main.", "Repetitive tasks run by hand."),
        _ => ls(&format!("Constat {num}.{level}"), &format!("Finding {num}.{level}")),
    }
}

fn actions(num: u8, level: u8) -> LangLines {
    match (num, level) {
        (2, 2) => ll(
            &["- M1-M2 : Co-concevoir avec le métier les premiers SLO.", "- M3 : Publier les tableaux de bord."],
            &["- M1-M2: Co-design the first SLOs with the business.", "- M3: Publish the dashboards."],
        ),
        (7, 4) => ll(&["- M1 : Auditer le taux de redondance restant."], &["- M1: Audit the remaining redundancy."]),
        (1, 2) => ll(&["- M1 : Rationaliser les alertes."], &["- M1: Rationalise the alerts."]),
        _ => ll(&[&format!("- M1 : Action {num}.{level}")], &[&format!("- M1: Action {num}.{level}")]),
    }
}

fn kpi(num: u8, level: u8) -> LangLines {
    match (num, level) {
        (2, 2) => ll(&["3 conventions de SLO métier validées."], &["3 business SLO agreements signed."]),
        (7, 4) => ll(&["Taux de redondance résiduelle par domaine."], &["Residual redundancy per domain."]),
        (1, 2) => ll(&["Réduction de 30% du bruit d'alerte."], &["30% less alert noise."]),
        _ => ll(&[&format!("KPI {num}.{level}")], &[&format!("KPI {num}.{level}")]),
    }
}

fn year1(num: u8, level: u8) -> LangStrings {
    match (num, level) {
        (2, 2) => ls("SLO métier intégrés et visibles en temps réel.", "Business SLOs visible in real time."),
        (7, 4) => ls("Généraliser la Voie Pavée.", "Generalise the Paved Road."),
        (1, 2) => ls("Routage automatique des alertes généralisé.", "Automatic alert routing everywhere."),
        _ => ls(&format!("Cible {num}.{level}"), &format!("Target {num}.{level}")),
    }
}

fn transform(num: u8, level: u8) -> LangStrings {
    match (num, level) {
        (2, 2) => ls("Arbitrage algorithmique partagé des budgets d'erreur.", "Shared algorithmic error-budget arbitration."),
        (7, 4) => ls("Tester les bascules inter-régions sans interruption.", "Test cross-region failover."),
        (7, 2) => ls("Automatiser les bascules.", "Automate failover."),
        _ => ls(&format!("Transformation {num}.{level}"), &format!("Transformation {num}.{level}")),
    }
}

fn bank<T>(f: impl Fn(u8, u8) -> T) -> StrMap<StrMap<T>> {
    let mut outer = StrMap::new();
    for num in 1..=7u8 {
        let mut inner = StrMap::new();
        for level in 1..=4u8 {
            inner.insert(level.to_string(), f(num, level));
        }
        outer.insert(num.to_string(), inner);
    }
    outer
}

fn templates() -> RoadmapTemplates {
    RoadmapTemplates {
        constat: bank(constat),
        st_actions: bank(actions),
        st_kpi: bank(kpi),
        lt_year1: bank(year1),
        lt_transform: bank(transform),
    }
}

fn base() -> (RoadmapData, MatrixData, RoadmapTemplates) {
    (roadmap(), matrix(), templates())
}

fn selection(sel: Vec<(&str, &str)>, comments: Vec<(&str, &str)>) -> MatrixState {
    MatrixState {
        selections: strmap(sel.into_iter().map(|(k, v)| (k, v.to_string())).collect()),
        comments: strmap(comments.into_iter().map(|(k, v)| (k, v.to_string())).collect()),
        ..Default::default()
    }
}

fn cells(v: &[&str]) -> Vec<String> {
    v.iter().map(|s| s.to_string()).collect()
}

// ── Scenarios ────────────────────────────────────────────────────────────────

#[test]
fn contains_token_respects_word_boundaries() {
    let lower = "postgresql et mysql, gitlab-ci et elkgraph";
    assert!(!contains_token(lower, "sql"), "inside postgresql");
    assert!(contains_token(lower, "mysql"), "standalone keyword");
    assert!(contains_token(lower, "gitlab-ci"), "hyphenated token");
    assert!(!contains_token(lower, "elk"), "inside elkgraph");
    assert!(contains_token(lower, "et"), "standalone short token");
    assert!(contains_token("jenkins", "jenkins"), "string equals token");
    assert!(contains_token("", ""), "empty needle terminates");
}

#[test]
fn level_two_fills_all_st_lt_cells() {
    let (roadmap, matrix, templates) = base();
    let sel = selection(vec![("2", "2")], vec![("2", "Des SLA purement contractuels.")]);
    let mut state = RoadmapState::default();
    fill_draft(&mut state, &roadmap, &matrix, &sel, &templates, Lang::Fr, GenMode::FillEmpty);

    let st = state.st.get("st_slo").unwrap();
    assert!(st[0].contains("Note d'audit : Des SLA purement contractuels."));
    assert!(st[0].contains("déconnectés de l'expérience réellement vécue"));
    assert!(st[1].contains("- M1-M2 : Co-concevoir avec le métier"));
    assert!(st[2].contains("3 conventions de SLO métier validées"));

    let lt = state.lt.get("lt_slo").unwrap();
    assert!(lt[0].contains("SLO métier intégrés et visibles en temps réel"));
    assert!(lt[1].to_lowercase().contains("arbitrage algorithmique partagé"));
}

#[test]
fn level_four_uses_consolidate_bank_entries() {
    let (roadmap, matrix, templates) = base();
    let sel = selection(vec![("7", "4")], vec![]);
    let mut state = RoadmapState::default();
    fill_draft(&mut state, &roadmap, &matrix, &sel, &templates, Lang::Fr, GenMode::FillEmpty);

    let st = state.st.get("st_simp").unwrap();
    assert!(st[0].contains("Architecture native et sobre"));
    assert!(!st[0].contains("Note d'audit"));
    assert!(st[1].contains("- M1 : Auditer le taux de redondance restant"));
    assert!(st[2].contains("Taux de redondance résiduelle par domaine"));

    let lt = state.lt.get("lt_simp").unwrap();
    assert!(lt[0].contains("Voie Pavée"));
    assert!(lt[1].contains("bascules inter-régions sans interruption"));
}

#[test]
fn preserves_manual_text_and_skips_unselected() {
    let (roadmap, matrix, templates) = base();
    let sel = selection(vec![("2", "2")], vec![]);
    let mut state = RoadmapState {
        st: strmap(vec![("st_slo", cells(&["déjà rédigé", "", "KPI internes"]))]),
        ..Default::default()
    };
    fill_draft(&mut state, &roadmap, &matrix, &sel, &templates, Lang::Fr, GenMode::FillEmpty);

    let st = state.st.get("st_slo").unwrap();
    assert_eq!(st[0], "déjà rédigé");
    assert_eq!(st[2], "KPI internes");
    assert!(st[1].contains("- M1-M2 : Co-concevoir avec le métier"));

    assert!(state.st.get("st_obs").is_none_or(|v| v.iter().all(|c| c.is_empty())));
    assert!(state.st.get("st_toil").is_none_or(|v| v.iter().all(|c| c.is_empty())));
}

#[test]
fn overwrite_mode_replaces_existing_cells() {
    let (roadmap, matrix, templates) = base();
    let sel = selection(vec![("2", "2")], vec![("2", "Des SLA purement contractuels.")]);
    let mut state = RoadmapState {
        st: strmap(vec![("st_slo", cells(&["contenu manuel", "", "KPI internes"]))]),
        ..Default::default()
    };
    fill_draft(&mut state, &roadmap, &matrix, &sel, &templates, Lang::Fr, GenMode::Overwrite);

    let st = state.st.get("st_slo").unwrap();
    assert!(st[0].contains("Note d'audit : Des SLA purement contractuels."));
    assert!(st[1].contains("- M1-M2 : Co-concevoir avec le métier"));
    assert!(st[2].contains("3 conventions de SLO métier validées"));
    assert!(state.st.get("st_obs").is_none_or(|v| v.iter().all(|c| c.is_empty())));
}

#[test]
fn clear_empties_every_cell() {
    let (_, _, _) = base();
    let mut state = RoadmapState {
        st: strmap(vec![("st_slo", cells(&["a", "b", "c"]))]),
        lt: strmap(vec![("lt_slo", cells(&["x", "y"]))]),
    };
    assert_eq!(state.field("st_slo", 0), "a");
    clear(&mut state);
    assert_eq!(state.field("st_slo", 0), "");
    assert_eq!(state.field("st_slo", 2), "");
    assert_eq!(state.field("lt_slo", 1), "");
    assert!((0..state.st.len()).all(|i| state.st.value(i).iter().all(|c| c.is_empty())));
}

#[test]
fn badge_helpers_format_correctly() {
    let (_, matrix, _) = base();
    assert_eq!(level_badge(&matrix, 2, 2).as_deref(), Some("Niveau 2 · SLA Contractuels"));
    assert_eq!(vision_badge(&matrix, 2).as_deref(), Some("Niveau 4 · Gouvernance Valeur"));
    assert_eq!(level_badge(&matrix, 7, 4).as_deref(), Some("Niveau 4 · Native & Sobre"));
}

#[test]
fn detects_tools_in_comment() {
    assert_eq!(
        detect_tools("Alertes Dynatrace, supervision Zabbix et logs ELK"),
        vec!["Dynatrace", "Zabbix", "ELK"]
    );
    assert_eq!(
        detect_tools("Gitlab-CI et Jenkins, CMDB maintenue à la main"),
        vec!["GitLab CI", "Jenkins"]
    );
    assert!(detect_tools("aucun outil cité").is_empty());
}

#[test]
fn injects_tools_into_curated_constat_placeholder() {
    assert_eq!(
        build_constat(&templates(), 7, 2, Lang::Fr, "Prolifération : Postgres, Oracle, MySQL."),
        "Inventaires semi-automatiques et début de cartographie, mais exceptions locales persistantes (Postgres, Oracle, MySQL) ; failover encore manuel.\nNote d'audit : Prolifération : Postgres, Oracle, MySQL."
    );
}

#[test]
fn golden_fixture_matches_hand_curated_quality() {
    let (roadmap, matrix, templates) = base();
    let sel = selection(
        vec![("1", "2"), ("4", "1"), ("7", "2")],
        vec![
            (
                "1",
                "Alertes Dynatrace routées automatiquement vers les bonnes \
                 équipes mais multiplication des outils de supervision \
                 (Dynatrace, Zabbix, Grafana, Liora, Batch-tracker) avec \
                 leur lot d'alertes et notifications intempestives. \
                 Tous les logs sont accessibles via ELK.",
            ),
            (
                "4",
                "Patchs postgres PSSIT exécutés manuellement, requêtes SQL \
                 récurrentes, astreintes fréquentes.",
            ),
            (
                "7",
                "La CMDB est maintenue par les équipes via modification \
                 manuelle. Multiplication d'outils répondant au même \
                 besoin (Postgres, Oracle, MySQL, Gitlab-CI, Jenkins).",
            ),
        ],
    );

    for lang in [Lang::Fr, Lang::En] {
        let mut state = RoadmapState::default();
        fill_draft(&mut state, &roadmap, &matrix, &sel, &templates, lang, GenMode::FillEmpty);

        let note_label = tr("roadmap_note_label", lang);
        let tools_label = tr("roadmap_tools_label", lang);

        let obs = state.st.get("st_obs").unwrap();
        assert!(obs[0].contains(note_label.as_str()), "{lang:?}: audit note");
        assert!(obs[0].contains("Dynatrace"), "{lang:?}: tools injected");
        assert!(obs[0].contains("Zabbix"), "{lang:?}: tools injected");
        assert!(obs[1].contains("- M1"), "{lang:?}: phased actions");
        assert!(obs[2].contains("30%"), "{lang:?}: measurable KPI");
        assert!(!obs[2].contains("Atteindre Niveau"), "{lang:?}: no fake KPI");
        assert!(
            state.lt.get("lt_obs").unwrap()[0].to_lowercase().contains(match lang {
                Lang::Fr => "routage automatique des alertes",
                Lang::En => "automatic alert routing",
            }),
            "{lang:?}: consolidated year-1 target"
        );

        let simp = state.st.get("st_simp").unwrap();
        assert!(!simp[0].contains("{tools}"), "{lang:?}: placeholder resolved");
        assert!(
            simp[0].contains("Postgres") && simp[0].contains("Jenkins"),
            "{lang:?}: org-specific tools injected\n{}",
            simp[0]
        );

        let toil = state.st.get("st_toil").unwrap();
        assert!(toil[0].contains(tools_label.as_str()), "{lang:?}: tools reported {}", toil[0]);
        assert!(toil[0].contains("PSSIT") && toil[0].contains("SQL"), "{lang:?}: toil tools listed");
        assert!(
            state.lt.get("lt_simp").unwrap()[1].contains(match lang {
                Lang::Fr => "bascules",
                Lang::En => "failover",
            }),
            "{lang:?}: major transformation"
        );
    }
}

// ── Further checks ───────────────────────────────────────────────────────────

#[test]
fn tools_line_is_appended_without_placeholder() {
    let t = templates();
    assert_eq!(
        build_constat(&t, 4, 1, Lang::En, "We patch postgres and run SQL by hand."),
        "Repetitive tasks run by hand.\nInvolved tools : Postgres, SQL.\nAudit note : We patch postgres and run SQL by hand."
    );
    assert_eq!(build_constat(&t, 4, 1, Lang::Fr, "   "), "Tâches répétitives exécutées à la main.");
    assert_eq!(build_constat(&t, 9, 1, Lang::Fr, ""), "");
}

#[test]
fn unknown_principle_or_level_is_skipped() {
    let (roadmap, matrix, templates) = base();
    let sel = selection(vec![("3", "x"), ("5", "9")], vec![]);
    let mut state = RoadmapState::default();
    fill_draft(&mut state, &roadmap, &matrix, &sel, &templates, Lang::Fr, GenMode::FillEmpty);
    assert!(state.st.get("st_risk").is_none());
    // level 9 is a number: the row is drafted but the bank has no entry for it
    let auto = state.st.get("st_auto").unwrap();
    assert_eq!(auto, &cells(&["", "", ""]));
    assert_eq!(level_badge(&matrix, 5, 9), None);
    assert_eq!(level_badge(&matrix, 8, 1), None);
    assert_eq!(level_badge(&matrix, 1, 0), None);
}

#[test]
fn drafting_pads_short_rows_and_keeps_extra_cells() {
    let (roadmap, matrix, templates) = base();
    let sel = selection(vec![("2", "2")], vec![]);
    let mut state = RoadmapState {
        st: strmap(vec![("st_slo", cells(&["x"]))]),
        lt: strmap(vec![("lt_slo", cells(&["", "", "extra"]))]),
    };
    fill_draft(&mut state, &roadmap, &matrix, &sel, &templates, Lang::En, GenMode::FillEmpty);
    let st = state.st.get("st_slo").unwrap();
    assert_eq!(st.len(), 3);
    assert_eq!(st[0], "x");
    assert_eq!(st[1], "- M1-M2: Co-design the first SLOs with the business.\n- M3: Publish the dashboards.");
    let lt = state.lt.get("lt_slo").unwrap();
    assert_eq!(lt[0], "Business SLOs visible in real time.");
    assert_eq!(lt[2], "extra");
}

#[test]
fn contains_token_scans_non_overlapping_matches() {
    // "aa" matches at 0 then 2 (not 1): only the boundary of those counts
    assert!(!contains_token("aaax", "aa"));
    assert!(contains_token("x aa", "aa"));
    assert!(contains_token("é k8s.", "k8s"));
    assert!(!contains_token("abc", ""));
    // an empty needle stands alone only between two non-word characters
    assert!(!contains_token("a b", ""));
    assert!(contains_token("a  b", ""));
}

#[test]
fn detect_tools_deduplicates_canonical_names() {
    assert_eq!(detect_tools("GitLab and gitlab-ci, K8S and kubernetes"), vec!["GitLab CI", "Kubernetes"]);
}

// ── Roadmap page actions ─────────────────────────────────────────────────────

#[test]
fn generate_without_selection_does_nothing() {
    let (roadmap, matrix, templates) = base();
    let mut state = RoadmapState::default();
    let mut stack: Vec<RoadmapState> = Vec::new();
    let out = generate(&mut state, &mut stack, None, &roadmap, &matrix, &templates, Lang::Fr, GenMode::FillEmpty);
    assert_eq!(out, GenOutcome::NoSelection);
    assert_eq!(out.flash_key(), Some("roadmap_gen_noselection"));
    let empty = MatrixState::default();
    assert!(!selection_ready(Some(&empty)));
    let out = generate(&mut state, &mut stack, Some(&empty), &roadmap, &matrix, &templates, Lang::Fr, GenMode::Overwrite);
    assert_eq!(out, GenOutcome::NoSelection);
    assert!(!out.changed());
    assert!(stack.is_empty());
    assert_eq!(state.st.len(), 0);
}

#[test]
fn generate_then_undo_restores_the_roadmap() {
    let (roadmap, matrix, templates) = base();
    let sel = selection(vec![("2", "2")], vec![]);
    assert!(selection_ready(Some(&sel)));
    let mut state = RoadmapState::default();
    state.set_field(true, 0, 0, "notes");
    let before = state.clone();
    let mut stack: Vec<RoadmapState> = Vec::new();
    let out = generate(&mut state, &mut stack, Some(&sel), &roadmap, &matrix, &templates, Lang::Fr, GenMode::FillEmpty);
    assert_eq!(out, GenOutcome::Drafted);
    assert_eq!(out.flash_key(), Some("roadmap_gen_ok"));
    assert!(out.changed());
    assert_eq!(stack.len(), 1);
    assert!(!state.field("st_slo", 0).is_empty());
    // a second fill of the empty cells finds nothing left to fill
    let out = generate(&mut state, &mut stack, Some(&sel), &roadmap, &matrix, &templates, Lang::Fr, GenMode::FillEmpty);
    assert_eq!(out, GenOutcome::Unchanged);
    assert_eq!(out.flash_key(), None);
    assert_eq!(stack.len(), 1);
    assert!(undo(&mut state, &mut stack));
    assert!(same_cells(&state, &before));
    assert_eq!(state.field("st_obs", 0), "notes");
    assert_eq!(state.field("st_slo", 0), "");
    assert!(!undo(&mut state, &mut stack));
}

#[test]
fn overwrite_is_always_recorded() {
    let (roadmap, matrix, templates) = base();
    let sel = selection(vec![("2", "2")], vec![]);
    let mut state = RoadmapState::default();
    let mut stack: Vec<RoadmapState> = Vec::new();
    generate(&mut state, &mut stack, Some(&sel), &roadmap, &matrix, &templates, Lang::En, GenMode::Overwrite);
    let out = generate(&mut state, &mut stack, Some(&sel), &roadmap, &matrix, &templates, Lang::En, GenMode::Overwrite);
    assert_eq!(out, GenOutcome::Overwritten);
    assert_eq!(out.flash_key(), Some("roadmap_gen_forced"));
    assert_eq!(stack.len(), 2);
    assert!(same_cells(&stack[1], &state));
    assert!(!same_cells(&stack[0], &state));
}

#[test]
fn clear_with_undo_records_and_empties() {
    let mut state = RoadmapState::default();
    state.set_field(true, 1, 1, "a");
    state.set_field(false, 2, 0, "b");
    let mut stack: Vec<RoadmapState> = Vec::new();
    clear_with_undo(&mut state, &mut stack);
    assert_eq!(state.field("st_slo", 1), "");
    assert_eq!(state.field("lt_risk", 0), "");
    assert_eq!(state.st.get("st_slo").unwrap().len(), 2);
    assert_eq!(stack.len(), 1);
    assert!(undo(&mut state, &mut stack));
    assert_eq!(state.field("st_slo", 1), "a");
    assert_eq!(state.field("lt_risk", 0), "b");
}

#[test]
fn page_badges_and_export_name() {
    let (roadmap, matrix, _) = base();
    let sel = selection(vec![("2", "2")], vec![]);
    let slo_st = roadmap.st.iter().find(|r| r.num == 2).unwrap();
    assert_eq!(st_badge(&sel, &matrix, slo_st), "Niveau 2 · SLA Contractuels");
    let none = MatrixState::default();
    let expected_first = slo_st.badges.first().cloned().unwrap_or_default();
    assert_eq!(st_badge(&none, &matrix, slo_st), expected_first);
    let slo_lt = roadmap.lt.iter().find(|r| r.num == 2).unwrap();
    let mut row = slo_lt.clone();
    row.vision = String::new();
    assert_eq!(lt_vision(&matrix, &row), "Niveau 4 · Gouvernance Valeur");
    row.vision = "Cible".to_string();
    assert_eq!(lt_vision(&matrix, &row), "Cible");
    assert_eq!(export_name(""), "sre_roadmap.json");
    assert_eq!(export_name("abc"), "sre_roadmap_abc.json");
}

#[test]
fn detect_tools_finds_nothing_inside_words() {
    assert!(detect_tools("postgresql").is_empty());
    assert_eq!(detect_tools("gitlab et gitlab-ci"), vec!["GitLab CI"]);
    assert_eq!(detect_tools("Zabbix puis Dynatrace"), vec!["Dynatrace", "Zabbix"]);
}
