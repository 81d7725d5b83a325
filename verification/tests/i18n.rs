use sre_audit::i18n::{tr, Lang};
use sre_audit::theme::Theme;

#[test]
fn tr_knows_both_languages() {
    assert_eq!(tr("nav_matrix", Lang::En), "Maturity Matrix");
    assert_eq!(tr("nav_matrix", Lang::Fr), "Matrice de Maturité");
    assert_eq!(tr("save", Lang::En), "Save");
    assert_eq!(tr("save", Lang::Fr), "Sauvegarder");
}

#[test]
fn tr_returns_unknown_keys_unchanged() {
    assert_eq!(tr("no_such_key", Lang::En), "no_such_key");
    assert_eq!(tr("", Lang::Fr), "");
}

#[test]
fn lang_labels_codes_and_toggle() {
    assert_eq!(Lang::En.label(), "EN");
    assert_eq!(Lang::Fr.label(), "FR");
    assert_eq!(Lang::En.code(), "en");
    assert_eq!(Lang::Fr.code(), "fr");
    assert_eq!(Lang::En.toggle(), Lang::Fr);
    assert_eq!(Lang::Fr.toggle().toggle(), Lang::Fr);
}

#[test]
fn lang_from_preferences() {
    assert_eq!(Lang::from_preferences(Some("en-GB"), Some("fr-FR")), Lang::En);
    assert_eq!(Lang::from_preferences(Some("de"), None), Lang::Fr);
    assert_eq!(Lang::from_preferences(None, Some("fr-CA")), Lang::Fr);
    assert_eq!(Lang::from_preferences(None, Some("en-US")), Lang::En);
    assert_eq!(Lang::from_preferences(None, None), Lang::En);
}

#[test]
fn theme_from_stored_and_toggle() {
    assert_eq!(Theme::from_stored(Some("dark")), Theme::Dark);
    assert_eq!(Theme::from_stored(Some("light")), Theme::Light);
    assert_eq!(Theme::from_stored(None), Theme::Light);
    assert!(Theme::Dark.is_dark());
    assert!(!Theme::Light.is_dark());
    assert_eq!(Theme::Dark.attr(), "dark");
    assert_eq!(Theme::Light.attr(), "light");
    assert_eq!(Theme::Light.toggle(), Theme::Dark);
    assert_eq!(Theme::Dark.toggle().toggle(), Theme::Dark);
}
