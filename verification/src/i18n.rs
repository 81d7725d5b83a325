//! Interface texts in French and English.
use vstd::prelude::*;
use crate::text::{str_eq, to_owned_string, spec_starts_with, starts_with};

verus! {

/// Interface language.
#[derive(Clone, Copy, PartialEq, Eq, Debug, Structural)]
pub enum Lang {
    Fr,
    En,
}

impl Lang {
    /// The other language.
    pub fn toggle(self) -> (r: Self)
        ensures
            r == spec_toggle_lang(self),
    {
        match self {
            Self::En => Self::Fr,
            Self::Fr => Self::En,
        }
    }

    /// Short display label: `EN` or `FR`.
    pub fn label(self) -> (r: &'static str)
        ensures
            r@ == (match self {
                Lang::En => "EN"@,
                Lang::Fr => "FR"@,
            }),
    {
        match self {
            Self::En => "EN",
            Self::Fr => "FR",
        }
    }

    /// The code stored to remember the choice: `en` or `fr`.
    pub fn code(self) -> (r: &'static str)
        ensures
            r@ == (match self {
                Lang::En => "en"@,
                Lang::Fr => "fr"@,
            }),
    {
        match self {
            Self::En => "en",
            Self::Fr => "fr",
        }
    }

    /// The language to start with, from the stored choice and the browser's
    /// preferred language: a stored choice starting with `en` means English and any
    /// other stored choice French; without one, a browser language starting with
    /// `fr` means French and anything else English.
    pub fn from_preferences(stored: Option<&str>, navigator: Option<&str>) -> (r: Self)
        ensures
            r == spec_lang_from_preferences(
                match stored { Some(s) => Some(s@), None => None },
                match navigator { Some(s) => Some(s@), None => None },
            ),
    {
        match stored {
            Some(s) => {
                if starts_with(s, "en") { Lang::En } else { Lang::Fr }
            }
            None => match navigator {
                Some(n) => {
                    if starts_with(n, "fr") { Lang::Fr } else { Lang::En }
                }
                None => Lang::En,
            },
        }
    }
}

pub open spec fn spec_toggle_lang(l: Lang) -> Lang {
    match l {
        Lang::En => Lang::Fr,
        Lang::Fr => Lang::En,
    }
}

/// Toggling the language twice gives back the language one started with.
pub proof fn lang_toggle_involutive(l: Lang)
    ensures
        spec_toggle_lang(spec_toggle_lang(l)) == l,
{
}

pub open spec fn spec_lang_from_preferences(stored: Option<Seq<char>>, navigator: Option<Seq<char>>) -> Lang {
    match stored {
        Some(s) => if spec_starts_with(s, "en"@) { Lang::En } else { Lang::Fr },
        None => match navigator {
            Some(n) => if spec_starts_with(n, "fr"@) { Lang::Fr } else { Lang::En },
            None => Lang::En,
        },
    }
}

/// The text of `key` in `lang`.
pub open spec fn spec_tr(key: Seq<char>, lang: Lang) -> Seq<char> {
    match lang {
        Lang::En => spec_en(key),
        Lang::Fr => spec_fr(key),
    }
}

/// The interface text of `key` in `lang`; an unknown key is returned unchanged.
pub fn tr(key: &str, lang: Lang) -> (r: String)
    ensures
        r@ == spec_tr(key@, lang),
{
    let val = match lang {
        Lang::En => en(key),
        Lang::Fr => fr(key),
    };
    to_owned_string(val)
}

/// The English text of `key`; an unknown key is its own text.
pub open spec fn spec_en(key: Seq<char>) -> Seq<char> {
    if key == "nav_home"@ {
        "Home"@
    } else if key == "nav_matrix"@ {
        "Maturity Matrix"@
    } else if key == "nav_roadmap"@ {
        "Roadmap"@
    } else if key == "nav_backup"@ {
        "Backup"@
    } else if key == "nav_signout"@ {
        "Sign out"@
    } else if key == "theme_dark"@ {
        "Dark"@
    } else if key == "theme_light"@ {
        "Light"@
    } else if key == "login_title"@ {
        "SRE Audit - Restricted Access"@
    } else if key == "login_subtitle"@ {
        "Sign in with your Google account to access the SRE audit tools."@
    } else if key == "login_button"@ {
        "Sign in with Google"@
    } else if key == "login_error"@ {
        "Google error"@
    } else if key == "login_config_error"@ {
        "GOOGLE_CLIENT_ID not configured at build time."@
    } else if key == "denied_title"@ {
        "Access denied"@
    } else if key == "denied_body"@ {
        "Your Google account is not on the authorised list for this tool."@
    } else if key == "denied_email"@ {
        "Signed in as"@
    } else if key == "denied_back"@ {
        "Try another account"@
    } else if key == "denied_nothing"@ {
        "You don't have access to the SRE audit tools."@
    } else if key == "home_title"@ {
        "SRE Audit"@
    } else if key == "home_subtitle"@ {
        "Maturity matrix and transformation roadmap for your SRE journey."@
    } else if key == "home_welcome"@ {
        "Welcome"@
    } else if key == "home_matrix_title"@ {
        "SRE Maturity Matrix"@
    } else if key == "home_matrix_desc"@ {
        "Assess 7 SRE principles against a 4-level maturity scale with per-row notes."@
    } else if key == "home_matrix_btn"@ {
        "Open the matrix"@
    } else if key == "home_roadmap_title"@ {
        "Transformation Roadmap"@
    } else if key == "home_roadmap_desc"@ {
        "Short and long term action plans to move the organisation forward."@
    } else if key == "home_roadmap_btn"@ {
        "Open the roadmap"@
    } else if key == "home_orgs"@ {
        "Audited organisations"@
    } else if key == "backup_title"@ {
        "Global backup"@
    } else if key == "backup_desc"@ {
        "Back up or restore every organisation (matrix and roadmap) in a single Google Drive file."@
    } else if key == "org_add"@ {
        "Add organisation"@
    } else if key == "org_add_ph"@ {
        "New organisation name…"@
    } else if key == "org_name_label"@ {
        "Name"@
    } else if key == "org_current"@ {
        "Active"@
    } else if key == "org_delete"@ {
        "Delete organisation"@
    } else if key == "status_saved"@ {
        "✓ Saved locally"@
    } else if key == "status_loading"@ {
        "Loading…"@
    } else if key == "save"@ {
        "Save"@
    } else if key == "export_pdf"@ {
        "Export as PDF"@
    } else if key == "export_json"@ {
        "Export JSON"@
    } else if key == "import_json"@ {
        "Import JSON"@
    } else if key == "drive_upload"@ {
        "Backup to Drive"@
    } else if key == "drive_restore"@ {
        "Restore from Drive"@
    } else if key == "flash_saved"@ {
        "✓ Changes saved"@
    } else if key == "flash_loaded"@ {
        "✓ Loaded"@
    } else if key == "flash_drive_up"@ {
        "✓ Backed up to Drive"@
    } else if key == "flash_drive_down"@ {
        "✓ Restored from Drive"@
    } else if key == "flash_import_ok"@ {
        "✓ Imported"@
    } else if key == "flash_import_err"@ {
        "✗ Invalid JSON file"@
    } else if key == "error"@ {
        "Error"@
    } else if key == "print_placeholder"@ {
        "No particular comment."@
    } else if key == "matrix_company"@ {
        "Organisation audited:"@
    } else if key == "matrix_company_ph"@ {
        "Enter the company name…"@
    } else if key == "matrix_desc"@ {
        "Cross-evaluation framework aligning Google SRE pillars with ITIL process modernisation (Incident, Problem, Change, Capacity) and Cloud Native practices."@
    } else if key == "matrix_instructions"@ {
        "Click a level to position the organisation. Add field notes on the right. Use “Save” to keep your data between sessions."@
    } else if key == "matrix_col1"@ {
        "SRE Principle & IT Process"@
    } else if key == "matrix_col2"@ {
        "Level 1: Reactive"@
    } else if key == "matrix_col3"@ {
        "Level 2: Organised"@
    } else if key == "matrix_col4"@ {
        "Level 3: Proactive"@
    } else if key == "matrix_col5"@ {
        "Level 4: SRE / Continuous"@
    } else if key == "matrix_comment"@ {
        "Notes & Nuances (Audit)"@
    } else if key == "matrix_aspect"@ {
        "Aspect"@
    } else if key == "matrix_title"@ {
        "SRE Maturity Matrix & Audit Notes"@
    } else if key == "matrix_comment_ph"@ {
        "Enter your remarks or level nuances here…"@
    } else if key == "roadmap_title"@ {
        "Institutionalised SRE Roadmap"@
    } else if key == "roadmap_meta"@ {
        "Focus: Tool convergence, delivery reliability & collaborative alignment"@
    } else if key == "roadmap_st_title"@ {
        "Short-Term Roadmap (3 Months: Rationalisation & Urgent Actions)"@
    } else if key == "roadmap_lt_title"@ {
        "Long-Term Roadmap (2-3 Years: Industrialisation & Unified Ecosystem)"@
    } else if key == "roadmap_st_h1"@ {
        "SRE Principle / ITIL Process"@
    } else if key == "roadmap_st_h2"@ {
        "Audit Finding (Origin)"@
    } else if key == "roadmap_st_h3"@ {
        "Immediate Priority Actions (M1 to M3)"@
    } else if key == "roadmap_st_h4"@ {
        "Deliverables & KPI (3M)"@
    } else if key == "roadmap_lt_h1"@ {
        "SRE Principle / ITIL Process"@
    } else if key == "roadmap_lt_h2"@ {
        "Consolidation Target (Year 1)"@
    } else if key == "roadmap_lt_h3"@ {
        "Major Transformation (Years 2 & 3)"@
    } else if key == "roadmap_lt_h4"@ {
        "Target Vision (Continuous SRE Level)"@
    } else if key == "roadmap_generate"@ {
        "Generate from matrix"@
    } else if key == "roadmap_gen_ok"@ {
        "Roadmap filled from the matrix (empty cells only)."@
    } else if key == "roadmap_gen_noselection"@ {
        "Select maturity levels in the matrix first."@
    } else if key == "roadmap_gen_overwrite"@ {
        "Force regenerate"@
    } else if key == "roadmap_gen_forced"@ {
        "Roadmap regenerated from the matrix."@
    } else if key == "roadmap_clear"@ {
        "Clear roadmap"@
    } else if key == "roadmap_clear_ok"@ {
        "Roadmap cleared."@
    } else if key == "roadmap_undo"@ {
        "Undo"@
    } else if key == "roadmap_undo_ok"@ {
        "Changes undone."@
    } else if key == "roadmap_confirm_overwrite"@ {
        "Regenerate all roadmap cells from the matrix? Edited content on selected rows will be overwritten."@
    } else if key == "roadmap_confirm_clear"@ {
        "Clear the entire roadmap? All the cells will be emptied."@
    } else if key == "roadmap_note_label"@ {
        "Audit note"@
    } else if key == "roadmap_tools_label"@ {
        "Involved tools"@
    } else if key == "drive_hint"@ {
        "Your data is stored locally in this browser. Use “Backup to Drive” to save to your own private Google Drive app folder."@
    } else {
        key
    }
}

fn en(key: &str) -> (r: &str)
    ensures
        r@ == spec_en(key@),
{
    if str_eq(key, "nav_home") {
        return "Home";
    }
    if str_eq(key, "nav_matrix") {
        return "Maturity Matrix";
    }
    if str_eq(key, "nav_roadmap") {
        return "Roadmap";
    }
    if str_eq(key, "nav_backup") {
        return "Backup";
    }
    if str_eq(key, "nav_signout") {
        return "Sign out";
    }
    if str_eq(key, "theme_dark") {
        return "Dark";
    }
    if str_eq(key, "theme_light") {
        return "Light";
    }
    if str_eq(key, "login_title") {
        return "SRE Audit - Restricted Access";
    }
    if str_eq(key, "login_subtitle") {
        return "Sign in with your Google account to access the SRE audit tools.";
    }
    if str_eq(key, "login_button") {
        return "Sign in with Google";
    }
    if str_eq(key, "login_error") {
        return "Google error";
    }
    if str_eq(key, "login_config_error") {
        return "GOOGLE_CLIENT_ID not configured at build time.";
    }
    if str_eq(key, "denied_title") {
        return "Access denied";
    }
    if str_eq(key, "denied_body") {
        return "Your Google account is not on the authorised list for this tool.";
    }
    if str_eq(key, "denied_email") {
        return "Signed in as";
    }
    if str_eq(key, "denied_back") {
        return "Try another account";
    }
    if str_eq(key, "denied_nothing") {
        return "You don't have access to the SRE audit tools.";
    }
    if str_eq(key, "home_title") {
        return "SRE Audit";
    }
    if str_eq(key, "home_subtitle") {
        return "Maturity matrix and transformation roadmap for your SRE journey.";
    }
    if str_eq(key, "home_welcome") {
        return "Welcome";
    }
    if str_eq(key, "home_matrix_title") {
        return "SRE Maturity Matrix";
    }
    if str_eq(key, "home_matrix_desc") {
        return "Assess 7 SRE principles against a 4-level maturity scale with per-row notes.";
    }
    if str_eq(key, "home_matrix_btn") {
        return "Open the matrix";
    }
    if str_eq(key, "home_roadmap_title") {
        return "Transformation Roadmap";
    }
    if str_eq(key, "home_roadmap_desc") {
        return "Short and long term action plans to move the organisation forward.";
    }
    if str_eq(key, "home_roadmap_btn") {
        return "Open the roadmap";
    }
    if str_eq(key, "home_orgs") {
        return "Audited organisations";
    }
    if str_eq(key, "backup_title") {
        return "Global backup";
    }
    if str_eq(key, "backup_desc") {
        return "Back up or restore every organisation (matrix and roadmap) in a single Google Drive file.";
    }
    if str_eq(key, "org_add") {
        return "Add organisation";
    }
    if str_eq(key, "org_add_ph") {
        return "New organisation name…";
    }
    if str_eq(key, "org_name_label") {
        return "Name";
    }
    if str_eq(key, "org_current") {
        return "Active";
    }
    if str_eq(key, "org_delete") {
        return "Delete organisation";
    }
    if str_eq(key, "status_saved") {
        return "✓ Saved locally";
    }
    if str_eq(key, "status_loading") {
        return "Loading…";
    }
    if str_eq(key, "save") {
        return "Save";
    }
    if str_eq(key, "export_pdf") {
        return "Export as PDF";
    }
    if str_eq(key, "export_json") {
        return "Export JSON";
    }
    if str_eq(key, "import_json") {
        return "Import JSON";
    }
    if str_eq(key, "drive_upload") {
        return "Backup to Drive";
    }
    if str_eq(key, "drive_restore") {
        return "Restore from Drive";
    }
    if str_eq(key, "flash_saved") {
        return "✓ Changes saved";
    }
    if str_eq(key, "flash_loaded") {
        return "✓ Loaded";
    }
    if str_eq(key, "flash_drive_up") {
        return "✓ Backed up to Drive";
    }
    if str_eq(key, "flash_drive_down") {
        return "✓ Restored from Drive";
    }
    if str_eq(key, "flash_import_ok") {
        return "✓ Imported";
    }
    if str_eq(key, "flash_import_err") {
        return "✗ Invalid JSON file";
    }
    if str_eq(key, "error") {
        return "Error";
    }
    if str_eq(key, "print_placeholder") {
        return "No particular comment.";
    }
    if str_eq(key, "matrix_company") {
        return "Organisation audited:";
    }
    if str_eq(key, "matrix_company_ph") {
        return "Enter the company name…";
    }
    if str_eq(key, "matrix_desc") {
        return "Cross-evaluation framework aligning Google SRE pillars with ITIL process modernisation (Incident, Problem, Change, Capacity) and Cloud Native practices.";
    }
    if str_eq(key, "matrix_instructions") {
        return "Click a level to position the organisation. Add field notes on the right. Use “Save” to keep your data between sessions.";
    }
    if str_eq(key, "matrix_col1") {
        return "SRE Principle & IT Process";
    }
    if str_eq(key, "matrix_col2") {
        return "Level 1: Reactive";
    }
    if str_eq(key, "matrix_col3") {
        return "Level 2: Organised";
    }
    if str_eq(key, "matrix_col4") {
        return "Level 3: Proactive";
    }
    if str_eq(key, "matrix_col5") {
        return "Level 4: SRE / Continuous";
    }
    if str_eq(key, "matrix_comment") {
        return "Notes & Nuances (Audit)";
    }
    if str_eq(key, "matrix_aspect") {
        return "Aspect";
    }
    if str_eq(key, "matrix_title") {
        return "SRE Maturity Matrix & Audit Notes";
    }
    if str_eq(key, "matrix_comment_ph") {
        return "Enter your remarks or level nuances here…";
    }
    if str_eq(key, "roadmap_title") {
        return "Institutionalised SRE Roadmap";
    }
    if str_eq(key, "roadmap_meta") {
        return "Focus: Tool convergence, delivery reliability & collaborative alignment";
    }
    if str_eq(key, "roadmap_st_title") {
        return "Short-Term Roadmap (3 Months: Rationalisation & Urgent Actions)";
    }
    if str_eq(key, "roadmap_lt_title") {
        return "Long-Term Roadmap (2-3 Years: Industrialisation & Unified Ecosystem)";
    }
    if str_eq(key, "roadmap_st_h1") {
        return "SRE Principle / ITIL Process";
    }
    if str_eq(key, "roadmap_st_h2") {
        return "Audit Finding (Origin)";
    }
    if str_eq(key, "roadmap_st_h3") {
        return "Immediate Priority Actions (M1 to M3)";
    }
    if str_eq(key, "roadmap_st_h4") {
        return "Deliverables & KPI (3M)";
    }
    if str_eq(key, "roadmap_lt_h1") {
        return "SRE Principle / ITIL Process";
    }
    if str_eq(key, "roadmap_lt_h2") {
        return "Consolidation Target (Year 1)";
    }
    if str_eq(key, "roadmap_lt_h3") {
        return "Major Transformation (Years 2 & 3)";
    }
    if str_eq(key, "roadmap_lt_h4") {
        return "Target Vision (Continuous SRE Level)";
    }
    if str_eq(key, "roadmap_generate") {
        return "Generate from matrix";
    }
    if str_eq(key, "roadmap_gen_ok") {
        return "Roadmap filled from the matrix (empty cells only).";
    }
    if str_eq(key, "roadmap_gen_noselection") {
        return "Select maturity levels in the matrix first.";
    }
    if str_eq(key, "roadmap_gen_overwrite") {
        return "Force regenerate";
    }
    if str_eq(key, "roadmap_gen_forced") {
        return "Roadmap regenerated from the matrix.";
    }
    if str_eq(key, "roadmap_clear") {
        return "Clear roadmap";
    }
    if str_eq(key, "roadmap_clear_ok") {
        return "Roadmap cleared.";
    }
    if str_eq(key, "roadmap_undo") {
        return "Undo";
    }
    if str_eq(key, "roadmap_undo_ok") {
        return "Changes undone.";
    }
    if str_eq(key, "roadmap_confirm_overwrite") {
        return "Regenerate all roadmap cells from the matrix? Edited content on selected rows will be overwritten.";
    }
    if str_eq(key, "roadmap_confirm_clear") {
        return "Clear the entire roadmap? All the cells will be emptied.";
    }
    if str_eq(key, "roadmap_note_label") {
        return "Audit note";
    }
    if str_eq(key, "roadmap_tools_label") {
        return "Involved tools";
    }
    if str_eq(key, "drive_hint") {
        return "Your data is stored locally in this browser. Use “Backup to Drive” to save to your own private Google Drive app folder.";
    }
    key
}

/// The French text of `key`; an unknown key is its own text.
pub open spec fn spec_fr(key: Seq<char>) -> Seq<char> {
    if key == "nav_home"@ {
        "Accueil"@
    } else if key == "nav_matrix"@ {
        "Matrice de Maturité"@
    } else if key == "nav_roadmap"@ {
        "Roadmap"@
    } else if key == "nav_backup"@ {
        "Sauvegarde"@
    } else if key == "nav_signout"@ {
        "Se déconnecter"@
    } else if key == "theme_dark"@ {
        "Sombre"@
    } else if key == "theme_light"@ {
        "Clair"@
    } else if key == "login_title"@ {
        "SRE Audit - Accès Restreint"@
    } else if key == "login_subtitle"@ {
        "Connectez-vous avec votre compte Google pour accéder aux outils d'audit SRE."@
    } else if key == "login_button"@ {
        "Se connecter avec Google"@
    } else if key == "login_error"@ {
        "Erreur Google"@
    } else if key == "login_config_error"@ {
        "GOOGLE_CLIENT_ID non configuré à la compilation."@
    } else if key == "denied_title"@ {
        "Accès refusé"@
    } else if key == "denied_body"@ {
        "Votre compte Google n'est pas sur la liste des comptes autorisés pour cet outil."@
    } else if key == "denied_email"@ {
        "Connecté en tant que"@
    } else if key == "denied_back"@ {
        "Essayer un autre compte"@
    } else if key == "denied_nothing"@ {
        "Vous n'avez pas accès aux outils d'audit SRE."@
    } else if key == "home_title"@ {
        "SRE Audit"@
    } else if key == "home_subtitle"@ {
        "Matrice de maturité et feuille de route de transformation pour votre parcours SRE."@
    } else if key == "home_welcome"@ {
        "Bienvenue"@
    } else if key == "home_matrix_title"@ {
        "Matrice de Maturité SRE"@
    } else if key == "home_matrix_desc"@ {
        "Évaluez 7 principes SRE sur une échelle de maturité à 4 niveaux, avec notes par ligne."@
    } else if key == "home_matrix_btn"@ {
        "Ouvrir la matrice"@
    } else if key == "home_roadmap_title"@ {
        "Feuille de Route de Transformation"@
    } else if key == "home_roadmap_desc"@ {
        "Plans d'action court et long terme pour faire évoluer l'organisation."@
    } else if key == "home_roadmap_btn"@ {
        "Ouvrir la roadmap"@
    } else if key == "home_orgs"@ {
        "Organisations auditées"@
    } else if key == "backup_title"@ {
        "Sauvegarde globale"@
    } else if key == "backup_desc"@ {
        "Sauvegardez ou restaurez toutes vos organisations (matrice et feuille de route) dans un seul fichier Google Drive."@
    } else if key == "org_add"@ {
        "Ajouter une organisation"@
    } else if key == "org_add_ph"@ {
        "Nom de la nouvelle organisation…"@
    } else if key == "org_name_label"@ {
        "Nom"@
    } else if key == "org_current"@ {
        "Active"@
    } else if key == "org_delete"@ {
        "Supprimer l'organisation"@
    } else if key == "status_saved"@ {
        "✓ Enregistré localement"@
    } else if key == "status_loading"@ {
        "Chargement…"@
    } else if key == "save"@ {
        "Sauvegarder"@
    } else if key == "export_pdf"@ {
        "Exporter en PDF"@
    } else if key == "export_json"@ {
        "Exporter JSON"@
    } else if key == "import_json"@ {
        "Importer JSON"@
    } else if key == "drive_upload"@ {
        "Sauvegarder sur Drive"@
    } else if key == "drive_restore"@ {
        "Restaurer depuis Drive"@
    } else if key == "flash_saved"@ {
        "✓ Changements enregistrés"@
    } else if key == "flash_loaded"@ {
        "✓ Chargé"@
    } else if key == "flash_drive_up"@ {
        "✓ Sauvegardé sur Drive"@
    } else if key == "flash_drive_down"@ {
        "✓ Restauré depuis Drive"@
    } else if key == "flash_import_ok"@ {
        "✓ Importé"@
    } else if key == "flash_import_err"@ {
        "✗ Fichier JSON invalide"@
    } else if key == "error"@ {
        "Erreur"@
    } else if key == "print_placeholder"@ {
        "Aucun commentaire particulier."@
    } else if key == "matrix_company"@ {
        "Organisation Auditée :"@
    } else if key == "matrix_company_ph"@ {
        "Saisir le nom de l'entreprise..."@
    } else if key == "matrix_desc"@ {
        "Framework d'évaluation croisée alignant les piliers Google SRE avec la modernisation des processus ITIL (Incident, Problème, Changement, Capacité) et les pratiques Cloud Native."@
    } else if key == "matrix_instructions"@ {
        "💡 Mode d'emploi : Cliquez sur une cellule pour positionner l'organisation. Renseignez vos commentaires de terrain à droite. Utilisez \"Sauvegarder\" pour conserver vos données locales d'une session à l'autre."@
    } else if key == "matrix_col1"@ {
        "Principe SRE & Processus IT"@
    } else if key == "matrix_col2"@ {
        "Niveau 1 : Réactif"@
    } else if key == "matrix_col3"@ {
        "Niveau 2 : Organisé"@
    } else if key == "matrix_col4"@ {
        "Niveau 3 : Proactif"@
    } else if key == "matrix_col5"@ {
        "Niveau 4 : SRE / Continu"@
    } else if key == "matrix_comment"@ {
        "Commentaires & Nuances (Audit)"@
    } else if key == "matrix_aspect"@ {
        "Aspect"@
    } else if key == "matrix_title"@ {
        "Matrice de Maturité SRE & Notes d'Audit"@
    } else if key == "matrix_comment_ph"@ {
        "Saisir vos remarques ou nuances de niveau ici..."@
    } else if key == "roadmap_title"@ {
        "Feuille de Route SRE Institutionnalisée"@
    } else if key == "roadmap_meta"@ {
        "Focalisation : Convergence des Outils, Fiabilisation du Delivery & Alignment Collaboratif"@
    } else if key == "roadmap_st_title"@ {
        "⏱️ Feuille de Route Court Terme (3 Mois : Rationalisation & Actions d'Urgence)"@
    } else if key == "roadmap_lt_title"@ {
        "🚀 Feuille de Route Long Terme (2-3 Ans : Industrialisation & Écosystème Unifié)"@
    } else if key == "roadmap_st_h1"@ {
        "Principe SRE / Processus ITIL"@
    } else if key == "roadmap_st_h2"@ {
        "Constat d'Audit (Origine)"@
    } else if key == "roadmap_st_h3"@ {
        "Actions Prioritaires Immédiates (M1 à M3)"@
    } else if key == "roadmap_st_h4"@ {
        "Livrables & KPI (3M)"@
    } else if key == "roadmap_lt_h1"@ {
        "Principe SRE / Processus ITIL"@
    } else if key == "roadmap_lt_h2"@ {
        "Cible de Consolidation (Année 1)"@
    } else if key == "roadmap_lt_h3"@ {
        "Transformation Majeure (Années 2 & 3)"@
    } else if key == "roadmap_lt_h4"@ {
        "Vision Target (Niveau SRE Continu)"@
    } else if key == "roadmap_generate"@ {
        "Générer depuis la matrice"@
    } else if key == "roadmap_gen_ok"@ {
        "Feuille de route remplie depuis la matrice (cellules vides uniquement)."@
    } else if key == "roadmap_gen_noselection"@ {
        "Sélectionnez d'abord des niveaux de maturité dans la matrice."@
    } else if key == "roadmap_gen_overwrite"@ {
        "Régénérer"@
    } else if key == "roadmap_gen_forced"@ {
        "Feuille de route régénérée depuis la matrice."@
    } else if key == "roadmap_clear"@ {
        "Vider la feuille de route"@
    } else if key == "roadmap_clear_ok"@ {
        "Feuille de route vidée."@
    } else if key == "roadmap_undo"@ {
        "Annuler"@
    } else if key == "roadmap_undo_ok"@ {
        "Modifications annulées."@
    } else if key == "roadmap_confirm_overwrite"@ {
        "Régénérer toute la feuille de route depuis la matrice ? Le contenu édité des lignes sélectionnées sera écrasé."@
    } else if key == "roadmap_confirm_clear"@ {
        "Vider entièrement la feuille de route ? Toutes les cellules seront effacées."@
    } else if key == "roadmap_note_label"@ {
        "Note d'audit"@
    } else if key == "roadmap_tools_label"@ {
        "Outils impliqués"@
    } else if key == "drive_hint"@ {
        "Vos données sont stockées localement dans ce navigateur. Utilisez \"Sauvegarder sur Drive\" pour les enregistrer dans votre dossier Google Drive privé de l'application."@
    } else {
        key
    }
}

fn fr(key: &str) -> (r: &str)
    ensures
        r@ == spec_fr(key@),
{
    if str_eq(key, "nav_home") {
        return "Accueil";
    }
    if str_eq(key, "nav_matrix") {
        return "Matrice de Maturité";
    }
    if str_eq(key, "nav_roadmap") {
        return "Roadmap";
    }
    if str_eq(key, "nav_backup") {
        return "Sauvegarde";
    }
    if str_eq(key, "nav_signout") {
        return "Se déconnecter";
    }
    if str_eq(key, "theme_dark") {
        return "Sombre";
    }
    if str_eq(key, "theme_light") {
        return "Clair";
    }
    if str_eq(key, "login_title") {
        return "SRE Audit - Accès Restreint";
    }
    if str_eq(key, "login_subtitle") {
        return "Connectez-vous avec votre compte Google pour accéder aux outils d'audit SRE.";
    }
    if str_eq(key, "login_button") {
        return "Se connecter avec Google";
    }
    if str_eq(key, "login_error") {
        return "Erreur Google";
    }
    if str_eq(key, "login_config_error") {
        return "GOOGLE_CLIENT_ID non configuré à la compilation.";
    }
    if str_eq(key, "denied_title") {
        return "Accès refusé";
    }
    if str_eq(key, "denied_body") {
        return "Votre compte Google n'est pas sur la liste des comptes autorisés pour cet outil.";
    }
    if str_eq(key, "denied_email") {
        return "Connecté en tant que";
    }
    if str_eq(key, "denied_back") {
        return "Essayer un autre compte";
    }
    if str_eq(key, "denied_nothing") {
        return "Vous n'avez pas accès aux outils d'audit SRE.";
    }
    if str_eq(key, "home_title") {
        return "SRE Audit";
    }
    if str_eq(key, "home_subtitle") {
        return "Matrice de maturité et feuille de route de transformation pour votre parcours SRE.";
    }
    if str_eq(key, "home_welcome") {
        return "Bienvenue";
    }
    if str_eq(key, "home_matrix_title") {
        return "Matrice de Maturité SRE";
    }
    if str_eq(key, "home_matrix_desc") {
        return "Évaluez 7 principes SRE sur une échelle de maturité à 4 niveaux, avec notes par ligne.";
    }
    if str_eq(key, "home_matrix_btn") {
        return "Ouvrir la matrice";
    }
    if str_eq(key, "home_roadmap_title") {
        return "Feuille de Route de Transformation";
    }
    if str_eq(key, "home_roadmap_desc") {
        return "Plans d'action court et long terme pour faire évoluer l'organisation.";
    }
    if str_eq(key, "home_roadmap_btn") {
        return "Ouvrir la roadmap";
    }
    if str_eq(key, "home_orgs") {
        return "Organisations auditées";
    }
    if str_eq(key, "backup_title") {
        return "Sauvegarde globale";
    }
    if str_eq(key, "backup_desc") {
        return "Sauvegardez ou restaurez toutes vos organisations (matrice et feuille de route) dans un seul fichier Google Drive.";
    }
    if str_eq(key, "org_add") {
        return "Ajouter une organisation";
    }
    if str_eq(key, "org_add_ph") {
        return "Nom de la nouvelle organisation…";
    }
    if str_eq(key, "org_name_label") {
        return "Nom";
    }
    if str_eq(key, "org_current") {
        return "Active";
    }
    if str_eq(key, "org_delete") {
        return "Supprimer l'organisation";
    }
    if str_eq(key, "status_saved") {
        return "✓ Enregistré localement";
    }
    if str_eq(key, "status_loading") {
        return "Chargement…";
    }
    if str_eq(key, "save") {
        return "Sauvegarder";
    }
    if str_eq(key, "export_pdf") {
        return "Exporter en PDF";
    }
    if str_eq(key, "export_json") {
        return "Exporter JSON";
    }
    if str_eq(key, "import_json") {
        return "Importer JSON";
    }
    if str_eq(key, "drive_upload") {
        return "Sauvegarder sur Drive";
    }
    if str_eq(key, "drive_restore") {
        return "Restaurer depuis Drive";
    }
    if str_eq(key, "flash_saved") {
        return "✓ Changements enregistrés";
    }
    if str_eq(key, "flash_loaded") {
        return "✓ Chargé";
    }
    if str_eq(key, "flash_drive_up") {
        return "✓ Sauvegardé sur Drive";
    }
    if str_eq(key, "flash_drive_down") {
        return "✓ Restauré depuis Drive";
    }
    if str_eq(key, "flash_import_ok") {
        return "✓ Importé";
    }
    if str_eq(key, "flash_import_err") {
        return "✗ Fichier JSON invalide";
    }
    if str_eq(key, "error") {
        return "Erreur";
    }
    if str_eq(key, "print_placeholder") {
        return "Aucun commentaire particulier.";
    }
    if str_eq(key, "matrix_company") {
        return "Organisation Auditée :";
    }
    if str_eq(key, "matrix_company_ph") {
        return "Saisir le nom de l'entreprise...";
    }
    if str_eq(key, "matrix_desc") {
        return "Framework d'évaluation croisée alignant les piliers Google SRE avec la modernisation des processus ITIL (Incident, Problème, Changement, Capacité) et les pratiques Cloud Native.";
    }
    if str_eq(key, "matrix_instructions") {
        return "💡 Mode d'emploi : Cliquez sur une cellule pour positionner l'organisation. Renseignez vos commentaires de terrain à droite. Utilisez \"Sauvegarder\" pour conserver vos données locales d'une session à l'autre.";
    }
    if str_eq(key, "matrix_col1") {
        return "Principe SRE & Processus IT";
    }
    if str_eq(key, "matrix_col2") {
        return "Niveau 1 : Réactif";
    }
    if str_eq(key, "matrix_col3") {
        return "Niveau 2 : Organisé";
    }
    if str_eq(key, "matrix_col4") {
        return "Niveau 3 : Proactif";
    }
    if str_eq(key, "matrix_col5") {
        return "Niveau 4 : SRE / Continu";
    }
    if str_eq(key, "matrix_comment") {
        return "Commentaires & Nuances (Audit)";
    }
    if str_eq(key, "matrix_aspect") {
        return "Aspect";
    }
    if str_eq(key, "matrix_title") {
        return "Matrice de Maturité SRE & Notes d'Audit";
    }
    if str_eq(key, "matrix_comment_ph") {
        return "Saisir vos remarques ou nuances de niveau ici...";
    }
    if str_eq(key, "roadmap_title") {
        return "Feuille de Route SRE Institutionnalisée";
    }
    if str_eq(key, "roadmap_meta") {
        return "Focalisation : Convergence des Outils, Fiabilisation du Delivery & Alignment Collaboratif";
    }
    if str_eq(key, "roadmap_st_title") {
        return "⏱️ Feuille de Route Court Terme (3 Mois : Rationalisation & Actions d'Urgence)";
    }
    if str_eq(key, "roadmap_lt_title") {
        return "🚀 Feuille de Route Long Terme (2-3 Ans : Industrialisation & Écosystème Unifié)";
    }
    if str_eq(key, "roadmap_st_h1") {
        return "Principe SRE / Processus ITIL";
    }
    if str_eq(key, "roadmap_st_h2") {
        return "Constat d'Audit (Origine)";
    }
    if str_eq(key, "roadmap_st_h3") {
        return "Actions Prioritaires Immédiates (M1 à M3)";
    }
    if str_eq(key, "roadmap_st_h4") {
        return "Livrables & KPI (3M)";
    }
    if str_eq(key, "roadmap_lt_h1") {
        return "Principe SRE / Processus ITIL";
    }
    if str_eq(key, "roadmap_lt_h2") {
        return "Cible de Consolidation (Année 1)";
    }
    if str_eq(key, "roadmap_lt_h3") {
        return "Transformation Majeure (Années 2 & 3)";
    }
    if str_eq(key, "roadmap_lt_h4") {
        return "Vision Target (Niveau SRE Continu)";
    }
    if str_eq(key, "roadmap_generate") {
        return "Générer depuis la matrice";
    }
    if str_eq(key, "roadmap_gen_ok") {
        return "Feuille de route remplie depuis la matrice (cellules vides uniquement).";
    }
    if str_eq(key, "roadmap_gen_noselection") {
        return "Sélectionnez d'abord des niveaux de maturité dans la matrice.";
    }
    if str_eq(key, "roadmap_gen_overwrite") {
        return "Régénérer";
    }
    if str_eq(key, "roadmap_gen_forced") {
        return "Feuille de route régénérée depuis la matrice.";
    }
    if str_eq(key, "roadmap_clear") {
        return "Vider la feuille de route";
    }
    if str_eq(key, "roadmap_clear_ok") {
        return "Feuille de route vidée.";
    }
    if str_eq(key, "roadmap_undo") {
        return "Annuler";
    }
    if str_eq(key, "roadmap_undo_ok") {
        return "Modifications annulées.";
    }
    if str_eq(key, "roadmap_confirm_overwrite") {
        return "Régénérer toute la feuille de route depuis la matrice ? Le contenu édité des lignes sélectionnées sera écrasé.";
    }
    if str_eq(key, "roadmap_confirm_clear") {
        return "Vider entièrement la feuille de route ? Toutes les cellules seront effacées.";
    }
    if str_eq(key, "roadmap_note_label") {
        return "Note d'audit";
    }
    if str_eq(key, "roadmap_tools_label") {
        return "Outils impliqués";
    }
    if str_eq(key, "drive_hint") {
        return "Vos données sont stockées localement dans ce navigateur. Utilisez \"Sauvegarder sur Drive\" pour les enregistrer dans votre dossier Google Drive privé de l'application.";
    }
    key
}

/// Whether the interface has a text for `key`; both languages know the same keys.
pub open spec fn spec_known_key(key: Seq<char>) -> bool {
    key == "nav_home"@ ||
        key == "nav_matrix"@ ||
        key == "nav_roadmap"@ ||
        key == "nav_backup"@ ||
        key == "nav_signout"@ ||
        key == "theme_dark"@ ||
        key == "theme_light"@ ||
        key == "login_title"@ ||
        key == "login_subtitle"@ ||
        key == "login_button"@ ||
        key == "login_error"@ ||
        key == "login_config_error"@ ||
        key == "denied_title"@ ||
        key == "denied_body"@ ||
        key == "denied_email"@ ||
        key == "denied_back"@ ||
        key == "denied_nothing"@ ||
        key == "home_title"@ ||
        key == "home_subtitle"@ ||
        key == "home_welcome"@ ||
        key == "home_matrix_title"@ ||
        key == "home_matrix_desc"@ ||
        key == "home_matrix_btn"@ ||
        key == "home_roadmap_title"@ ||
        key == "home_roadmap_desc"@ ||
        key == "home_roadmap_btn"@ ||
        key == "home_orgs"@ ||
        key == "backup_title"@ ||
        key == "backup_desc"@ ||
        key == "org_add"@ ||
        key == "org_add_ph"@ ||
        key == "org_name_label"@ ||
        key == "org_current"@ ||
        key == "org_delete"@ ||
        key == "status_saved"@ ||
        key == "status_loading"@ ||
        key == "save"@ ||
        key == "export_pdf"@ ||
        key == "export_json"@ ||
        key == "import_json"@ ||
        key == "drive_upload"@ ||
        key == "drive_restore"@ ||
        key == "flash_saved"@ ||
        key == "flash_loaded"@ ||
        key == "flash_drive_up"@ ||
        key == "flash_drive_down"@ ||
        key == "flash_import_ok"@ ||
        key == "flash_import_err"@ ||
        key == "error"@ ||
        key == "print_placeholder"@ ||
        key == "matrix_company"@ ||
        key == "matrix_company_ph"@ ||
        key == "matrix_desc"@ ||
        key == "matrix_instructions"@ ||
        key == "matrix_col1"@ ||
        key == "matrix_col2"@ ||
        key == "matrix_col3"@ ||
        key == "matrix_col4"@ ||
        key == "matrix_col5"@ ||
        key == "matrix_comment"@ ||
        key == "matrix_aspect"@ ||
        key == "matrix_title"@ ||
        key == "matrix_comment_ph"@ ||
        key == "roadmap_title"@ ||
        key == "roadmap_meta"@ ||
        key == "roadmap_st_title"@ ||
        key == "roadmap_lt_title"@ ||
        key == "roadmap_st_h1"@ ||
        key == "roadmap_st_h2"@ ||
        key == "roadmap_st_h3"@ ||
        key == "roadmap_st_h4"@ ||
        key == "roadmap_lt_h1"@ ||
        key == "roadmap_lt_h2"@ ||
        key == "roadmap_lt_h3"@ ||
        key == "roadmap_lt_h4"@ ||
        key == "roadmap_generate"@ ||
        key == "roadmap_gen_ok"@ ||
        key == "roadmap_gen_noselection"@ ||
        key == "roadmap_gen_overwrite"@ ||
        key == "roadmap_gen_forced"@ ||
        key == "roadmap_clear"@ ||
        key == "roadmap_clear_ok"@ ||
        key == "roadmap_undo"@ ||
        key == "roadmap_undo_ok"@ ||
        key == "roadmap_confirm_overwrite"@ ||
        key == "roadmap_confirm_clear"@ ||
        key == "roadmap_note_label"@ ||
        key == "roadmap_tools_label"@ ||
        key == "drive_hint"@
}

proof fn lemma_en_texts_differ_from_keys()
    ensures
        "Home"@ != "nav_home"@,
        "Maturity Matrix"@ != "nav_matrix"@,
        "Roadmap"@ != "nav_roadmap"@,
        "Backup"@ != "nav_backup"@,
        "Sign out"@ != "nav_signout"@,
        "Dark"@ != "theme_dark"@,
        "Light"@ != "theme_light"@,
        "SRE Audit - Restricted Access"@ != "login_title"@,
        "Sign in with your Google account to access the SRE audit tools."@ != "login_subtitle"@,
        "Sign in with Google"@ != "login_button"@,
        "Google error"@ != "login_error"@,
        "GOOGLE_CLIENT_ID not configured at build time."@ != "login_config_error"@,
        "Access denied"@ != "denied_title"@,
        "Your Google account is not on the authorised list for this tool."@ != "denied_body"@,
        "Signed in as"@ != "denied_email"@,
        "Try another account"@ != "denied_back"@,
        "You don't have access to the SRE audit tools."@ != "denied_nothing"@,
        "SRE Audit"@ != "home_title"@,
        "Maturity matrix and transformation roadmap for your SRE journey."@ != "home_subtitle"@,
        "Welcome"@ != "home_welcome"@,
        "SRE Maturity Matrix"@ != "home_matrix_title"@,
        "Assess 7 SRE principles against a 4-level maturity scale with per-row notes."@ != "home_matrix_desc"@,
        "Open the matrix"@ != "home_matrix_btn"@,
        "Transformation Roadmap"@ != "home_roadmap_title"@,
        "Short and long term action plans to move the organisation forward."@ != "home_roadmap_desc"@,
        "Open the roadmap"@ != "home_roadmap_btn"@,
        "Audited organisations"@ != "home_orgs"@,
        "Global backup"@ != "backup_title"@,
        "Back up or restore every organisation (matrix and roadmap) in a single Google Drive file."@ != "backup_desc"@,
        "Add organisation"@ != "org_add"@,
        "New organisation name…"@ != "org_add_ph"@,
        "Name"@ != "org_name_label"@,
        "Active"@ != "org_current"@,
        "Delete organisation"@ != "org_delete"@,
        "✓ Saved locally"@ != "status_saved"@,
        "Loading…"@ != "status_loading"@,
        "Save"@ != "save"@,
        "Export as PDF"@ != "export_pdf"@,
        "Export JSON"@ != "export_json"@,
        "Import JSON"@ != "import_json"@,
        "Backup to Drive"@ != "drive_upload"@,
        "Restore from Drive"@ != "drive_restore"@,
        "✓ Changes saved"@ != "flash_saved"@,
        "✓ Loaded"@ != "flash_loaded"@,
        "✓ Backed up to Drive"@ != "flash_drive_up"@,
        "✓ Restored from Drive"@ != "flash_drive_down"@,
        "✓ Imported"@ != "flash_import_ok"@,
        "✗ Invalid JSON file"@ != "flash_import_err"@,
        "Error"@ != "error"@,
        "No particular comment."@ != "print_placeholder"@,
        "Organisation audited:"@ != "matrix_company"@,
        "Enter the company name…"@ != "matrix_company_ph"@,
        "Cross-evaluation framework aligning Google SRE pillars with ITIL process modernisation (Incident, Problem, Change, Capacity) and Cloud Native practices."@ != "matrix_desc"@,
        "Click a level to position the organisation. Add field notes on the right. Use “Save” to keep your data between sessions."@ != "matrix_instructions"@,
        "SRE Principle & IT Process"@ != "matrix_col1"@,
        "Level 1: Reactive"@ != "matrix_col2"@,
        "Level 2: Organised"@ != "matrix_col3"@,
        "Level 3: Proactive"@ != "matrix_col4"@,
        "Level 4: SRE / Continuous"@ != "matrix_col5"@,
        "Notes & Nuances (Audit)"@ != "matrix_comment"@,
        "Aspect"@ != "matrix_aspect"@,
        "SRE Maturity Matrix & Audit Notes"@ != "matrix_title"@,
        "Enter your remarks or level nuances here…"@ != "matrix_comment_ph"@,
        "Institutionalised SRE Roadmap"@ != "roadmap_title"@,
        "Focus: Tool convergence, delivery reliability & collaborative alignment"@ != "roadmap_meta"@,
        "Short-Term Roadmap (3 Months: Rationalisation & Urgent Actions)"@ != "roadmap_st_title"@,
        "Long-Term Roadmap (2-3 Years: Industrialisation & Unified Ecosystem)"@ != "roadmap_lt_title"@,
        "SRE Principle / ITIL Process"@ != "roadmap_st_h1"@,
        "Audit Finding (Origin)"@ != "roadmap_st_h2"@,
        "Immediate Priority Actions (M1 to M3)"@ != "roadmap_st_h3"@,
        "Deliverables & KPI (3M)"@ != "roadmap_st_h4"@,
        "SRE Principle / ITIL Process"@ != "roadmap_lt_h1"@,
        "Consolidation Target (Year 1)"@ != "roadmap_lt_h2"@,
        "Major Transformation (Years 2 & 3)"@ != "roadmap_lt_h3"@,
        "Target Vision (Continuous SRE Level)"@ != "roadmap_lt_h4"@,
        "Generate from matrix"@ != "roadmap_generate"@,
        "Roadmap filled from the matrix (empty cells only)."@ != "roadmap_gen_ok"@,
        "Select maturity levels in the matrix first."@ != "roadmap_gen_noselection"@,
        "Force regenerate"@ != "roadmap_gen_overwrite"@,
        "Roadmap regenerated from the matrix."@ != "roadmap_gen_forced"@,
        "Clear roadmap"@ != "roadmap_clear"@,
        "Roadmap cleared."@ != "roadmap_clear_ok"@,
        "Undo"@ != "roadmap_undo"@,
        "Changes undone."@ != "roadmap_undo_ok"@,
        "Regenerate all roadmap cells from the matrix? Edited content on selected rows will be overwritten."@ != "roadmap_confirm_overwrite"@,
        "Clear the entire roadmap? All the cells will be emptied."@ != "roadmap_confirm_clear"@,
        "Audit note"@ != "roadmap_note_label"@,
        "Involved tools"@ != "roadmap_tools_label"@,
        "Your data is stored locally in this browser. Use “Backup to Drive” to save to your own private Google Drive app folder."@ != "drive_hint"@,
{
    assert("Home"@ != "nav_home"@) by {
        reveal_strlit("nav_home");
        reveal_strlit("Home");
        assert("Home"@.len() != "nav_home"@.len());
    }
    assert("Maturity Matrix"@ != "nav_matrix"@) by {
        reveal_strlit("nav_matrix");
        reveal_strlit("Maturity Matrix");
        assert("Maturity Matrix"@.len() != "nav_matrix"@.len());
    }
    assert("Roadmap"@ != "nav_roadmap"@) by {
        reveal_strlit("nav_roadmap");
        reveal_strlit("Roadmap");
        assert("Roadmap"@.len() != "nav_roadmap"@.len());
    }
    assert("Backup"@ != "nav_backup"@) by {
        reveal_strlit("nav_backup");
        reveal_strlit("Backup");
        assert("Backup"@.len() != "nav_backup"@.len());
    }
    assert("Sign out"@ != "nav_signout"@) by {
        reveal_strlit("nav_signout");
        reveal_strlit("Sign out");
        assert("Sign out"@.len() != "nav_signout"@.len());
    }
    assert("Dark"@ != "theme_dark"@) by {
        reveal_strlit("theme_dark");
        reveal_strlit("Dark");
        assert("Dark"@.len() != "theme_dark"@.len());
    }
    assert("Light"@ != "theme_light"@) by {
        reveal_strlit("theme_light");
        reveal_strlit("Light");
        assert("Light"@.len() != "theme_light"@.len());
    }
    assert("SRE Audit - Restricted Access"@ != "login_title"@) by {
        reveal_strlit("login_title");
        reveal_strlit("SRE Audit - Restricted Access");
        assert("SRE Audit - Restricted Access"@.len() != "login_title"@.len());
    }
    assert("Sign in with your Google account to access the SRE audit tools."@ != "login_subtitle"@) by {
        reveal_strlit("login_subtitle");
        reveal_strlit("Sign in with your Google account to access the SRE audit tools.");
        assert("Sign in with your Google account to access the SRE audit tools."@.len() != "login_subtitle"@.len());
    }
    assert("Sign in with Google"@ != "login_button"@) by {
        reveal_strlit("login_button");
        reveal_strlit("Sign in with Google");
        assert("Sign in with Google"@.len() != "login_button"@.len());
    }
    assert("Google error"@ != "login_error"@) by {
        reveal_strlit("login_error");
        reveal_strlit("Google error");
        assert("Google error"@.len() != "login_error"@.len());
    }
    assert("GOOGLE_CLIENT_ID not configured at build time."@ != "login_config_error"@) by {
        reveal_strlit("login_config_error");
        reveal_strlit("GOOGLE_CLIENT_ID not configured at build time.");
        assert("GOOGLE_CLIENT_ID not configured at build time."@.len() != "login_config_error"@.len());
    }
    assert("Access denied"@ != "denied_title"@) by {
        reveal_strlit("denied_title");
        reveal_strlit("Access denied");
        assert("Access denied"@.len() != "denied_title"@.len());
    }
    assert("Your Google account is not on the authorised list for this tool."@ != "denied_body"@) by {
        reveal_strlit("denied_body");
        reveal_strlit("Your Google account is not on the authorised list for this tool.");
        assert("Your Google account is not on the authorised list for this tool."@.len() != "denied_body"@.len());
    }
    assert("Signed in as"@ != "denied_email"@) by {
        reveal_strlit("denied_email");
        reveal_strlit("Signed in as");
        assert("Signed in as"@[0] != "denied_email"@[0]);
    }
    assert("Try another account"@ != "denied_back"@) by {
        reveal_strlit("denied_back");
        reveal_strlit("Try another account");
        assert("Try another account"@.len() != "denied_back"@.len());
    }
    assert("You don't have access to the SRE audit tools."@ != "denied_nothing"@) by {
        reveal_strlit("denied_nothing");
        reveal_strlit("You don't have access to the SRE audit tools.");
        assert("You don't have access to the SRE audit tools."@.len() != "denied_nothing"@.len());
    }
    assert("SRE Audit"@ != "home_title"@) by {
        reveal_strlit("home_title");
        reveal_strlit("SRE Audit");
        assert("SRE Audit"@.len() != "home_title"@.len());
    }
    assert("Maturity matrix and transformation roadmap for your SRE journey."@ != "home_subtitle"@) by {
        reveal_strlit("home_subtitle");
        reveal_strlit("Maturity matrix and transformation roadmap for your SRE journey.");
        assert("Maturity matrix and transformation roadmap for your SRE journey."@.len() != "home_subtitle"@.len());
    }
    assert("Welcome"@ != "home_welcome"@) by {
        reveal_strlit("home_welcome");
        reveal_strlit("Welcome");
        assert("Welcome"@.len() != "home_welcome"@.len());
    }
    assert("SRE Maturity Matrix"@ != "home_matrix_title"@) by {
        reveal_strlit("home_matrix_title");
        reveal_strlit("SRE Maturity Matrix");
        assert("SRE Maturity Matrix"@.len() != "home_matrix_title"@.len());
    }
    assert("Assess 7 SRE principles against a 4-level maturity scale with per-row notes."@ != "home_matrix_desc"@) by {
        reveal_strlit("home_matrix_desc");
        reveal_strlit("Assess 7 SRE principles against a 4-level maturity scale with per-row notes.");
        assert("Assess 7 SRE principles against a 4-level maturity scale with per-row notes."@.len() != "home_matrix_desc"@.len());
    }
    assert("Open the matrix"@ != "home_matrix_btn"@) by {
        reveal_strlit("home_matrix_btn");
        reveal_strlit("Open the matrix");
        assert("Open the matrix"@[0] != "home_matrix_btn"@[0]);
    }
    assert("Transformation Roadmap"@ != "home_roadmap_title"@) by {
        reveal_strlit("home_roadmap_title");
        reveal_strlit("Transformation Roadmap");
        assert("Transformation Roadmap"@.len() != "home_roadmap_title"@.len());
    }
    assert("Short and long term action plans to move the organisation forward."@ != "home_roadmap_desc"@) by {
        reveal_strlit("home_roadmap_desc");
        reveal_strlit("Short and long term action plans to move the organisation forward.");
        assert("Short and long term action plans to move the organisation forward."@.len() != "home_roadmap_desc"@.len());
    }
    assert("Open the roadmap"@ != "home_roadmap_btn"@) by {
        reveal_strlit("home_roadmap_btn");
        reveal_strlit("Open the roadmap");
        assert("Open the roadmap"@[0] != "home_roadmap_btn"@[0]);
    }
    assert("Audited organisations"@ != "home_orgs"@) by {
        reveal_strlit("home_orgs");
        reveal_strlit("Audited organisations");
        assert("Audited organisations"@.len() != "home_orgs"@.len());
    }
    assert("Global backup"@ != "backup_title"@) by {
        reveal_strlit("backup_title");
        reveal_strlit("Global backup");
        assert("Global backup"@.len() != "backup_title"@.len());
    }
    assert("Back up or restore every organisation (matrix and roadmap) in a single Google Drive file."@ != "backup_desc"@) by {
        reveal_strlit("backup_desc");
        reveal_strlit("Back up or restore every organisation (matrix and roadmap) in a single Google Drive file.");
        assert("Back up or restore every organisation (matrix and roadmap) in a single Google Drive file."@.len() != "backup_desc"@.len());
    }
    assert("Add organisation"@ != "org_add"@) by {
        reveal_strlit("org_add");
        reveal_strlit("Add organisation");
        assert("Add organisation"@.len() != "org_add"@.len());
    }
    assert("New organisation name…"@ != "org_add_ph"@) by {
        reveal_strlit("org_add_ph");
        reveal_strlit("New organisation name…");
        assert("New organisation name…"@.len() != "org_add_ph"@.len());
    }
    assert("Name"@ != "org_name_label"@) by {
        reveal_strlit("org_name_label");
        reveal_strlit("Name");
        assert("Name"@.len() != "org_name_label"@.len());
    }
    assert("Active"@ != "org_current"@) by {
        reveal_strlit("org_current");
        reveal_strlit("Active");
        assert("Active"@.len() != "org_current"@.len());
    }
    assert("Delete organisation"@ != "org_delete"@) by {
        reveal_strlit("org_delete");
        reveal_strlit("Delete organisation");
        assert("Delete organisation"@.len() != "org_delete"@.len());
    }
    assert("✓ Saved locally"@ != "status_saved"@) by {
        reveal_strlit("status_saved");
        reveal_strlit("✓ Saved locally");
        assert("✓ Saved locally"@.len() != "status_saved"@.len());
    }
    assert("Loading…"@ != "status_loading"@) by {
        reveal_strlit("status_loading");
        reveal_strlit("Loading…");
        assert("Loading…"@.len() != "status_loading"@.len());
    }
    assert("Save"@ != "save"@) by {
        reveal_strlit("save");
        reveal_strlit("Save");
        assert("Save"@[0] != "save"@[0]);
    }
    assert("Export as PDF"@ != "export_pdf"@) by {
        reveal_strlit("export_pdf");
        reveal_strlit("Export as PDF");
        assert("Export as PDF"@.len() != "export_pdf"@.len());
    }
    assert("Export JSON"@ != "export_json"@) by {
        reveal_strlit("export_json");
        reveal_strlit("Export JSON");
        assert("Export JSON"@[0] != "export_json"@[0]);
    }
    assert("Import JSON"@ != "import_json"@) by {
        reveal_strlit("import_json");
        reveal_strlit("Import JSON");
        assert("Import JSON"@[0] != "import_json"@[0]);
    }
    assert("Backup to Drive"@ != "drive_upload"@) by {
        reveal_strlit("drive_upload");
        reveal_strlit("Backup to Drive");
        assert("Backup to Drive"@.len() != "drive_upload"@.len());
    }
    assert("Restore from Drive"@ != "drive_restore"@) by {
        reveal_strlit("drive_restore");
        reveal_strlit("Restore from Drive");
        assert("Restore from Drive"@.len() != "drive_restore"@.len());
    }
    assert("✓ Changes saved"@ != "flash_saved"@) by {
        reveal_strlit("flash_saved");
        reveal_strlit("✓ Changes saved");
        assert("✓ Changes saved"@.len() != "flash_saved"@.len());
    }
    assert("✓ Loaded"@ != "flash_loaded"@) by {
        reveal_strlit("flash_loaded");
        reveal_strlit("✓ Loaded");
        assert("✓ Loaded"@.len() != "flash_loaded"@.len());
    }
    assert("✓ Backed up to Drive"@ != "flash_drive_up"@) by {
        reveal_strlit("flash_drive_up");
        reveal_strlit("✓ Backed up to Drive");
        assert("✓ Backed up to Drive"@.len() != "flash_drive_up"@.len());
    }
    assert("✓ Restored from Drive"@ != "flash_drive_down"@) by {
        reveal_strlit("flash_drive_down");
        reveal_strlit("✓ Restored from Drive");
        assert("✓ Restored from Drive"@.len() != "flash_drive_down"@.len());
    }
    assert("✓ Imported"@ != "flash_import_ok"@) by {
        reveal_strlit("flash_import_ok");
        reveal_strlit("✓ Imported");
        assert("✓ Imported"@.len() != "flash_import_ok"@.len());
    }
    assert("✗ Invalid JSON file"@ != "flash_import_err"@) by {
        reveal_strlit("flash_import_err");
        reveal_strlit("✗ Invalid JSON file");
        assert("✗ Invalid JSON file"@.len() != "flash_import_err"@.len());
    }
    assert("Error"@ != "error"@) by {
        reveal_strlit("error");
        reveal_strlit("Error");
        assert("Error"@[0] != "error"@[0]);
    }
    assert("No particular comment."@ != "print_placeholder"@) by {
        reveal_strlit("print_placeholder");
        reveal_strlit("No particular comment.");
        assert("No particular comment."@.len() != "print_placeholder"@.len());
    }
    assert("Organisation audited:"@ != "matrix_company"@) by {
        reveal_strlit("matrix_company");
        reveal_strlit("Organisation audited:");
        assert("Organisation audited:"@.len() != "matrix_company"@.len());
    }
    assert("Enter the company name…"@ != "matrix_company_ph"@) by {
        reveal_strlit("matrix_company_ph");
        reveal_strlit("Enter the company name…");
        assert("Enter the company name…"@.len() != "matrix_company_ph"@.len());
    }
    assert("Cross-evaluation framework aligning Google SRE pillars with ITIL process modernisation (Incident, Problem, Change, Capacity) and Cloud Native practices."@ != "matrix_desc"@) by {
        reveal_strlit("matrix_desc");
        reveal_strlit("Cross-evaluation framework aligning Google SRE pillars with ITIL process modernisation (Incident, Problem, Change, Capacity) and Cloud Native practices.");
        assert("Cross-evaluation framework aligning Google SRE pillars with ITIL process modernisation (Incident, Problem, Change, Capacity) and Cloud Native practices."@.len() != "matrix_desc"@.len());
    }
    assert("Click a level to position the organisation. Add field notes on the right. Use “Save” to keep your data between sessions."@ != "matrix_instructions"@) by {
        reveal_strlit("matrix_instructions");
        reveal_strlit("Click a level to position the organisation. Add field notes on the right. Use “Save” to keep your data between sessions.");
        assert("Click a level to position the organisation. Add field notes on the right. Use “Save” to keep your data between sessions."@.len() != "matrix_instructions"@.len());
    }
    assert("SRE Principle & IT Process"@ != "matrix_col1"@) by {
        reveal_strlit("matrix_col1");
        reveal_strlit("SRE Principle & IT Process");
        assert("SRE Principle & IT Process"@.len() != "matrix_col1"@.len());
    }
    assert("Level 1: Reactive"@ != "matrix_col2"@) by {
        reveal_strlit("matrix_col2");
        reveal_strlit("Level 1: Reactive");
        assert("Level 1: Reactive"@.len() != "matrix_col2"@.len());
    }
    assert("Level 2: Organised"@ != "matrix_col3"@) by {
        reveal_strlit("matrix_col3");
        reveal_strlit("Level 2: Organised");
        assert("Level 2: Organised"@.len() != "matrix_col3"@.len());
    }
    assert("Level 3: Proactive"@ != "matrix_col4"@) by {
        reveal_strlit("matrix_col4");
        reveal_strlit("Level 3: Proactive");
        assert("Level 3: Proactive"@.len() != "matrix_col4"@.len());
    }
    assert("Level 4: SRE / Continuous"@ != "matrix_col5"@) by {
        reveal_strlit("matrix_col5");
        reveal_strlit("Level 4: SRE / Continuous");
        assert("Level 4: SRE / Continuous"@.len() != "matrix_col5"@.len());
    }
    assert("Notes & Nuances (Audit)"@ != "matrix_comment"@) by {
        reveal_strlit("matrix_comment");
        reveal_strlit("Notes & Nuances (Audit)");
        assert("Notes & Nuances (Audit)"@.len() != "matrix_comment"@.len());
    }
    assert("Aspect"@ != "matrix_aspect"@) by {
        reveal_strlit("matrix_aspect");
        reveal_strlit("Aspect");
        assert("Aspect"@.len() != "matrix_aspect"@.len());
    }
    assert("SRE Maturity Matrix & Audit Notes"@ != "matrix_title"@) by {
        reveal_strlit("matrix_title");
        reveal_strlit("SRE Maturity Matrix & Audit Notes");
        assert("SRE Maturity Matrix & Audit Notes"@.len() != "matrix_title"@.len());
    }
    assert("Enter your remarks or level nuances here…"@ != "matrix_comment_ph"@) by {
        reveal_strlit("matrix_comment_ph");
        reveal_strlit("Enter your remarks or level nuances here…");
        assert("Enter your remarks or level nuances here…"@.len() != "matrix_comment_ph"@.len());
    }
    assert("Institutionalised SRE Roadmap"@ != "roadmap_title"@) by {
        reveal_strlit("roadmap_title");
        reveal_strlit("Institutionalised SRE Roadmap");
        assert("Institutionalised SRE Roadmap"@.len() != "roadmap_title"@.len());
    }
    assert("Focus: Tool convergence, delivery reliability & collaborative alignment"@ != "roadmap_meta"@) by {
        reveal_strlit("roadmap_meta");
        reveal_strlit("Focus: Tool convergence, delivery reliability & collaborative alignment");
        assert("Focus: Tool convergence, delivery reliability & collaborative alignment"@.len() != "roadmap_meta"@.len());
    }
    assert("Short-Term Roadmap (3 Months: Rationalisation & Urgent Actions)"@ != "roadmap_st_title"@) by {
        reveal_strlit("roadmap_st_title");
        reveal_strlit("Short-Term Roadmap (3 Months: Rationalisation & Urgent Actions)");
        assert("Short-Term Roadmap (3 Months: Rationalisation & Urgent Actions)"@.len() != "roadmap_st_title"@.len());
    }
    assert("Long-Term Roadmap (2-3 Years: Industrialisation & Unified Ecosystem)"@ != "roadmap_lt_title"@) by {
        reveal_strlit("roadmap_lt_title");
        reveal_strlit("Long-Term Roadmap (2-3 Years: Industrialisation & Unified Ecosystem)");
        assert("Long-Term Roadmap (2-3 Years: Industrialisation & Unified Ecosystem)"@.len() != "roadmap_lt_title"@.len());
    }
    assert("SRE Principle / ITIL Process"@ != "roadmap_st_h1"@) by {
        reveal_strlit("roadmap_st_h1");
        reveal_strlit("SRE Principle / ITIL Process");
        assert("SRE Principle / ITIL Process"@.len() != "roadmap_st_h1"@.len());
    }
    assert("Audit Finding (Origin)"@ != "roadmap_st_h2"@) by {
        reveal_strlit("roadmap_st_h2");
        reveal_strlit("Audit Finding (Origin)");
        assert("Audit Finding (Origin)"@.len() != "roadmap_st_h2"@.len());
    }
    assert("Immediate Priority Actions (M1 to M3)"@ != "roadmap_st_h3"@) by {
        reveal_strlit("roadmap_st_h3");
        reveal_strlit("Immediate Priority Actions (M1 to M3)");
        assert("Immediate Priority Actions (M1 to M3)"@.len() != "roadmap_st_h3"@.len());
    }
    assert("Deliverables & KPI (3M)"@ != "roadmap_st_h4"@) by {
        reveal_strlit("roadmap_st_h4");
        reveal_strlit("Deliverables & KPI (3M)");
        assert("Deliverables & KPI (3M)"@.len() != "roadmap_st_h4"@.len());
    }
    assert("SRE Principle / ITIL Process"@ != "roadmap_lt_h1"@) by {
        reveal_strlit("roadmap_lt_h1");
        reveal_strlit("SRE Principle / ITIL Process");
        assert("SRE Principle / ITIL Process"@.len() != "roadmap_lt_h1"@.len());
    }
    assert("Consolidation Target (Year 1)"@ != "roadmap_lt_h2"@) by {
        reveal_strlit("roadmap_lt_h2");
        reveal_strlit("Consolidation Target (Year 1)");
        assert("Consolidation Target (Year 1)"@.len() != "roadmap_lt_h2"@.len());
    }
    assert("Major Transformation (Years 2 & 3)"@ != "roadmap_lt_h3"@) by {
        reveal_strlit("roadmap_lt_h3");
        reveal_strlit("Major Transformation (Years 2 & 3)");
        assert("Major Transformation (Years 2 & 3)"@.len() != "roadmap_lt_h3"@.len());
    }
    assert("Target Vision (Continuous SRE Level)"@ != "roadmap_lt_h4"@) by {
        reveal_strlit("roadmap_lt_h4");
        reveal_strlit("Target Vision (Continuous SRE Level)");
        assert("Target Vision (Continuous SRE Level)"@.len() != "roadmap_lt_h4"@.len());
    }
    assert("Generate from matrix"@ != "roadmap_generate"@) by {
        reveal_strlit("roadmap_generate");
        reveal_strlit("Generate from matrix");
        assert("Generate from matrix"@.len() != "roadmap_generate"@.len());
    }
    assert("Roadmap filled from the matrix (empty cells only)."@ != "roadmap_gen_ok"@) by {
        reveal_strlit("roadmap_gen_ok");
        reveal_strlit("Roadmap filled from the matrix (empty cells only).");
        assert("Roadmap filled from the matrix (empty cells only)."@.len() != "roadmap_gen_ok"@.len());
    }
    assert("Select maturity levels in the matrix first."@ != "roadmap_gen_noselection"@) by {
        reveal_strlit("roadmap_gen_noselection");
        reveal_strlit("Select maturity levels in the matrix first.");
        assert("Select maturity levels in the matrix first."@.len() != "roadmap_gen_noselection"@.len());
    }
    assert("Force regenerate"@ != "roadmap_gen_overwrite"@) by {
        reveal_strlit("roadmap_gen_overwrite");
        reveal_strlit("Force regenerate");
        assert("Force regenerate"@.len() != "roadmap_gen_overwrite"@.len());
    }
    assert("Roadmap regenerated from the matrix."@ != "roadmap_gen_forced"@) by {
        reveal_strlit("roadmap_gen_forced");
        reveal_strlit("Roadmap regenerated from the matrix.");
        assert("Roadmap regenerated from the matrix."@.len() != "roadmap_gen_forced"@.len());
    }
    assert("Clear roadmap"@ != "roadmap_clear"@) by {
        reveal_strlit("roadmap_clear");
        reveal_strlit("Clear roadmap");
        assert("Clear roadmap"@[0] != "roadmap_clear"@[0]);
    }
    assert("Roadmap cleared."@ != "roadmap_clear_ok"@) by {
        reveal_strlit("roadmap_clear_ok");
        reveal_strlit("Roadmap cleared.");
        assert("Roadmap cleared."@[0] != "roadmap_clear_ok"@[0]);
    }
    assert("Undo"@ != "roadmap_undo"@) by {
        reveal_strlit("roadmap_undo");
        reveal_strlit("Undo");
        assert("Undo"@.len() != "roadmap_undo"@.len());
    }
    assert("Changes undone."@ != "roadmap_undo_ok"@) by {
        reveal_strlit("roadmap_undo_ok");
        reveal_strlit("Changes undone.");
        assert("Changes undone."@[0] != "roadmap_undo_ok"@[0]);
    }
    assert("Regenerate all roadmap cells from the matrix? Edited content on selected rows will be overwritten."@ != "roadmap_confirm_overwrite"@) by {
        reveal_strlit("roadmap_confirm_overwrite");
        reveal_strlit("Regenerate all roadmap cells from the matrix? Edited content on selected rows will be overwritten.");
        assert("Regenerate all roadmap cells from the matrix? Edited content on selected rows will be overwritten."@.len() != "roadmap_confirm_overwrite"@.len());
    }
    assert("Clear the entire roadmap? All the cells will be emptied."@ != "roadmap_confirm_clear"@) by {
        reveal_strlit("roadmap_confirm_clear");
        reveal_strlit("Clear the entire roadmap? All the cells will be emptied.");
        assert("Clear the entire roadmap? All the cells will be emptied."@.len() != "roadmap_confirm_clear"@.len());
    }
    assert("Audit note"@ != "roadmap_note_label"@) by {
        reveal_strlit("roadmap_note_label");
        reveal_strlit("Audit note");
        assert("Audit note"@.len() != "roadmap_note_label"@.len());
    }
    assert("Involved tools"@ != "roadmap_tools_label"@) by {
        reveal_strlit("roadmap_tools_label");
        reveal_strlit("Involved tools");
        assert("Involved tools"@.len() != "roadmap_tools_label"@.len());
    }
    assert("Your data is stored locally in this browser. Use “Backup to Drive” to save to your own private Google Drive app folder."@ != "drive_hint"@) by {
        reveal_strlit("drive_hint");
        reveal_strlit("Your data is stored locally in this browser. Use “Backup to Drive” to save to your own private Google Drive app folder.");
        assert("Your data is stored locally in this browser. Use “Backup to Drive” to save to your own private Google Drive app folder."@.len() != "drive_hint"@.len());
    }
}

proof fn lemma_fr_texts_differ_from_keys()
    ensures
        "Accueil"@ != "nav_home"@,
        "Matrice de Maturité"@ != "nav_matrix"@,
        "Roadmap"@ != "nav_roadmap"@,
        "Sauvegarde"@ != "nav_backup"@,
        "Se déconnecter"@ != "nav_signout"@,
        "Sombre"@ != "theme_dark"@,
        "Clair"@ != "theme_light"@,
        "SRE Audit - Accès Restreint"@ != "login_title"@,
        "Connectez-vous avec votre compte Google pour accéder aux outils d'audit SRE."@ != "login_subtitle"@,
        "Se connecter avec Google"@ != "login_button"@,
        "Erreur Google"@ != "login_error"@,
        "GOOGLE_CLIENT_ID non configuré à la compilation."@ != "login_config_error"@,
        "Accès refusé"@ != "denied_title"@,
        "Votre compte Google n'est pas sur la liste des comptes autorisés pour cet outil."@ != "denied_body"@,
        "Connecté en tant que"@ != "denied_email"@,
        "Essayer un autre compte"@ != "denied_back"@,
        "Vous n'avez pas accès aux outils d'audit SRE."@ != "denied_nothing"@,
        "SRE Audit"@ != "home_title"@,
        "Matrice de maturité et feuille de route de transformation pour votre parcours SRE."@ != "home_subtitle"@,
        "Bienvenue"@ != "home_welcome"@,
        "Matrice de Maturité SRE"@ != "home_matrix_title"@,
        "Évaluez 7 principes SRE sur une échelle de maturité à 4 niveaux, avec notes par ligne."@ != "home_matrix_desc"@,
        "Ouvrir la matrice"@ != "home_matrix_btn"@,
        "Feuille de Route de Transformation"@ != "home_roadmap_title"@,
        "Plans d'action court et long terme pour faire évoluer l'organisation."@ != "home_roadmap_desc"@,
        "Ouvrir la roadmap"@ != "home_roadmap_btn"@,
        "Organisations auditées"@ != "home_orgs"@,
        "Sauvegarde globale"@ != "backup_title"@,
        "Sauvegardez ou restaurez toutes vos organisations (matrice et feuille de route) dans un seul fichier Google Drive."@ != "backup_desc"@,
        "Ajouter une organisation"@ != "org_add"@,
        "Nom de la nouvelle organisation…"@ != "org_add_ph"@,
        "Nom"@ != "org_name_label"@,
        "Active"@ != "org_current"@,
        "Supprimer l'organisation"@ != "org_delete"@,
        "✓ Enregistré localement"@ != "status_saved"@,
        "Chargement…"@ != "status_loading"@,
        "Sauvegarder"@ != "save"@,
        "Exporter en PDF"@ != "export_pdf"@,
        "Exporter JSON"@ != "export_json"@,
        "Importer JSON"@ != "import_json"@,
        "Sauvegarder sur Drive"@ != "drive_upload"@,
        "Restaurer depuis Drive"@ != "drive_restore"@,
        "✓ Changements enregistrés"@ != "flash_saved"@,
        "✓ Chargé"@ != "flash_loaded"@,
        "✓ Sauvegardé sur Drive"@ != "flash_drive_up"@,
        "✓ Restauré depuis Drive"@ != "flash_drive_down"@,
        "✓ Importé"@ != "flash_import_ok"@,
        "✗ Fichier JSON invalide"@ != "flash_import_err"@,
        "Erreur"@ != "error"@,
        "Aucun commentaire particulier."@ != "print_placeholder"@,
        "Organisation Auditée :"@ != "matrix_company"@,
        "Saisir le nom de l'entreprise..."@ != "matrix_company_ph"@,
        "Framework d'évaluation croisée alignant les piliers Google SRE avec la modernisation des processus ITIL (Incident, Problème, Changement, Capacité) et les pratiques Cloud Native."@ != "matrix_desc"@,
        "💡 Mode d'emploi : Cliquez sur une cellule pour positionner l'organisation. Renseignez vos commentaires de terrain à droite. Utilisez \"Sauvegarder\" pour conserver vos données locales d'une session à l'autre."@ != "matrix_instructions"@,
        "Principe SRE & Processus IT"@ != "matrix_col1"@,
        "Niveau 1 : Réactif"@ != "matrix_col2"@,
        "Niveau 2 : Organisé"@ != "matrix_col3"@,
        "Niveau 3 : Proactif"@ != "matrix_col4"@,
        "Niveau 4 : SRE / Continu"@ != "matrix_col5"@,
        "Commentaires & Nuances (Audit)"@ != "matrix_comment"@,
        "Aspect"@ != "matrix_aspect"@,
        "Matrice de Maturité SRE & Notes d'Audit"@ != "matrix_title"@,
        "Saisir vos remarques ou nuances de niveau ici..."@ != "matrix_comment_ph"@,
        "Feuille de Route SRE Institutionnalisée"@ != "roadmap_title"@,
        "Focalisation : Convergence des Outils, Fiabilisation du Delivery & Alignment Collaboratif"@ != "roadmap_meta"@,
        "⏱️ Feuille de Route Court Terme (3 Mois : Rationalisation & Actions d'Urgence)"@ != "roadmap_st_title"@,
        "🚀 Feuille de Route Long Terme (2-3 Ans : Industrialisation & Écosystème Unifié)"@ != "roadmap_lt_title"@,
        "Principe SRE / Processus ITIL"@ != "roadmap_st_h1"@,
        "Constat d'Audit (Origine)"@ != "roadmap_st_h2"@,
        "Actions Prioritaires Immédiates (M1 à M3)"@ != "roadmap_st_h3"@,
        "Livrables & KPI (3M)"@ != "roadmap_st_h4"@,
        "Principe SRE / Processus ITIL"@ != "roadmap_lt_h1"@,
        "Cible de Consolidation (Année 1)"@ != "roadmap_lt_h2"@,
        "Transformation Majeure (Années 2 & 3)"@ != "roadmap_lt_h3"@,
        "Vision Target (Niveau SRE Continu)"@ != "roadmap_lt_h4"@,
        "Générer depuis la matrice"@ != "roadmap_generate"@,
        "Feuille de route remplie depuis la matrice (cellules vides uniquement)."@ != "roadmap_gen_ok"@,
        "Sélectionnez d'abord des niveaux de maturité dans la matrice."@ != "roadmap_gen_noselection"@,
        "Régénérer"@ != "roadmap_gen_overwrite"@,
        "Feuille de route régénérée depuis la matrice."@ != "roadmap_gen_forced"@,
        "Vider la feuille de route"@ != "roadmap_clear"@,
        "Feuille de route vidée."@ != "roadmap_clear_ok"@,
        "Annuler"@ != "roadmap_undo"@,
        "Modifications annulées."@ != "roadmap_undo_ok"@,
        "Régénérer toute la feuille de route depuis la matrice ? Le contenu édité des lignes sélectionnées sera écrasé."@ != "roadmap_confirm_overwrite"@,
        "Vider entièrement la feuille de route ? Toutes les cellules seront effacées."@ != "roadmap_confirm_clear"@,
        "Note d'audit"@ != "roadmap_note_label"@,
        "Outils impliqués"@ != "roadmap_tools_label"@,
        "Vos données sont stockées localement dans ce navigateur. Utilisez \"Sauvegarder sur Drive\" pour les enregistrer dans votre dossier Google Drive privé de l'application."@ != "drive_hint"@,
{
    assert("Accueil"@ != "nav_home"@) by {
        reveal_strlit("nav_home");
        reveal_strlit("Accueil");
        assert("Accueil"@.len() != "nav_home"@.len());
    }
    assert("Matrice de Maturité"@ != "nav_matrix"@) by {
        reveal_strlit("nav_matrix");
        reveal_strlit("Matrice de Maturité");
        assert("Matrice de Maturité"@.len() != "nav_matrix"@.len());
    }
    assert("Roadmap"@ != "nav_roadmap"@) by {
        reveal_strlit("nav_roadmap");
        reveal_strlit("Roadmap");
        assert("Roadmap"@.len() != "nav_roadmap"@.len());
    }
    assert("Sauvegarde"@ != "nav_backup"@) by {
        reveal_strlit("nav_backup");
        reveal_strlit("Sauvegarde");
        assert("Sauvegarde"@[0] != "nav_backup"@[0]);
    }
    assert("Se déconnecter"@ != "nav_signout"@) by {
        reveal_strlit("nav_signout");
        reveal_strlit("Se déconnecter");
        assert("Se déconnecter"@.len() != "nav_signout"@.len());
    }
    assert("Sombre"@ != "theme_dark"@) by {
        reveal_strlit("theme_dark");
        reveal_strlit("Sombre");
        assert("Sombre"@.len() != "theme_dark"@.len());
    }
    assert("Clair"@ != "theme_light"@) by {
        reveal_strlit("theme_light");
        reveal_strlit("Clair");
        assert("Clair"@.len() != "theme_light"@.len());
    }
    assert("SRE Audit - Accès Restreint"@ != "login_title"@) by {
        reveal_strlit("login_title");
        reveal_strlit("SRE Audit - Accès Restreint");
        assert("SRE Audit - Accès Restreint"@.len() != "login_title"@.len());
    }
    assert("Connectez-vous avec votre compte Google pour accéder aux outils d'audit SRE."@ != "login_subtitle"@) by {
        reveal_strlit("login_subtitle");
        reveal_strlit("Connectez-vous avec votre compte Google pour accéder aux outils d'audit SRE.");
        assert("Connectez-vous avec votre compte Google pour accéder aux outils d'audit SRE."@.len() != "login_subtitle"@.len());
    }
    assert("Se connecter avec Google"@ != "login_button"@) by {
        reveal_strlit("login_button");
        reveal_strlit("Se connecter avec Google");
        assert("Se connecter avec Google"@.len() != "login_button"@.len());
    }
    assert("Erreur Google"@ != "login_error"@) by {
        reveal_strlit("login_error");
        reveal_strlit("Erreur Google");
        assert("Erreur Google"@.len() != "login_error"@.len());
    }
    assert("GOOGLE_CLIENT_ID non configuré à la compilation."@ != "login_config_error"@) by {
        reveal_strlit("login_config_error");
        reveal_strlit("GOOGLE_CLIENT_ID non configuré à la compilation.");
        assert("GOOGLE_CLIENT_ID non configuré à la compilation."@.len() != "login_config_error"@.len());
    }
    assert("Accès refusé"@ != "denied_title"@) by {
        reveal_strlit("denied_title");
        reveal_strlit("Accès refusé");
        assert("Accès refusé"@[0] != "denied_title"@[0]);
    }
    assert("Votre compte Google n'est pas sur la liste des comptes autorisés pour cet outil."@ != "denied_body"@) by {
        reveal_strlit("denied_body");
        reveal_strlit("Votre compte Google n'est pas sur la liste des comptes autorisés pour cet outil.");
        assert("Votre compte Google n'est pas sur la liste des comptes autorisés pour cet outil."@.len() != "denied_body"@.len());
    }
    assert("Connecté en tant que"@ != "denied_email"@) by {
        reveal_strlit("denied_email");
        reveal_strlit("Connecté en tant que");
        assert("Connecté en tant que"@.len() != "denied_email"@.len());
    }
    assert("Essayer un autre compte"@ != "denied_back"@) by {
        reveal_strlit("denied_back");
        reveal_strlit("Essayer un autre compte");
        assert("Essayer un autre compte"@.len() != "denied_back"@.len());
    }
    assert("Vous n'avez pas accès aux outils d'audit SRE."@ != "denied_nothing"@) by {
        reveal_strlit("denied_nothing");
        reveal_strlit("Vous n'avez pas accès aux outils d'audit SRE.");
        assert("Vous n'avez pas accès aux outils d'audit SRE."@.len() != "denied_nothing"@.len());
    }
    assert("SRE Audit"@ != "home_title"@) by {
        reveal_strlit("home_title");
        reveal_strlit("SRE Audit");
        assert("SRE Audit"@.len() != "home_title"@.len());
    }
    assert("Matrice de maturité et feuille de route de transformation pour votre parcours SRE."@ != "home_subtitle"@) by {
        reveal_strlit("home_subtitle");
        reveal_strlit("Matrice de maturité et feuille de route de transformation pour votre parcours SRE.");
        assert("Matrice de maturité et feuille de route de transformation pour votre parcours SRE."@.len() != "home_subtitle"@.len());
    }
    assert("Bienvenue"@ != "home_welcome"@) by {
        reveal_strlit("home_welcome");
        reveal_strlit("Bienvenue");
        assert("Bienvenue"@.len() != "home_welcome"@.len());
    }
    assert("Matrice de Maturité SRE"@ != "home_matrix_title"@) by {
        reveal_strlit("home_matrix_title");
        reveal_strlit("Matrice de Maturité SRE");
        assert("Matrice de Maturité SRE"@.len() != "home_matrix_title"@.len());
    }
    assert("Évaluez 7 principes SRE sur une échelle de maturité à 4 niveaux, avec notes par ligne."@ != "home_matrix_desc"@) by {
        reveal_strlit("home_matrix_desc");
        reveal_strlit("Évaluez 7 principes SRE sur une échelle de maturité à 4 niveaux, avec notes par ligne.");
        assert("Évaluez 7 principes SRE sur une échelle de maturité à 4 niveaux, avec notes par ligne."@.len() != "home_matrix_desc"@.len());
    }
    assert("Ouvrir la matrice"@ != "home_matrix_btn"@) by {
        reveal_strlit("home_matrix_btn");
        reveal_strlit("Ouvrir la matrice");
        assert("Ouvrir la matrice"@.len() != "home_matrix_btn"@.len());
    }
    assert("Feuille de Route de Transformation"@ != "home_roadmap_title"@) by {
        reveal_strlit("home_roadmap_title");
        reveal_strlit("Feuille de Route de Transformation");
        assert("Feuille de Route de Transformation"@.len() != "home_roadmap_title"@.len());
    }
    assert("Plans d'action court et long terme pour faire évoluer l'organisation."@ != "home_roadmap_desc"@) by {
        reveal_strlit("home_roadmap_desc");
        reveal_strlit("Plans d'action court et long terme pour faire évoluer l'organisation.");
        assert("Plans d'action court et long terme pour faire évoluer l'organisation."@.len() != "home_roadmap_desc"@.len());
    }
    assert("Ouvrir la roadmap"@ != "home_roadmap_btn"@) by {
        reveal_strlit("home_roadmap_btn");
        reveal_strlit("Ouvrir la roadmap");
        assert("Ouvrir la roadmap"@.len() != "home_roadmap_btn"@.len());
    }
    assert("Organisations auditées"@ != "home_orgs"@) by {
        reveal_strlit("home_orgs");
        reveal_strlit("Organisations auditées");
        assert("Organisations auditées"@.len() != "home_orgs"@.len());
    }
    assert("Sauvegarde globale"@ != "backup_title"@) by {
        reveal_strlit("backup_title");
        reveal_strlit("Sauvegarde globale");
        assert("Sauvegarde globale"@.len() != "backup_title"@.len());
    }
    assert("Sauvegardez ou restaurez toutes vos organisations (matrice et feuille de route) dans un seul fichier Google Drive."@ != "backup_desc"@) by {
        reveal_strlit("backup_desc");
        reveal_strlit("Sauvegardez ou restaurez toutes vos organisations (matrice et feuille de route) dans un seul fichier Google Drive.");
        assert("Sauvegardez ou restaurez toutes vos organisations (matrice et feuille de route) dans un seul fichier Google Drive."@.len() != "backup_desc"@.len());
    }
    assert("Ajouter une organisation"@ != "org_add"@) by {
        reveal_strlit("org_add");
        reveal_strlit("Ajouter une organisation");
        assert("Ajouter une organisation"@.len() != "org_add"@.len());
    }
    assert("Nom de la nouvelle organisation…"@ != "org_add_ph"@) by {
        reveal_strlit("org_add_ph");
        reveal_strlit("Nom de la nouvelle organisation…");
        assert("Nom de la nouvelle organisation…"@.len() != "org_add_ph"@.len());
    }
    assert("Nom"@ != "org_name_label"@) by {
        reveal_strlit("org_name_label");
        reveal_strlit("Nom");
        assert("Nom"@.len() != "org_name_label"@.len());
    }
    assert("Active"@ != "org_current"@) by {
        reveal_strlit("org_current");
        reveal_strlit("Active");
        assert("Active"@.len() != "org_current"@.len());
    }
    assert("Supprimer l'organisation"@ != "org_delete"@) by {
        reveal_strlit("org_delete");
        reveal_strlit("Supprimer l'organisation");
        assert("Supprimer l'organisation"@.len() != "org_delete"@.len());
    }
    assert("✓ Enregistré localement"@ != "status_saved"@) by {
        reveal_strlit("status_saved");
        reveal_strlit("✓ Enregistré localement");
        assert("✓ Enregistré localement"@.len() != "status_saved"@.len());
    }
    assert("Chargement…"@ != "status_loading"@) by {
        reveal_strlit("status_loading");
        reveal_strlit("Chargement…");
        assert("Chargement…"@.len() != "status_loading"@.len());
    }
    assert("Sauvegarder"@ != "save"@) by {
        reveal_strlit("save");
        reveal_strlit("Sauvegarder");
        assert("Sauvegarder"@.len() != "save"@.len());
    }
    assert("Exporter en PDF"@ != "export_pdf"@) by {
        reveal_strlit("export_pdf");
        reveal_strlit("Exporter en PDF");
        assert("Exporter en PDF"@.len() != "export_pdf"@.len());
    }
    assert("Exporter JSON"@ != "export_json"@) by {
        reveal_strlit("export_json");
        reveal_strlit("Exporter JSON");
        assert("Exporter JSON"@.len() != "export_json"@.len());
    }
    assert("Importer JSON"@ != "import_json"@) by {
        reveal_strlit("import_json");
        reveal_strlit("Importer JSON");
        assert("Importer JSON"@.len() != "import_json"@.len());
    }
    assert("Sauvegarder sur Drive"@ != "drive_upload"@) by {
        reveal_strlit("drive_upload");
        reveal_strlit("Sauvegarder sur Drive");
        assert("Sauvegarder sur Drive"@.len() != "drive_upload"@.len());
    }
    assert("Restaurer depuis Drive"@ != "drive_restore"@) by {
        reveal_strlit("drive_restore");
        reveal_strlit("Restaurer depuis Drive");
        assert("Restaurer depuis Drive"@.len() != "drive_restore"@.len());
    }
    assert("✓ Changements enregistrés"@ != "flash_saved"@) by {
        reveal_strlit("flash_saved");
        reveal_strlit("✓ Changements enregistrés");
        assert("✓ Changements enregistrés"@.len() != "flash_saved"@.len());
    }
    assert("✓ Chargé"@ != "flash_loaded"@) by {
        reveal_strlit("flash_loaded");
        reveal_strlit("✓ Chargé");
        assert("✓ Chargé"@.len() != "flash_loaded"@.len());
    }
    assert("✓ Sauvegardé sur Drive"@ != "flash_drive_up"@) by {
        reveal_strlit("flash_drive_up");
        reveal_strlit("✓ Sauvegardé sur Drive");
        assert("✓ Sauvegardé sur Drive"@.len() != "flash_drive_up"@.len());
    }
    assert("✓ Restauré depuis Drive"@ != "flash_drive_down"@) by {
        reveal_strlit("flash_drive_down");
        reveal_strlit("✓ Restauré depuis Drive");
        assert("✓ Restauré depuis Drive"@.len() != "flash_drive_down"@.len());
    }
    assert("✓ Importé"@ != "flash_import_ok"@) by {
        reveal_strlit("flash_import_ok");
        reveal_strlit("✓ Importé");
        assert("✓ Importé"@.len() != "flash_import_ok"@.len());
    }
    assert("✗ Fichier JSON invalide"@ != "flash_import_err"@) by {
        reveal_strlit("flash_import_err");
        reveal_strlit("✗ Fichier JSON invalide");
        assert("✗ Fichier JSON invalide"@.len() != "flash_import_err"@.len());
    }
    assert("Erreur"@ != "error"@) by {
        reveal_strlit("error");
        reveal_strlit("Erreur");
        assert("Erreur"@.len() != "error"@.len());
    }
    assert("Aucun commentaire particulier."@ != "print_placeholder"@) by {
        reveal_strlit("print_placeholder");
        reveal_strlit("Aucun commentaire particulier.");
        assert("Aucun commentaire particulier."@.len() != "print_placeholder"@.len());
    }
    assert("Organisation Auditée :"@ != "matrix_company"@) by {
        reveal_strlit("matrix_company");
        reveal_strlit("Organisation Auditée :");
        assert("Organisation Auditée :"@.len() != "matrix_company"@.len());
    }
    assert("Saisir le nom de l'entreprise..."@ != "matrix_company_ph"@) by {
        reveal_strlit("matrix_company_ph");
        reveal_strlit("Saisir le nom de l'entreprise...");
        assert("Saisir le nom de l'entreprise..."@.len() != "matrix_company_ph"@.len());
    }
    assert("Framework d'évaluation croisée alignant les piliers Google SRE avec la modernisation des processus ITIL (Incident, Problème, Changement, Capacité) et les pratiques Cloud Native."@ != "matrix_desc"@) by {
        reveal_strlit("matrix_desc");
        reveal_strlit("Framework d'évaluation croisée alignant les piliers Google SRE avec la modernisation des processus ITIL (Incident, Problème, Changement, Capacité) et les pratiques Cloud Native.");
        assert("Framework d'évaluation croisée alignant les piliers Google SRE avec la modernisation des processus ITIL (Incident, Problème, Changement, Capacité) et les pratiques Cloud Native."@.len() != "matrix_desc"@.len());
    }
    assert("💡 Mode d'emploi : Cliquez sur une cellule pour positionner l'organisation. Renseignez vos commentaires de terrain à droite. Utilisez \"Sauvegarder\" pour conserver vos données locales d'une session à l'autre."@ != "matrix_instructions"@) by {
        reveal_strlit("matrix_instructions");
        reveal_strlit("💡 Mode d'emploi : Cliquez sur une cellule pour positionner l'organisation. Renseignez vos commentaires de terrain à droite. Utilisez \"Sauvegarder\" pour conserver vos données locales d'une session à l'autre.");
        assert("💡 Mode d'emploi : Cliquez sur une cellule pour positionner l'organisation. Renseignez vos commentaires de terrain à droite. Utilisez \"Sauvegarder\" pour conserver vos données locales d'une session à l'autre."@.len() != "matrix_instructions"@.len());
    }
    assert("Principe SRE & Processus IT"@ != "matrix_col1"@) by {
        reveal_strlit("matrix_col1");
        reveal_strlit("Principe SRE & Processus IT");
        assert("Principe SRE & Processus IT"@.len() != "matrix_col1"@.len());
    }
    assert("Niveau 1 : Réactif"@ != "matrix_col2"@) by {
        reveal_strlit("matrix_col2");
        reveal_strlit("Niveau 1 : Réactif");
        assert("Niveau 1 : Réactif"@.len() != "matrix_col2"@.len());
    }
    assert("Niveau 2 : Organisé"@ != "matrix_col3"@) by {
        reveal_strlit("matrix_col3");
        reveal_strlit("Niveau 2 : Organisé");
        assert("Niveau 2 : Organisé"@.len() != "matrix_col3"@.len());
    }
    assert("Niveau 3 : Proactif"@ != "matrix_col4"@) by {
        reveal_strlit("matrix_col4");
        reveal_strlit("Niveau 3 : Proactif");
        assert("Niveau 3 : Proactif"@.len() != "matrix_col4"@.len());
    }
    assert("Niveau 4 : SRE / Continu"@ != "matrix_col5"@) by {
        reveal_strlit("matrix_col5");
        reveal_strlit("Niveau 4 : SRE / Continu");
        assert("Niveau 4 : SRE / Continu"@.len() != "matrix_col5"@.len());
    }
    assert("Commentaires & Nuances (Audit)"@ != "matrix_comment"@) by {
        reveal_strlit("matrix_comment");
        reveal_strlit("Commentaires & Nuances (Audit)");
        assert("Commentaires & Nuances (Audit)"@.len() != "matrix_comment"@.len());
    }
    assert("Aspect"@ != "matrix_aspect"@) by {
        reveal_strlit("matrix_aspect");
        reveal_strlit("Aspect");
        assert("Aspect"@.len() != "matrix_aspect"@.len());
    }
    assert("Matrice de Maturité SRE & Notes d'Audit"@ != "matrix_title"@) by {
        reveal_strlit("matrix_title");
        reveal_strlit("Matrice de Maturité SRE & Notes d'Audit");
        assert("Matrice de Maturité SRE & Notes d'Audit"@.len() != "matrix_title"@.len());
    }
    assert("Saisir vos remarques ou nuances de niveau ici..."@ != "matrix_comment_ph"@) by {
        reveal_strlit("matrix_comment_ph");
        reveal_strlit("Saisir vos remarques ou nuances de niveau ici...");
        assert("Saisir vos remarques ou nuances de niveau ici..."@.len() != "matrix_comment_ph"@.len());
    }
    assert("Feuille de Route SRE Institutionnalisée"@ != "roadmap_title"@) by {
        reveal_strlit("roadmap_title");
        reveal_strlit("Feuille de Route SRE Institutionnalisée");
        assert("Feuille de Route SRE Institutionnalisée"@.len() != "roadmap_title"@.len());
    }
    assert("Focalisation : Convergence des Outils, Fiabilisation du Delivery & Alignment Collaboratif"@ != "roadmap_meta"@) by {
        reveal_strlit("roadmap_meta");
        reveal_strlit("Focalisation : Convergence des Outils, Fiabilisation du Delivery & Alignment Collaboratif");
        assert("Focalisation : Convergence des Outils, Fiabilisation du Delivery & Alignment Collaboratif"@.len() != "roadmap_meta"@.len());
    }
    assert("⏱️ Feuille de Route Court Terme (3 Mois : Rationalisation & Actions d'Urgence)"@ != "roadmap_st_title"@) by {
        reveal_strlit("roadmap_st_title");
        reveal_strlit("⏱️ Feuille de Route Court Terme (3 Mois : Rationalisation & Actions d'Urgence)");
        assert("⏱️ Feuille de Route Court Terme (3 Mois : Rationalisation & Actions d'Urgence)"@.len() != "roadmap_st_title"@.len());
    }
    assert("🚀 Feuille de Route Long Terme (2-3 Ans : Industrialisation & Écosystème Unifié)"@ != "roadmap_lt_title"@) by {
        reveal_strlit("roadmap_lt_title");
        reveal_strlit("🚀 Feuille de Route Long Terme (2-3 Ans : Industrialisation & Écosystème Unifié)");
        assert("🚀 Feuille de Route Long Terme (2-3 Ans : Industrialisation & Écosystème Unifié)"@.len() != "roadmap_lt_title"@.len());
    }
    assert("Principe SRE / Processus ITIL"@ != "roadmap_st_h1"@) by {
        reveal_strlit("roadmap_st_h1");
        reveal_strlit("Principe SRE / Processus ITIL");
        assert("Principe SRE / Processus ITIL"@.len() != "roadmap_st_h1"@.len());
    }
    assert("Constat d'Audit (Origine)"@ != "roadmap_st_h2"@) by {
        reveal_strlit("roadmap_st_h2");
        reveal_strlit("Constat d'Audit (Origine)");
        assert("Constat d'Audit (Origine)"@.len() != "roadmap_st_h2"@.len());
    }
    assert("Actions Prioritaires Immédiates (M1 à M3)"@ != "roadmap_st_h3"@) by {
        reveal_strlit("roadmap_st_h3");
        reveal_strlit("Actions Prioritaires Immédiates (M1 à M3)");
        assert("Actions Prioritaires Immédiates (M1 à M3)"@.len() != "roadmap_st_h3"@.len());
    }
    assert("Livrables & KPI (3M)"@ != "roadmap_st_h4"@) by {
        reveal_strlit("roadmap_st_h4");
        reveal_strlit("Livrables & KPI (3M)");
        assert("Livrables & KPI (3M)"@.len() != "roadmap_st_h4"@.len());
    }
    assert("Principe SRE / Processus ITIL"@ != "roadmap_lt_h1"@) by {
        reveal_strlit("roadmap_lt_h1");
        reveal_strlit("Principe SRE / Processus ITIL");
        assert("Principe SRE / Processus ITIL"@.len() != "roadmap_lt_h1"@.len());
    }
    assert("Cible de Consolidation (Année 1)"@ != "roadmap_lt_h2"@) by {
        reveal_strlit("roadmap_lt_h2");
        reveal_strlit("Cible de Consolidation (Année 1)");
        assert("Cible de Consolidation (Année 1)"@.len() != "roadmap_lt_h2"@.len());
    }
    assert("Transformation Majeure (Années 2 & 3)"@ != "roadmap_lt_h3"@) by {
        reveal_strlit("roadmap_lt_h3");
        reveal_strlit("Transformation Majeure (Années 2 & 3)");
        assert("Transformation Majeure (Années 2 & 3)"@.len() != "roadmap_lt_h3"@.len());
    }
    assert("Vision Target (Niveau SRE Continu)"@ != "roadmap_lt_h4"@) by {
        reveal_strlit("roadmap_lt_h4");
        reveal_strlit("Vision Target (Niveau SRE Continu)");
        assert("Vision Target (Niveau SRE Continu)"@.len() != "roadmap_lt_h4"@.len());
    }
    assert("Générer depuis la matrice"@ != "roadmap_generate"@) by {
        reveal_strlit("roadmap_generate");
        reveal_strlit("Générer depuis la matrice");
        assert("Générer depuis la matrice"@.len() != "roadmap_generate"@.len());
    }
    assert("Feuille de route remplie depuis la matrice (cellules vides uniquement)."@ != "roadmap_gen_ok"@) by {
        reveal_strlit("roadmap_gen_ok");
        reveal_strlit("Feuille de route remplie depuis la matrice (cellules vides uniquement).");
        assert("Feuille de route remplie depuis la matrice (cellules vides uniquement)."@.len() != "roadmap_gen_ok"@.len());
    }
    assert("Sélectionnez d'abord des niveaux de maturité dans la matrice."@ != "roadmap_gen_noselection"@) by {
        reveal_strlit("roadmap_gen_noselection");
        reveal_strlit("Sélectionnez d'abord des niveaux de maturité dans la matrice.");
        assert("Sélectionnez d'abord des niveaux de maturité dans la matrice."@.len() != "roadmap_gen_noselection"@.len());
    }
    assert("Régénérer"@ != "roadmap_gen_overwrite"@) by {
        reveal_strlit("roadmap_gen_overwrite");
        reveal_strlit("Régénérer");
        assert("Régénérer"@.len() != "roadmap_gen_overwrite"@.len());
    }
    assert("Feuille de route régénérée depuis la matrice."@ != "roadmap_gen_forced"@) by {
        reveal_strlit("roadmap_gen_forced");
        reveal_strlit("Feuille de route régénérée depuis la matrice.");
        assert("Feuille de route régénérée depuis la matrice."@.len() != "roadmap_gen_forced"@.len());
    }
    assert("Vider la feuille de route"@ != "roadmap_clear"@) by {
        reveal_strlit("roadmap_clear");
        reveal_strlit("Vider la feuille de route");
        assert("Vider la feuille de route"@.len() != "roadmap_clear"@.len());
    }
    assert("Feuille de route vidée."@ != "roadmap_clear_ok"@) by {
        reveal_strlit("roadmap_clear_ok");
        reveal_strlit("Feuille de route vidée.");
        assert("Feuille de route vidée."@.len() != "roadmap_clear_ok"@.len());
    }
    assert("Annuler"@ != "roadmap_undo"@) by {
        reveal_strlit("roadmap_undo");
        reveal_strlit("Annuler");
        assert("Annuler"@.len() != "roadmap_undo"@.len());
    }
    assert("Modifications annulées."@ != "roadmap_undo_ok"@) by {
        reveal_strlit("roadmap_undo_ok");
        reveal_strlit("Modifications annulées.");
        assert("Modifications annulées."@.len() != "roadmap_undo_ok"@.len());
    }
    assert("Régénérer toute la feuille de route depuis la matrice ? Le contenu édité des lignes sélectionnées sera écrasé."@ != "roadmap_confirm_overwrite"@) by {
        reveal_strlit("roadmap_confirm_overwrite");
        reveal_strlit("Régénérer toute la feuille de route depuis la matrice ? Le contenu édité des lignes sélectionnées sera écrasé.");
        assert("Régénérer toute la feuille de route depuis la matrice ? Le contenu édité des lignes sélectionnées sera écrasé."@.len() != "roadmap_confirm_overwrite"@.len());
    }
    assert("Vider entièrement la feuille de route ? Toutes les cellules seront effacées."@ != "roadmap_confirm_clear"@) by {
        reveal_strlit("roadmap_confirm_clear");
        reveal_strlit("Vider entièrement la feuille de route ? Toutes les cellules seront effacées.");
        assert("Vider entièrement la feuille de route ? Toutes les cellules seront effacées."@.len() != "roadmap_confirm_clear"@.len());
    }
    assert("Note d'audit"@ != "roadmap_note_label"@) by {
        reveal_strlit("roadmap_note_label");
        reveal_strlit("Note d'audit");
        assert("Note d'audit"@.len() != "roadmap_note_label"@.len());
    }
    assert("Outils impliqués"@ != "roadmap_tools_label"@) by {
        reveal_strlit("roadmap_tools_label");
        reveal_strlit("Outils impliqués");
        assert("Outils impliqués"@.len() != "roadmap_tools_label"@.len());
    }
    assert("Vos données sont stockées localement dans ce navigateur. Utilisez \"Sauvegarder sur Drive\" pour les enregistrer dans votre dossier Google Drive privé de l'application."@ != "drive_hint"@) by {
        reveal_strlit("drive_hint");
        reveal_strlit("Vos données sont stockées localement dans ce navigateur. Utilisez \"Sauvegarder sur Drive\" pour les enregistrer dans votre dossier Google Drive privé de l'application.");
        assert("Vos données sont stockées localement dans ce navigateur. Utilisez \"Sauvegarder sur Drive\" pour les enregistrer dans votre dossier Google Drive privé de l'application."@.len() != "drive_hint"@.len());
    }
}

/// A key is its own text exactly when the interface has no text for it, and this
/// holds alike in both languages: the same unknown keys echo in French and English.
pub proof fn unknown_keys_echo_in_both_languages(key: Seq<char>)
    ensures
        (spec_en(key) == key) <==> !spec_known_key(key),
        (spec_fr(key) == key) <==> !spec_known_key(key),
        (spec_tr(key, Lang::En) == key) <==> (spec_tr(key, Lang::Fr) == key),
{
    lemma_en_texts_differ_from_keys();
    lemma_fr_texts_differ_from_keys();
}

} // verus!
