# sre_audit

A web tool for SRE maturity audits: the auditor picks a maturity level (1 to 4)
per SRE principle in a matrix, writes notes, and drafts a short-term and
long-term roadmap from a bilingual (French / English) template bank. Access is
restricted to Google accounts with a verified e-mail on a build-time allowlist;
data is kept per audited organisation in the browser and can be backed up to
the user's private Google Drive app folder.

## Layout

- `src/` — the verified library (Verus):
  - `text.rs` — string operations with exact specifications over `Seq<char>`;
  - `strmap.rs` — an insertion-ordered map keyed by strings, viewed as a `Map`;
  - `models.rs` — matrix and roadmap data, the auditor's state, undo snapshots;
  - `roadmap_page.rs` — drafting, clearing and undoing on the roadmap page;
  - `orgs.rs` — audited organisations, their storage keys and ids;
  - `i18n.rs`, `theme.rs`, `config.rs` — interface texts, theme, configuration;
  - `services/gate.rs` — allowlist, base64url, JWT payload and identity claims;
  - `services/auth.rs` — the sign-in session and its access decisions;
  - `services/roadmap_gen.rs` — drafting roadmap cells from the matrix selection;
  - `services/drive.rs` — Drive backup file names.
- `tests/` — tests of the library.
- `app/` — the Dioxus web front end: views, browser storage, the Google sign-in
  flow, Drive requests, the clock, and the serde shapes of the stored data. It
  embeds the static content from `src/data/*.json` and the style sheets from
  `assets/`; neither is part of this repository, and the front end builds only
  where they are supplied.
