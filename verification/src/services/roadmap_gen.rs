//! Drafting the roadmap from the matrix selection: the badges of the selected
//! levels, the template cells chosen per principle and level, the audit finding
//! enriched with the tools named in the auditor's note, and the filling of the
//! roadmap cells (only empty ones unless asked to overwrite).
use vstd::prelude::*;
use crate::i18n::{spec_tr, tr, Lang};
use crate::models::{
    cells_view, spec_cell, LangLines, LangStrings, MatrixData, MatrixLevel, MatrixRow, MatrixState, RoadmapData,
    RoadmapRow, RoadmapState, RoadmapTemplates,
};
use crate::strmap::StrMap;
use crate::text::{
    chars_of, char_is_alphanumeric, clone_strings, contains, decimal, find_from, is_alphanumeric,
    join, occurs_at, first_occurrence_from, lemma_first_occurrence_bounds, push_decimal, replace_all,
    spec_contains, spec_decimal, spec_join, spec_lowercase, spec_replace, spec_trim, str_eq,
    to_lowercase, to_owned_string, trim,
};

verus! {

// ── Matrix lookups and badges ────────────────────────────────────────────────

/// Position of the first matrix row numbered `num`.
pub open spec fn spec_find_row(rows: Seq<MatrixRow>, num: u8) -> Option<int>
    decreases rows.len(),
{
    if rows.len() == 0 {
        None
    } else {
        match spec_find_row(rows.drop_last(), num) {
            Some(i) => Some(i),
            None => if rows.last().num == num { Some(rows.len() - 1) } else { None },
        }
    }
}

pub proof fn lemma_find_row(rows: Seq<MatrixRow>, num: u8)
    ensures
        spec_find_row(rows, num) matches Some(i) ==> 0 <= i < rows.len() && rows[i].num == num
            && forall|j: int| 0 <= j < i ==> rows[j].num != num,
        spec_find_row(rows, num) is None ==> forall|j: int| 0 <= j < rows.len() ==> rows[j].num != num,
    decreases rows.len(),
{
    if rows.len() > 0 {
        let pre = rows.drop_last();
        lemma_find_row(pre, num);
        assert forall|j: int| 0 <= j < pre.len() implies #[trigger] rows[j] == pre[j] by {}
    }
}

fn matrix_row(data: &MatrixData, num: u8) -> (r: Option<&MatrixRow>)
    ensures
        r is Some <==> spec_find_row(data.rows@, num) is Some,
        r matches Some(row) ==> spec_find_row(data.rows@, num) matches Some(i) && *row == data.rows@[i],
{
    proof {
        lemma_find_row(data.rows@, num);
    }
    let mut i: usize = 0;
    while i < data.rows.len()
        invariant
            i <= data.rows.len(),
            forall|j: int| 0 <= j < i ==> data.rows@[j].num != num,
        decreases data.rows.len() - i,
    {
        if data.rows[i].num == num {
            proof {
                lemma_find_row(data.rows@, num);
                if let Some(k) = spec_find_row(data.rows@, num) {
                    if k > i {
                        assert(data.rows@[i as int].num == num);
                    }
                }
            }
            return Some(&data.rows[i]);
        }
        i += 1;
    }
    None
}

/// The level cell `level` (counted from 1) of a row.
pub open spec fn spec_level_at(row: MatrixRow, level: u8) -> Option<MatrixLevel> {
    if 1 <= level && level <= row.levels@.len() {
        Some(row.levels@[level - 1])
    } else {
        None
    }
}

fn level_at(row: &MatrixRow, level: u8) -> (r: Option<&MatrixLevel>)
    ensures
        r is Some <==> spec_level_at(*row, level) is Some,
        r matches Some(l) ==> spec_level_at(*row, level) == Some(*l),
{
    if level == 0 {
        return None;
    }
    let idx = (level - 1) as usize;
    if idx < row.levels.len() {
        Some(&row.levels[idx])
    } else {
        None
    }
}

/// `Niveau {level} · {badge}` for level `level` of principle `num`.
pub open spec fn spec_level_badge(data: MatrixData, num: u8, level: u8) -> Option<Seq<char>> {
    match spec_find_row(data.rows@, num) {
        None => None,
        Some(i) => match spec_level_at(data.rows@[i], level) {
            None => None,
            Some(l) => Some("Niveau "@ + spec_decimal(level as nat) + " · "@ + l.badge@),
        },
    }
}

/// The badge of principle `num` at `level` is `Niveau {level} · ` followed by the
/// badge of that level (the `level`-th, counting from 1) of the first matrix row
/// of principle `num`; there is none when no row is of that principle or it has no
/// such level.
pub proof fn level_badge_names_principle_and_level(data: MatrixData, num: u8, level: u8, i: int)
    requires
        0 <= i < data.rows@.len(),
        data.rows@[i].num == num,
        forall|j: int| 0 <= j < i ==> #[trigger] data.rows@[j].num != num,
    ensures
        1 <= level <= data.rows@[i].levels@.len() ==> spec_level_badge(data, num, level)
            == Some("Niveau "@ + spec_decimal(level as nat) + " · "@ + data.rows@[i].levels@[level - 1].badge@),
        !(1 <= level <= data.rows@[i].levels@.len()) ==> spec_level_badge(data, num, level) is None,
{
    lemma_find_row(data.rows@, num);
    match spec_find_row(data.rows@, num) {
        None => {
            assert(data.rows@[i].num == num);
        },
        Some(k) => {
            if k < i {
                assert(data.rows@[k].num != num);
            } else if k > i {
                assert(data.rows@[i].num != num);
            }
        },
    }
}

/// No badge is shown for a principle that no matrix row carries.
pub proof fn level_badge_of_unknown_principle(data: MatrixData, num: u8, level: u8)
    requires
        forall|j: int| 0 <= j < data.rows@.len() ==> #[trigger] data.rows@[j].num != num,
    ensures
        spec_level_badge(data, num, level) is None,
{
    lemma_find_row(data.rows@, num);
}

/// `Niveau {level} · {badge}` for a principle, or `None` when the principle or the
/// level is unknown.
pub fn level_badge(data: &MatrixData, num: u8, level: u8) -> (r: Option<String>)
    ensures
        r is Some <==> spec_level_badge(*data, num, level) is Some,
        r matches Some(s) ==> spec_level_badge(*data, num, level) == Some(s@),
{
    let row = match matrix_row(data, num) {
        Some(row) => row,
        None => return None,
    };
    let lvl = match level_at(row, level) {
        Some(l) => l,
        None => return None,
    };
    let mut s = to_owned_string("Niveau ");
    push_decimal(&mut s, level as u64);
    s.append(" · ");
    s.append(lvl.badge.as_str());
    Some(s)
}

/// The level-4 badge: the long-term target vision of a principle.
pub fn vision_badge(data: &MatrixData, num: u8) -> (r: Option<String>)
    ensures
        r is Some <==> spec_level_badge(*data, num, 4) is Some,
        r matches Some(s) ==> spec_level_badge(*data, num, 4) == Some(s@),
{
    level_badge(data, num, 4)
}

// ── Generation mode and cell filling ─────────────────────────────────────────

/// How drafted cells are written: into empty cells only (keeping the auditor's
/// edits), or over every cell of the selected rows.
#[derive(Clone, Copy, PartialEq, Eq, Debug, Structural)]
pub enum GenMode {
    FillEmpty,
    Overwrite,
}

impl Default for GenMode {
    fn default() -> (r: Self)
        ensures
            r == GenMode::FillEmpty,
    {
        GenMode::FillEmpty
    }
}

/// The table `m` after writing `value` into cell `idx` of row `key`: the row is
/// created if missing and padded with empty cells up to `idx`; the cell is
/// written when `force` holds or when it is empty.
pub open spec fn spec_fill_cell(m: Map<Seq<char>, Seq<Seq<char>>>, key: Seq<char>, idx: nat, value: Seq<char>, force: bool) -> Map<Seq<char>, Seq<Seq<char>>> {
    let entry = if m.contains_key(key) { m[key] } else { Seq::<Seq<char>>::empty() };
    let padded = if entry.len() <= idx {
        entry + Seq::new((idx + 1 - entry.len()) as nat, |j: int| Seq::<char>::empty())
    } else {
        entry
    };
    let written = if force || padded[idx as int].len() == 0 { padded.update(idx as int, value) } else { padded };
    m.insert(key, written)
}

pub(crate) fn fill_cell(map: &mut StrMap<Vec<String>>, key: &str, idx: usize, value: &str, force: bool)
    ensures
        cells_view(*final(map)) == spec_fill_cell(cells_view(*old(map)), key@, idx as nat, value@, force),
{
    let ghost old_cells = cells_view(*map);
    let mut entry: Vec<String> = match map.get(key) {
        Some(v) => clone_strings(v),
        None => Vec::new(),
    };
    let ghost start = entry@.map_values(|s: String| s@);
    assert(start == (if old_cells.contains_key(key@) { old_cells[key@] } else { Seq::<Seq<char>>::empty() }));
    let ghost padded = if start.len() <= idx {
        start + Seq::new((idx + 1 - start.len()) as nat, |j: int| Seq::<char>::empty())
    } else {
        start
    };
    while entry.len() <= idx
        invariant
            entry@.len() <= padded.len(),
            entry@.map_values(|s: String| s@) == padded.take(entry@.len() as int),
            padded.len() == (if start.len() <= idx { idx + 1 } else { start.len() as int }),
            start.len() <= entry@.len(),
            forall|j: int| start.len() <= j < padded.len() ==> #[trigger] padded[j] == Seq::<char>::empty(),
        decreases idx + 1 - entry.len(),
    {
        let ghost before = entry@;
        entry.push(String::new());
        assert(entry@.map_values(|s: String| s@) =~= padded.take(entry@.len() as int));
    }
    assert(entry@.map_values(|s: String| s@) =~= padded);
    if force || entry[idx].as_str().is_empty() {
        entry.set(idx, to_owned_string(value));
    }
    let ghost written = entry@.map_values(|s: String| s@);
    assert(written == (if force || padded[idx as int].len() == 0 { padded.update(idx as int, value@) } else { padded }));
    map.insert(to_owned_string(key), entry);
    assert(cells_view(*map) =~= old_cells.insert(key@, written));
}

// ── Templates ────────────────────────────────────────────────────────────────

/// The template entry for principle `num` and level `level`.
pub open spec fn spec_tpl_entry<T>(tpl: StrMap<StrMap<T>>, num: u8, level: u8) -> Option<T> {
    let n = spec_decimal(num as nat);
    let l = spec_decimal(level as nat);
    if tpl@.contains_key(n) && tpl@[n]@.contains_key(l) {
        Some(tpl@[n]@[l])
    } else {
        None
    }
}

pub open spec fn spec_pick(s: LangStrings, lang: Lang) -> Seq<char> {
    match lang {
        Lang::Fr => s.fr@,
        Lang::En => s.en@,
    }
}

pub open spec fn spec_pick_lines(l: LangLines, lang: Lang) -> Seq<Seq<char>> {
    match lang {
        Lang::Fr => l.fr@.map_values(|s: String| s@),
        Lang::En => l.en@.map_values(|s: String| s@),
    }
}

/// The template string of a principle and level in `lang`, or empty.
pub open spec fn spec_tpl_string(tpl: StrMap<StrMap<LangStrings>>, num: u8, level: u8, lang: Lang) -> Seq<char> {
    match spec_tpl_entry(tpl, num, level) {
        Some(e) => spec_pick(e, lang),
        None => Seq::<char>::empty(),
    }
}

/// The template lines of a principle and level in `lang`, one per line, or empty.
pub open spec fn spec_tpl_lines(tpl: StrMap<StrMap<LangLines>>, num: u8, level: u8, lang: Lang) -> Seq<char> {
    match spec_tpl_entry(tpl, num, level) {
        Some(e) => spec_join(spec_pick_lines(e, lang), "\n"@),
        None => Seq::<char>::empty(),
    }
}

fn pick(s: &LangStrings, lang: Lang) -> (r: String)
    ensures
        r@ == spec_pick(*s, lang),
{
    match lang {
        Lang::Fr => s.fr.clone(),
        Lang::En => s.en.clone(),
    }
}

fn pick_lines(l: &LangLines, lang: Lang) -> (r: &Vec<String>)
    ensures
        r@.map_values(|s: String| s@) == spec_pick_lines(*l, lang),
{
    match lang {
        Lang::Fr => &l.fr,
        Lang::En => &l.en,
    }
}

fn tpl_entry<'a, T>(tpl: &'a StrMap<StrMap<T>>, num: u8, level: u8) -> (r: Option<&'a T>)
    ensures
        r is Some <==> spec_tpl_entry(*tpl, num, level) is Some,
        r matches Some(e) ==> spec_tpl_entry(*tpl, num, level) == Some(*e),
{
    let n = decimal(num as u64);
    let l = decimal(level as u64);
    match tpl.get(n.as_str()) {
        None => None,
        Some(by_level) => by_level.get(l.as_str()),
    }
}

fn tpl_string(tpl: &StrMap<StrMap<LangStrings>>, num: u8, level: u8, lang: Lang) -> (r: String)
    ensures
        r@ == spec_tpl_string(*tpl, num, level, lang),
{
    match tpl_entry(tpl, num, level) {
        Some(e) => pick(e, lang),
        None => String::new(),
    }
}

fn tpl_lines(tpl: &StrMap<StrMap<LangLines>>, num: u8, level: u8, lang: Lang) -> (r: String)
    ensures
        r@ == spec_tpl_lines(*tpl, num, level, lang),
{
    match tpl_entry(tpl, num, level) {
        Some(e) => join(pick_lines(e, lang), "\n"),
        None => String::new(),
    }
}

// ── Tools named in a note ────────────────────────────────────────────────────

/// Whether the match of a `len`-character needle at `i` stands alone: no letter or
/// digit right before it nor right after it.
pub open spec fn spec_boundary_ok(hay: Seq<char>, len: int, i: int) -> bool {
    (i == 0 || !is_alphanumeric(hay[i - 1])) && (i + len >= hay.len() || !is_alphanumeric(hay[i + len]))
}

/// Some match of the non-empty `needle` at or after `from`, among the leftmost
/// non-overlapping ones, stands alone.
pub open spec fn spec_token_from(hay: Seq<char>, needle: Seq<char>, from: int) -> bool
    decreases hay.len() + 1 - from,
{
    if needle.len() == 0 || from < 0 {
        false
    } else {
        match first_occurrence_from(hay, needle, from) {
            None => false,
            Some(i) => if from <= i && i + needle.len() <= hay.len() {
                spec_boundary_ok(hay, needle.len() as int, i) || spec_token_from(hay, needle, i + needle.len())
            } else {
                false
            },
        }
    }
}

/// Whether `needle` occurs in `lower` as a whole word, scanning its matches the way
/// `str::match_indices` yields them (an empty needle matches at every position).
pub open spec fn spec_contains_token(lower: Seq<char>, needle: Seq<char>) -> bool {
    if needle.len() == 0 {
        exists|i: int| 0 <= i <= lower.len() && #[trigger] spec_boundary_ok(lower, 0, i)
    } else {
        spec_token_from(lower, needle, 0)
    }
}

fn boundary_ok(hay: &Vec<char>, len: usize, i: usize) -> (r: bool)
    requires
        i + len <= hay.len(),
    ensures
        r == spec_boundary_ok(hay@, len as int, i as int),
{
    let before_ok = i == 0 || !char_is_alphanumeric(hay[i - 1]);
    let after = i + len;
    let after_ok = after >= hay.len() || !char_is_alphanumeric(hay[after]);
    before_ok && after_ok
}

/// Whether `needle` occurs in `lower` as a whole word (no letter or digit on
/// either side), so that short needles never match inside longer words.
pub fn contains_token(lower: &str, needle: &str) -> (r: bool)
    ensures
        r == spec_contains_token(lower@, needle@),
{
    let h = chars_of(lower);
    let n = chars_of(needle);
    if n.len() == 0 {
        let mut i: usize = 0;
        while i < h.len()
            invariant
                i <= h.len(),
                h@ == lower@,
                n@ == needle@,
                n@.len() == 0,
                forall|k: int| 0 <= k < i ==> !#[trigger] spec_boundary_ok(lower@, 0, k),
            decreases h.len() - i,
        {
            if boundary_ok(&h, 0, i) {
                assert(spec_boundary_ok(lower@, 0, i as int));
                return true;
            }
            i += 1;
        }
        let last = boundary_ok(&h, 0, h.len());
        assert(last == spec_boundary_ok(lower@, 0, h.len() as int));
        return last;
    }
    let mut p: usize = 0;
    loop
        invariant
            h@ == lower@,
            n@ == needle@,
            n@.len() > 0,
            p <= h.len(),
            spec_token_from(lower@, needle@, 0) == spec_token_from(lower@, needle@, p as int),
        decreases h.len() - p,
    {
        proof {
            lemma_first_occurrence_bounds(lower@, needle@, p as int);
        }
        match find_from(&h, &n, p) {
            None => {
                return false;
            }
            Some(i) => {
                if boundary_ok(&h, n.len(), i) {
                    return true;
                }
                p = i + n.len();
            }
        }
    }
}

/// The tool dictionary: what to look for in a lower-cased note, and the tool's
/// canonical name.
pub open spec fn spec_tool_dict() -> Seq<(&'static str, &'static str)> {
    seq![
        ("dynatrace", "Dynatrace"),
        ("zabbix", "Zabbix"),
        ("grafana", "Grafana"),
        ("liora", "Liora"),
        ("batch-tracker", "Batch-tracker"),
        ("absana", "Absana"),
        ("elk", "ELK"),
        ("jira", "Jira"),
        ("confluence", "Confluence"),
        ("sharepoint", "SharePoint"),
        ("gitlab-ci", "GitLab CI"),
        ("gitlab", "GitLab CI"),
        ("jenkins", "Jenkins"),
        ("awx", "Ansible AWX"),
        ("ansible", "Ansible"),
        ("terraform", "Terraform"),
        ("kubernetes", "Kubernetes"),
        ("k8s", "Kubernetes"),
        ("pssit", "PSSIT"),
        ("postgres", "Postgres"),
        ("oracle", "Oracle"),
        ("mysql", "MySQL"),
        ("sql", "SQL"),
        ("db2", "DB2"),
        ("cft", "CFT"),
        ("backstage", "Backstage"),
    ]
}

/// A whole-word match really is one: the needle occurs at some position with no
/// letter or digit on either side.
pub proof fn token_match_stands_alone(lower: Seq<char>, needle: Seq<char>)
    requires
        needle.len() > 0,
        spec_contains_token(lower, needle),
    ensures
        exists|i: int| occurs_at(lower, needle, i) && #[trigger] spec_boundary_ok(lower, needle.len() as int, i),
{
    lemma_token_from_sound(lower, needle, 0);
}

proof fn lemma_token_from_sound(lower: Seq<char>, needle: Seq<char>, from: int)
    requires
        needle.len() > 0,
        0 <= from,
        spec_token_from(lower, needle, from),
    ensures
        exists|i: int| occurs_at(lower, needle, i) && #[trigger] spec_boundary_ok(lower, needle.len() as int, i),
    decreases lower.len() + 1 - from,
{
    lemma_first_occurrence_bounds(lower, needle, from);
    let i = first_occurrence_from(lower, needle, from)->0;
    if spec_boundary_ok(lower, needle.len() as int, i) {
        assert(occurs_at(lower, needle, i));
    } else {
        lemma_token_from_sound(lower, needle, i + needle.len());
    }
}

/// `needle` has a non-empty proper prefix that is also a suffix: only then can two
/// of its matches overlap.
pub open spec fn spec_has_border(needle: Seq<char>) -> bool {
    exists|k: int| 0 < k < needle.len()
        && #[trigger] needle.subrange(k, needle.len() as int) == needle.subrange(0, needle.len() - k)
}

/// Two matches of `needle` can never overlap with the later one standing alone:
/// every character of the needle is a letter or digit (so the character before
/// an overlapping match is one too), or the needle has no proper prefix that is
/// also a suffix (so its matches cannot overlap at all).
pub open spec fn spec_scan_sees_all(needle: Seq<char>) -> bool {
    (forall|t: int| 0 <= t < needle.len() ==> is_alphanumeric(#[trigger] needle[t]))
        || !spec_has_border(needle)
}

/// A needle whose first character does not occur again in it has no proper
/// prefix that is also a suffix.
proof fn lemma_unrepeated_start_no_border(needle: Seq<char>)
    requires
        forall|k: int| 0 < k < needle.len() ==> #[trigger] needle[k] != needle[0],
    ensures
        !spec_has_border(needle),
{
    if spec_has_border(needle) {
        let n = needle.len() as int;
        let k = choose|k: int| 0 < k < n && #[trigger] needle.subrange(k, n) == needle.subrange(0, n - k);
        assert(needle.subrange(k, n)[0] == needle[k]);
        assert(needle.subrange(0, n - k)[0] == needle[0]);
    }
}

proof fn lemma_overlap_not_alone(hay: Seq<char>, needle: Seq<char>, i: int, j: int)
    requires
        occurs_at(hay, needle, i),
        occurs_at(hay, needle, j),
        i < j < i + needle.len(),
        spec_scan_sees_all(needle),
    ensures
        !spec_boundary_ok(hay, needle.len() as int, j),
{
    let n = needle.len() as int;
    assert(hay.subrange(i, i + n)[j - 1 - i] == hay[j - 1]);
    assert(needle[j - 1 - i] == hay[j - 1]);
    assert(hay.subrange(i, i + n)[j - i] == hay[j]);
    assert(hay.subrange(j, j + n)[0] == hay[j]);
    if forall|t: int| 0 <= t < needle.len() ==> is_alphanumeric(#[trigger] needle[t]) {
        assert(is_alphanumeric(needle[j - 1 - i]));
    } else {
        let k = j - i;
        assert(needle.subrange(k, n) =~= needle.subrange(0, n - k)) by {
            assert forall|t: int| 0 <= t < n - k implies needle.subrange(k, n)[t] == needle.subrange(0, n - k)[t] by {
                assert(hay.subrange(i, i + n)[k + t] == hay[j + t]);
                assert(hay.subrange(j, j + n)[t] == hay[j + t]);
            }
        }
        assert(spec_has_border(needle));
    }
}

proof fn lemma_token_from_complete(lower: Seq<char>, needle: Seq<char>, from: int, j: int)
    requires
        needle.len() > 0,
        0 <= from <= j,
        occurs_at(lower, needle, j),
        spec_boundary_ok(lower, needle.len() as int, j),
        spec_scan_sees_all(needle),
    ensures
        spec_token_from(lower, needle, from),
    decreases lower.len() + 1 - from,
{
    lemma_first_occurrence_bounds(lower, needle, from);
    match first_occurrence_from(lower, needle, from) {
        None => {
            assert(occurs_at(lower, needle, j));
        },
        Some(i) => {
            if i != j {
                assert(i < j);
                if j < i + needle.len() {
                    lemma_overlap_not_alone(lower, needle, i, j);
                }
                if !spec_boundary_ok(lower, needle.len() as int, i) {
                    lemma_token_from_complete(lower, needle, i + needle.len(), j);
                }
            }
        },
    }
}

/// The scan misses no whole-word match of a needle whose matches cannot overlap
/// a standing-alone one (`spec_scan_sees_all`: among them every needle with no
/// proper prefix that is also a suffix): together with
/// `token_match_stands_alone`, `contains_token` then tells exactly whether the
/// needle occurs with no letter or digit on either side.
pub proof fn standalone_match_is_found(lower: Seq<char>, needle: Seq<char>, j: int)
    requires
        occurs_at(lower, needle, j),
        spec_boundary_ok(lower, needle.len() as int, j),
        spec_scan_sees_all(needle),
    ensures
        spec_contains_token(lower, needle),
{
    if needle.len() == 0 {
        assert(0 <= j <= lower.len());
    } else {
        lemma_token_from_complete(lower, needle, 0, j);
    }
}

/// For a non-empty needle whose matches cannot overlap a standing-alone one (in
/// particular any needle with no proper prefix that is also a suffix, and every
/// dictionary needle), the whole-word search answers exactly whether the needle
/// occurs with no letter or digit on either side.
pub proof fn whole_word_search_is_exact(lower: Seq<char>, needle: Seq<char>)
    requires
        needle.len() > 0,
        spec_scan_sees_all(needle),
    ensures
        spec_contains_token(lower, needle) <==> exists|i: int| occurs_at(lower, needle, i)
            && #[trigger] spec_boundary_ok(lower, needle.len() as int, i),
{
    if spec_contains_token(lower, needle) {
        token_match_stands_alone(lower, needle);
    }
    if exists|i: int| occurs_at(lower, needle, i) && #[trigger] spec_boundary_ok(lower, needle.len() as int, i) {
        let i = choose|i: int| occurs_at(lower, needle, i) && #[trigger] spec_boundary_ok(lower, needle.len() as int, i);
        standalone_match_is_found(lower, needle, i);
    }
}

/// Every needle of the tool dictionary has matches the scan cannot miss
/// (`spec_scan_sees_all`), so `contains_token` finds each of them exactly when it
/// stands alone in the note.
pub proof fn tool_needles_are_seen_all()
    ensures
        forall|j: int| 0 <= j < spec_tool_dict().len() ==> spec_scan_sees_all((#[trigger] spec_tool_dict()[j]).0@),
{
    assert(spec_scan_sees_all("dynatrace"@)) by {
        reveal_strlit("dynatrace");
        assert forall|t: int| 0 <= t < "dynatrace"@.len() implies is_alphanumeric(#[trigger] "dynatrace"@[t]) by {}
    }
    assert(spec_scan_sees_all("zabbix"@)) by {
        reveal_strlit("zabbix");
        assert forall|t: int| 0 <= t < "zabbix"@.len() implies is_alphanumeric(#[trigger] "zabbix"@[t]) by {}
    }
    assert(spec_scan_sees_all("grafana"@)) by {
        reveal_strlit("grafana");
        assert forall|t: int| 0 <= t < "grafana"@.len() implies is_alphanumeric(#[trigger] "grafana"@[t]) by {}
    }
    assert(spec_scan_sees_all("liora"@)) by {
        reveal_strlit("liora");
        assert forall|t: int| 0 <= t < "liora"@.len() implies is_alphanumeric(#[trigger] "liora"@[t]) by {}
    }
    assert(spec_scan_sees_all("batch-tracker"@)) by {
        reveal_strlit("batch-tracker");
        assert forall|k: int| 0 < k < "batch-tracker"@.len() implies #[trigger] "batch-tracker"@[k] != "batch-tracker"@[0] by {}
        lemma_unrepeated_start_no_border("batch-tracker"@);
    }
    assert(spec_scan_sees_all("absana"@)) by {
        reveal_strlit("absana");
        assert forall|t: int| 0 <= t < "absana"@.len() implies is_alphanumeric(#[trigger] "absana"@[t]) by {}
    }
    assert(spec_scan_sees_all("elk"@)) by {
        reveal_strlit("elk");
        assert forall|t: int| 0 <= t < "elk"@.len() implies is_alphanumeric(#[trigger] "elk"@[t]) by {}
    }
    assert(spec_scan_sees_all("jira"@)) by {
        reveal_strlit("jira");
        assert forall|t: int| 0 <= t < "jira"@.len() implies is_alphanumeric(#[trigger] "jira"@[t]) by {}
    }
    assert(spec_scan_sees_all("confluence"@)) by {
        reveal_strlit("confluence");
        assert forall|t: int| 0 <= t < "confluence"@.len() implies is_alphanumeric(#[trigger] "confluence"@[t]) by {}
    }
    assert(spec_scan_sees_all("sharepoint"@)) by {
        reveal_strlit("sharepoint");
        assert forall|t: int| 0 <= t < "sharepoint"@.len() implies is_alphanumeric(#[trigger] "sharepoint"@[t]) by {}
    }
    assert(spec_scan_sees_all("gitlab-ci"@)) by {
        reveal_strlit("gitlab-ci");
        assert forall|k: int| 0 < k < "gitlab-ci"@.len() implies #[trigger] "gitlab-ci"@[k] != "gitlab-ci"@[0] by {}
        lemma_unrepeated_start_no_border("gitlab-ci"@);
    }
    assert(spec_scan_sees_all("gitlab"@)) by {
        reveal_strlit("gitlab");
        assert forall|t: int| 0 <= t < "gitlab"@.len() implies is_alphanumeric(#[trigger] "gitlab"@[t]) by {}
    }
    assert(spec_scan_sees_all("jenkins"@)) by {
        reveal_strlit("jenkins");
        assert forall|t: int| 0 <= t < "jenkins"@.len() implies is_alphanumeric(#[trigger] "jenkins"@[t]) by {}
    }
    assert(spec_scan_sees_all("awx"@)) by {
        reveal_strlit("awx");
        assert forall|t: int| 0 <= t < "awx"@.len() implies is_alphanumeric(#[trigger] "awx"@[t]) by {}
    }
    assert(spec_scan_sees_all("ansible"@)) by {
        reveal_strlit("ansible");
        assert forall|t: int| 0 <= t < "ansible"@.len() implies is_alphanumeric(#[trigger] "ansible"@[t]) by {}
    }
    assert(spec_scan_sees_all("terraform"@)) by {
        reveal_strlit("terraform");
        assert forall|t: int| 0 <= t < "terraform"@.len() implies is_alphanumeric(#[trigger] "terraform"@[t]) by {}
    }
    assert(spec_scan_sees_all("kubernetes"@)) by {
        reveal_strlit("kubernetes");
        assert forall|t: int| 0 <= t < "kubernetes"@.len() implies is_alphanumeric(#[trigger] "kubernetes"@[t]) by {}
    }
    assert(spec_scan_sees_all("k8s"@)) by {
        reveal_strlit("k8s");
        assert forall|t: int| 0 <= t < "k8s"@.len() implies is_alphanumeric(#[trigger] "k8s"@[t]) by {}
    }
    assert(spec_scan_sees_all("pssit"@)) by {
        reveal_strlit("pssit");
        assert forall|t: int| 0 <= t < "pssit"@.len() implies is_alphanumeric(#[trigger] "pssit"@[t]) by {}
    }
    assert(spec_scan_sees_all("postgres"@)) by {
        reveal_strlit("postgres");
        assert forall|t: int| 0 <= t < "postgres"@.len() implies is_alphanumeric(#[trigger] "postgres"@[t]) by {}
    }
    assert(spec_scan_sees_all("oracle"@)) by {
        reveal_strlit("oracle");
        assert forall|t: int| 0 <= t < "oracle"@.len() implies is_alphanumeric(#[trigger] "oracle"@[t]) by {}
    }
    assert(spec_scan_sees_all("mysql"@)) by {
        reveal_strlit("mysql");
        assert forall|t: int| 0 <= t < "mysql"@.len() implies is_alphanumeric(#[trigger] "mysql"@[t]) by {}
    }
    assert(spec_scan_sees_all("sql"@)) by {
        reveal_strlit("sql");
        assert forall|t: int| 0 <= t < "sql"@.len() implies is_alphanumeric(#[trigger] "sql"@[t]) by {}
    }
    assert(spec_scan_sees_all("db2"@)) by {
        reveal_strlit("db2");
        assert forall|t: int| 0 <= t < "db2"@.len() implies is_alphanumeric(#[trigger] "db2"@[t]) by {}
    }
    assert(spec_scan_sees_all("cft"@)) by {
        reveal_strlit("cft");
        assert forall|t: int| 0 <= t < "cft"@.len() implies is_alphanumeric(#[trigger] "cft"@[t]) by {}
    }
    assert(spec_scan_sees_all("backstage"@)) by {
        reveal_strlit("backstage");
        assert forall|t: int| 0 <= t < "backstage"@.len() implies is_alphanumeric(#[trigger] "backstage"@[t]) by {}
    }
    assert forall|j: int| 0 <= j < spec_tool_dict().len() implies spec_scan_sees_all((#[trigger] spec_tool_dict()[j]).0@) by {
    }
}

/// No tool is reported twice.
pub proof fn detected_tools_distinct(comment: Seq<char>)
    ensures
        spec_detect_tools(comment).no_duplicates(),
{
    lemma_tools_upto_distinct(spec_lowercase(comment), spec_tool_dict().len() as int);
}

proof fn lemma_tools_upto_distinct(lower: Seq<char>, n: int)
    ensures
        spec_tools_upto(lower, n).no_duplicates(),
    decreases n,
{
    if n > 0 {
        lemma_tools_upto_distinct(lower, n - 1);
        let prev = spec_tools_upto(lower, n - 1);
        let entry = spec_tool_dict()[n - 1];
        if spec_contains_token(lower, entry.0@) && !prev.contains(entry.1@) {
            let r = prev.push(entry.1@);
            assert forall|a: int, b: int| 0 <= a < r.len() && 0 <= b < r.len() && a != b implies r[a] != r[b] by {
                if a == prev.len() {
                    assert(r[b] == prev[b]);
                } else if b == prev.len() {
                    assert(r[a] == prev[a]);
                }
            }
        }
    }
}

/// `idx` gives, for each tool of `tools`, the dictionary entry that found it:
/// entries below `n`, in increasing order, each with its needle standing alone in
/// `lower` and the tool as its canonical name.
pub open spec fn spec_found_by(lower: Seq<char>, tools: Seq<Seq<char>>, idx: Seq<int>, n: int) -> bool {
    &&& idx.len() == tools.len()
    &&& forall|k: int| 0 <= k < idx.len() ==> 0 <= #[trigger] idx[k] < n
        && tools[k] == spec_tool_dict()[idx[k]].1@
        && spec_contains_token(lower, spec_tool_dict()[idx[k]].0@)
    &&& forall|a: int, b: int| 0 <= a < b < idx.len() ==> #[trigger] idx[a] < #[trigger] idx[b]
}

proof fn lemma_tools_upto_shape(lower: Seq<char>, n: int)
    requires
        0 <= n <= spec_tool_dict().len(),
    ensures
        forall|j: int| 0 <= j < n && spec_contains_token(lower, (#[trigger] spec_tool_dict()[j]).0@)
            ==> spec_tools_upto(lower, n).contains(spec_tool_dict()[j].1@),
        exists|idx: Seq<int>| #[trigger] spec_found_by(lower, spec_tools_upto(lower, n), idx, n),
    decreases n,
{
    if n == 0 {
        assert(spec_found_by(lower, spec_tools_upto(lower, 0), Seq::<int>::empty(), 0));
    } else {
        lemma_tools_upto_shape(lower, n - 1);
        let prev = spec_tools_upto(lower, n - 1);
        let cur = spec_tools_upto(lower, n);
        let entry = spec_tool_dict()[n - 1];
        let idx0 = choose|idx: Seq<int>| #[trigger] spec_found_by(lower, prev, idx, n - 1);
        if spec_contains_token(lower, entry.0@) && !prev.contains(entry.1@) {
            let idx1 = idx0.push(n - 1);
            assert(cur == prev.push(entry.1@));
            assert forall|k: int| 0 <= k < idx1.len() implies 0 <= #[trigger] idx1[k] < n
                && cur[k] == spec_tool_dict()[idx1[k]].1@
                && spec_contains_token(lower, spec_tool_dict()[idx1[k]].0@) by {
                if k < idx0.len() {
                    assert(idx1[k] == idx0[k]);
                }
            }
            assert forall|a: int, b: int| 0 <= a < b < idx1.len() implies #[trigger] idx1[a] < #[trigger] idx1[b] by {
                if b < idx0.len() {
                    assert(idx1[a] == idx0[a] && idx1[b] == idx0[b]);
                } else {
                    assert(idx1[a] == idx0[a]);
                }
            }
            assert(spec_found_by(lower, cur, idx1, n));
            assert forall|j: int| 0 <= j < n && spec_contains_token(lower, (#[trigger] spec_tool_dict()[j]).0@)
                implies cur.contains(spec_tool_dict()[j].1@) by {
                if j < n - 1 {
                    let t = spec_tool_dict()[j].1@;
                    assert(prev.contains(t));
                    let p = choose|p: int| 0 <= p < prev.len() && prev[p] == t;
                    assert(cur[p] == t);
                } else {
                    assert(cur[prev.len() as int] == entry.1@);
                }
            }
        } else {
            assert(cur == prev);
            assert forall|k: int| 0 <= k < idx0.len() implies 0 <= #[trigger] idx0[k] < n
                && cur[k] == spec_tool_dict()[idx0[k]].1@
                && spec_contains_token(lower, spec_tool_dict()[idx0[k]].0@) by {
            }
            assert(spec_found_by(lower, cur, idx0, n));
        }
    }
}

/// The tools found in a note: each tool is reported exactly when the needle of
/// some dictionary entry naming it stands alone in the lower-cased note, and the
/// tools come in dictionary order, each found by an entry after the one that
/// found the tool before it.
pub proof fn detected_tools_follow_dictionary(comment: Seq<char>, tool: Seq<char>)
    ensures
        spec_detect_tools(comment).contains(tool) <==> exists|j: int| 0 <= j < spec_tool_dict().len()
            && (#[trigger] spec_tool_dict()[j]).1@ == tool
            && spec_contains_token(spec_lowercase(comment), spec_tool_dict()[j].0@),
        exists|idx: Seq<int>| #[trigger] spec_found_by(spec_lowercase(comment), spec_detect_tools(comment), idx, spec_tool_dict().len() as int),
{
    let lower = spec_lowercase(comment);
    let n = spec_tool_dict().len() as int;
    lemma_tools_upto_shape(lower, n);
    let tools = spec_detect_tools(comment);
    if tools.contains(tool) {
        let idx = choose|idx: Seq<int>| #[trigger] spec_found_by(lower, tools, idx, n);
        let p = choose|p: int| 0 <= p < tools.len() && tools[p] == tool;
        assert(0 <= idx[p] < n);
        assert(spec_tool_dict()[idx[p]].1@ == tool);
    }
}

/// The tools reported for a note: each of the dictionary's tools is reported
/// whenever one of its needles stands alone in the lower-cased note (Dynatrace,
/// Zabbix, Grafana, Liora, Batch-tracker, Absana, ELK, Jira, Confluence,
/// SharePoint, GitLab CI for `gitlab-ci` or `gitlab`, Jenkins, Ansible AWX for
/// `awx`, Ansible, Terraform, Kubernetes for `kubernetes` or `k8s`, PSSIT,
/// Postgres, Oracle, MySQL, SQL, DB2, CFT, Backstage), and nothing else is ever
/// reported.
pub proof fn dictionary_tools_are_reported(comment: Seq<char>, t: Seq<char>)
    ensures
        spec_contains_token(spec_lowercase(comment), "dynatrace"@) ==> spec_detect_tools(comment).contains("Dynatrace"@),
        spec_contains_token(spec_lowercase(comment), "zabbix"@) ==> spec_detect_tools(comment).contains("Zabbix"@),
        spec_contains_token(spec_lowercase(comment), "grafana"@) ==> spec_detect_tools(comment).contains("Grafana"@),
        spec_contains_token(spec_lowercase(comment), "liora"@) ==> spec_detect_tools(comment).contains("Liora"@),
        spec_contains_token(spec_lowercase(comment), "batch-tracker"@) ==> spec_detect_tools(comment).contains("Batch-tracker"@),
        spec_contains_token(spec_lowercase(comment), "absana"@) ==> spec_detect_tools(comment).contains("Absana"@),
        spec_contains_token(spec_lowercase(comment), "elk"@) ==> spec_detect_tools(comment).contains("ELK"@),
        spec_contains_token(spec_lowercase(comment), "jira"@) ==> spec_detect_tools(comment).contains("Jira"@),
        spec_contains_token(spec_lowercase(comment), "confluence"@) ==> spec_detect_tools(comment).contains("Confluence"@),
        spec_contains_token(spec_lowercase(comment), "sharepoint"@) ==> spec_detect_tools(comment).contains("SharePoint"@),
        spec_contains_token(spec_lowercase(comment), "gitlab-ci"@) ==> spec_detect_tools(comment).contains("GitLab CI"@),
        spec_contains_token(spec_lowercase(comment), "gitlab"@) ==> spec_detect_tools(comment).contains("GitLab CI"@),
        spec_contains_token(spec_lowercase(comment), "jenkins"@) ==> spec_detect_tools(comment).contains("Jenkins"@),
        spec_contains_token(spec_lowercase(comment), "awx"@) ==> spec_detect_tools(comment).contains("Ansible AWX"@),
        spec_contains_token(spec_lowercase(comment), "ansible"@) ==> spec_detect_tools(comment).contains("Ansible"@),
        spec_contains_token(spec_lowercase(comment), "terraform"@) ==> spec_detect_tools(comment).contains("Terraform"@),
        spec_contains_token(spec_lowercase(comment), "kubernetes"@) ==> spec_detect_tools(comment).contains("Kubernetes"@),
        spec_contains_token(spec_lowercase(comment), "k8s"@) ==> spec_detect_tools(comment).contains("Kubernetes"@),
        spec_contains_token(spec_lowercase(comment), "pssit"@) ==> spec_detect_tools(comment).contains("PSSIT"@),
        spec_contains_token(spec_lowercase(comment), "postgres"@) ==> spec_detect_tools(comment).contains("Postgres"@),
        spec_contains_token(spec_lowercase(comment), "oracle"@) ==> spec_detect_tools(comment).contains("Oracle"@),
        spec_contains_token(spec_lowercase(comment), "mysql"@) ==> spec_detect_tools(comment).contains("MySQL"@),
        spec_contains_token(spec_lowercase(comment), "sql"@) ==> spec_detect_tools(comment).contains("SQL"@),
        spec_contains_token(spec_lowercase(comment), "db2"@) ==> spec_detect_tools(comment).contains("DB2"@),
        spec_contains_token(spec_lowercase(comment), "cft"@) ==> spec_detect_tools(comment).contains("CFT"@),
        spec_contains_token(spec_lowercase(comment), "backstage"@) ==> spec_detect_tools(comment).contains("Backstage"@),
        spec_detect_tools(comment).contains(t) ==> (t == "Dynatrace"@ || t == "Zabbix"@ || t == "Grafana"@ || t == "Liora"@ || t == "Batch-tracker"@ || t == "Absana"@ || t == "ELK"@ || t == "Jira"@ || t == "Confluence"@ || t == "SharePoint"@ || t == "GitLab CI"@ || t == "Jenkins"@ || t == "Ansible AWX"@ || t == "Ansible"@ || t == "Terraform"@ || t == "Kubernetes"@ || t == "PSSIT"@ || t == "Postgres"@ || t == "Oracle"@ || t == "MySQL"@ || t == "SQL"@ || t == "DB2"@ || t == "CFT"@ || t == "Backstage"@),
{
    if spec_contains_token(spec_lowercase(comment), "dynatrace"@) {
        assert(spec_tool_dict()[0].0@ == "dynatrace"@ && spec_tool_dict()[0].1@ == "Dynatrace"@);
        detected_tools_follow_dictionary(comment, "Dynatrace"@);
    }
    if spec_contains_token(spec_lowercase(comment), "zabbix"@) {
        assert(spec_tool_dict()[1].0@ == "zabbix"@ && spec_tool_dict()[1].1@ == "Zabbix"@);
        detected_tools_follow_dictionary(comment, "Zabbix"@);
    }
    if spec_contains_token(spec_lowercase(comment), "grafana"@) {
        assert(spec_tool_dict()[2].0@ == "grafana"@ && spec_tool_dict()[2].1@ == "Grafana"@);
        detected_tools_follow_dictionary(comment, "Grafana"@);
    }
    if spec_contains_token(spec_lowercase(comment), "liora"@) {
        assert(spec_tool_dict()[3].0@ == "liora"@ && spec_tool_dict()[3].1@ == "Liora"@);
        detected_tools_follow_dictionary(comment, "Liora"@);
    }
    if spec_contains_token(spec_lowercase(comment), "batch-tracker"@) {
        assert(spec_tool_dict()[4].0@ == "batch-tracker"@ && spec_tool_dict()[4].1@ == "Batch-tracker"@);
        detected_tools_follow_dictionary(comment, "Batch-tracker"@);
    }
    if spec_contains_token(spec_lowercase(comment), "absana"@) {
        assert(spec_tool_dict()[5].0@ == "absana"@ && spec_tool_dict()[5].1@ == "Absana"@);
        detected_tools_follow_dictionary(comment, "Absana"@);
    }
    if spec_contains_token(spec_lowercase(comment), "elk"@) {
        assert(spec_tool_dict()[6].0@ == "elk"@ && spec_tool_dict()[6].1@ == "ELK"@);
        detected_tools_follow_dictionary(comment, "ELK"@);
    }
    if spec_contains_token(spec_lowercase(comment), "jira"@) {
        assert(spec_tool_dict()[7].0@ == "jira"@ && spec_tool_dict()[7].1@ == "Jira"@);
        detected_tools_follow_dictionary(comment, "Jira"@);
    }
    if spec_contains_token(spec_lowercase(comment), "confluence"@) {
        assert(spec_tool_dict()[8].0@ == "confluence"@ && spec_tool_dict()[8].1@ == "Confluence"@);
        detected_tools_follow_dictionary(comment, "Confluence"@);
    }
    if spec_contains_token(spec_lowercase(comment), "sharepoint"@) {
        assert(spec_tool_dict()[9].0@ == "sharepoint"@ && spec_tool_dict()[9].1@ == "SharePoint"@);
        detected_tools_follow_dictionary(comment, "SharePoint"@);
    }
    if spec_contains_token(spec_lowercase(comment), "gitlab-ci"@) {
        assert(spec_tool_dict()[10].0@ == "gitlab-ci"@ && spec_tool_dict()[10].1@ == "GitLab CI"@);
        detected_tools_follow_dictionary(comment, "GitLab CI"@);
    }
    if spec_contains_token(spec_lowercase(comment), "gitlab"@) {
        assert(spec_tool_dict()[11].0@ == "gitlab"@ && spec_tool_dict()[11].1@ == "GitLab CI"@);
        detected_tools_follow_dictionary(comment, "GitLab CI"@);
    }
    if spec_contains_token(spec_lowercase(comment), "jenkins"@) {
        assert(spec_tool_dict()[12].0@ == "jenkins"@ && spec_tool_dict()[12].1@ == "Jenkins"@);
        detected_tools_follow_dictionary(comment, "Jenkins"@);
    }
    if spec_contains_token(spec_lowercase(comment), "awx"@) {
        assert(spec_tool_dict()[13].0@ == "awx"@ && spec_tool_dict()[13].1@ == "Ansible AWX"@);
        detected_tools_follow_dictionary(comment, "Ansible AWX"@);
    }
    if spec_contains_token(spec_lowercase(comment), "ansible"@) {
        assert(spec_tool_dict()[14].0@ == "ansible"@ && spec_tool_dict()[14].1@ == "Ansible"@);
        detected_tools_follow_dictionary(comment, "Ansible"@);
    }
    if spec_contains_token(spec_lowercase(comment), "terraform"@) {
        assert(spec_tool_dict()[15].0@ == "terraform"@ && spec_tool_dict()[15].1@ == "Terraform"@);
        detected_tools_follow_dictionary(comment, "Terraform"@);
    }
    if spec_contains_token(spec_lowercase(comment), "kubernetes"@) {
        assert(spec_tool_dict()[16].0@ == "kubernetes"@ && spec_tool_dict()[16].1@ == "Kubernetes"@);
        detected_tools_follow_dictionary(comment, "Kubernetes"@);
    }
    if spec_contains_token(spec_lowercase(comment), "k8s"@) {
        assert(spec_tool_dict()[17].0@ == "k8s"@ && spec_tool_dict()[17].1@ == "Kubernetes"@);
        detected_tools_follow_dictionary(comment, "Kubernetes"@);
    }
    if spec_contains_token(spec_lowercase(comment), "pssit"@) {
        assert(spec_tool_dict()[18].0@ == "pssit"@ && spec_tool_dict()[18].1@ == "PSSIT"@);
        detected_tools_follow_dictionary(comment, "PSSIT"@);
    }
    if spec_contains_token(spec_lowercase(comment), "postgres"@) {
        assert(spec_tool_dict()[19].0@ == "postgres"@ && spec_tool_dict()[19].1@ == "Postgres"@);
        detected_tools_follow_dictionary(comment, "Postgres"@);
    }
    if spec_contains_token(spec_lowercase(comment), "oracle"@) {
        assert(spec_tool_dict()[20].0@ == "oracle"@ && spec_tool_dict()[20].1@ == "Oracle"@);
        detected_tools_follow_dictionary(comment, "Oracle"@);
    }
    if spec_contains_token(spec_lowercase(comment), "mysql"@) {
        assert(spec_tool_dict()[21].0@ == "mysql"@ && spec_tool_dict()[21].1@ == "MySQL"@);
        detected_tools_follow_dictionary(comment, "MySQL"@);
    }
    if spec_contains_token(spec_lowercase(comment), "sql"@) {
        assert(spec_tool_dict()[22].0@ == "sql"@ && spec_tool_dict()[22].1@ == "SQL"@);
        detected_tools_follow_dictionary(comment, "SQL"@);
    }
    if spec_contains_token(spec_lowercase(comment), "db2"@) {
        assert(spec_tool_dict()[23].0@ == "db2"@ && spec_tool_dict()[23].1@ == "DB2"@);
        detected_tools_follow_dictionary(comment, "DB2"@);
    }
    if spec_contains_token(spec_lowercase(comment), "cft"@) {
        assert(spec_tool_dict()[24].0@ == "cft"@ && spec_tool_dict()[24].1@ == "CFT"@);
        detected_tools_follow_dictionary(comment, "CFT"@);
    }
    if spec_contains_token(spec_lowercase(comment), "backstage"@) {
        assert(spec_tool_dict()[25].0@ == "backstage"@ && spec_tool_dict()[25].1@ == "Backstage"@);
        detected_tools_follow_dictionary(comment, "Backstage"@);
    }
    detected_tools_follow_dictionary(comment, t);
    if spec_detect_tools(comment).contains(t) {
        let j = choose|j: int| 0 <= j < spec_tool_dict().len()
            && (#[trigger] spec_tool_dict()[j]).1@ == t
            && spec_contains_token(spec_lowercase(comment), spec_tool_dict()[j].0@);
        assert(0 <= j < 26);
    }
}

/// The place of a tool among the dictionary's canonical names, in dictionary order
/// (Dynatrace first, Backstage last); 24 for any other name.
pub open spec fn spec_tool_rank(t: Seq<char>) -> int {
    if t == "Dynatrace"@ {
        0
    } else if t == "Zabbix"@ {
        1
    } else if t == "Grafana"@ {
        2
    } else if t == "Liora"@ {
        3
    } else if t == "Batch-tracker"@ {
        4
    } else if t == "Absana"@ {
        5
    } else if t == "ELK"@ {
        6
    } else if t == "Jira"@ {
        7
    } else if t == "Confluence"@ {
        8
    } else if t == "SharePoint"@ {
        9
    } else if t == "GitLab CI"@ {
        10
    } else if t == "Jenkins"@ {
        11
    } else if t == "Ansible AWX"@ {
        12
    } else if t == "Ansible"@ {
        13
    } else if t == "Terraform"@ {
        14
    } else if t == "Kubernetes"@ {
        15
    } else if t == "PSSIT"@ {
        16
    } else if t == "Postgres"@ {
        17
    } else if t == "Oracle"@ {
        18
    } else if t == "MySQL"@ {
        19
    } else if t == "SQL"@ {
        20
    } else if t == "DB2"@ {
        21
    } else if t == "CFT"@ {
        22
    } else if t == "Backstage"@ {
        23
    } else {
        24
    }
}

proof fn lemma_tool_ranks()
    ensures
        spec_tool_rank("Dynatrace"@) == 0,
        spec_tool_rank("Zabbix"@) == 1,
        spec_tool_rank("Grafana"@) == 2,
        spec_tool_rank("Liora"@) == 3,
        spec_tool_rank("Batch-tracker"@) == 4,
        spec_tool_rank("Absana"@) == 5,
        spec_tool_rank("ELK"@) == 6,
        spec_tool_rank("Jira"@) == 7,
        spec_tool_rank("Confluence"@) == 8,
        spec_tool_rank("SharePoint"@) == 9,
        spec_tool_rank("GitLab CI"@) == 10,
        spec_tool_rank("Jenkins"@) == 11,
        spec_tool_rank("Ansible AWX"@) == 12,
        spec_tool_rank("Ansible"@) == 13,
        spec_tool_rank("Terraform"@) == 14,
        spec_tool_rank("Kubernetes"@) == 15,
        spec_tool_rank("PSSIT"@) == 16,
        spec_tool_rank("Postgres"@) == 17,
        spec_tool_rank("Oracle"@) == 18,
        spec_tool_rank("MySQL"@) == 19,
        spec_tool_rank("SQL"@) == 20,
        spec_tool_rank("DB2"@) == 21,
        spec_tool_rank("CFT"@) == 22,
        spec_tool_rank("Backstage"@) == 23,
{
    reveal_strlit("Dynatrace");
    reveal_strlit("Zabbix");
    reveal_strlit("Grafana");
    reveal_strlit("Liora");
    reveal_strlit("Batch-tracker");
    reveal_strlit("Absana");
    reveal_strlit("ELK");
    reveal_strlit("Jira");
    reveal_strlit("Confluence");
    reveal_strlit("SharePoint");
    reveal_strlit("GitLab CI");
    reveal_strlit("Jenkins");
    reveal_strlit("Ansible AWX");
    reveal_strlit("Ansible");
    reveal_strlit("Terraform");
    reveal_strlit("Kubernetes");
    reveal_strlit("PSSIT");
    reveal_strlit("Postgres");
    reveal_strlit("Oracle");
    reveal_strlit("MySQL");
    reveal_strlit("SQL");
    reveal_strlit("DB2");
    reveal_strlit("CFT");
    reveal_strlit("Backstage");
    assert("Zabbix"@.len() != "Dynatrace"@.len());
    assert("Grafana"@.len() != "Dynatrace"@.len());
    assert("Grafana"@.len() != "Zabbix"@.len());
    assert("Liora"@.len() != "Dynatrace"@.len());
    assert("Liora"@.len() != "Zabbix"@.len());
    assert("Liora"@.len() != "Grafana"@.len());
    assert("Batch-tracker"@.len() != "Dynatrace"@.len());
    assert("Batch-tracker"@.len() != "Zabbix"@.len());
    assert("Batch-tracker"@.len() != "Grafana"@.len());
    assert("Batch-tracker"@.len() != "Liora"@.len());
    assert("Absana"@.len() != "Dynatrace"@.len());
    assert("Absana"@[0] != "Zabbix"@[0]);
    assert("Absana"@.len() != "Grafana"@.len());
    assert("Absana"@.len() != "Liora"@.len());
    assert("Absana"@.len() != "Batch-tracker"@.len());
    assert("ELK"@.len() != "Dynatrace"@.len());
    assert("ELK"@.len() != "Zabbix"@.len());
    assert("ELK"@.len() != "Grafana"@.len());
    assert("ELK"@.len() != "Liora"@.len());
    assert("ELK"@.len() != "Batch-tracker"@.len());
    assert("ELK"@.len() != "Absana"@.len());
    assert("Jira"@.len() != "Dynatrace"@.len());
    assert("Jira"@.len() != "Zabbix"@.len());
    assert("Jira"@.len() != "Grafana"@.len());
    assert("Jira"@.len() != "Liora"@.len());
    assert("Jira"@.len() != "Batch-tracker"@.len());
    assert("Jira"@.len() != "Absana"@.len());
    assert("Jira"@.len() != "ELK"@.len());
    assert("Confluence"@.len() != "Dynatrace"@.len());
    assert("Confluence"@.len() != "Zabbix"@.len());
    assert("Confluence"@.len() != "Grafana"@.len());
    assert("Confluence"@.len() != "Liora"@.len());
    assert("Confluence"@.len() != "Batch-tracker"@.len());
    assert("Confluence"@.len() != "Absana"@.len());
    assert("Confluence"@.len() != "ELK"@.len());
    assert("Confluence"@.len() != "Jira"@.len());
    assert("SharePoint"@.len() != "Dynatrace"@.len());
    assert("SharePoint"@.len() != "Zabbix"@.len());
    assert("SharePoint"@.len() != "Grafana"@.len());
    assert("SharePoint"@.len() != "Liora"@.len());
    assert("SharePoint"@.len() != "Batch-tracker"@.len());
    assert("SharePoint"@.len() != "Absana"@.len());
    assert("SharePoint"@.len() != "ELK"@.len());
    assert("SharePoint"@.len() != "Jira"@.len());
    assert("SharePoint"@[0] != "Confluence"@[0]);
    assert("GitLab CI"@[0] != "Dynatrace"@[0]);
    assert("GitLab CI"@.len() != "Zabbix"@.len());
    assert("GitLab CI"@.len() != "Grafana"@.len());
    assert("GitLab CI"@.len() != "Liora"@.len());
    assert("GitLab CI"@.len() != "Batch-tracker"@.len());
    assert("GitLab CI"@.len() != "Absana"@.len());
    assert("GitLab CI"@.len() != "ELK"@.len());
    assert("GitLab CI"@.len() != "Jira"@.len());
    assert("GitLab CI"@.len() != "Confluence"@.len());
    assert("GitLab CI"@.len() != "SharePoint"@.len());
    assert("Jenkins"@.len() != "Dynatrace"@.len());
    assert("Jenkins"@.len() != "Zabbix"@.len());
    assert("Jenkins"@[0] != "Grafana"@[0]);
    assert("Jenkins"@.len() != "Liora"@.len());
    assert("Jenkins"@.len() != "Batch-tracker"@.len());
    assert("Jenkins"@.len() != "Absana"@.len());
    assert("Jenkins"@.len() != "ELK"@.len());
    assert("Jenkins"@.len() != "Jira"@.len());
    assert("Jenkins"@.len() != "Confluence"@.len());
    assert("Jenkins"@.len() != "SharePoint"@.len());
    assert("Jenkins"@.len() != "GitLab CI"@.len());
    assert("Ansible AWX"@.len() != "Dynatrace"@.len());
    assert("Ansible AWX"@.len() != "Zabbix"@.len());
    assert("Ansible AWX"@.len() != "Grafana"@.len());
    assert("Ansible AWX"@.len() != "Liora"@.len());
    assert("Ansible AWX"@.len() != "Batch-tracker"@.len());
    assert("Ansible AWX"@.len() != "Absana"@.len());
    assert("Ansible AWX"@.len() != "ELK"@.len());
    assert("Ansible AWX"@.len() != "Jira"@.len());
    assert("Ansible AWX"@.len() != "Confluence"@.len());
    assert("Ansible AWX"@.len() != "SharePoint"@.len());
    assert("Ansible AWX"@.len() != "GitLab CI"@.len());
    assert("Ansible AWX"@.len() != "Jenkins"@.len());
    assert("Ansible"@.len() != "Dynatrace"@.len());
    assert("Ansible"@.len() != "Zabbix"@.len());
    assert("Ansible"@[0] != "Grafana"@[0]);
    assert("Ansible"@.len() != "Liora"@.len());
    assert("Ansible"@.len() != "Batch-tracker"@.len());
    assert("Ansible"@.len() != "Absana"@.len());
    assert("Ansible"@.len() != "ELK"@.len());
    assert("Ansible"@.len() != "Jira"@.len());
    assert("Ansible"@.len() != "Confluence"@.len());
    assert("Ansible"@.len() != "SharePoint"@.len());
    assert("Ansible"@.len() != "GitLab CI"@.len());
    assert("Ansible"@[0] != "Jenkins"@[0]);
    assert("Ansible"@.len() != "Ansible AWX"@.len());
    assert("Terraform"@[0] != "Dynatrace"@[0]);
    assert("Terraform"@.len() != "Zabbix"@.len());
    assert("Terraform"@.len() != "Grafana"@.len());
    assert("Terraform"@.len() != "Liora"@.len());
    assert("Terraform"@.len() != "Batch-tracker"@.len());
    assert("Terraform"@.len() != "Absana"@.len());
    assert("Terraform"@.len() != "ELK"@.len());
    assert("Terraform"@.len() != "Jira"@.len());
    assert("Terraform"@.len() != "Confluence"@.len());
    assert("Terraform"@.len() != "SharePoint"@.len());
    assert("Terraform"@[0] != "GitLab CI"@[0]);
    assert("Terraform"@.len() != "Jenkins"@.len());
    assert("Terraform"@.len() != "Ansible AWX"@.len());
    assert("Terraform"@.len() != "Ansible"@.len());
    assert("Kubernetes"@.len() != "Dynatrace"@.len());
    assert("Kubernetes"@.len() != "Zabbix"@.len());
    assert("Kubernetes"@.len() != "Grafana"@.len());
    assert("Kubernetes"@.len() != "Liora"@.len());
    assert("Kubernetes"@.len() != "Batch-tracker"@.len());
    assert("Kubernetes"@.len() != "Absana"@.len());
    assert("Kubernetes"@.len() != "ELK"@.len());
    assert("Kubernetes"@.len() != "Jira"@.len());
    assert("Kubernetes"@[0] != "Confluence"@[0]);
    assert("Kubernetes"@[0] != "SharePoint"@[0]);
    assert("Kubernetes"@.len() != "GitLab CI"@.len());
    assert("Kubernetes"@.len() != "Jenkins"@.len());
    assert("Kubernetes"@.len() != "Ansible AWX"@.len());
    assert("Kubernetes"@.len() != "Ansible"@.len());
    assert("Kubernetes"@.len() != "Terraform"@.len());
    assert("PSSIT"@.len() != "Dynatrace"@.len());
    assert("PSSIT"@.len() != "Zabbix"@.len());
    assert("PSSIT"@.len() != "Grafana"@.len());
    assert("PSSIT"@[0] != "Liora"@[0]);
    assert("PSSIT"@.len() != "Batch-tracker"@.len());
    assert("PSSIT"@.len() != "Absana"@.len());
    assert("PSSIT"@.len() != "ELK"@.len());
    assert("PSSIT"@.len() != "Jira"@.len());
    assert("PSSIT"@.len() != "Confluence"@.len());
    assert("PSSIT"@.len() != "SharePoint"@.len());
    assert("PSSIT"@.len() != "GitLab CI"@.len());
    assert("PSSIT"@.len() != "Jenkins"@.len());
    assert("PSSIT"@.len() != "Ansible AWX"@.len());
    assert("PSSIT"@.len() != "Ansible"@.len());
    assert("PSSIT"@.len() != "Terraform"@.len());
    assert("PSSIT"@.len() != "Kubernetes"@.len());
    assert("Postgres"@.len() != "Dynatrace"@.len());
    assert("Postgres"@.len() != "Zabbix"@.len());
    assert("Postgres"@.len() != "Grafana"@.len());
    assert("Postgres"@.len() != "Liora"@.len());
    assert("Postgres"@.len() != "Batch-tracker"@.len());
    assert("Postgres"@.len() != "Absana"@.len());
    assert("Postgres"@.len() != "ELK"@.len());
    assert("Postgres"@.len() != "Jira"@.len());
    assert("Postgres"@.len() != "Confluence"@.len());
    assert("Postgres"@.len() != "SharePoint"@.len());
    assert("Postgres"@.len() != "GitLab CI"@.len());
    assert("Postgres"@.len() != "Jenkins"@.len());
    assert("Postgres"@.len() != "Ansible AWX"@.len());
    assert("Postgres"@.len() != "Ansible"@.len());
    assert("Postgres"@.len() != "Terraform"@.len());
    assert("Postgres"@.len() != "Kubernetes"@.len());
    assert("Postgres"@.len() != "PSSIT"@.len());
    assert("Oracle"@.len() != "Dynatrace"@.len());
    assert("Oracle"@[0] != "Zabbix"@[0]);
    assert("Oracle"@.len() != "Grafana"@.len());
    assert("Oracle"@.len() != "Liora"@.len());
    assert("Oracle"@.len() != "Batch-tracker"@.len());
    assert("Oracle"@[0] != "Absana"@[0]);
    assert("Oracle"@.len() != "ELK"@.len());
    assert("Oracle"@.len() != "Jira"@.len());
    assert("Oracle"@.len() != "Confluence"@.len());
    assert("Oracle"@.len() != "SharePoint"@.len());
    assert("Oracle"@.len() != "GitLab CI"@.len());
    assert("Oracle"@.len() != "Jenkins"@.len());
    assert("Oracle"@.len() != "Ansible AWX"@.len());
    assert("Oracle"@.len() != "Ansible"@.len());
    assert("Oracle"@.len() != "Terraform"@.len());
    assert("Oracle"@.len() != "Kubernetes"@.len());
    assert("Oracle"@.len() != "PSSIT"@.len());
    assert("Oracle"@.len() != "Postgres"@.len());
    assert("MySQL"@.len() != "Dynatrace"@.len());
    assert("MySQL"@.len() != "Zabbix"@.len());
    assert("MySQL"@.len() != "Grafana"@.len());
    assert("MySQL"@[0] != "Liora"@[0]);
    assert("MySQL"@.len() != "Batch-tracker"@.len());
    assert("MySQL"@.len() != "Absana"@.len());
    assert("MySQL"@.len() != "ELK"@.len());
    assert("MySQL"@.len() != "Jira"@.len());
    assert("MySQL"@.len() != "Confluence"@.len());
    assert("MySQL"@.len() != "SharePoint"@.len());
    assert("MySQL"@.len() != "GitLab CI"@.len());
    assert("MySQL"@.len() != "Jenkins"@.len());
    assert("MySQL"@.len() != "Ansible AWX"@.len());
    assert("MySQL"@.len() != "Ansible"@.len());
    assert("MySQL"@.len() != "Terraform"@.len());
    assert("MySQL"@.len() != "Kubernetes"@.len());
    assert("MySQL"@[0] != "PSSIT"@[0]);
    assert("MySQL"@.len() != "Postgres"@.len());
    assert("MySQL"@.len() != "Oracle"@.len());
    assert("SQL"@.len() != "Dynatrace"@.len());
    assert("SQL"@.len() != "Zabbix"@.len());
    assert("SQL"@.len() != "Grafana"@.len());
    assert("SQL"@.len() != "Liora"@.len());
    assert("SQL"@.len() != "Batch-tracker"@.len());
    assert("SQL"@.len() != "Absana"@.len());
    assert("SQL"@[0] != "ELK"@[0]);
    assert("SQL"@.len() != "Jira"@.len());
    assert("SQL"@.len() != "Confluence"@.len());
    assert("SQL"@.len() != "SharePoint"@.len());
    assert("SQL"@.len() != "GitLab CI"@.len());
    assert("SQL"@.len() != "Jenkins"@.len());
    assert("SQL"@.len() != "Ansible AWX"@.len());
    assert("SQL"@.len() != "Ansible"@.len());
    assert("SQL"@.len() != "Terraform"@.len());
    assert("SQL"@.len() != "Kubernetes"@.len());
    assert("SQL"@.len() != "PSSIT"@.len());
    assert("SQL"@.len() != "Postgres"@.len());
    assert("SQL"@.len() != "Oracle"@.len());
    assert("SQL"@.len() != "MySQL"@.len());
    assert("DB2"@.len() != "Dynatrace"@.len());
    assert("DB2"@.len() != "Zabbix"@.len());
    assert("DB2"@.len() != "Grafana"@.len());
    assert("DB2"@.len() != "Liora"@.len());
    assert("DB2"@.len() != "Batch-tracker"@.len());
    assert("DB2"@.len() != "Absana"@.len());
    assert("DB2"@[0] != "ELK"@[0]);
    assert("DB2"@.len() != "Jira"@.len());
    assert("DB2"@.len() != "Confluence"@.len());
    assert("DB2"@.len() != "SharePoint"@.len());
    assert("DB2"@.len() != "GitLab CI"@.len());
    assert("DB2"@.len() != "Jenkins"@.len());
    assert("DB2"@.len() != "Ansible AWX"@.len());
    assert("DB2"@.len() != "Ansible"@.len());
    assert("DB2"@.len() != "Terraform"@.len());
    assert("DB2"@.len() != "Kubernetes"@.len());
    assert("DB2"@.len() != "PSSIT"@.len());
    assert("DB2"@.len() != "Postgres"@.len());
    assert("DB2"@.len() != "Oracle"@.len());
    assert("DB2"@.len() != "MySQL"@.len());
    assert("DB2"@[0] != "SQL"@[0]);
    assert("CFT"@.len() != "Dynatrace"@.len());
    assert("CFT"@.len() != "Zabbix"@.len());
    assert("CFT"@.len() != "Grafana"@.len());
    assert("CFT"@.len() != "Liora"@.len());
    assert("CFT"@.len() != "Batch-tracker"@.len());
    assert("CFT"@.len() != "Absana"@.len());
    assert("CFT"@[0] != "ELK"@[0]);
    assert("CFT"@.len() != "Jira"@.len());
    assert("CFT"@.len() != "Confluence"@.len());
    assert("CFT"@.len() != "SharePoint"@.len());
    assert("CFT"@.len() != "GitLab CI"@.len());
    assert("CFT"@.len() != "Jenkins"@.len());
    assert("CFT"@.len() != "Ansible AWX"@.len());
    assert("CFT"@.len() != "Ansible"@.len());
    assert("CFT"@.len() != "Terraform"@.len());
    assert("CFT"@.len() != "Kubernetes"@.len());
    assert("CFT"@.len() != "PSSIT"@.len());
    assert("CFT"@.len() != "Postgres"@.len());
    assert("CFT"@.len() != "Oracle"@.len());
    assert("CFT"@.len() != "MySQL"@.len());
    assert("CFT"@[0] != "SQL"@[0]);
    assert("CFT"@[0] != "DB2"@[0]);
    assert("Backstage"@[0] != "Dynatrace"@[0]);
    assert("Backstage"@.len() != "Zabbix"@.len());
    assert("Backstage"@.len() != "Grafana"@.len());
    assert("Backstage"@.len() != "Liora"@.len());
    assert("Backstage"@.len() != "Batch-tracker"@.len());
    assert("Backstage"@.len() != "Absana"@.len());
    assert("Backstage"@.len() != "ELK"@.len());
    assert("Backstage"@.len() != "Jira"@.len());
    assert("Backstage"@.len() != "Confluence"@.len());
    assert("Backstage"@.len() != "SharePoint"@.len());
    assert("Backstage"@[0] != "GitLab CI"@[0]);
    assert("Backstage"@.len() != "Jenkins"@.len());
    assert("Backstage"@.len() != "Ansible AWX"@.len());
    assert("Backstage"@.len() != "Ansible"@.len());
    assert("Backstage"@[0] != "Terraform"@[0]);
    assert("Backstage"@.len() != "Kubernetes"@.len());
    assert("Backstage"@.len() != "PSSIT"@.len());
    assert("Backstage"@.len() != "Postgres"@.len());
    assert("Backstage"@.len() != "Oracle"@.len());
    assert("Backstage"@.len() != "MySQL"@.len());
    assert("Backstage"@.len() != "SQL"@.len());
    assert("Backstage"@.len() != "DB2"@.len());
    assert("Backstage"@.len() != "CFT"@.len());
}

/// The tools come in dictionary order: a tool is reported before another exactly
/// when it stands before it among the canonical names (Dynatrace, Zabbix,
/// Grafana, Liora, Batch-tracker, Absana, ELK, Jira, Confluence, SharePoint,
/// GitLab CI, Jenkins, Ansible AWX, Ansible, Terraform, Kubernetes, PSSIT,
/// Postgres, Oracle, MySQL, SQL, DB2, CFT, Backstage).
pub proof fn detected_tools_in_dictionary_order(comment: Seq<char>)
    ensures
        forall|a: int, b: int| 0 <= a < b < spec_detect_tools(comment).len()
            ==> spec_tool_rank(#[trigger] spec_detect_tools(comment)[a]) < spec_tool_rank(#[trigger] spec_detect_tools(comment)[b]),
{
    let tools = spec_detect_tools(comment);
    let lower = spec_lowercase(comment);
    let ranks: Seq<int> = seq![0, 1, 2, 3, 4, 5, 6, 7, 8, 9, 10, 10, 11, 12, 13, 14, 15, 15, 16, 17, 18, 19, 20, 21, 22, 23];
    lemma_tool_ranks();
    assert(spec_tool_dict()[0].1@ == "Dynatrace"@);
    assert(spec_tool_dict()[1].1@ == "Zabbix"@);
    assert(spec_tool_dict()[2].1@ == "Grafana"@);
    assert(spec_tool_dict()[3].1@ == "Liora"@);
    assert(spec_tool_dict()[4].1@ == "Batch-tracker"@);
    assert(spec_tool_dict()[5].1@ == "Absana"@);
    assert(spec_tool_dict()[6].1@ == "ELK"@);
    assert(spec_tool_dict()[7].1@ == "Jira"@);
    assert(spec_tool_dict()[8].1@ == "Confluence"@);
    assert(spec_tool_dict()[9].1@ == "SharePoint"@);
    assert(spec_tool_dict()[10].1@ == "GitLab CI"@);
    assert(spec_tool_dict()[11].1@ == "GitLab CI"@);
    assert(spec_tool_dict()[12].1@ == "Jenkins"@);
    assert(spec_tool_dict()[13].1@ == "Ansible AWX"@);
    assert(spec_tool_dict()[14].1@ == "Ansible"@);
    assert(spec_tool_dict()[15].1@ == "Terraform"@);
    assert(spec_tool_dict()[16].1@ == "Kubernetes"@);
    assert(spec_tool_dict()[17].1@ == "Kubernetes"@);
    assert(spec_tool_dict()[18].1@ == "PSSIT"@);
    assert(spec_tool_dict()[19].1@ == "Postgres"@);
    assert(spec_tool_dict()[20].1@ == "Oracle"@);
    assert(spec_tool_dict()[21].1@ == "MySQL"@);
    assert(spec_tool_dict()[22].1@ == "SQL"@);
    assert(spec_tool_dict()[23].1@ == "DB2"@);
    assert(spec_tool_dict()[24].1@ == "CFT"@);
    assert(spec_tool_dict()[25].1@ == "Backstage"@);
    assert forall|j: int| 0 <= j < 26 implies spec_tool_rank((#[trigger] spec_tool_dict()[j]).1@) == ranks[j] by {}
    detected_tools_follow_dictionary(comment, Seq::<char>::empty());
    detected_tools_distinct(comment);
    let idx = choose|idx: Seq<int>| #[trigger] spec_found_by(lower, tools, idx, 26);
    assert forall|a: int, b: int| 0 <= a < b < tools.len()
        implies spec_tool_rank(#[trigger] tools[a]) < spec_tool_rank(#[trigger] tools[b]) by {
        let ja = idx[a];
        let jb = idx[b];
        assert(ja < jb);
        assert(tools[a] == spec_tool_dict()[ja].1@);
        assert(tools[b] == spec_tool_dict()[jb].1@);
        assert(tools[a] != tools[b]);
        assert(spec_tool_rank(spec_tool_dict()[ja].1@) == ranks[ja]);
        assert(spec_tool_rank(spec_tool_dict()[jb].1@) == ranks[jb]);
    }
}

fn tool_dict() -> (r: Vec<(&'static str, &'static str)>)
    ensures
        r@ == spec_tool_dict(),
{
    let v = vec![
        ("dynatrace", "Dynatrace"),
        ("zabbix", "Zabbix"),
        ("grafana", "Grafana"),
        ("liora", "Liora"),
        ("batch-tracker", "Batch-tracker"),
        ("absana", "Absana"),
        ("elk", "ELK"),
        ("jira", "Jira"),
        ("confluence", "Confluence"),
        ("sharepoint", "SharePoint"),
        ("gitlab-ci", "GitLab CI"),
        ("gitlab", "GitLab CI"),
        ("jenkins", "Jenkins"),
        ("awx", "Ansible AWX"),
        ("ansible", "Ansible"),
        ("terraform", "Terraform"),
        ("kubernetes", "Kubernetes"),
        ("k8s", "Kubernetes"),
        ("pssit", "PSSIT"),
        ("postgres", "Postgres"),
        ("oracle", "Oracle"),
        ("mysql", "MySQL"),
        ("sql", "SQL"),
        ("db2", "DB2"),
        ("cft", "CFT"),
        ("backstage", "Backstage"),
    ];
    assert(v@ =~= spec_tool_dict());
    v
}

/// The tools found among the first `n` dictionary entries, in dictionary order,
/// each canonical name once.
pub open spec fn spec_tools_upto(lower: Seq<char>, n: int) -> Seq<Seq<char>>
    decreases n,
{
    if n <= 0 {
        Seq::<Seq<char>>::empty()
    } else {
        let prev = spec_tools_upto(lower, n - 1);
        let entry = spec_tool_dict()[n - 1];
        if spec_contains_token(lower, entry.0@) && !prev.contains(entry.1@) {
            prev.push(entry.1@)
        } else {
            prev
        }
    }
}

/// The tools named in `comment` (matched as whole words in its lower-cased form),
/// by canonical name, each once, in dictionary order.
pub open spec fn spec_detect_tools(comment: Seq<char>) -> Seq<Seq<char>> {
    spec_tools_upto(spec_lowercase(comment), spec_tool_dict().len() as int)
}

/// The tools named in `comment`, canonicalised and de-duplicated, in dictionary order.
pub fn detect_tools(comment: &str) -> (r: Vec<String>)
    ensures
        r@.map_values(|s: String| s@) == spec_detect_tools(comment@),
{
    let dict = tool_dict();
    let lower = to_lowercase(comment);
    let mut out: Vec<String> = Vec::new();
    let mut i: usize = 0;
    while i < dict.len()
        invariant
            i <= dict.len(),
            dict@ == spec_tool_dict(),
            out@.map_values(|s: String| s@) == spec_tools_upto(lower@, i as int),
        decreases dict.len() - i,
    {
        let (needle, canon) = dict[i];
        let ghost before = out@.map_values(|s: String| s@);
        if contains_token(lower.as_str(), needle) && !contains_str(&out, canon) {
            out.push(to_owned_string(canon));
            assert(out@.map_values(|s: String| s@) =~= before.push(canon@));
        }
        i += 1;
    }
    out
}

/// Whether `list` holds the string `x`.
fn contains_str(list: &Vec<String>, x: &str) -> (r: bool)
    ensures
        r == list@.map_values(|s: String| s@).contains(x@),
{
    let ghost v = list@.map_values(|s: String| s@);
    let mut i: usize = 0;
    while i < list.len()
        invariant
            i <= list.len(),
            v == list@.map_values(|s: String| s@),
            forall|k: int| 0 <= k < i ==> v[k] != x@,
        decreases list.len() - i,
    {
        if str_eq(list[i].as_str(), x) {
            assert(v[i as int] == x@);
            return true;
        }
        i += 1;
    }
    false
}

// ── Drafting ─────────────────────────────────────────────────────────────────

/// The drafted audit finding: the template sentence of the selected level, with the
/// tools named in the note put in place of `{tools}` (or listed on a line of their
/// own when the sentence has no such place), then the note itself on a last line
/// unless it is blank.
pub open spec fn spec_build_constat(templates: RoadmapTemplates, num: u8, level: u8, lang: Lang, comment: Seq<char>) -> Seq<char> {
    let base = spec_tpl_string(templates.constat, num, level, lang);
    let tools = spec_detect_tools(comment);
    let joined = spec_join(tools, ", "@);
    let with_tools = if tools.len() == 0 {
        base
    } else if spec_contains(base, "{tools}"@) {
        spec_replace(base, "{tools}"@, joined)
    } else {
        base + "\n"@ + spec_tr("roadmap_tools_label"@, lang) + " : "@ + joined + "."@
    };
    if spec_trim(comment).len() == 0 {
        with_tools
    } else {
        with_tools + "\n"@ + spec_tr("roadmap_note_label"@, lang) + " : "@ + comment
    }
}

/// Drafts the audit finding of principle `num` at `level` from the template bank
/// and the auditor's note.
pub fn build_constat(templates: &RoadmapTemplates, num: u8, level: u8, lang: Lang, comment: &str) -> (r: String)
    ensures
        r@ == spec_build_constat(*templates, num, level, lang, comment@),
{
    proof {
        reveal_strlit("{tools}");
    }
    let mut s = tpl_string(&templates.constat, num, level, lang);
    let tools = detect_tools(comment);
    if tools.len() > 0 {
        let joined = join(&tools, ", ");
        if contains(s.as_str(), "{tools}") {
            s = replace_all(s.as_str(), "{tools}", joined.as_str());
        } else {
            let label = tr("roadmap_tools_label", lang);
            s.append("\n");
            s.append(label.as_str());
            s.append(" : ");
            s.append(joined.as_str());
            s.append(".");
        }
    }
    if !trim(comment).is_empty() {
        let label = tr("roadmap_note_label", lang);
        s.append("\n");
        s.append(label.as_str());
        s.append(" : ");
        s.append(comment);
    }
    s
}

/// The level drafted for principle `num`: its selected level, provided the matrix
/// has that principle.
pub open spec fn spec_row_level(matrix: MatrixData, sel: MatrixState, num: u8) -> Option<u8> {
    match sel.spec_selected_level(num) {
        Some(l) => if spec_find_row(matrix.rows@, num) is Some { Some(l) } else { None },
        None => None,
    }
}

/// The auditor's note on principle `num`, or empty.
pub open spec fn spec_comment(sel: MatrixState, num: u8) -> Seq<char> {
    let key = spec_decimal(num as nat);
    if sel.comments@.contains_key(key) { sel.comments@[key]@ } else { Seq::<char>::empty() }
}

/// One short-term row drafted into `m`: finding, actions and KPIs in its three cells.
pub open spec fn spec_st_row(
    m: Map<Seq<char>, Seq<Seq<char>>>,
    row: RoadmapRow,
    matrix: MatrixData,
    sel: MatrixState,
    templates: RoadmapTemplates,
    lang: Lang,
    force: bool,
) -> Map<Seq<char>, Seq<Seq<char>>> {
    match spec_row_level(matrix, sel, row.num) {
        None => m,
        Some(level) => {
            let m0 = spec_fill_cell(m, row.id@, 0, spec_build_constat(templates, row.num, level, lang, spec_comment(sel, row.num)), force);
            let m1 = spec_fill_cell(m0, row.id@, 1, spec_tpl_lines(templates.st_actions, row.num, level, lang), force);
            spec_fill_cell(m1, row.id@, 2, spec_tpl_lines(templates.st_kpi, row.num, level, lang), force)
        },
    }
}

/// One long-term row drafted into `m`: year-1 target and major transformation.
pub open spec fn spec_lt_row(
    m: Map<Seq<char>, Seq<Seq<char>>>,
    row: RoadmapRow,
    matrix: MatrixData,
    sel: MatrixState,
    templates: RoadmapTemplates,
    lang: Lang,
    force: bool,
) -> Map<Seq<char>, Seq<Seq<char>>> {
    match spec_row_level(matrix, sel, row.num) {
        None => m,
        Some(level) => {
            let m0 = spec_fill_cell(m, row.id@, 0, spec_tpl_string(templates.lt_year1, row.num, level, lang), force);
            spec_fill_cell(m0, row.id@, 1, spec_tpl_string(templates.lt_transform, row.num, level, lang), force)
        },
    }
}

/// The short-term table after drafting the rows in order.
pub open spec fn spec_fill_st(
    m: Map<Seq<char>, Seq<Seq<char>>>,
    rows: Seq<RoadmapRow>,
    matrix: MatrixData,
    sel: MatrixState,
    templates: RoadmapTemplates,
    lang: Lang,
    force: bool,
) -> Map<Seq<char>, Seq<Seq<char>>>
    decreases rows.len(),
{
    if rows.len() == 0 {
        m
    } else {
        spec_st_row(spec_fill_st(m, rows.drop_last(), matrix, sel, templates, lang, force), rows.last(), matrix, sel, templates, lang, force)
    }
}

/// The long-term table after drafting the rows in order.
pub open spec fn spec_fill_lt(
    m: Map<Seq<char>, Seq<Seq<char>>>,
    rows: Seq<RoadmapRow>,
    matrix: MatrixData,
    sel: MatrixState,
    templates: RoadmapTemplates,
    lang: Lang,
    force: bool,
) -> Map<Seq<char>, Seq<Seq<char>>>
    decreases rows.len(),
{
    if rows.len() == 0 {
        m
    } else {
        spec_lt_row(spec_fill_lt(m, rows.drop_last(), matrix, sel, templates, lang, force), rows.last(), matrix, sel, templates, lang, force)
    }
}

fn row_level(matrix: &MatrixData, sel: &MatrixState, num: u8) -> (r: Option<u8>)
    ensures
        r == spec_row_level(*matrix, *sel, num),
{
    match sel.selected_level(num) {
        None => None,
        Some(level) => {
            if matrix_row(matrix, num).is_some() {
                Some(level)
            } else {
                None
            }
        }
    }
}

fn comment_of<'a>(sel: &'a MatrixState, num: u8) -> (r: &'a str)
    ensures
        r@ == spec_comment(*sel, num),
{
    proof {
        reveal_strlit("");
    }
    let key = decimal(num as u64);
    match sel.comments.get(key.as_str()) {
        Some(c) => c.as_str(),
        None => "",
    }
}

/// Drafts the roadmap for the matrix selection. Rows whose principle has no
/// selected level (or is not in the matrix) are left untouched; with
/// `GenMode::FillEmpty` only empty cells are written, with `GenMode::Overwrite`
/// every drafted cell is replaced.
pub fn fill_draft(
    state: &mut RoadmapState,
    roadmap: &RoadmapData,
    matrix: &MatrixData,
    sel: &MatrixState,
    templates: &RoadmapTemplates,
    lang: Lang,
    gen_mode: GenMode,
)
    ensures
        cells_view(final(state).st) == spec_fill_st(cells_view(old(state).st), roadmap.st@, *matrix, *sel, *templates, lang, gen_mode == GenMode::Overwrite),
        cells_view(final(state).lt) == spec_fill_lt(cells_view(old(state).lt), roadmap.lt@, *matrix, *sel, *templates, lang, gen_mode == GenMode::Overwrite),
{
    let force = gen_mode == GenMode::Overwrite;
    let ghost st0 = cells_view(state.st);
    let ghost lt0 = cells_view(state.lt);
    let mut i: usize = 0;
    assert(roadmap.st@.take(0) =~= Seq::<RoadmapRow>::empty());
    while i < roadmap.st.len()
        invariant
            i <= roadmap.st.len(),
            force == (gen_mode == GenMode::Overwrite),
            cells_view(state.st) == spec_fill_st(st0, roadmap.st@.take(i as int), *matrix, *sel, *templates, lang, force),
            cells_view(state.lt) == lt0,
        decreases roadmap.st.len() - i,
    {
        let row = &roadmap.st[i];
        assert(roadmap.st@.take(i + 1).drop_last() =~= roadmap.st@.take(i as int));
        assert(roadmap.st@.take(i + 1).last() == *row);
        match row_level(matrix, sel, row.num) {
            None => {}
            Some(level) => {
                let comment = comment_of(sel, row.num);
                let finding = build_constat(templates, row.num, level, lang, comment);
                fill_cell(&mut state.st, row.id.as_str(), 0, finding.as_str(), force);
                let actions = tpl_lines(&templates.st_actions, row.num, level, lang);
                fill_cell(&mut state.st, row.id.as_str(), 1, actions.as_str(), force);
                let kpi = tpl_lines(&templates.st_kpi, row.num, level, lang);
                fill_cell(&mut state.st, row.id.as_str(), 2, kpi.as_str(), force);
            }
        }
        i += 1;
    }
    assert(roadmap.st@.take(roadmap.st.len() as int) =~= roadmap.st@);
    let ghost st1 = cells_view(state.st);
    let mut j: usize = 0;
    assert(roadmap.lt@.take(0) =~= Seq::<RoadmapRow>::empty());
    while j < roadmap.lt.len()
        invariant
            j <= roadmap.lt.len(),
            force == (gen_mode == GenMode::Overwrite),
            cells_view(state.lt) == spec_fill_lt(lt0, roadmap.lt@.take(j as int), *matrix, *sel, *templates, lang, force),
            cells_view(state.st) == st1,
        decreases roadmap.lt.len() - j,
    {
        let row = &roadmap.lt[j];
        assert(roadmap.lt@.take(j + 1).drop_last() =~= roadmap.lt@.take(j as int));
        assert(roadmap.lt@.take(j + 1).last() == *row);
        match row_level(matrix, sel, row.num) {
            None => {}
            Some(level) => {
                let year1 = tpl_string(&templates.lt_year1, row.num, level, lang);
                fill_cell(&mut state.lt, row.id.as_str(), 0, year1.as_str(), force);
                let transform = tpl_string(&templates.lt_transform, row.num, level, lang);
                fill_cell(&mut state.lt, row.id.as_str(), 1, transform.as_str(), force);
            }
        }
        j += 1;
    }
    assert(roadmap.lt@.take(roadmap.lt.len() as int) =~= roadmap.lt@);
}

/// Every cell emptied, rows and cell counts kept.
pub open spec fn spec_cleared(m: Map<Seq<char>, Seq<Seq<char>>>) -> Map<Seq<char>, Seq<Seq<char>>> {
    m.map_values(|v: Seq<Seq<char>>| Seq::new(v.len(), |k: int| Seq::<char>::empty()))
}

fn clear_table(map: &mut StrMap<Vec<String>>)
    ensures
        cells_view(*final(map)) == spec_cleared(cells_view(*old(map))),
{
    let ghost c0 = cells_view(*map);
    let n = map.len();
    let ghost ks = Seq::new(n as nat, |j: int| map.key_at(j));
    proof {
        assert forall|j: int| 0 <= j < n implies #[trigger] c0.contains_key(ks[j]) by {
            assert(map@.contains_key(map.key_at(j)));
        }
        assert forall|k: Seq<char>| #[trigger] c0.contains_key(k) implies exists|j: int| 0 <= j < n && ks[j] == k by {
            assert(map@.contains_key(k));
            let j = choose|j: int| 0 <= j < map.spec_len() && map.key_at(j) == k;
            assert(ks[j] == k);
        }
        assert forall|a: int, b: int| 0 <= a < n && 0 <= b < n && a != b implies ks[a] != ks[b] by {
            assert(map.key_at(a) != map.key_at(b));
        }
    }
    let mut i: usize = 0;
    while i < n
        invariant
            i <= n == map.spec_len(),
            ks.len() == n,
            forall|j: int| 0 <= j < n ==> #[trigger] map.key_at(j) == ks[j],
            forall|j: int| 0 <= j < n ==> #[trigger] c0.contains_key(ks[j]),
            forall|k: Seq<char>| #[trigger] c0.contains_key(k) ==> exists|j: int| 0 <= j < n && ks[j] == k,
            forall|a: int, b: int| 0 <= a < n && 0 <= b < n && a != b ==> ks[a] != ks[b],
            cells_view(*map).dom() == c0.dom(),
            forall|j: int| 0 <= j < i ==> #[trigger] cells_view(*map)[ks[j]] == spec_cleared(c0)[ks[j]],
            forall|j: int| i <= j < n ==> #[trigger] cells_view(*map)[ks[j]] == c0[ks[j]],
        decreases n - i,
    {
        let key = map.key(i).clone();
        let count = map.value(i).len();
        assert(key@ == ks[i as int]);
        assert(cells_view(*map)[ks[i as int]] == map@[ks[i as int]]@.map_values(|s: String| s@));
        assert(cells_view(*map)[ks[i as int]] == c0[ks[i as int]]);
        assert(count == c0[ks[i as int]].len());
        let mut blanks: Vec<String> = Vec::new();
        while blanks.len() < count
            invariant
                blanks.len() <= count,
                forall|k: int| 0 <= k < blanks.len() ==> #[trigger] blanks@[k]@ == Seq::<char>::empty(),
            decreases count - blanks.len(),
        {
            blanks.push(String::new());
        }
        let ghost before_cells = cells_view(*map);
        let ghost kv = key@;
        let ghost bv = blanks@.map_values(|s: String| s@);
        map.insert(key, blanks);
        proof {
            assert(cells_view(*map) =~= before_cells.insert(kv, bv));
            assert(bv =~= Seq::new(count as nat, |k: int| Seq::<char>::empty()));
            assert forall|j: int| i < j < n implies #[trigger] cells_view(*map)[ks[j]] == c0[ks[j]] by {
                assert(ks[j] != ks[i as int]);
            }
            assert forall|j: int| 0 <= j < i + 1 implies #[trigger] cells_view(*map)[ks[j]] == spec_cleared(c0)[ks[j]] by {
                if j < i {
                    assert(ks[j] != ks[i as int]);
                }
            }
            assert(cells_view(*map).dom() =~= c0.dom());
        }
        i += 1;
    }
    proof {
        assert forall|k: Seq<char>| #[trigger] cells_view(*map).contains_key(k) implies cells_view(*map)[k] == spec_cleared(c0)[k] by {
            let j = choose|j: int| 0 <= j < n && ks[j] == k;
        }
        assert(cells_view(*map) =~= spec_cleared(c0));
    }
}

/// Empties every roadmap cell (all rows, both tables), keeping the layout.
pub fn clear(state: &mut RoadmapState)
    ensures
        cells_view(final(state).st) == spec_cleared(cells_view(old(state).st)),
        cells_view(final(state).lt) == spec_cleared(cells_view(old(state).lt)),
{
    clear_table(&mut state.st);
    clear_table(&mut state.lt);
}

// ── Laws of drafting ─────────────────────────────────────────────────────────

/// The row `key` of `m`, or no cells.
pub open spec fn spec_entry(m: Map<Seq<char>, Seq<Seq<char>>>, key: Seq<char>) -> Seq<Seq<char>> {
    if m.contains_key(key) { m[key] } else { Seq::<Seq<char>>::empty() }
}

/// Every non-empty cell of `m` is still there, unchanged, in `r`.
pub open spec fn spec_keeps_text(m: Map<Seq<char>, Seq<Seq<char>>>, r: Map<Seq<char>, Seq<Seq<char>>>) -> bool {
    forall|k: Seq<char>, i: int| #[trigger] spec_cell_kept(m, r, k, i)
}

/// If cell `i` of row `k` holds text in `m`, it holds the same text in `r`.
pub open spec fn spec_cell_kept(m: Map<Seq<char>, Seq<Seq<char>>>, r: Map<Seq<char>, Seq<Seq<char>>>, k: Seq<char>, i: int) -> bool {
    m.contains_key(k) && 0 <= i < m[k].len() && m[k][i].len() > 0 ==> r.contains_key(k) && i < r[k].len() && r[k][i] == m[k][i]
}

/// Every row of `m` is still in `r`, with at least as many cells.
pub open spec fn spec_keeps_layout(m: Map<Seq<char>, Seq<Seq<char>>>, r: Map<Seq<char>, Seq<Seq<char>>>) -> bool {
    forall|k: Seq<char>| #[trigger] m.contains_key(k) ==> r.contains_key(k) && r[k].len() >= m[k].len()
}

/// Row `k` is the same in `m` and `r` (present in both with the same cells, or in neither).
pub open spec fn spec_same_row(m: Map<Seq<char>, Seq<Seq<char>>>, r: Map<Seq<char>, Seq<Seq<char>>>, k: Seq<char>) -> bool {
    r.contains_key(k) == m.contains_key(k) && (m.contains_key(k) ==> r[k] == m[k])
}

/// The cells of the row written by `spec_fill_cell`, one by one.
pub proof fn lemma_fill_cell_cells(m: Map<Seq<char>, Seq<Seq<char>>>, key: Seq<char>, idx: nat, value: Seq<char>, force: bool)
    ensures
        ({
            let e = spec_entry(m, key);
            let r = spec_fill_cell(m, key, idx, value, force);
            &&& r.contains_key(key)
            &&& r[key].len() == if e.len() > idx { e.len() } else { idx + 1 }
            &&& forall|c: int| 0 <= c < r[key].len() ==> #[trigger] r[key][c] == (if c == idx {
                if force || spec_cell(e, idx as int).len() == 0 { value } else { e[idx as int] }
            } else {
                spec_cell(e, c)
            })
            &&& forall|k: Seq<char>| k != key ==> #[trigger] spec_same_row(m, r, k)
        }),
{
}

proof fn lemma_fill_cell_keeps(m: Map<Seq<char>, Seq<Seq<char>>>, key: Seq<char>, idx: nat, value: Seq<char>, force: bool)
    ensures
        spec_keeps_layout(m, spec_fill_cell(m, key, idx, value, force)),
        !force ==> spec_keeps_text(m, spec_fill_cell(m, key, idx, value, force)),
{
    lemma_fill_cell_cells(m, key, idx, value, force);
    let r = spec_fill_cell(m, key, idx, value, force);
    if !force {
        assert forall|k: Seq<char>, i: int| #[trigger] spec_cell_kept(m, r, k, i) by {
            if !(m.contains_key(k) && 0 <= i < m[k].len() && m[k][i].len() > 0) {
            } else if k != key {
                assert(spec_same_row(m, r, k));
            } else {
                assert(r[key][i] == (if i == idx {
                    if force || spec_cell(spec_entry(m, key), idx as int).len() == 0 { value } else { spec_entry(m, key)[idx as int] }
                } else {
                    spec_cell(spec_entry(m, key), i)
                }));
            }
        }
    }
    assert forall|k: Seq<char>| #[trigger] m.contains_key(k) implies r.contains_key(k) && r[k].len() >= m[k].len() by {
        if k != key {
            assert(spec_same_row(m, r, k));
        }
    }
}

proof fn lemma_keeps_trans(a: Map<Seq<char>, Seq<Seq<char>>>, b: Map<Seq<char>, Seq<Seq<char>>>, c: Map<Seq<char>, Seq<Seq<char>>>)
    ensures
        spec_keeps_layout(a, b) && spec_keeps_layout(b, c) ==> spec_keeps_layout(a, c),
        spec_keeps_text(a, b) && spec_keeps_text(b, c) ==> spec_keeps_text(a, c),
{
    if spec_keeps_text(a, b) && spec_keeps_text(b, c) {
        lemma_keeps_text_trans(a, b, c);
    }
}

proof fn lemma_keeps_text_trans(a: Map<Seq<char>, Seq<Seq<char>>>, b: Map<Seq<char>, Seq<Seq<char>>>, c: Map<Seq<char>, Seq<Seq<char>>>)
    requires
        spec_keeps_text(a, b),
        spec_keeps_text(b, c),
    ensures
        spec_keeps_text(a, c),
{
    assert forall|k: Seq<char>, i: int| #[trigger] spec_cell_kept(a, c, k, i) by {
        assert(spec_cell_kept(a, b, k, i));
        assert(spec_cell_kept(b, c, k, i));
    }
}

proof fn lemma_keeps_refl(a: Map<Seq<char>, Seq<Seq<char>>>)
    ensures
        spec_keeps_layout(a, a),
        spec_keeps_text(a, a),
{
}

proof fn lemma_st_row_keeps(
    m: Map<Seq<char>, Seq<Seq<char>>>, row: RoadmapRow, matrix: MatrixData, sel: MatrixState,
    templates: RoadmapTemplates, lang: Lang, force: bool,
)
    ensures
        spec_keeps_layout(m, spec_st_row(m, row, matrix, sel, templates, lang, force)),
        !force ==> spec_keeps_text(m, spec_st_row(m, row, matrix, sel, templates, lang, force)),
        forall|k: Seq<char>| k != row.id@ ==> #[trigger] spec_same_row(m, spec_st_row(m, row, matrix, sel, templates, lang, force), k),
        spec_row_level(matrix, sel, row.num) is None ==> spec_st_row(m, row, matrix, sel, templates, lang, force) == m,
{
    match spec_row_level(matrix, sel, row.num) {
        None => {
            lemma_keeps_refl(m);
        }
        Some(level) => {
            let m0 = spec_fill_cell(m, row.id@, 0, spec_build_constat(templates, row.num, level, lang, spec_comment(sel, row.num)), force);
            let m1 = spec_fill_cell(m0, row.id@, 1, spec_tpl_lines(templates.st_actions, row.num, level, lang), force);
            let m2 = spec_fill_cell(m1, row.id@, 2, spec_tpl_lines(templates.st_kpi, row.num, level, lang), force);
            lemma_fill_cell_keeps(m, row.id@, 0, spec_build_constat(templates, row.num, level, lang, spec_comment(sel, row.num)), force);
            lemma_fill_cell_keeps(m0, row.id@, 1, spec_tpl_lines(templates.st_actions, row.num, level, lang), force);
            lemma_fill_cell_keeps(m1, row.id@, 2, spec_tpl_lines(templates.st_kpi, row.num, level, lang), force);
            lemma_keeps_trans(m, m0, m1);
            lemma_keeps_trans(m, m1, m2);
            lemma_fill_cell_cells(m, row.id@, 0, spec_build_constat(templates, row.num, level, lang, spec_comment(sel, row.num)), force);
            lemma_fill_cell_cells(m0, row.id@, 1, spec_tpl_lines(templates.st_actions, row.num, level, lang), force);
            lemma_fill_cell_cells(m1, row.id@, 2, spec_tpl_lines(templates.st_kpi, row.num, level, lang), force);
            assert forall|k: Seq<char>| k != row.id@ implies #[trigger] spec_same_row(m, m2, k) by {
                assert(spec_same_row(m, m0, k));
                assert(spec_same_row(m0, m1, k));
                assert(spec_same_row(m1, m2, k));
            }
        }
    }
}

proof fn lemma_lt_row_keeps(
    m: Map<Seq<char>, Seq<Seq<char>>>, row: RoadmapRow, matrix: MatrixData, sel: MatrixState,
    templates: RoadmapTemplates, lang: Lang, force: bool,
)
    ensures
        spec_keeps_layout(m, spec_lt_row(m, row, matrix, sel, templates, lang, force)),
        !force ==> spec_keeps_text(m, spec_lt_row(m, row, matrix, sel, templates, lang, force)),
        forall|k: Seq<char>| k != row.id@ ==> #[trigger] spec_same_row(m, spec_lt_row(m, row, matrix, sel, templates, lang, force), k),
        spec_row_level(matrix, sel, row.num) is None ==> spec_lt_row(m, row, matrix, sel, templates, lang, force) == m,
{
    match spec_row_level(matrix, sel, row.num) {
        None => {
            lemma_keeps_refl(m);
        }
        Some(level) => {
            let m0 = spec_fill_cell(m, row.id@, 0, spec_tpl_string(templates.lt_year1, row.num, level, lang), force);
            let m1 = spec_fill_cell(m0, row.id@, 1, spec_tpl_string(templates.lt_transform, row.num, level, lang), force);
            lemma_fill_cell_keeps(m, row.id@, 0, spec_tpl_string(templates.lt_year1, row.num, level, lang), force);
            lemma_fill_cell_keeps(m0, row.id@, 1, spec_tpl_string(templates.lt_transform, row.num, level, lang), force);
            lemma_keeps_trans(m, m0, m1);
            lemma_fill_cell_cells(m, row.id@, 0, spec_tpl_string(templates.lt_year1, row.num, level, lang), force);
            lemma_fill_cell_cells(m0, row.id@, 1, spec_tpl_string(templates.lt_transform, row.num, level, lang), force);
            assert forall|k: Seq<char>| k != row.id@ implies #[trigger] spec_same_row(m, m1, k) by {
                assert(spec_same_row(m, m0, k));
                assert(spec_same_row(m0, m1, k));
            }
        }
    }
}

/// Drafting keeps every row of the tables, never with fewer cells; in
/// `FillEmpty` mode it also keeps every cell that already held text, so
/// hand-written roadmap content is never overwritten.
pub proof fn drafting_keeps_rows_and_written_cells(
    st: Map<Seq<char>, Seq<Seq<char>>>,
    lt: Map<Seq<char>, Seq<Seq<char>>>,
    roadmap: RoadmapData,
    matrix: MatrixData,
    sel: MatrixState,
    templates: RoadmapTemplates,
    lang: Lang,
    mode: GenMode,
)
    ensures
        spec_keeps_layout(st, spec_fill_st(st, roadmap.st@, matrix, sel, templates, lang, mode == GenMode::Overwrite)),
        spec_keeps_layout(lt, spec_fill_lt(lt, roadmap.lt@, matrix, sel, templates, lang, mode == GenMode::Overwrite)),
        mode == GenMode::FillEmpty ==> spec_keeps_text(st, spec_fill_st(st, roadmap.st@, matrix, sel, templates, lang, false)),
        mode == GenMode::FillEmpty ==> spec_keeps_text(lt, spec_fill_lt(lt, roadmap.lt@, matrix, sel, templates, lang, false)),
{
    lemma_fill_st_keeps(st, roadmap.st@, matrix, sel, templates, lang, mode == GenMode::Overwrite);
    lemma_fill_lt_keeps(lt, roadmap.lt@, matrix, sel, templates, lang, mode == GenMode::Overwrite);
}

proof fn lemma_fill_st_keeps(
    m: Map<Seq<char>, Seq<Seq<char>>>, rows: Seq<RoadmapRow>, matrix: MatrixData, sel: MatrixState,
    templates: RoadmapTemplates, lang: Lang, force: bool,
)
    ensures
        spec_keeps_layout(m, spec_fill_st(m, rows, matrix, sel, templates, lang, force)),
        !force ==> spec_keeps_text(m, spec_fill_st(m, rows, matrix, sel, templates, lang, force)),
    decreases rows.len(),
{
    if rows.len() == 0 {
        lemma_keeps_refl(m);
    } else {
        let prev = spec_fill_st(m, rows.drop_last(), matrix, sel, templates, lang, force);
        lemma_fill_st_keeps(m, rows.drop_last(), matrix, sel, templates, lang, force);
        lemma_st_row_keeps(prev, rows.last(), matrix, sel, templates, lang, force);
        lemma_keeps_trans(m, prev, spec_st_row(prev, rows.last(), matrix, sel, templates, lang, force));
    }
}

proof fn lemma_fill_lt_keeps(
    m: Map<Seq<char>, Seq<Seq<char>>>, rows: Seq<RoadmapRow>, matrix: MatrixData, sel: MatrixState,
    templates: RoadmapTemplates, lang: Lang, force: bool,
)
    ensures
        spec_keeps_layout(m, spec_fill_lt(m, rows, matrix, sel, templates, lang, force)),
        !force ==> spec_keeps_text(m, spec_fill_lt(m, rows, matrix, sel, templates, lang, force)),
    decreases rows.len(),
{
    if rows.len() == 0 {
        lemma_keeps_refl(m);
    } else {
        let prev = spec_fill_lt(m, rows.drop_last(), matrix, sel, templates, lang, force);
        lemma_fill_lt_keeps(m, rows.drop_last(), matrix, sel, templates, lang, force);
        lemma_lt_row_keeps(prev, rows.last(), matrix, sel, templates, lang, force);
        lemma_keeps_trans(m, prev, spec_lt_row(prev, rows.last(), matrix, sel, templates, lang, force));
    }
}

/// On each side, a row id that no drafted row of that side carries (its principle
/// has no selected level, or is not in the matrix) is left exactly as it was; so a
/// row that drafting adds always carries the id of a drafted row of that side.
pub proof fn undrafted_rows_untouched(
    st: Map<Seq<char>, Seq<Seq<char>>>,
    lt: Map<Seq<char>, Seq<Seq<char>>>,
    roadmap: RoadmapData,
    matrix: MatrixData,
    sel: MatrixState,
    templates: RoadmapTemplates,
    lang: Lang,
    mode: GenMode,
    key: Seq<char>,
)
    ensures
        (forall|j: int| 0 <= j < roadmap.st@.len() && #[trigger] roadmap.st@[j].id@ == key ==> spec_row_level(matrix, sel, roadmap.st@[j].num) is None)
            ==> spec_same_row(st, spec_fill_st(st, roadmap.st@, matrix, sel, templates, lang, mode == GenMode::Overwrite), key),
        (forall|j: int| 0 <= j < roadmap.lt@.len() && #[trigger] roadmap.lt@[j].id@ == key ==> spec_row_level(matrix, sel, roadmap.lt@[j].num) is None)
            ==> spec_same_row(lt, spec_fill_lt(lt, roadmap.lt@, matrix, sel, templates, lang, mode == GenMode::Overwrite), key),
        !st.contains_key(key) && spec_fill_st(st, roadmap.st@, matrix, sel, templates, lang, mode == GenMode::Overwrite).contains_key(key)
            ==> exists|j: int| 0 <= j < roadmap.st@.len() && #[trigger] roadmap.st@[j].id@ == key && spec_row_level(matrix, sel, roadmap.st@[j].num) is Some,
        !lt.contains_key(key) && spec_fill_lt(lt, roadmap.lt@, matrix, sel, templates, lang, mode == GenMode::Overwrite).contains_key(key)
            ==> exists|j: int| 0 <= j < roadmap.lt@.len() && #[trigger] roadmap.lt@[j].id@ == key && spec_row_level(matrix, sel, roadmap.lt@[j].num) is Some,
{
    let force = mode == GenMode::Overwrite;
    if forall|j: int| 0 <= j < roadmap.st@.len() && #[trigger] roadmap.st@[j].id@ == key ==> spec_row_level(matrix, sel, roadmap.st@[j].num) is None {
        lemma_fill_st_untouched(st, roadmap.st@, matrix, sel, templates, lang, force, key);
    }
    if forall|j: int| 0 <= j < roadmap.lt@.len() && #[trigger] roadmap.lt@[j].id@ == key ==> spec_row_level(matrix, sel, roadmap.lt@[j].num) is None {
        lemma_fill_lt_untouched(lt, roadmap.lt@, matrix, sel, templates, lang, force, key);
    }
}

proof fn lemma_fill_st_untouched(
    m: Map<Seq<char>, Seq<Seq<char>>>, rows: Seq<RoadmapRow>, matrix: MatrixData, sel: MatrixState,
    templates: RoadmapTemplates, lang: Lang, force: bool, key: Seq<char>,
)
    requires
        forall|j: int| 0 <= j < rows.len() && #[trigger] rows[j].id@ == key ==> spec_row_level(matrix, sel, rows[j].num) is None,
    ensures
        spec_same_row(m, spec_fill_st(m, rows, matrix, sel, templates, lang, force), key),
    decreases rows.len(),
{
    if rows.len() > 0 {
        let pre = rows.drop_last();
        assert forall|j: int| 0 <= j < pre.len() && #[trigger] pre[j].id@ == key implies spec_row_level(matrix, sel, pre[j].num) is None by {
            assert(rows[j] == pre[j]);
            assert(rows[j].id@ == key);
            assert(spec_row_level(matrix, sel, rows[j].num) is None);
        }
        lemma_fill_st_untouched(m, pre, matrix, sel, templates, lang, force, key);
        let prev = spec_fill_st(m, pre, matrix, sel, templates, lang, force);
        lemma_st_row_keeps(prev, rows.last(), matrix, sel, templates, lang, force);
        if rows.last().id@ == key {
            assert(rows[rows.len() - 1].id@ == key);
        } else {
            assert(spec_same_row(prev, spec_st_row(prev, rows.last(), matrix, sel, templates, lang, force), key));
        }
    }
}

proof fn lemma_fill_lt_untouched(
    m: Map<Seq<char>, Seq<Seq<char>>>, rows: Seq<RoadmapRow>, matrix: MatrixData, sel: MatrixState,
    templates: RoadmapTemplates, lang: Lang, force: bool, key: Seq<char>,
)
    requires
        forall|j: int| 0 <= j < rows.len() && #[trigger] rows[j].id@ == key ==> spec_row_level(matrix, sel, rows[j].num) is None,
    ensures
        spec_same_row(m, spec_fill_lt(m, rows, matrix, sel, templates, lang, force), key),
    decreases rows.len(),
{
    if rows.len() > 0 {
        let pre = rows.drop_last();
        assert forall|j: int| 0 <= j < pre.len() && #[trigger] pre[j].id@ == key implies spec_row_level(matrix, sel, pre[j].num) is None by {
            assert(rows[j] == pre[j]);
            assert(rows[j].id@ == key);
            assert(spec_row_level(matrix, sel, rows[j].num) is None);
        }
        lemma_fill_lt_untouched(m, pre, matrix, sel, templates, lang, force, key);
        let prev = spec_fill_lt(m, pre, matrix, sel, templates, lang, force);
        lemma_lt_row_keeps(prev, rows.last(), matrix, sel, templates, lang, force);
        if rows.last().id@ == key {
            assert(rows[rows.len() - 1].id@ == key);
        } else {
            assert(spec_same_row(prev, spec_lt_row(prev, rows.last(), matrix, sel, templates, lang, force), key));
        }
    }
}

/// A drafted cell: the generated text, unless not forcing and the cell (`c` of
/// `row`) already holds text.
pub open spec fn spec_drafted_cell(row: Seq<Seq<char>>, c: int, generated: Seq<char>, force: bool) -> Seq<char> {
    if force || spec_cell(row, c).len() == 0 { generated } else { row[c] }
}

proof fn lemma_fill_cell_reads(m: Map<Seq<char>, Seq<Seq<char>>>, key: Seq<char>, idx: nat, value: Seq<char>, force: bool, c: int)
    requires
        0 <= c,
    ensures
        spec_fill_cell(m, key, idx, value, force).contains_key(key),
        spec_fill_cell(m, key, idx, value, force)[key].len() > idx,
        spec_fill_cell(m, key, idx, value, force)[key].len() >= spec_entry(m, key).len(),
        spec_cell(spec_fill_cell(m, key, idx, value, force)[key], c) == (if c == idx {
            spec_drafted_cell(spec_entry(m, key), idx as int, value, force)
        } else {
            spec_cell(spec_entry(m, key), c)
        }),
{
    lemma_fill_cell_cells(m, key, idx, value, force);
    let r = spec_fill_cell(m, key, idx, value, force);
    if c < r[key].len() {
        assert(r[key][c] == (if c == idx {
            if force || spec_cell(spec_entry(m, key), idx as int).len() == 0 { value } else { spec_entry(m, key)[idx as int] }
        } else {
            spec_cell(spec_entry(m, key), c)
        }));
    }
}

/// The three generated short-term cells of a row drafted at `level`.
pub open spec fn spec_st_generated(row: RoadmapRow, level: u8, sel: MatrixState, templates: RoadmapTemplates, lang: Lang) -> Seq<Seq<char>> {
    seq![
        spec_build_constat(templates, row.num, level, lang, spec_comment(sel, row.num)),
        spec_tpl_lines(templates.st_actions, row.num, level, lang),
        spec_tpl_lines(templates.st_kpi, row.num, level, lang),
    ]
}

/// The two generated long-term cells of a row drafted at `level`.
pub open spec fn spec_lt_generated(row: RoadmapRow, level: u8, templates: RoadmapTemplates, lang: Lang) -> Seq<Seq<char>> {
    seq![
        spec_tpl_string(templates.lt_year1, row.num, level, lang),
        spec_tpl_string(templates.lt_transform, row.num, level, lang),
    ]
}

pub open spec fn spec_distinct_ids(rows: Seq<RoadmapRow>) -> bool {
    forall|a: int, b: int| 0 <= a < rows.len() && 0 <= b < rows.len() && a != b ==> #[trigger] rows[a].id@ != #[trigger] rows[b].id@
}

proof fn lemma_st_row_reads(
    m: Map<Seq<char>, Seq<Seq<char>>>, row: RoadmapRow, matrix: MatrixData, sel: MatrixState,
    templates: RoadmapTemplates, lang: Lang, force: bool, level: u8, c: int,
)
    requires
        spec_row_level(matrix, sel, row.num) == Some(level),
        0 <= c < 3,
    ensures
        spec_st_row(m, row, matrix, sel, templates, lang, force).contains_key(row.id@),
        spec_st_row(m, row, matrix, sel, templates, lang, force)[row.id@].len() >= 3,
        spec_cell(spec_st_row(m, row, matrix, sel, templates, lang, force)[row.id@], c)
            == spec_drafted_cell(spec_entry(m, row.id@), c, spec_st_generated(row, level, sel, templates, lang)[c], force),
{
    let g = spec_st_generated(row, level, sel, templates, lang);
    let id = row.id@;
    let m0 = spec_fill_cell(m, id, 0, g[0], force);
    let m1 = spec_fill_cell(m0, id, 1, g[1], force);
    lemma_fill_cell_reads(m, id, 0, g[0], force, c);
    lemma_fill_cell_reads(m0, id, 1, g[1], force, c);
    lemma_fill_cell_reads(m1, id, 2, g[2], force, c);
    lemma_fill_cell_reads(m, id, 0, g[0], force, 1);
    lemma_fill_cell_reads(m, id, 0, g[0], force, 2);
    lemma_fill_cell_reads(m0, id, 1, g[1], force, 2);
    assert(spec_entry(m0, id) == m0[id]);
    assert(spec_entry(m1, id) == m1[id]);
}

proof fn lemma_lt_row_reads(
    m: Map<Seq<char>, Seq<Seq<char>>>, row: RoadmapRow, matrix: MatrixData, sel: MatrixState,
    templates: RoadmapTemplates, lang: Lang, force: bool, level: u8, c: int,
)
    requires
        spec_row_level(matrix, sel, row.num) == Some(level),
        0 <= c < 2,
    ensures
        spec_lt_row(m, row, matrix, sel, templates, lang, force).contains_key(row.id@),
        spec_lt_row(m, row, matrix, sel, templates, lang, force)[row.id@].len() >= 2,
        spec_cell(spec_lt_row(m, row, matrix, sel, templates, lang, force)[row.id@], c)
            == spec_drafted_cell(spec_entry(m, row.id@), c, spec_lt_generated(row, level, templates, lang)[c], force),
{
    let g = spec_lt_generated(row, level, templates, lang);
    let id = row.id@;
    let m0 = spec_fill_cell(m, id, 0, g[0], force);
    lemma_fill_cell_reads(m, id, 0, g[0], force, c);
    lemma_fill_cell_reads(m0, id, 1, g[1], force, c);
    lemma_fill_cell_reads(m, id, 0, g[0], force, 1);
    assert(spec_entry(m0, id) == m0[id]);
}

proof fn lemma_fill_st_split(
    m: Map<Seq<char>, Seq<Seq<char>>>, rows: Seq<RoadmapRow>, matrix: MatrixData, sel: MatrixState,
    templates: RoadmapTemplates, lang: Lang, force: bool, n: int,
)
    requires
        0 <= n < rows.len(),
    ensures
        spec_fill_st(m, rows.take(n + 1), matrix, sel, templates, lang, force)
            == spec_st_row(spec_fill_st(m, rows.take(n), matrix, sel, templates, lang, force), rows[n], matrix, sel, templates, lang, force),
{
    assert(rows.take(n + 1).drop_last() =~= rows.take(n));
}

proof fn lemma_fill_lt_split(
    m: Map<Seq<char>, Seq<Seq<char>>>, rows: Seq<RoadmapRow>, matrix: MatrixData, sel: MatrixState,
    templates: RoadmapTemplates, lang: Lang, force: bool, n: int,
)
    requires
        0 <= n < rows.len(),
    ensures
        spec_fill_lt(m, rows.take(n + 1), matrix, sel, templates, lang, force)
            == spec_lt_row(spec_fill_lt(m, rows.take(n), matrix, sel, templates, lang, force), rows[n], matrix, sel, templates, lang, force),
{
    assert(rows.take(n + 1).drop_last() =~= rows.take(n));
}

/// Rows after `from` (up to `to`) with ids other than `key` leave row `key` as it was.
proof fn lemma_fill_st_suffix_same(
    m: Map<Seq<char>, Seq<Seq<char>>>, rows: Seq<RoadmapRow>, matrix: MatrixData, sel: MatrixState,
    templates: RoadmapTemplates, lang: Lang, force: bool, key: Seq<char>, from: int, to: int,
)
    requires
        0 <= from <= to <= rows.len(),
        forall|j: int| from <= j < to ==> #[trigger] rows[j].id@ != key,
    ensures
        spec_same_row(spec_fill_st(m, rows.take(from), matrix, sel, templates, lang, force), spec_fill_st(m, rows.take(to), matrix, sel, templates, lang, force), key),
    decreases to - from,
{
    if from < to {
        lemma_fill_st_suffix_same(m, rows, matrix, sel, templates, lang, force, key, from, to - 1);
        lemma_fill_st_split(m, rows, matrix, sel, templates, lang, force, to - 1);
        let prev = spec_fill_st(m, rows.take(to - 1), matrix, sel, templates, lang, force);
        lemma_st_row_keeps(prev, rows[to - 1], matrix, sel, templates, lang, force);
        assert(spec_same_row(prev, spec_st_row(prev, rows[to - 1], matrix, sel, templates, lang, force), key));
    }
}

proof fn lemma_fill_lt_suffix_same(
    m: Map<Seq<char>, Seq<Seq<char>>>, rows: Seq<RoadmapRow>, matrix: MatrixData, sel: MatrixState,
    templates: RoadmapTemplates, lang: Lang, force: bool, key: Seq<char>, from: int, to: int,
)
    requires
        0 <= from <= to <= rows.len(),
        forall|j: int| from <= j < to ==> #[trigger] rows[j].id@ != key,
    ensures
        spec_same_row(spec_fill_lt(m, rows.take(from), matrix, sel, templates, lang, force), spec_fill_lt(m, rows.take(to), matrix, sel, templates, lang, force), key),
    decreases to - from,
{
    if from < to {
        lemma_fill_lt_suffix_same(m, rows, matrix, sel, templates, lang, force, key, from, to - 1);
        lemma_fill_lt_split(m, rows, matrix, sel, templates, lang, force, to - 1);
        let prev = spec_fill_lt(m, rows.take(to - 1), matrix, sel, templates, lang, force);
        lemma_lt_row_keeps(prev, rows[to - 1], matrix, sel, templates, lang, force);
        assert(spec_same_row(prev, spec_lt_row(prev, rows[to - 1], matrix, sel, templates, lang, force), key));
    }
}

/// When the short-term rows have distinct ids, each drafted row ends up with its
/// three generated cells (finding, actions, KPIs), except, in `FillEmpty` mode,
/// cells that already held text.
pub proof fn drafted_short_term_cells(
    m: Map<Seq<char>, Seq<Seq<char>>>,
    rows: Seq<RoadmapRow>,
    matrix: MatrixData,
    sel: MatrixState,
    templates: RoadmapTemplates,
    lang: Lang,
    mode: GenMode,
    j: int,
    c: int,
)
    requires
        spec_distinct_ids(rows),
        0 <= j < rows.len(),
        spec_row_level(matrix, sel, rows[j].num) is Some,
        0 <= c < 3,
    ensures
        spec_fill_st(m, rows, matrix, sel, templates, lang, mode == GenMode::Overwrite).contains_key(rows[j].id@),
        spec_cell(spec_fill_st(m, rows, matrix, sel, templates, lang, mode == GenMode::Overwrite)[rows[j].id@], c)
            == spec_drafted_cell(spec_entry(m, rows[j].id@), c,
                spec_st_generated(rows[j], spec_row_level(matrix, sel, rows[j].num)->0, sel, templates, lang)[c],
                mode == GenMode::Overwrite),
{
    let force = mode == GenMode::Overwrite;
    let key = rows[j].id@;
    let level = spec_row_level(matrix, sel, rows[j].num)->0;
    assert forall|i: int| 0 <= i < j implies #[trigger] rows[i].id@ != key by {
        assert(rows[i].id@ != rows[j].id@);
    }
    assert forall|i: int| j + 1 <= i < rows.len() implies #[trigger] rows[i].id@ != key by {
        assert(rows[i].id@ != rows[j].id@);
    }
    assert(rows.take(0) =~= Seq::<RoadmapRow>::empty());
    lemma_fill_st_suffix_same(m, rows, matrix, sel, templates, lang, force, key, 0, j);
    lemma_fill_st_split(m, rows, matrix, sel, templates, lang, force, j);
    let before = spec_fill_st(m, rows.take(j), matrix, sel, templates, lang, force);
    lemma_st_row_reads(before, rows[j], matrix, sel, templates, lang, force, level, c);
    assert(spec_entry(before, key) == spec_entry(m, key));
    lemma_fill_st_suffix_same(m, rows, matrix, sel, templates, lang, force, key, j + 1, rows.len() as int);
    assert(rows.take(rows.len() as int) =~= rows);
}

/// When the long-term rows have distinct ids, each drafted row ends up with its
/// two generated cells (year-1 target, major transformation), except, in
/// `FillEmpty` mode, cells that already held text.
pub proof fn drafted_long_term_cells(
    m: Map<Seq<char>, Seq<Seq<char>>>,
    rows: Seq<RoadmapRow>,
    matrix: MatrixData,
    sel: MatrixState,
    templates: RoadmapTemplates,
    lang: Lang,
    mode: GenMode,
    j: int,
    c: int,
)
    requires
        spec_distinct_ids(rows),
        0 <= j < rows.len(),
        spec_row_level(matrix, sel, rows[j].num) is Some,
        0 <= c < 2,
    ensures
        spec_fill_lt(m, rows, matrix, sel, templates, lang, mode == GenMode::Overwrite).contains_key(rows[j].id@),
        spec_cell(spec_fill_lt(m, rows, matrix, sel, templates, lang, mode == GenMode::Overwrite)[rows[j].id@], c)
            == spec_drafted_cell(spec_entry(m, rows[j].id@), c,
                spec_lt_generated(rows[j], spec_row_level(matrix, sel, rows[j].num)->0, templates, lang)[c],
                mode == GenMode::Overwrite),
{
    let force = mode == GenMode::Overwrite;
    let key = rows[j].id@;
    let level = spec_row_level(matrix, sel, rows[j].num)->0;
    assert forall|i: int| 0 <= i < j implies #[trigger] rows[i].id@ != key by {
        assert(rows[i].id@ != rows[j].id@);
    }
    assert forall|i: int| j + 1 <= i < rows.len() implies #[trigger] rows[i].id@ != key by {
        assert(rows[i].id@ != rows[j].id@);
    }
    assert(rows.take(0) =~= Seq::<RoadmapRow>::empty());
    lemma_fill_lt_suffix_same(m, rows, matrix, sel, templates, lang, force, key, 0, j);
    lemma_fill_lt_split(m, rows, matrix, sel, templates, lang, force, j);
    let before = spec_fill_lt(m, rows.take(j), matrix, sel, templates, lang, force);
    lemma_lt_row_reads(before, rows[j], matrix, sel, templates, lang, force, level, c);
    assert(spec_entry(before, key) == spec_entry(m, key));
    lemma_fill_lt_suffix_same(m, rows, matrix, sel, templates, lang, force, key, j + 1, rows.len() as int);
    assert(rows.take(rows.len() as int) =~= rows);
}

// ── Drafting twice ───────────────────────────────────────────────────────────

/// Cell `i` of row `k` already holds what filling its empty cell with `v` would
/// leave: the row has the cell, and it holds text or `v` is empty.
pub open spec fn spec_cell_settled(m: Map<Seq<char>, Seq<Seq<char>>>, k: Seq<char>, i: nat, v: Seq<char>) -> bool {
    m.contains_key(k) && i < m[k].len() && (m[k][i as int].len() > 0 || v.len() == 0)
}

proof fn lemma_settled_fill_is_noop(m: Map<Seq<char>, Seq<Seq<char>>>, k: Seq<char>, i: nat, v: Seq<char>)
    requires
        spec_cell_settled(m, k, i, v),
    ensures
        spec_fill_cell(m, k, i, v, false) == m,
{
    let e = m[k];
    if e[i as int].len() == 0 {
        assert(v =~= e[i as int]);
        assert(e.update(i as int, v) =~= e);
    }
    assert(m.insert(k, e) =~= m);
}

proof fn lemma_fill_settles(m: Map<Seq<char>, Seq<Seq<char>>>, k: Seq<char>, i: nat, v: Seq<char>)
    ensures
        spec_cell_settled(spec_fill_cell(m, k, i, v, false), k, i, v),
{
    lemma_fill_cell_cells(m, k, i, v, false);
    let r = spec_fill_cell(m, k, i, v, false);
    assert(r[k][i as int] == (if spec_cell(spec_entry(m, k), i as int).len() == 0 { v } else { spec_entry(m, k)[i as int] }));
}

proof fn lemma_fill_keeps_settled(
    m: Map<Seq<char>, Seq<Seq<char>>>, k: Seq<char>, i: nat, v: Seq<char>,
    k2: Seq<char>, i2: nat, v2: Seq<char>,
)
    requires
        spec_cell_settled(m, k, i, v),
    ensures
        spec_cell_settled(spec_fill_cell(m, k2, i2, v2, false), k, i, v),
{
    lemma_fill_cell_keeps(m, k2, i2, v2, false);
    let r = spec_fill_cell(m, k2, i2, v2, false);
    assert(spec_cell_kept(m, r, k, i as int));
    assert(m.contains_key(k));
}

/// Every cell of a short-term row is settled (nothing to draft when its principle
/// has no level).
pub open spec fn spec_st_row_settled(
    m: Map<Seq<char>, Seq<Seq<char>>>, row: RoadmapRow, matrix: MatrixData, sel: MatrixState,
    templates: RoadmapTemplates, lang: Lang,
) -> bool {
    match spec_row_level(matrix, sel, row.num) {
        None => true,
        Some(level) => {
            &&& spec_cell_settled(m, row.id@, 0, spec_build_constat(templates, row.num, level, lang, spec_comment(sel, row.num)))
            &&& spec_cell_settled(m, row.id@, 1, spec_tpl_lines(templates.st_actions, row.num, level, lang))
            &&& spec_cell_settled(m, row.id@, 2, spec_tpl_lines(templates.st_kpi, row.num, level, lang))
        },
    }
}

/// Every cell of a long-term row is settled.
pub open spec fn spec_lt_row_settled(
    m: Map<Seq<char>, Seq<Seq<char>>>, row: RoadmapRow, matrix: MatrixData, sel: MatrixState,
    templates: RoadmapTemplates, lang: Lang,
) -> bool {
    match spec_row_level(matrix, sel, row.num) {
        None => true,
        Some(level) => {
            &&& spec_cell_settled(m, row.id@, 0, spec_tpl_string(templates.lt_year1, row.num, level, lang))
            &&& spec_cell_settled(m, row.id@, 1, spec_tpl_string(templates.lt_transform, row.num, level, lang))
        },
    }
}

/// Drafting a short-term row into empty cells keeps every settled cell settled,
/// settles the row itself, and changes nothing when the row was settled.
proof fn lemma_st_row_settles(
    m: Map<Seq<char>, Seq<Seq<char>>>, row: RoadmapRow, matrix: MatrixData, sel: MatrixState,
    templates: RoadmapTemplates, lang: Lang,
)
    ensures
        spec_st_row_settled(spec_st_row(m, row, matrix, sel, templates, lang, false), row, matrix, sel, templates, lang),
        spec_st_row_settled(m, row, matrix, sel, templates, lang) ==> spec_st_row(m, row, matrix, sel, templates, lang, false) == m,
        forall|k: Seq<char>, i: nat, v: Seq<char>| #[trigger] spec_cell_settled(m, k, i, v)
            ==> spec_cell_settled(spec_st_row(m, row, matrix, sel, templates, lang, false), k, i, v),
{
    match spec_row_level(matrix, sel, row.num) {
        None => {},
        Some(level) => {
            let v0 = spec_build_constat(templates, row.num, level, lang, spec_comment(sel, row.num));
            let v1 = spec_tpl_lines(templates.st_actions, row.num, level, lang);
            let v2 = spec_tpl_lines(templates.st_kpi, row.num, level, lang);
            let id = row.id@;
            let m0 = spec_fill_cell(m, id, 0, v0, false);
            let m1 = spec_fill_cell(m0, id, 1, v1, false);
            let m2 = spec_fill_cell(m1, id, 2, v2, false);
            assert forall|k: Seq<char>, i: nat, v: Seq<char>| #[trigger] spec_cell_settled(m, k, i, v)
                implies spec_cell_settled(m2, k, i, v) by {
                lemma_fill_keeps_settled(m, k, i, v, id, 0, v0);
                lemma_fill_keeps_settled(m0, k, i, v, id, 1, v1);
                lemma_fill_keeps_settled(m1, k, i, v, id, 2, v2);
            }
            lemma_fill_settles(m, id, 0, v0);
            lemma_fill_keeps_settled(m0, id, 0, v0, id, 1, v1);
            lemma_fill_keeps_settled(m1, id, 0, v0, id, 2, v2);
            lemma_fill_settles(m0, id, 1, v1);
            lemma_fill_keeps_settled(m1, id, 1, v1, id, 2, v2);
            lemma_fill_settles(m1, id, 2, v2);
            if spec_st_row_settled(m, row, matrix, sel, templates, lang) {
                lemma_settled_fill_is_noop(m, id, 0, v0);
                lemma_settled_fill_is_noop(m, id, 1, v1);
                lemma_settled_fill_is_noop(m, id, 2, v2);
            }
        },
    }
}

/// The same for a long-term row.
proof fn lemma_lt_row_settles(
    m: Map<Seq<char>, Seq<Seq<char>>>, row: RoadmapRow, matrix: MatrixData, sel: MatrixState,
    templates: RoadmapTemplates, lang: Lang,
)
    ensures
        spec_lt_row_settled(spec_lt_row(m, row, matrix, sel, templates, lang, false), row, matrix, sel, templates, lang),
        spec_lt_row_settled(m, row, matrix, sel, templates, lang) ==> spec_lt_row(m, row, matrix, sel, templates, lang, false) == m,
        forall|k: Seq<char>, i: nat, v: Seq<char>| #[trigger] spec_cell_settled(m, k, i, v)
            ==> spec_cell_settled(spec_lt_row(m, row, matrix, sel, templates, lang, false), k, i, v),
{
    match spec_row_level(matrix, sel, row.num) {
        None => {},
        Some(level) => {
            let v0 = spec_tpl_string(templates.lt_year1, row.num, level, lang);
            let v1 = spec_tpl_string(templates.lt_transform, row.num, level, lang);
            let id = row.id@;
            let m0 = spec_fill_cell(m, id, 0, v0, false);
            let m1 = spec_fill_cell(m0, id, 1, v1, false);
            assert forall|k: Seq<char>, i: nat, v: Seq<char>| #[trigger] spec_cell_settled(m, k, i, v)
                implies spec_cell_settled(m1, k, i, v) by {
                lemma_fill_keeps_settled(m, k, i, v, id, 0, v0);
                lemma_fill_keeps_settled(m0, k, i, v, id, 1, v1);
            }
            lemma_fill_settles(m, id, 0, v0);
            lemma_fill_keeps_settled(m0, id, 0, v0, id, 1, v1);
            lemma_fill_settles(m0, id, 1, v1);
            if spec_lt_row_settled(m, row, matrix, sel, templates, lang) {
                lemma_settled_fill_is_noop(m, id, 0, v0);
                lemma_settled_fill_is_noop(m, id, 1, v1);
            }
        },
    }
}

proof fn lemma_st_row_keeps_row_settled(
    m: Map<Seq<char>, Seq<Seq<char>>>, row: RoadmapRow, other: RoadmapRow, matrix: MatrixData, sel: MatrixState,
    templates: RoadmapTemplates, lang: Lang,
)
    requires
        spec_st_row_settled(m, other, matrix, sel, templates, lang),
    ensures
        spec_st_row_settled(spec_st_row(m, row, matrix, sel, templates, lang, false), other, matrix, sel, templates, lang),
{
    lemma_st_row_settles(m, row, matrix, sel, templates, lang);
    match spec_row_level(matrix, sel, other.num) {
        None => {},
        Some(level) => {
            assert(spec_cell_settled(m, other.id@, 0, spec_build_constat(templates, other.num, level, lang, spec_comment(sel, other.num))));
            assert(spec_cell_settled(m, other.id@, 1, spec_tpl_lines(templates.st_actions, other.num, level, lang)));
            assert(spec_cell_settled(m, other.id@, 2, spec_tpl_lines(templates.st_kpi, other.num, level, lang)));
        },
    }
}

proof fn lemma_lt_row_keeps_row_settled(
    m: Map<Seq<char>, Seq<Seq<char>>>, row: RoadmapRow, other: RoadmapRow, matrix: MatrixData, sel: MatrixState,
    templates: RoadmapTemplates, lang: Lang,
)
    requires
        spec_lt_row_settled(m, other, matrix, sel, templates, lang),
    ensures
        spec_lt_row_settled(spec_lt_row(m, row, matrix, sel, templates, lang, false), other, matrix, sel, templates, lang),
{
    lemma_lt_row_settles(m, row, matrix, sel, templates, lang);
    match spec_row_level(matrix, sel, other.num) {
        None => {},
        Some(level) => {
            assert(spec_cell_settled(m, other.id@, 0, spec_tpl_string(templates.lt_year1, other.num, level, lang)));
            assert(spec_cell_settled(m, other.id@, 1, spec_tpl_string(templates.lt_transform, other.num, level, lang)));
        },
    }
}

proof fn lemma_fill_st_settles_rows(
    m: Map<Seq<char>, Seq<Seq<char>>>, rows: Seq<RoadmapRow>, matrix: MatrixData, sel: MatrixState,
    templates: RoadmapTemplates, lang: Lang,
)
    ensures
        forall|j: int| 0 <= j < rows.len() ==> spec_st_row_settled(
            spec_fill_st(m, rows, matrix, sel, templates, lang, false), #[trigger] rows[j], matrix, sel, templates, lang),
    decreases rows.len(),
{
    if rows.len() > 0 {
        let pre = rows.drop_last();
        lemma_fill_st_settles_rows(m, pre, matrix, sel, templates, lang);
        let prev = spec_fill_st(m, pre, matrix, sel, templates, lang, false);
        let last = rows.last();
        lemma_st_row_settles(prev, last, matrix, sel, templates, lang);
        assert forall|j: int| 0 <= j < rows.len() implies spec_st_row_settled(
            spec_fill_st(m, rows, matrix, sel, templates, lang, false), #[trigger] rows[j], matrix, sel, templates, lang) by {
            if j < rows.len() - 1 {
                assert(pre[j] == rows[j]);
                lemma_st_row_keeps_row_settled(prev, last, rows[j], matrix, sel, templates, lang);
            }
        }
    }
}

proof fn lemma_fill_lt_settles_rows(
    m: Map<Seq<char>, Seq<Seq<char>>>, rows: Seq<RoadmapRow>, matrix: MatrixData, sel: MatrixState,
    templates: RoadmapTemplates, lang: Lang,
)
    ensures
        forall|j: int| 0 <= j < rows.len() ==> spec_lt_row_settled(
            spec_fill_lt(m, rows, matrix, sel, templates, lang, false), #[trigger] rows[j], matrix, sel, templates, lang),
    decreases rows.len(),
{
    if rows.len() > 0 {
        let pre = rows.drop_last();
        lemma_fill_lt_settles_rows(m, pre, matrix, sel, templates, lang);
        let prev = spec_fill_lt(m, pre, matrix, sel, templates, lang, false);
        let last = rows.last();
        lemma_lt_row_settles(prev, last, matrix, sel, templates, lang);
        assert forall|j: int| 0 <= j < rows.len() implies spec_lt_row_settled(
            spec_fill_lt(m, rows, matrix, sel, templates, lang, false), #[trigger] rows[j], matrix, sel, templates, lang) by {
            if j < rows.len() - 1 {
                assert(pre[j] == rows[j]);
                lemma_lt_row_keeps_row_settled(prev, last, rows[j], matrix, sel, templates, lang);
            }
        }
    }
}

proof fn lemma_fill_st_settled_noop(
    m: Map<Seq<char>, Seq<Seq<char>>>, rows: Seq<RoadmapRow>, matrix: MatrixData, sel: MatrixState,
    templates: RoadmapTemplates, lang: Lang,
)
    requires
        forall|j: int| 0 <= j < rows.len() ==> spec_st_row_settled(m, #[trigger] rows[j], matrix, sel, templates, lang),
    ensures
        spec_fill_st(m, rows, matrix, sel, templates, lang, false) == m,
    decreases rows.len(),
{
    if rows.len() > 0 {
        let pre = rows.drop_last();
        assert forall|j: int| 0 <= j < pre.len() implies spec_st_row_settled(m, #[trigger] pre[j], matrix, sel, templates, lang) by {
            assert(pre[j] == rows[j]);
        }
        lemma_fill_st_settled_noop(m, pre, matrix, sel, templates, lang);
        assert(rows[rows.len() - 1] == rows.last());
        lemma_st_row_settles(m, rows.last(), matrix, sel, templates, lang);
    }
}

proof fn lemma_fill_lt_settled_noop(
    m: Map<Seq<char>, Seq<Seq<char>>>, rows: Seq<RoadmapRow>, matrix: MatrixData, sel: MatrixState,
    templates: RoadmapTemplates, lang: Lang,
)
    requires
        forall|j: int| 0 <= j < rows.len() ==> spec_lt_row_settled(m, #[trigger] rows[j], matrix, sel, templates, lang),
    ensures
        spec_fill_lt(m, rows, matrix, sel, templates, lang, false) == m,
    decreases rows.len(),
{
    if rows.len() > 0 {
        let pre = rows.drop_last();
        assert forall|j: int| 0 <= j < pre.len() implies spec_lt_row_settled(m, #[trigger] pre[j], matrix, sel, templates, lang) by {
            assert(pre[j] == rows[j]);
        }
        lemma_fill_lt_settled_noop(m, pre, matrix, sel, templates, lang);
        assert(rows[rows.len() - 1] == rows.last());
        lemma_lt_row_settles(m, rows.last(), matrix, sel, templates, lang);
    }
}

/// Filling the empty cells a second time from the same selection changes
/// nothing: every cell it could fill was filled the first time.
pub proof fn filling_twice_changes_nothing(
    st: Map<Seq<char>, Seq<Seq<char>>>,
    lt: Map<Seq<char>, Seq<Seq<char>>>,
    roadmap: RoadmapData,
    matrix: MatrixData,
    sel: MatrixState,
    templates: RoadmapTemplates,
    lang: Lang,
)
    ensures
        ({
            let st1 = spec_fill_st(st, roadmap.st@, matrix, sel, templates, lang, false);
            spec_fill_st(st1, roadmap.st@, matrix, sel, templates, lang, false) == st1
        }),
        ({
            let lt1 = spec_fill_lt(lt, roadmap.lt@, matrix, sel, templates, lang, false);
            spec_fill_lt(lt1, roadmap.lt@, matrix, sel, templates, lang, false) == lt1
        }),
{
    lemma_fill_st_settles_rows(st, roadmap.st@, matrix, sel, templates, lang);
    lemma_fill_st_settled_noop(spec_fill_st(st, roadmap.st@, matrix, sel, templates, lang, false), roadmap.st@, matrix, sel, templates, lang);
    lemma_fill_lt_settles_rows(lt, roadmap.lt@, matrix, sel, templates, lang);
    lemma_fill_lt_settled_noop(spec_fill_lt(lt, roadmap.lt@, matrix, sel, templates, lang, false), roadmap.lt@, matrix, sel, templates, lang);
}

// ── Laws of clearing ─────────────────────────────────────────────────────────

/// Clearing keeps every row with the same number of cells, and every cell is empty.
pub proof fn clearing_keeps_layout_and_empties_cells(m: Map<Seq<char>, Seq<Seq<char>>>)
    ensures
        spec_cleared(m).dom() == m.dom(),
        forall|k: Seq<char>| #[trigger] m.contains_key(k) ==> spec_cleared(m)[k].len() == m[k].len(),
        forall|k: Seq<char>, i: int| m.contains_key(k) && 0 <= i < m[k].len() ==> #[trigger] spec_cleared(m)[k][i] == Seq::<char>::empty(),
{
}

/// After clearing, every field reads as the empty string.
pub proof fn cleared_fields_read_empty(
    st: Map<Seq<char>, Seq<Seq<char>>>,
    lt: Map<Seq<char>, Seq<Seq<char>>>,
    key: Seq<char>,
    i: int,
)
    ensures
        crate::models::spec_field_of(spec_cleared(st), spec_cleared(lt), key, i) == Seq::<char>::empty(),
{
}

} // verus!
