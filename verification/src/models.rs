//! The audit data: the static matrix and roadmap content, the auditor's editable
//! state, and the bilingual template bank.
use vstd::prelude::*;
use crate::strmap::StrMap;
use crate::services::roadmap_gen::{fill_cell, spec_fill_cell};
use crate::text::{clone_strings, decimal, decimal_parses_back, parse_u8, spec_decimal, spec_parse_u8};

verus! {

// ── Matrix ───────────────────────────────────────────────────────────────────

/// One bullet item inside a maturity level cell.
#[derive(Clone, Debug, PartialEq)]
pub struct LevelItem {
    pub label: String,
    pub text: String,
}

/// One maturity level cell (level 1..4) of a principle.
#[derive(Clone, Debug, PartialEq)]
pub struct MatrixLevel {
    pub level: u8,
    pub badge: String,
    pub items: Vec<LevelItem>,
}

impl MatrixLevel {
    /// CSS class of the level badge: `bg-lvl` followed by the level number.
    pub fn badge_class(&self) -> (r: String)
        ensures
            r@ == "bg-lvl"@ + spec_decimal(self.level as nat),
    {
        let mut s = String::from_str("bg-lvl");
        let d = decimal(self.level as u64);
        s.append(d.as_str());
        s
    }
}

/// A single SRE principle row of the matrix.
#[derive(Clone, Debug, PartialEq)]
pub struct MatrixRow {
    pub id: u8,
    pub num: u8,
    pub title: String,
    pub aspect: String,
    pub process: String,
    pub levels: Vec<MatrixLevel>,
}

/// Static matrix content.
#[derive(Clone, Debug, PartialEq)]
pub struct MatrixData {
    pub rows: Vec<MatrixRow>,
}

/// The auditor's matrix state: company name, selected level per row and a note per
/// row, both keyed by the row number written in decimal.
#[derive(Debug, PartialEq)]
pub struct MatrixState {
    pub company_name: String,
    pub selections: StrMap<String>,
    pub comments: StrMap<String>,
}

impl Default for MatrixState {
    fn default() -> (r: Self)
        ensures
            r.company_name@ == Seq::<char>::empty(),
            r.selections@ == Map::<Seq<char>, String>::empty(),
            r.comments@ == Map::<Seq<char>, String>::empty(),
    {
        MatrixState { company_name: String::new(), selections: StrMap::new(), comments: StrMap::new() }
    }
}

impl MatrixState {
    /// The level selected for row `row_id`: the selection stored under the row
    /// number, read as a `u8`.
    pub open spec fn spec_selected_level(self, row_id: u8) -> Option<u8> {
        let key = spec_decimal(row_id as nat);
        if self.selections@.contains_key(key) {
            spec_parse_u8(self.selections@[key]@)
        } else {
            None
        }
    }

    /// The level selected for row `row_id`, if one is stored and reads as a number.
    pub fn selected_level(&self, row_id: u8) -> (r: Option<u8>)
        ensures
            r == self.spec_selected_level(row_id),
    {
        let key = decimal(row_id as u64);
        match self.selections.get(key.as_str()) {
            Some(s) => parse_u8(s.as_str()),
            None => None,
        }
    }
}

impl Clone for MatrixState {
    fn clone(&self) -> (r: Self)
        ensures
            r.company_name@ == self.company_name@,
            r.selections@ == self.selections@,
            r.comments@ == self.comments@,
    {
        MatrixState {
            company_name: self.company_name.clone(),
            selections: copy_string_map(&self.selections),
            comments: copy_string_map(&self.comments),
        }
    }
}

impl MatrixState {
    /// Records `level` as the selection of row `row_id`.
    pub fn select_level(&mut self, row_id: u8, level: u8)
        ensures
            final(self).selections@ == old(self).selections@.insert(spec_decimal(row_id as nat), final(self).selections@[spec_decimal(row_id as nat)]),
            final(self).selections@[spec_decimal(row_id as nat)]@ == spec_decimal(level as nat),
            final(self).comments@ == old(self).comments@,
            final(self).company_name@ == old(self).company_name@,
    {
        let key = decimal(row_id as u64);
        let value = decimal(level as u64);
        self.selections.insert(key, value);
    }

    /// Records `text` as the note of row `row_id`.
    pub fn set_comment(&mut self, row_id: u8, text: String)
        ensures
            final(self).comments@ == old(self).comments@.insert(spec_decimal(row_id as nat), text),
            final(self).selections@ == old(self).selections@,
            final(self).company_name@ == old(self).company_name@,
    {
        let key = decimal(row_id as u64);
        self.comments.insert(key, text);
    }
}

/// A copy of a string-valued map with the same keys and values.
pub fn copy_string_map(m: &StrMap<String>) -> (r: StrMap<String>)
    ensures
        r@ == m@,
{
    let n = m.len();
    let r = m.clone();
    let rl = r.len();
    assert(r@ =~= m@) by {
        assert forall|k: Seq<char>| #[trigger] r@.contains_key(k) implies r@[k] == m@[k] by {
            let i = choose|i: int| 0 <= i < r.spec_len() && r.key_at(i) == k;
            assert(cloned::<String>(m.value_at(i), r.value_at(i)));
        }
    }
    r
}

/// A stored selection reads back as the level that was written: once the
/// selection of `row_id` holds `level` in decimal (as `select_level` leaves it),
/// `selected_level(row_id)` is `level`.
pub proof fn selection_reads_back(sel: MatrixState, row_id: u8, level: u8)
    requires
        sel.selections@.contains_key(spec_decimal(row_id as nat)),
        sel.selections@[spec_decimal(row_id as nat)]@ == spec_decimal(level as nat),
    ensures
        sel.spec_selected_level(row_id) == Some(level),
{
    decimal_parses_back(level);
}

// ── Roadmap ──────────────────────────────────────────────────────────────────

/// One SRE principle row, present in both the short-term (ST) and long-term (LT) tables.
#[derive(Clone, Debug, PartialEq)]
pub struct RoadmapRow {
    /// e.g. `st_obs` or `lt_obs`
    pub id: String,
    pub num: u8,
    pub title: String,
    pub process: String,
    /// badge strings of the row
    pub badges: Vec<String>,
    /// editable text areas (ST: 3, LT: 2)
    pub areas: Vec<String>,
    /// LT-only target vision badge
    pub vision: String,
}

/// Static roadmap content.
#[derive(Clone, Debug, PartialEq)]
pub struct RoadmapData {
    pub st: Vec<RoadmapRow>,
    pub lt: Vec<RoadmapRow>,
}

/// The text cells of a roadmap table: row id to the contents of its cells.
pub open spec fn cells_view(m: StrMap<Vec<String>>) -> Map<Seq<char>, Seq<Seq<char>>> {
    m@.map_values(|v: Vec<String>| v@.map_values(|s: String| s@))
}

/// The `i`-th cell of `cells`, or the empty string past the end.
pub open spec fn spec_cell(cells: Seq<Seq<char>>, i: int) -> Seq<char> {
    if 0 <= i < cells.len() {
        cells[i]
    } else {
        Seq::<char>::empty()
    }
}

/// Cell `index` of row `row_id`, looked up in the short-term table first, then in
/// the long-term one; empty when neither has it.
pub open spec fn spec_field_of(st: Map<Seq<char>, Seq<Seq<char>>>, lt: Map<Seq<char>, Seq<Seq<char>>>, row_id: Seq<char>, index: int) -> Seq<char> {
    if st.contains_key(row_id) {
        spec_cell(st[row_id], index)
    } else if lt.contains_key(row_id) {
        spec_cell(lt[row_id], index)
    } else {
        Seq::<char>::empty()
    }
}

/// The auditor's roadmap state: cell contents per row id, for both tables.
#[derive(Debug, PartialEq)]
pub struct RoadmapState {
    pub st: StrMap<Vec<String>>,
    pub lt: StrMap<Vec<String>>,
}

impl Default for RoadmapState {
    fn default() -> (r: Self)
        ensures
            r.st@ == Map::<Seq<char>, Vec<String>>::empty(),
            r.lt@ == Map::<Seq<char>, Vec<String>>::empty(),
    {
        RoadmapState { st: StrMap::new(), lt: StrMap::new() }
    }
}

/// A copy of a cell table with the same rows and cell contents.
pub fn copy_cells(m: &StrMap<Vec<String>>) -> (r: StrMap<Vec<String>>)
    ensures
        r@.dom() == m@.dom(),
        forall|k: Seq<char>| #[trigger] r@.contains_key(k) ==> r@[k]@ == m@[k]@,
        cells_view(r) == cells_view(*m),
{
    let n = m.len();
    let mut r: StrMap<Vec<String>> = StrMap::new();
    let mut i: usize = 0;
    if n > 0 {
        assert(m@.contains_key(m.key_at(0)));
        assert(m@[m.key_at(0)] == m.value_at(0));
    }
    while i < n
        invariant
            i <= n == m.spec_len(),
            forall|j: int| 0 <= j < m.spec_len() ==> #[trigger] m@.contains_key(m.key_at(j)) && m@[m.key_at(j)] == m.value_at(j),
            forall|k: Seq<char>| #[trigger] m@.contains_key(k) ==> exists|j: int| 0 <= j < m.spec_len() && m.key_at(j) == k,
            forall|a: int, b: int| 0 <= a < m.spec_len() && 0 <= b < m.spec_len() && a != b ==> m.key_at(a) != m.key_at(b),
            forall|k: Seq<char>| #[trigger] r@.contains_key(k) <==> exists|j: int| 0 <= j < i && m.key_at(j) == k,
            forall|k: Seq<char>| #[trigger] r@.contains_key(k) ==> m@.contains_key(k) && r@[k]@ == m@[k]@,
        decreases n - i,
    {
        let key = m.key(i).clone();
        let cells = clone_strings(m.value(i));
        let ghost before = r@;
        r.insert(key, cells);
        proof {
            assert forall|k: Seq<char>| #[trigger] r@.contains_key(k) <==> exists|j: int| 0 <= j < i + 1 && m.key_at(j) == k by {
                if r@.contains_key(k) && k != m.key_at(i as int) {
                    assert(before.contains_key(k));
                }
                if exists|j: int| 0 <= j < i + 1 && m.key_at(j) == k {
                    let j = choose|j: int| 0 <= j < i + 1 && m.key_at(j) == k;
                    if j < i {
                        assert(before.contains_key(k));
                    }
                }
            }
        }
        i += 1;
    }
    assert(r@.dom() =~= m@.dom());
    assert(cells_view(r) =~= cells_view(*m)) by {
        assert forall|k: Seq<char>| #[trigger] cells_view(r).contains_key(k) implies cells_view(r)[k] == cells_view(*m)[k] by {
            assert(r@[k]@ == m@[k]@);
        }
    }
    r
}

impl Clone for RoadmapState {
    fn clone(&self) -> (r: Self)
        ensures
            cells_view(r.st) == cells_view(self.st),
            cells_view(r.lt) == cells_view(self.lt),
    {
        RoadmapState { st: copy_cells(&self.st), lt: copy_cells(&self.lt) }
    }
}

impl RoadmapState {
    /// Cell `index` of row `row_id`: the ST table is searched first, then the LT
    /// table; an unknown row or a cell past the end reads as the empty string.
    pub open spec fn spec_field(self, row_id: Seq<char>, index: int) -> Seq<char> {
        spec_field_of(cells_view(self.st), cells_view(self.lt), row_id, index)
    }

    /// Cell `index` of row `row_id`, or `""`.
    pub fn field(&self, row_id: &str, index: usize) -> (r: &str)
        ensures
            r@ == self.spec_field(row_id@, index as int),
    {
        proof {
            reveal_strlit("");
        }
        match self.st.get(row_id) {
            Some(vals) => {
                assert(cells_view(self.st)[row_id@] == vals@.map_values(|s: String| s@));
                if index < vals.len() {
                    vals[index].as_str()
                } else {
                    ""
                }
            }
            None => match self.lt.get(row_id) {
                Some(vals) => {
                    assert(cells_view(self.lt)[row_id@] == vals@.map_values(|s: String| s@));
                    if index < vals.len() {
                        vals[index].as_str()
                    } else {
                        ""
                    }
                }
                None => "",
            },
        }
    }
}

/// The row ids of the short-term (`is_st`) or long-term table, in table order.
pub open spec fn spec_row_id(is_st: bool, row: usize) -> Option<Seq<char>> {
    if is_st && row == 0 { Some("st_obs"@) }
    else if is_st && row == 1 { Some("st_slo"@) }
    else if is_st && row == 2 { Some("st_risk"@) }
    else if is_st && row == 3 { Some("st_toil"@) }
    else if is_st && row == 4 { Some("st_auto"@) }
    else if is_st && row == 5 { Some("st_release"@) }
    else if is_st && row == 6 { Some("st_simp"@) }
    else if !is_st && row == 0 { Some("lt_obs"@) }
    else if !is_st && row == 1 { Some("lt_slo"@) }
    else if !is_st && row == 2 { Some("lt_risk"@) }
    else if !is_st && row == 3 { Some("lt_toil"@) }
    else if !is_st && row == 4 { Some("lt_auto"@) }
    else if !is_st && row == 5 { Some("lt_release"@) }
    else if !is_st && row == 6 { Some("lt_simp"@) }
    else { None }
}

/// The id of row `row` of the short-term (`is_st`) or long-term table, if any.
pub fn row_id(is_st: bool, row: usize) -> (r: Option<&'static str>)
    ensures
        r is Some <==> spec_row_id(is_st, row) is Some,
        r matches Some(k) ==> spec_row_id(is_st, row) == Some(k@),
{
    if is_st && row == 0 {
        return Some("st_obs");
    }
    if is_st && row == 1 {
        return Some("st_slo");
    }
    if is_st && row == 2 {
        return Some("st_risk");
    }
    if is_st && row == 3 {
        return Some("st_toil");
    }
    if is_st && row == 4 {
        return Some("st_auto");
    }
    if is_st && row == 5 {
        return Some("st_release");
    }
    if is_st && row == 6 {
        return Some("st_simp");
    }
    if !is_st && row == 0 {
        return Some("lt_obs");
    }
    if !is_st && row == 1 {
        return Some("lt_slo");
    }
    if !is_st && row == 2 {
        return Some("lt_risk");
    }
    if !is_st && row == 3 {
        return Some("lt_toil");
    }
    if !is_st && row == 4 {
        return Some("lt_auto");
    }
    if !is_st && row == 5 {
        return Some("lt_release");
    }
    if !is_st && row == 6 {
        return Some("lt_simp");
    }
    None
}

/// The rows of the two tables, in table order: the short-term ids are `st_obs`,
/// `st_slo`, `st_risk`, `st_toil`, `st_auto`, `st_release`, `st_simp`, and the
/// long-term ids the same principles with `lt_`; row `row` of one table and of the
/// other name the same principle, and there are seven rows.
pub proof fn row_ids_follow_table_order(is_st: bool, row: usize)
    ensures
        spec_row_id(is_st, row) is Some <==> row < 7,
        row < 7 ==> spec_row_id(true, row) == Some(seq!["st_obs"@, "st_slo"@, "st_risk"@, "st_toil"@, "st_auto"@, "st_release"@, "st_simp"@][row as int]),
        row < 7 ==> spec_row_id(false, row) == Some(seq!["lt_obs"@, "lt_slo"@, "lt_risk"@, "lt_toil"@, "lt_auto"@, "lt_release"@, "lt_simp"@][row as int]),
        row < 7 ==> spec_row_id(true, row)->0.take(3) == "st_"@ && spec_row_id(false, row)->0.take(3) == "lt_"@
            && spec_row_id(true, row)->0.skip(3) == spec_row_id(false, row)->0.skip(3),
{
    reveal_strlit("st_");
    reveal_strlit("lt_");
    reveal_strlit("st_obs");
    reveal_strlit("lt_obs");
    reveal_strlit("st_slo");
    reveal_strlit("lt_slo");
    reveal_strlit("st_risk");
    reveal_strlit("lt_risk");
    reveal_strlit("st_toil");
    reveal_strlit("lt_toil");
    reveal_strlit("st_auto");
    reveal_strlit("lt_auto");
    reveal_strlit("st_release");
    reveal_strlit("lt_release");
    reveal_strlit("st_simp");
    reveal_strlit("lt_simp");
    if row < 7 {
        let a = spec_row_id(true, row)->0;
        let b = spec_row_id(false, row)->0;
        assert(a.take(3) =~= "st_"@);
        assert(b.take(3) =~= "lt_"@);
        assert(a.skip(3) =~= b.skip(3));
    }
}

impl RoadmapState {
    /// Writes `value` into cell `col` of row `row` of the short-term (`is_st`) or
    /// long-term table, creating the row and padding it with empty cells as needed;
    /// a row number past the table does nothing.
    pub fn set_field(&mut self, is_st: bool, row: usize, col: usize, value: &str)
        ensures
            match spec_row_id(is_st, row) {
                None => cells_view(final(self).st) == cells_view(old(self).st) && cells_view(final(self).lt) == cells_view(old(self).lt),
                Some(key) => if is_st {
                    cells_view(final(self).st) == spec_fill_cell(cells_view(old(self).st), key, col as nat, value@, true)
                        && cells_view(final(self).lt) == cells_view(old(self).lt)
                } else {
                    cells_view(final(self).lt) == spec_fill_cell(cells_view(old(self).lt), key, col as nat, value@, true)
                        && cells_view(final(self).st) == cells_view(old(self).st)
                },
            },
    {
        let key = match row_id(is_st, row) {
            Some(k) => k,
            None => return,
        };
        if is_st {
            fill_cell(&mut self.st, key, col, value, true);
        } else {
            fill_cell(&mut self.lt, key, col, value, true);
        }
    }
}

/// A short-term cell written with `set_field` reads back as the written text.
pub proof fn short_term_write_reads_back(
    st: Map<Seq<char>, Seq<Seq<char>>>,
    lt: Map<Seq<char>, Seq<Seq<char>>>,
    key: Seq<char>,
    col: nat,
    value: Seq<char>,
)
    ensures
        spec_field_of(spec_fill_cell(st, key, col, value, true), lt, key, col as int) == value,
{
}

/// A long-term cell written with `set_field` reads back as the written text,
/// provided no short-term row has the same id (those are read first).
pub proof fn long_term_write_reads_back(
    st: Map<Seq<char>, Seq<Seq<char>>>,
    lt: Map<Seq<char>, Seq<Seq<char>>>,
    key: Seq<char>,
    col: nat,
    value: Seq<char>,
)
    requires
        !st.contains_key(key),
    ensures
        spec_field_of(st, spec_fill_cell(lt, key, col, value, true), key, col as int) == value,
{
}

/// Writing a cell leaves every other cell as it was.
pub proof fn write_keeps_other_cells(
    m: Map<Seq<char>, Seq<Seq<char>>>,
    key: Seq<char>,
    col: nat,
    value: Seq<char>,
    other: Seq<char>,
    i: int,
)
    requires
        other != key || i != col,
        m.contains_key(other),
    ensures
        spec_fill_cell(m, key, col, value, true).contains_key(other),
        spec_cell(spec_fill_cell(m, key, col, value, true)[other], i) == spec_cell(m[other], i),
{
}

/// Number of undo snapshots kept.
pub const UNDO_CAP: usize = 10;

/// The cell tables of a roadmap state.
pub open spec fn state_view(s: RoadmapState) -> (Map<Seq<char>, Seq<Seq<char>>>, Map<Seq<char>, Seq<Seq<char>>>) {
    (cells_view(s.st), cells_view(s.lt))
}

pub open spec fn stack_view(stack: Seq<RoadmapState>) -> Seq<(Map<Seq<char>, Seq<Seq<char>>>, Map<Seq<char>, Seq<Seq<char>>>)> {
    stack.map_values(|s: RoadmapState| state_view(s))
}

/// The snapshots kept after recording `before` on top of `stack`: the oldest one
/// leaves once more than `UNDO_CAP` would be kept.
pub open spec fn spec_recorded(
    stack: Seq<(Map<Seq<char>, Seq<Seq<char>>>, Map<Seq<char>, Seq<Seq<char>>>)>,
    before: (Map<Seq<char>, Seq<Seq<char>>>, Map<Seq<char>, Seq<Seq<char>>>),
) -> Seq<(Map<Seq<char>, Seq<Seq<char>>>, Map<Seq<char>, Seq<Seq<char>>>)> {
    if stack.len() + 1 > UNDO_CAP {
        stack.push(before).drop_first()
    } else {
        stack.push(before)
    }
}

/// Records a copy of `before` as the newest undo snapshot, dropping the oldest one
/// when more than `UNDO_CAP` are kept.
pub fn push_undo(stack: &mut Vec<RoadmapState>, before: &RoadmapState)
    ensures
        stack_view(final(stack)@) == spec_recorded(stack_view(old(stack)@), state_view(*before)),
{
    let ghost v0 = stack_view(stack@);
    let copy = before.clone();
    stack.push(copy);
    assert(stack_view(stack@) =~= v0.push(state_view(*before)));
    if stack.len() > UNDO_CAP {
        let ghost v1 = stack_view(stack@);
        stack.remove(0);
        assert(stack_view(stack@) =~= v1.drop_first());
    }
}

/// Recording a snapshot never leaves more than `UNDO_CAP` of them.
pub proof fn undo_stack_stays_capped(
    stack: Seq<(Map<Seq<char>, Seq<Seq<char>>>, Map<Seq<char>, Seq<Seq<char>>>)>,
    before: (Map<Seq<char>, Seq<Seq<char>>>, Map<Seq<char>, Seq<Seq<char>>>),
)
    requires
        stack.len() <= UNDO_CAP,
    ensures
        spec_recorded(stack, before).len() <= UNDO_CAP,
{
}

/// Undoing right after an action was recorded gives back the state from before
/// the action, and, while fewer than `UNDO_CAP` snapshots were kept, leaves the
/// snapshots as they were before it.
pub proof fn undo_restores_recorded_state(
    stack: Seq<(Map<Seq<char>, Seq<Seq<char>>>, Map<Seq<char>, Seq<Seq<char>>>)>,
    before: (Map<Seq<char>, Seq<Seq<char>>>, Map<Seq<char>, Seq<Seq<char>>>),
)
    ensures
        spec_recorded(stack, before).len() > 0,
        spec_recorded(stack, before).last() == before,
        stack.len() < UNDO_CAP ==> spec_recorded(stack, before).drop_last() == stack,
{
    if stack.len() < UNDO_CAP {
        assert(stack.push(before).drop_last() =~= stack);
    }
}


// ── Roadmap generation templates ─────────────────────────────────────────────

/// A single bilingual string.
#[derive(Clone, Debug, PartialEq)]
pub struct LangStrings {
    pub fr: String,
    pub en: String,
}

/// A bilingual list of lines.
#[derive(Clone, Debug, PartialEq)]
pub struct LangLines {
    pub fr: Vec<String>,
    pub en: Vec<String>,
}

/// The template bank, indexed by principle number then level number (both in
/// decimal): audit finding, short-term actions and KPIs, long-term year-1 target
/// and major transformation.
#[derive(Clone, Debug, PartialEq)]
pub struct RoadmapTemplates {
    pub constat: StrMap<StrMap<LangStrings>>,
    pub st_actions: StrMap<StrMap<LangLines>>,
    pub st_kpi: StrMap<StrMap<LangLines>>,
    pub lt_year1: StrMap<StrMap<LangStrings>>,
    pub lt_transform: StrMap<StrMap<LangStrings>>,
}

} // verus!
