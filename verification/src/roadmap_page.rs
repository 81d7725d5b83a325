//! What the roadmap page does with its buttons: drafting from the saved matrix,
//! clearing, undoing, and the badges shown beside each principle.
use vstd::prelude::*;
use crate::i18n::Lang;
use crate::models::{
    cells_view, push_undo, spec_recorded, stack_view, state_view, MatrixData, MatrixState, RoadmapData,
    RoadmapRow, RoadmapState, RoadmapTemplates,
};
use crate::services::roadmap_gen::{
    clear, fill_draft, level_badge, spec_cleared, spec_fill_lt, spec_fill_st, spec_level_badge, GenMode,
};
use crate::strmap::StrMap;
use crate::text::{concat2, str_eq, to_owned_string};

verus! {

/// The texts of a row's cells.
pub open spec fn row_view(v: Seq<String>) -> Seq<Seq<char>> {
    v.map_values(|s: String| s@)
}

fn same_row(a: &Vec<String>, b: &Vec<String>) -> (r: bool)
    ensures
        r == (row_view(a@) == row_view(b@)),
{
    if a.len() != b.len() {
        assert(row_view(a@).len() != row_view(b@).len());
        return false;
    }
    let mut i: usize = 0;
    while i < a.len()
        invariant
            i <= a.len() == b.len(),
            forall|j: int| 0 <= j < i ==> (#[trigger] a@[j])@ == b@[j]@,
        decreases a.len() - i,
    {
        if !str_eq(a[i].as_str(), b[i].as_str()) {
            assert(row_view(a@)[i as int] != row_view(b@)[i as int]);
            return false;
        }
        i += 1;
    }
    assert(row_view(a@) =~= row_view(b@));
    true
}

fn same_table(a: &StrMap<Vec<String>>, b: &StrMap<Vec<String>>) -> (r: bool)
    ensures
        r == (cells_view(*a) == cells_view(*b)),
{
    let n = a.len();
    let m = b.len();
    if n != m {
        assert(cells_view(*a).dom() == a@.dom());
        assert(cells_view(*b).dom() == b@.dom());
        return false;
    }
    let mut i: usize = 0;
    while i < n
        invariant
            i <= n,
            n == a.spec_len() == a@.len(),
            n == b.spec_len() == b@.len(),
            a@.dom().finite(),
            b@.dom().finite(),
            forall|k: Seq<char>| #[trigger] a@.contains_key(k) ==> exists|j: int| 0 <= j < a.spec_len() && a.key_at(j) == k,
            forall|j: int| 0 <= j < i ==> #[trigger] b@.contains_key(a.key_at(j)) && row_view(b@[a.key_at(j)]@) == row_view(a@[a.key_at(j)]@),
        decreases n - i,
    {
        let k = a.key(i);
        let av = a.value(i);
        match b.get(k.as_str()) {
            None => {
                assert(cells_view(*a).contains_key(k@));
                return false;
            },
            Some(bv) => {
                if !same_row(av, bv) {
                    assert(cells_view(*a)[k@] == row_view(a@[k@]@));
                    assert(cells_view(*b)[k@] == row_view(b@[k@]@));
                    return false;
                }
                assert(b@.contains_key(a.key_at(i as int)));
                assert(row_view(b@[a.key_at(i as int)]@) == row_view(a@[a.key_at(i as int)]@));
            },
        }
        assert forall|j: int| 0 <= j < i + 1 implies #[trigger] b@.contains_key(a.key_at(j))
            && row_view(b@[a.key_at(j)]@) == row_view(a@[a.key_at(j)]@) by {
            if j < i {
                assert(b@.contains_key(a.key_at(j)));
            }
        }
        i += 1;
    }
    assert(a@.dom().subset_of(b@.dom())) by {
        assert forall|k: Seq<char>| a@.dom().contains(k) implies b@.dom().contains(k) by {
            assert(a@.contains_key(k));
            let j = choose|j: int| 0 <= j < a.spec_len() && a.key_at(j) == k;
            assert(b@.contains_key(a.key_at(j)));
        }
    }
    proof {
        vstd::set_lib::lemma_subset_equality(a@.dom(), b@.dom());
    }
    assert(cells_view(*a) =~= cells_view(*b)) by {
        assert forall|k: Seq<char>| #[trigger] cells_view(*a).contains_key(k) implies cells_view(*a)[k] == cells_view(*b)[k] by {
            let j = choose|j: int| 0 <= j < a.spec_len() && a.key_at(j) == k;
            assert(b@.contains_key(a.key_at(j)));
        }
    }
    true
}

/// Whether two roadmap states hold the same cells in both tables.
pub fn same_cells(a: &RoadmapState, b: &RoadmapState) -> (r: bool)
    ensures
        r == (state_view(*a) == state_view(*b)),
{
    same_table(&a.st, &b.st) && same_table(&a.lt, &b.lt)
}

/// The saved matrix as a plain value, if any.
pub open spec fn opt_matrix(saved: Option<&MatrixState>) -> Option<MatrixState> {
    match saved {
        Some(m) => Some(*m),
        None => None,
    }
}

/// Whether a saved matrix can seed a draft: one is saved and it selects a level
/// for at least one principle.
pub open spec fn spec_selection_ready(saved: Option<MatrixState>) -> bool {
    match saved {
        Some(m) => m.selections@.len() > 0,
        None => false,
    }
}

/// Whether the saved matrix can seed a draft.
pub fn selection_ready(saved: Option<&MatrixState>) -> (r: bool)
    ensures
        r == spec_selection_ready(opt_matrix(saved)),
{
    match saved {
        Some(m) => m.selections.len() > 0,
        None => false,
    }
}

/// What a press of a drafting button led to.
#[derive(Clone, Copy, PartialEq, Eq, Debug, Structural)]
pub enum GenOutcome {
    /// No matrix is saved, or it selects no level: nothing was drafted.
    NoSelection,
    /// Filling the empty cells changed nothing.
    Unchanged,
    /// Empty cells were filled.
    Drafted,
    /// The cells of the selected principles were rewritten.
    Overwritten,
}

impl GenOutcome {
    /// The interface text to flash after the press, if any.
    pub fn flash_key(self) -> (r: Option<&'static str>)
        ensures
            match self {
                GenOutcome::NoSelection => r matches Some(k) && k@ == "roadmap_gen_noselection"@,
                GenOutcome::Unchanged => r is None,
                GenOutcome::Drafted => r matches Some(k) && k@ == "roadmap_gen_ok"@,
                GenOutcome::Overwritten => r matches Some(k) && k@ == "roadmap_gen_forced"@,
            },
    {
        match self {
            GenOutcome::NoSelection => Some("roadmap_gen_noselection"),
            GenOutcome::Unchanged => None,
            GenOutcome::Drafted => Some("roadmap_gen_ok"),
            GenOutcome::Overwritten => Some("roadmap_gen_forced"),
        }
    }

    /// Whether the press changed the roadmap, which is then to be saved.
    pub fn changed(self) -> (r: bool)
        ensures
            r == (self == GenOutcome::Drafted || self == GenOutcome::Overwritten),
    {
        match self {
            GenOutcome::Drafted | GenOutcome::Overwritten => true,
            _ => false,
        }
    }
}

/// Both tables as drafted from the saved selection.
pub open spec fn spec_drafted(
    before: RoadmapState,
    roadmap: RoadmapData,
    matrix: MatrixData,
    sel: MatrixState,
    templates: RoadmapTemplates,
    lang: Lang,
    gen_mode: GenMode,
) -> (Map<Seq<char>, Seq<Seq<char>>>, Map<Seq<char>, Seq<Seq<char>>>) {
    (
        spec_fill_st(cells_view(before.st), roadmap.st@, matrix, sel, templates, lang, gen_mode == GenMode::Overwrite),
        spec_fill_lt(cells_view(before.lt), roadmap.lt@, matrix, sel, templates, lang, gen_mode == GenMode::Overwrite),
    )
}

/// Drafts the roadmap from the saved matrix selection. Without a saved selection
/// nothing changes. When only empty cells are filled and none changes, nothing is
/// recorded either; otherwise the state from before is recorded for undo and the
/// drafted tables replace the state.
pub fn generate(
    state: &mut RoadmapState,
    undo_stack: &mut Vec<RoadmapState>,
    saved: Option<&MatrixState>,
    roadmap: &RoadmapData,
    matrix: &MatrixData,
    templates: &RoadmapTemplates,
    lang: Lang,
    gen_mode: GenMode,
) -> (r: GenOutcome)
    ensures
        !spec_selection_ready(opt_matrix(saved)) ==> r == GenOutcome::NoSelection
            && *final(state) == *old(state) && final(undo_stack)@ == old(undo_stack)@,
        spec_selection_ready(opt_matrix(saved)) ==> ({
            let drafted = spec_drafted(*old(state), *roadmap, *matrix, opt_matrix(saved)->0, *templates, lang, gen_mode);
            if gen_mode == GenMode::FillEmpty && drafted == state_view(*old(state)) {
                r == GenOutcome::Unchanged && state_view(*final(state)) == state_view(*old(state))
                    && final(undo_stack)@ == old(undo_stack)@
            } else {
                r == (if gen_mode == GenMode::FillEmpty { GenOutcome::Drafted } else { GenOutcome::Overwritten })
                    && state_view(*final(state)) == drafted
                    && stack_view(final(undo_stack)@) == spec_recorded(stack_view(old(undo_stack)@), state_view(*old(state)))
            }
        }),
{
    let sel = match saved {
        Some(m) => m,
        None => return GenOutcome::NoSelection,
    };
    if !selection_ready(saved) {
        return GenOutcome::NoSelection;
    }
    let before = state.clone();
    fill_draft(state, roadmap, matrix, sel, templates, lang, gen_mode);
    let fill_only = gen_mode == GenMode::FillEmpty;
    if fill_only && same_cells(state, &before) {
        return GenOutcome::Unchanged;
    }
    push_undo(undo_stack, &before);
    if fill_only {
        GenOutcome::Drafted
    } else {
        GenOutcome::Overwritten
    }
}

/// Empties every cell of both tables, recording the state from before for undo.
pub fn clear_with_undo(state: &mut RoadmapState, undo_stack: &mut Vec<RoadmapState>)
    ensures
        state_view(*final(state)) == (spec_cleared(cells_view(old(state).st)), spec_cleared(cells_view(old(state).lt))),
        stack_view(final(undo_stack)@) == spec_recorded(stack_view(old(undo_stack)@), state_view(*old(state))),
{
    push_undo(undo_stack, state);
    clear(state);
}

/// Goes back to the newest undo snapshot, which leaves the stack; `false`, with
/// nothing changed, when there is none.
pub fn undo(state: &mut RoadmapState, undo_stack: &mut Vec<RoadmapState>) -> (r: bool)
    ensures
        r == (old(undo_stack)@.len() > 0),
        r ==> *final(state) == old(undo_stack)@.last() && final(undo_stack)@ == old(undo_stack)@.drop_last(),
        !r ==> *final(state) == *old(state) && final(undo_stack)@ == old(undo_stack)@,
{
    match undo_stack.pop() {
        Some(previous) => {
            *state = previous;
            true
        },
        None => false,
    }
}

/// Pressing the fill-empty draft again with the same saved selection finds the
/// roadmap already drafted: `generate` then answers `Unchanged` and records nothing.
pub proof fn second_draft_changes_nothing(
    before: RoadmapState,
    after: RoadmapState,
    roadmap: RoadmapData,
    matrix: MatrixData,
    sel: MatrixState,
    templates: RoadmapTemplates,
    lang: Lang,
)
    requires
        state_view(after) == spec_drafted(before, roadmap, matrix, sel, templates, lang, GenMode::FillEmpty),
    ensures
        spec_drafted(after, roadmap, matrix, sel, templates, lang, GenMode::FillEmpty) == state_view(after),
{
    crate::services::roadmap_gen::filling_twice_changes_nothing(
        cells_view(before.st), cells_view(before.lt), roadmap, matrix, sel, templates, lang);
}

/// Undoing right after a draft or a clear that was recorded (`generate`,
/// `clear_with_undo`) gives back the roadmap as it was before it.
pub proof fn undo_restores_roadmap(before: RoadmapState, stack0: Seq<RoadmapState>, stack1: Seq<RoadmapState>)
    requires
        stack_view(stack1) == spec_recorded(stack_view(stack0), state_view(before)),
    ensures
        stack1.len() > 0,
        state_view(stack1.last()) == state_view(before),
{
    crate::models::undo_restores_recorded_state(stack_view(stack0), state_view(before));
    assert(stack_view(stack1).len() == stack1.len());
    assert(stack_view(stack1)[stack1.len() - 1] == state_view(stack1[stack1.len() - 1]));
}

/// The badge beside a short-term row: that of the level the matrix selects for the
/// row's principle, else the row's own first badge, else nothing.
pub open spec fn spec_st_badge(sel: MatrixState, matrix: MatrixData, row: RoadmapRow) -> Seq<char> {
    let fallback = if row.badges@.len() > 0 { row.badges@[0]@ } else { Seq::<char>::empty() };
    match sel.spec_selected_level(row.num) {
        Some(lv) => match spec_level_badge(matrix, row.num, lv) {
            Some(b) => b,
            None => fallback,
        },
        None => fallback,
    }
}

/// The short-term badge shows the row's own principle at the level selected for
/// it: when the matrix selects level `lv` for the row's principle and has that
/// level, the badge is that level's badge of the row's principle; otherwise it is
/// the row's own first badge (or nothing).
pub proof fn st_badge_shows_selected_level(sel: MatrixState, matrix: MatrixData, row: RoadmapRow, lv: u8, b: Seq<char>)
    ensures
        sel.spec_selected_level(row.num) == Some(lv) && spec_level_badge(matrix, row.num, lv) == Some(b)
            ==> spec_st_badge(sel, matrix, row) == b,
        sel.spec_selected_level(row.num) is None && row.badges@.len() > 0
            ==> spec_st_badge(sel, matrix, row) == row.badges@[0]@,
        sel.spec_selected_level(row.num) == Some(lv) && spec_level_badge(matrix, row.num, lv) is None
            && row.badges@.len() > 0 ==> spec_st_badge(sel, matrix, row) == row.badges@[0]@,
{
}

/// The long-term vision shows the row's own vision, or else the level-4 badge of
/// the row's own principle.
pub proof fn lt_vision_shows_principle_target(matrix: MatrixData, row: RoadmapRow, b: Seq<char>)
    ensures
        row.vision@.len() > 0 ==> spec_lt_vision(matrix, row) == row.vision@,
        row.vision@.len() == 0 && spec_level_badge(matrix, row.num, 4) == Some(b) ==> spec_lt_vision(matrix, row) == b,
{
}

/// The badge beside a short-term row.
pub fn st_badge(sel: &MatrixState, matrix: &MatrixData, row: &RoadmapRow) -> (r: String)
    ensures
        r@ == spec_st_badge(*sel, *matrix, *row),
{
    let picked = match sel.selected_level(row.num) {
        Some(lv) => level_badge(matrix, row.num, lv),
        None => None,
    };
    match picked {
        Some(b) => b,
        None => {
            if row.badges.len() > 0 {
                row.badges[0].clone()
            } else {
                String::new()
            }
        },
    }
}

/// The target vision beside a long-term row: the row's own, else the level-4 badge
/// of its principle, else nothing.
pub open spec fn spec_lt_vision(matrix: MatrixData, row: RoadmapRow) -> Seq<char> {
    if row.vision@.len() > 0 {
        row.vision@
    } else {
        match spec_level_badge(matrix, row.num, 4) {
            Some(b) => b,
            None => Seq::<char>::empty(),
        }
    }
}

/// The target vision beside a long-term row.
pub fn lt_vision(matrix: &MatrixData, row: &RoadmapRow) -> (r: String)
    ensures
        r@ == spec_lt_vision(*matrix, *row),
{
    if row.vision.as_str().unicode_len() > 0 {
        row.vision.clone()
    } else {
        match level_badge(matrix, row.num, 4) {
            Some(b) => b,
            None => String::new(),
        }
    }
}

/// The name of the exported roadmap file of an organisation; the default one keeps
/// the plain name.
pub open spec fn spec_export_name(org_id: Seq<char>) -> Seq<char> {
    if org_id.len() == 0 {
        "sre_roadmap.json"@
    } else {
        "sre_roadmap_"@ + org_id + ".json"@
    }
}

/// The name of the exported roadmap file of an organisation.
pub fn export_name(org_id: &str) -> (r: String)
    ensures
        r@ == spec_export_name(org_id@),
{
    if org_id.unicode_len() == 0 {
        to_owned_string("sre_roadmap.json")
    } else {
        let mut s = concat2("sre_roadmap_", org_id);
        s.append(".json");
        s
    }
}

} // verus!
