//! Audited organisations: the ordered list, the active one, and the storage keys
//! and ids derived from them. The default organisation has the empty id and
//! uses the storage keys that predate multi-organisation support.
use vstd::prelude::*;
use crate::models::MatrixState;
use crate::text::{concat2, push_char, spec_trim, str_eq, to_owned_string, trim};

verus! {

/// Key under which the organisation list is stored.
pub const ORGS_KEY: &'static str = "sre_audit_orgs";

/// An audited organisation.
#[derive(Clone, Debug, PartialEq)]
pub struct Organization {
    pub id: String,
    pub name: String,
}

impl View for Organization {
    type V = (Seq<char>, Seq<char>);

    open spec fn view(&self) -> (Seq<char>, Seq<char>) {
        (self.id@, self.name@)
    }
}

impl Organization {
    /// Whether this is the default organisation (empty id).
    pub fn is_default(&self) -> (r: bool)
        ensures
            r == (self.id@.len() == 0),
    {
        self.id.as_str().is_empty()
    }
}

/// Ordered organisation list plus the id of the active one.
#[derive(Clone, Debug, PartialEq)]
pub struct OrgStore {
    pub orgs: Vec<Organization>,
    pub current: String,
}

impl Default for OrgStore {
    fn default() -> (r: Self)
        ensures
            r.orgs@.len() == 0,
            r.current@ == Seq::<char>::empty(),
    {
        OrgStore { orgs: Vec::new(), current: String::new() }
    }
}

/// The organisations as (id, name) pairs.
pub open spec fn orgs_view(orgs: Seq<Organization>) -> Seq<(Seq<char>, Seq<char>)> {
    orgs.map_values(|o: Organization| o@)
}

/// Position of the first organisation whose id is `id`.
pub open spec fn spec_find_org(orgs: Seq<(Seq<char>, Seq<char>)>, id: Seq<char>) -> Option<int>
    decreases orgs.len(),
{
    if orgs.len() == 0 {
        None
    } else {
        match spec_find_org(orgs.drop_last(), id) {
            Some(i) => Some(i),
            None => if orgs.last().0 == id { Some(orgs.len() - 1) } else { None },
        }
    }
}

pub proof fn lemma_find_org(orgs: Seq<(Seq<char>, Seq<char>)>, id: Seq<char>)
    ensures
        spec_find_org(orgs, id) matches Some(i) ==> 0 <= i < orgs.len() && orgs[i].0 == id
            && forall|j: int| 0 <= j < i ==> orgs[j].0 != id,
        spec_find_org(orgs, id) is None ==> forall|j: int| 0 <= j < orgs.len() ==> orgs[j].0 != id,
    decreases orgs.len(),
{
    if orgs.len() > 0 {
        let pre = orgs.drop_last();
        lemma_find_org(pre, id);
        assert forall|j: int| 0 <= j < pre.len() implies #[trigger] orgs[j] == pre[j] by {}
        match spec_find_org(pre, id) {
            Some(i) => {
                assert(orgs[i] == pre[i]);
                assert forall|j: int| 0 <= j < i implies orgs[j].0 != id by {
                    assert(orgs[j] == pre[j]);
                }
            }
            None => {
                assert forall|j: int| 0 <= j < orgs.len() - 1 implies orgs[j].0 != id by {
                    assert(orgs[j] == pre[j]);
                }
            }
        }
    }
}

/// The active id after falling back: kept if some organisation has it, else the
/// first organisation's id, else the empty id.
pub open spec fn spec_normalized_current(orgs: Seq<(Seq<char>, Seq<char>)>, current: Seq<char>) -> Seq<char> {
    if spec_find_org(orgs, current) is Some {
        current
    } else if orgs.len() > 0 {
        orgs[0].0
    } else {
        Seq::<char>::empty()
    }
}

/// The name given to an added organisation: the trimmed input, or
/// `Nouvelle organisation` when that is empty.
pub open spec fn spec_new_org_name(name: Seq<char>) -> Seq<char> {
    if spec_trim(name).len() == 0 { "Nouvelle organisation"@ } else { spec_trim(name) }
}

/// Position of the first organisation with id `id`.
fn position(orgs: &Vec<Organization>, id: &str) -> (r: Option<usize>)
    ensures
        r matches Some(i) ==> spec_find_org(orgs_view(orgs@), id@) == Some(i as int),
        r is None ==> spec_find_org(orgs_view(orgs@), id@) is None,
        r matches Some(i) ==> i < orgs@.len(),
{
    proof {
        lemma_find_org(orgs_view(orgs@), id@);
    }
    let ghost v = orgs_view(orgs@);
    let mut i: usize = 0;
    while i < orgs.len()
        invariant
            i <= orgs.len(),
            v == orgs_view(orgs@),
            spec_find_org(v.take(i as int), id@) is None,
        decreases orgs.len() - i,
    {
        assert(v.take(i + 1).drop_last() =~= v.take(i as int));
        if str_eq(orgs[i].id.as_str(), id) {
            proof {
                assert(v[i as int] == orgs@[i as int]@);
                lemma_find_org(v, id@);
                lemma_find_org(v.take(i as int), id@);
                assert forall|k: int| 0 <= k < i implies v[k].0 != id@ by {
                    assert(v.take(i as int)[k] == v[k]);
                }
                match spec_find_org(v, id@) {
                    Some(j) => {
                        if j > i {
                            assert(v[i as int].0 == id@);
                        }
                    }
                    None => {
                        assert(v[i as int].0 == id@);
                    }
                }
            }
            return Some(i);
        }
        i += 1;
    }
    proof {
        assert(v.take(i as int) =~= v);
    }
    None
}

impl OrgStore {
    /// The (id, name) pairs of the organisations.
    pub open spec fn spec_orgs(self) -> Seq<(Seq<char>, Seq<char>)> {
        orgs_view(self.orgs@)
    }

    /// Falls back to the first organisation (or the empty id) when the active id
    /// names no organisation.
    pub fn normalize(&mut self)
        ensures
            final(self).orgs@ == old(self).orgs@,
            final(self).current@ == spec_normalized_current(old(self).spec_orgs(), old(self).current@),
    {
        match position(&self.orgs, self.current.as_str()) {
            Some(_) => {}
            None => {
                if self.orgs.len() > 0 {
                    self.current = self.orgs[0].id.clone();
                } else {
                    self.current = String::new();
                }
            }
        }
    }

    /// The active organisation: the first one whose id is the active id.
    pub fn current_org(&self) -> (r: Option<&Organization>)
        ensures
            r matches Some(o) ==> spec_find_org(self.spec_orgs(), self.current@) matches Some(i) && *o == self.orgs@[i],
            r is None <==> spec_find_org(self.spec_orgs(), self.current@) is None,
    {
        proof {
            lemma_find_org(self.spec_orgs(), self.current@);
        }
        match position(&self.orgs, self.current.as_str()) {
            Some(i) => {
                let o = &self.orgs[i];
                assert(spec_find_org(self.spec_orgs(), self.current@) == Some(i as int));
                assert(*o == self.orgs@[i as int]);
                Some(o)
            }
            None => None,
        }
    }

    /// Renames the first organisation with id `id` to the trimmed `name`; false
    /// when no organisation has that id.
    pub fn rename_org(&mut self, id: &str, name: &str) -> (r: bool)
        ensures
            r == spec_find_org(old(self).spec_orgs(), id@) is Some,
            final(self).current@ == old(self).current@,
            final(self).spec_orgs() == (match spec_find_org(old(self).spec_orgs(), id@) {
                Some(i) => old(self).spec_orgs().update(i, (old(self).spec_orgs()[i].0, spec_trim(name@))),
                None => old(self).spec_orgs(),
            }),
    {
        proof {
            lemma_find_org(self.spec_orgs(), id@);
        }
        match position(&self.orgs, id) {
            Some(i) => {
                let ghost before = self.spec_orgs();
                let new_org = Organization { id: self.orgs[i].id.clone(), name: to_owned_string(trim(name)) };
                self.orgs.set(i, new_org);
                assert(self.spec_orgs() =~= before.update(i as int, (before[i as int].0, spec_trim(name@))));
                true
            }
            None => false,
        }
    }

    /// Adds an organisation whose id comes from the time `now_ms` (`new_id`) and
    /// makes it active; returns the id.
    pub fn add(&mut self, name: &str, now_ms: u64) -> (r: String)
        ensures
            r@ == spec_id_from_ms(now_ms),
            r@.len() == 16,
            forall|i: int| 0 <= i < r@.len() ==> spec_is_lower_hex_digit(#[trigger] r@[i]),
            final(self).spec_orgs() == old(self).spec_orgs().push((r@, spec_new_org_name(name@))),
            final(self).current@ == r@,
    {
        let id = new_id(now_ms);
        let id2 = id.clone();
        self.add_with_id(id, name);
        id2
    }

    /// Adds an organisation with id `id` and the given name (trimmed; a default
    /// name when empty) and makes it active.
    pub fn add_with_id(&mut self, id: String, name: &str)
        ensures
            final(self).spec_orgs() == old(self).spec_orgs().push((id@, spec_new_org_name(name@))),
            final(self).current@ == id@,
    {
        let trimmed = trim(name);
        let name_ok = if trimmed.is_empty() {
            to_owned_string("Nouvelle organisation")
        } else {
            to_owned_string(trimmed)
        };
        let current = id.clone();
        let ghost before = self.spec_orgs();
        self.orgs.push(Organization { id, name: name_ok });
        self.current = current;
        assert(self.spec_orgs() =~= before.push((current@, spec_new_org_name(name@))));
    }

    /// Removes the first organisation with id `id` and returns its name, then falls
    /// back to an existing active organisation; `None` when no organisation has
    /// that id.
    pub fn remove(&mut self, id: &str) -> (r: Option<String>)
        ensures
            match spec_find_org(old(self).spec_orgs(), id@) {
                None => r is None && final(self).spec_orgs() == old(self).spec_orgs()
                    && final(self).current@ == old(self).current@,
                Some(i) => r matches Some(name) && name@ == old(self).spec_orgs()[i].1
                    && final(self).spec_orgs() == old(self).spec_orgs().remove(i)
                    && final(self).current@ == spec_normalized_current(old(self).spec_orgs().remove(i), old(self).current@),
            },
    {
        proof {
            lemma_find_org(self.spec_orgs(), id@);
        }
        match position(&self.orgs, id) {
            None => None,
            Some(pos) => {
                let ghost before = self.spec_orgs();
                let removed = self.orgs.remove(pos);
                assert(self.spec_orgs() =~= before.remove(pos as int));
                assert(removed@ == before[pos as int]);
                assert(spec_find_org(before, id@) == Some(pos as int));
                self.normalize();
                Some(removed.name)
            }
        }
    }
}

/// Seeds the default organisation (empty id) at the front of `store`, named after
/// the matrix's company (trimmed) or `Organisation` when that is blank, then falls
/// back to an existing active organisation.
pub fn apply_defaults(store: OrgStore, matrix: &MatrixState) -> (r: OrgStore)
    ensures
        r.spec_orgs() == seq![(Seq::<char>::empty(), spec_default_org_name(matrix.company_name@))] + store.spec_orgs(),
        r.current@ == spec_normalized_current(r.spec_orgs(), store.current@),
{
    let mut store = store;
    let trimmed = trim(matrix.company_name.as_str());
    let name = if trimmed.is_empty() {
        to_owned_string("Organisation")
    } else {
        to_owned_string(trimmed)
    };
    let ghost before = store.spec_orgs();
    store.orgs.insert(0, Organization { id: String::new(), name });
    assert(store.spec_orgs() =~= seq![(Seq::<char>::empty(), spec_default_org_name(matrix.company_name@))] + before);
    store.normalize();
    store
}

/// The organisations to start with: the stored ones when some are stored,
/// otherwise the default organisation seeded from the matrix saved before there
/// were several organisations (`apply_defaults`).
pub fn initial_store(stored: Option<OrgStore>, legacy: &MatrixState) -> (r: OrgStore)
    ensures
        (stored matches Some(st) && st.orgs@.len() > 0) ==> r == stored->0,
        !(stored matches Some(st) && st.orgs@.len() > 0) ==> r.spec_orgs()
            == seq![(Seq::<char>::empty(), spec_default_org_name(legacy.company_name@))]
            && r.current@ == spec_normalized_current(r.spec_orgs(), Seq::<char>::empty()),
{
    match stored {
        Some(st) => {
            if st.orgs.len() > 0 {
                return st;
            }
        },
        None => {},
    }
    let fresh = OrgStore::default();
    let r = apply_defaults(fresh, legacy);
    assert(r.spec_orgs() =~= seq![(Seq::<char>::empty(), spec_default_org_name(legacy.company_name@))]);
    r
}

/// Name of the seeded default organisation.
pub open spec fn spec_default_org_name(company: Seq<char>) -> Seq<char> {
    if spec_trim(company).len() == 0 { "Organisation"@ } else { spec_trim(company) }
}

/// After falling back, the active id names an organisation whenever there is one,
/// and is the empty id when there is none; falling back again changes nothing.
pub proof fn normalized_current_is_valid(orgs: Seq<(Seq<char>, Seq<char>)>, current: Seq<char>)
    ensures
        orgs.len() > 0 ==> spec_find_org(orgs, spec_normalized_current(orgs, current)) is Some,
        orgs.len() == 0 ==> spec_normalized_current(orgs, current) == Seq::<char>::empty(),
        spec_normalized_current(orgs, spec_normalized_current(orgs, current)) == spec_normalized_current(orgs, current),
{
    lemma_find_org(orgs, current);
    if orgs.len() > 0 && spec_find_org(orgs, current) is None {
        lemma_find_org(orgs, orgs[0].0);
        if spec_find_org(orgs, orgs[0].0) is None {
            assert(orgs[0].0 == orgs[0].0);
        }
    }
    if orgs.len() == 0 {
        assert(spec_find_org(orgs, current) is None);
    }
}

/// Falling back keeps an active id that names some organisation, and otherwise
/// picks the id of the first organisation in the list (the empty id when there is
/// none).
pub proof fn fallback_picks_the_first_org(orgs: Seq<(Seq<char>, Seq<char>)>, current: Seq<char>)
    ensures
        (exists|k: int| 0 <= k < orgs.len() && #[trigger] orgs[k].0 == current)
            ==> spec_normalized_current(orgs, current) == current,
        (forall|k: int| 0 <= k < orgs.len() ==> #[trigger] orgs[k].0 != current) && orgs.len() > 0
            ==> spec_normalized_current(orgs, current) == orgs[0].0,
        orgs.len() == 0 ==> spec_normalized_current(orgs, current) == Seq::<char>::empty(),
{
    lemma_find_org(orgs, current);
    if exists|k: int| 0 <= k < orgs.len() && #[trigger] orgs[k].0 == current {
        let k = choose|k: int| 0 <= k < orgs.len() && #[trigger] orgs[k].0 == current;
        if spec_find_org(orgs, current) is None {
            assert(orgs[k].0 != current);
        }
    }
}

/// Removing the active organisation makes the first remaining organisation active
/// (as `OrgStore::remove` does through falling back).
pub proof fn removing_active_org_activates_first_remaining(
    orgs: Seq<(Seq<char>, Seq<char>)>,
    i: int,
)
    requires
        0 <= i < orgs.len(),
        orgs.len() > 1,
        forall|k: int| 0 <= k < orgs.len() && k != i ==> #[trigger] orgs[k].0 != orgs[i].0,
    ensures
        spec_normalized_current(orgs.remove(i), orgs[i].0) == orgs.remove(i)[0].0,
{
    let rest = orgs.remove(i);
    assert forall|k: int| 0 <= k < rest.len() implies #[trigger] rest[k].0 != orgs[i].0 by {
        if k < i {
            assert(rest[k] == orgs[k]);
        } else {
            assert(rest[k] == orgs[k + 1]);
        }
    }
    fallback_picks_the_first_org(rest, orgs[i].0);
}

/// An organisation added under an id no other organisation has becomes the active
/// one: the active organisation is the one just added.
pub proof fn added_org_is_current(orgs: Seq<(Seq<char>, Seq<char>)>, id: Seq<char>, name: Seq<char>)
    requires
        spec_find_org(orgs, id) is None,
    ensures
        spec_find_org(orgs.push((id, spec_new_org_name(name))), id) == Some(orgs.len() as int),
        orgs.push((id, spec_new_org_name(name)))[orgs.len() as int] == (id, spec_new_org_name(name)),
{
    assert(orgs.push((id, spec_new_org_name(name))).drop_last() =~= orgs);
}

// ── Storage keys ─────────────────────────────────────────────────────────────

/// `base` for the default organisation, else `base__{org_id}`.
pub open spec fn spec_suffix(base: Seq<char>, org_id: Seq<char>) -> Seq<char> {
    if org_id.len() == 0 { base } else { base + "__"@ + org_id }
}

pub(crate) fn suffix(base: &str, org_id: &str) -> (r: String)
    ensures
        r@ == spec_suffix(base@, org_id@),
{
    if org_id.is_empty() {
        to_owned_string(base)
    } else {
        let mut s = concat2(base, "__");
        s.append(org_id);
        s
    }
}

/// Different organisations never share a storage key (nor a backup file name).
pub proof fn suffixed_keys_distinct(base: Seq<char>, a: Seq<char>, b: Seq<char>)
    requires
        a != b,
    ensures
        spec_suffix(base, a) != spec_suffix(base, b),
{
    if a.len() == 0 {
        if b.len() == 0 {
            assert(a =~= b);
        }
        assert(spec_suffix(base, b).len() > base.len()) by {
            reveal_strlit("__");
        }
    } else if b.len() == 0 {
        assert(spec_suffix(base, a).len() > base.len()) by {
            reveal_strlit("__");
        }
    } else {
        let sa = spec_suffix(base, a);
        let sb = spec_suffix(base, b);
        if sa == sb {
            reveal_strlit("__");
            let p = base + "__"@;
            assert(sa.subrange(p.len() as int, sa.len() as int) =~= a);
            assert(sb.subrange(p.len() as int, sb.len() as int) =~= b);
        }
    }
}

/// Storage key of an organisation's matrix state.
pub fn matrix_key(org_id: &str) -> (r: String)
    ensures
        r@ == spec_suffix("sre_matrix_audit_cache"@, org_id@),
{
    suffix("sre_matrix_audit_cache", org_id)
}

/// Storage key of an organisation's roadmap state.
pub fn roadmap_key(org_id: &str) -> (r: String)
    ensures
        r@ == spec_suffix("sre_audit_roadmap_cache"@, org_id@),
{
    suffix("sre_audit_roadmap_cache", org_id)
}

// ── Organisation ids ─────────────────────────────────────────────────────────

/// The eight little-endian bytes of `n`.
pub open spec fn spec_le_bytes(n: u64) -> Seq<u8> {
    Seq::new(8, |i: int| ((n >> ((8 * i) as u64)) & 0xff) as u8)
}

pub open spec fn spec_hex_digit(d: u8) -> char {
    if d < 10 { ((d as u32) + ('0' as u32)) as char } else { ((d as u32) - 10 + ('a' as u32)) as char }
}

pub open spec fn spec_is_lower_hex_digit(c: char) -> bool {
    ('0' <= c && c <= '9') || ('a' <= c && c <= 'f')
}

/// Two lower-case hex digits per byte, high nibble first.
pub open spec fn spec_hex(bytes: Seq<u8>) -> Seq<char>
    decreases bytes.len(),
{
    if bytes.len() == 0 {
        Seq::<char>::empty()
    } else {
        spec_hex(bytes.drop_last()) + seq![spec_hex_digit(bytes.last() >> 4), spec_hex_digit(bytes.last() & 0x0f)]
    }
}

/// The id made from the time `ms`: the hex of its little-endian bytes.
pub open spec fn spec_id_from_ms(ms: u64) -> Seq<char> {
    spec_hex(spec_le_bytes(ms))
}

proof fn lemma_hex_shape(bytes: Seq<u8>)
    ensures
        spec_hex(bytes).len() == 2 * bytes.len(),
        forall|i: int| 0 <= i < spec_hex(bytes).len() ==> spec_is_lower_hex_digit(#[trigger] spec_hex(bytes)[i]),
    decreases bytes.len(),
{
    if bytes.len() > 0 {
        lemma_hex_shape(bytes.drop_last());
        let b = bytes.last();
        assert(b >> 4 < 16 && b & 0x0f < 16) by (bit_vector);
    }
}

fn hex_digit(d: u8) -> (r: char)
    requires
        d < 16,
    ensures
        r == spec_hex_digit(d),
{
    if d < 10 {
        ((d + 48) as u8) as char
    } else {
        ((d - 10 + 97) as u8) as char
    }
}

fn hex(bytes: &Vec<u8>) -> (r: String)
    ensures
        r@ == spec_hex(bytes@),
{
    let mut s = String::new();
    let mut i: usize = 0;
    while i < bytes.len()
        invariant
            i <= bytes.len(),
            s@ == spec_hex(bytes@.take(i as int)),
        decreases bytes.len() - i,
    {
        let b = bytes[i];
        assert(b >> 4 < 16 && b & 0x0f < 16) by (bit_vector);
        push_char(&mut s, hex_digit(b >> 4));
        push_char(&mut s, hex_digit(b & 0x0f));
        assert(bytes@.take(i + 1).drop_last() =~= bytes@.take(i as int));
        i += 1;
    }
    assert(bytes@.take(bytes.len() as int) =~= bytes@);
    s
}

/// A new organisation id from the time `now_ms` (milliseconds since the Unix
/// epoch, read by the caller from the clock): the 16 lower-case hex digits of its
/// little-endian bytes.
pub fn new_id(now_ms: u64) -> (r: String)
    ensures
        r@ == spec_id_from_ms(now_ms),
        r@.len() == 16,
        forall|i: int| 0 <= i < r@.len() ==> spec_is_lower_hex_digit(#[trigger] r@[i]),
{
    let mut bytes: Vec<u8> = Vec::new();
    let mut i: u64 = 0;
    while i < 8
        invariant
            i <= 8,
            bytes@ == spec_le_bytes(now_ms).take(i as int),
        decreases 8 - i,
    {
        let b = ((now_ms >> (8 * i)) & 0xff) as u8;
        bytes.push(b);
        assert(bytes@ =~= spec_le_bytes(now_ms).take(i + 1));
        i += 1;
    }
    assert(bytes@ =~= spec_le_bytes(now_ms));
    proof {
        lemma_hex_shape(bytes@);
    }
    hex(&bytes)
}


} // verus!
