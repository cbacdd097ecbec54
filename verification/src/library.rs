use vstd::prelude::*;

verus! {

use vstd::set_lib::{lemma_int_range, lemma_len_subset, set_int_range};
use crate::float_bits::{f32_eq, f32_is_nan, float_eq};
use crate::catalog::{Catalog, LibraryMaterial, LibraryUnits, MaterialView, material_views};
use crate::sidebar::SidebarPage;
use crate::text::{decimal, lemma_decimal_injective, push_decimal, str_eq};

/// A project material record. Its constants are `f32` bit patterns.
#[derive(Clone, Debug)]
pub struct FemMaterial {
    pub name: String,
    pub young_modulus: Option<u32>,
    pub poisson_ratio: Option<u32>,
    pub density: Option<u32>,
}

/// `==` on two optional `f32` constants.
pub open spec fn same_constant(a: Option<u32>, b: Option<u32>) -> bool {
    match (a, b) {
        (None, None) => true,
        (Some(x), Some(y)) => f32_eq(x, y),
        _ => false,
    }
}

/// Whether two materials hold equal constants (`==` on each field but the name).
pub open spec fn same_constants(a: FemMaterial, b: FemMaterial) -> bool {
    same_constant(a.young_modulus, b.young_modulus) && same_constant(a.poisson_ratio, b.poisson_ratio)
        && same_constant(a.density, b.density)
}

/// The `k`-th name tried for a material called `base`: `base` itself, then
/// `base_2`, `base_3`, ...
pub open spec fn material_candidate(base: Seq<char>, k: nat) -> Seq<char> {
    if k <= 1 {
        base
    } else {
        base + "_"@ + decimal(k)
    }
}

/// Whether some project material is called `name`.
pub open spec fn has_material_named(materials: Seq<FemMaterial>, name: Seq<char>) -> bool {
    exists|i: int| 0 <= i < materials.len() && #[trigger] materials[i].name@ == name
}

/// Whether material `i` is the only one called `name`.
pub open spec fn only_named(materials: Seq<FemMaterial>, name: Seq<char>, i: int) -> bool {
    &&& 0 <= i < materials.len()
    &&& materials[i].name@ == name
    &&& forall|j: int| 0 <= j < materials.len() && j != i ==> #[trigger] materials[j].name@ != name
}

/// Whether `material` may be stored as `name`: nobody uses the name yet, or
/// the single record that does holds the same constants (and is reused).
pub open spec fn name_fits(materials: Seq<FemMaterial>, material: FemMaterial, name: Seq<char>) -> bool {
    !has_material_named(materials, name) || exists|i: int|
        only_named(materials, name, i) && #[trigger] same_constants(materials[i], material)
}

/// `k` is the first candidate number whose name fits.
pub open spec fn first_fitting(materials: Seq<FemMaterial>, material: FemMaterial, k: nat) -> bool {
    &&& 1 <= k
    &&& name_fits(materials, material, material_candidate(material.name@, k))
    &&& forall|j: nat| 1 <= j < k ==> !#[trigger] name_fits(materials, material, material_candidate(material.name@, j))
}

/// The name under which `material` is stored in a project holding `materials`.
pub open spec fn resolved_name(materials: Seq<FemMaterial>, material: FemMaterial, name: Seq<char>) -> bool {
    exists|k: nat| #[trigger] material_candidate(material.name@, k) == name && first_fitting(materials, material, k)
}

/// Whether a material's constants are all numbers (no NaN), so that the
/// material compares equal to itself.
pub open spec fn constants_not_nan(m: FemMaterial) -> bool {
    &&& (m.young_modulus matches Some(x) ==> !f32_is_nan(x))
    &&& (m.poisson_ratio matches Some(x) ==> !f32_is_nan(x))
    &&& (m.density matches Some(x) ==> !f32_is_nan(x))
}

/// The project that [`use_material`] leaves behind, given the name it chose.
pub open spec fn stored_after(before: Seq<FemMaterial>, material: FemMaterial, name: Seq<char>, after: Seq<FemMaterial>) -> bool {
    &&& has_material_named(before, name) ==> after == before
    &&& !has_material_named(before, name) ==> {
        &&& after.len() == before.len() + 1
        &&& after.subrange(0, before.len() as int) == before
        &&& after.last().name@ == name
        &&& after.last().young_modulus == material.young_modulus
        &&& after.last().poisson_ratio == material.poisson_ratio
        &&& after.last().density == material.density
    }
}

/// A material has exactly one resolved name.
pub proof fn lemma_resolved_name_unique(materials: Seq<FemMaterial>, material: FemMaterial, a: Seq<char>, b: Seq<char>)
    requires
        resolved_name(materials, material, a),
        resolved_name(materials, material, b),
    ensures
        a == b,
{
    let ka = choose|k: nat| #[trigger] material_candidate(material.name@, k) == a && first_fitting(materials, material, k);
    let kb = choose|k: nat| #[trigger] material_candidate(material.name@, k) == b && first_fitting(materials, material, k);
    if ka < kb {
        assert(!name_fits(materials, material, material_candidate(material.name@, ka)));
    } else if kb < ka {
        assert(!name_fits(materials, material, material_candidate(material.name@, kb)));
    }
}

/// Using a library material a second time gives the same name and leaves the
/// project as the first use left it (for constants that are numbers).
pub proof fn lemma_use_material_twice(
    before: Seq<FemMaterial>,
    material: FemMaterial,
    name: Seq<char>,
    after: Seq<FemMaterial>,
    again: Seq<char>,
)
    requires
        constants_not_nan(material),
        resolved_name(before, material, name),
        stored_after(before, material, name, after),
        resolved_name(after, material, again),
    ensures
        again == name,
        has_material_named(after, name),
        stored_after(after, material, again, after),
{
    let base = material.name@;
    let k = choose|k: nat| #[trigger] material_candidate(base, k) == name && first_fitting(before, material, k);
    if has_material_named(before, name) {
        lemma_resolved_name_unique(after, material, name, again);
    } else {
        let n = before.len() as int;
        assert(after[n] == after.last());
        assert(forall|i: int| 0 <= i < n ==> #[trigger] after[i] == before[i]) by {
            assert forall|i: int| 0 <= i < n implies #[trigger] after[i] == before[i] by {
                assert(after.subrange(0, n)[i] == after[i]);
            }
        }
        assert(same_constants(after[n], material));
        assert(only_named(after, name, n));
        assert(name_fits(after, material, name));
        assert forall|j: nat| 1 <= j < k implies !#[trigger] name_fits(after, material, material_candidate(base, j)) by {
            let c = material_candidate(base, j);
            assert(!name_fits(before, material, c));
            if c == name {
                lemma_candidate_injective(base, j, k);
            }
            assert(after[n].name@ != c);
            let w0 = choose|w: int| 0 <= w < before.len() && #[trigger] before[w].name@ == c;
            assert(after[w0].name@ == c);
            if name_fits(after, material, c) {
                let w = choose|w: int| only_named(after, c, w) && #[trigger] same_constants(after[w], material);
                assert(w != n);
                assert(w == w0);
                assert forall|q: int| 0 <= q < before.len() && q != w implies #[trigger] before[q].name@ != c by {
                    assert(after[q] == before[q]);
                }
                assert(only_named(before, c, w));
                assert(same_constants(before[w], material));
            }
        }
        assert(first_fitting(after, material, k));
        assert(resolved_name(after, material, name));
        lemma_resolved_name_unique(after, material, name, again);
    }
}

/// Distinct candidate numbers give distinct names.
proof fn lemma_candidate_injective(base: Seq<char>, a: nat, b: nat)
    requires
        1 <= a,
        1 <= b,
        material_candidate(base, a) == material_candidate(base, b),
    ensures
        a == b,
{
    crate::text::lemma_decimal_facts(a);
    crate::text::lemma_decimal_facts(b);
    if a >= 2 && b >= 2 {
        let p = base + "_"@;
        assert(material_candidate(base, a) == p + decimal(a));
        assert(material_candidate(base, b) == p + decimal(b));
        assert((p + decimal(a)).subrange(p.len() as int, (p + decimal(a)).len() as int) =~= decimal(a));
        assert((p + decimal(b)).subrange(p.len() as int, (p + decimal(b)).len() as int) =~= decimal(b));
        lemma_decimal_injective(a, b);
    } else if a >= 2 {
        assert(material_candidate(base, a).len() > base.len());
    } else if b >= 2 {
        assert(material_candidate(base, b).len() > base.len());
    }
}

fn constant_eq(a: Option<u32>, b: Option<u32>) -> (same: bool)
    ensures
        same == same_constant(a, b),
{
    match (a, b) {
        (None, None) => true,
        (Some(x), Some(y)) => float_eq(x, y),
        _ => false,
    }
}

fn constants_eq(a: &FemMaterial, b: &FemMaterial) -> (same: bool)
    ensures
        same == same_constants(*a, *b),
{
    constant_eq(a.young_modulus, b.young_modulus) && constant_eq(a.poisson_ratio, b.poisson_ratio) && constant_eq(
        a.density,
        b.density,
    )
}

/// Index of the first material called `name` (`AnalysisSetup::material_by_name`).
pub fn material_by_name(materials: &Vec<FemMaterial>, name: &str) -> (found: Option<usize>)
    ensures
        match found {
            Some(i) => i < materials.len() && materials@[i as int].name@ == name@ && forall|j: int|
                0 <= j < i ==> #[trigger] materials@[j].name@ != name@,
            None => !has_material_named(materials@, name@),
        },
{
    let mut i: usize = 0;
    while i < materials.len()
        invariant
            i <= materials.len(),
            forall|j: int| 0 <= j < i ==> #[trigger] materials@[j].name@ != name@,
        decreases materials.len() - i,
    {
        if str_eq(materials[i].name.as_str(), name) {
            return Some(i);
        }
        i += 1;
    }
    None
}

/// Whether no material after the `first` one is called `name`.
fn no_other_named(materials: &Vec<FemMaterial>, name: &str, first: usize) -> (unique: bool)
    requires
        first < materials.len(),
        materials@[first as int].name@ == name@,
        forall|j: int| 0 <= j < first ==> #[trigger] materials@[j].name@ != name@,
    ensures
        unique == only_named(materials@, name@, first as int),
{
    let mut i: usize = first + 1;
    while i < materials.len()
        invariant
            first < i <= materials.len(),
            materials@[first as int].name@ == name@,
            forall|j: int| 0 <= j < i && j != first ==> #[trigger] materials@[j].name@ != name@,
        decreases materials.len() - i,
    {
        if str_eq(materials[i].name.as_str(), name) {
            return false;
        }
        i += 1;
    }
    true
}

/// The name `material` gets in a project holding `materials`: its own name,
/// or the first of `NAME_2`, `NAME_3`, ... that nobody uses or that the one
/// record with equal constants already uses.
pub fn resolved_material_name(materials: &Vec<FemMaterial>, material: &FemMaterial) -> (name: String)
    requires
        materials.len() < usize::MAX,
    ensures
        resolved_name(materials@, *material, name@),
{
    let len = materials.len();
    let ghost base = material.name@;
    let mut candidate = material.name.clone();
    let mut number: usize = 1;
    let ghost mut used: Set<int> = Set::empty();
    let ghost mut owner: Map<int, nat> = Map::empty();
    proof {
        lemma_int_range(0, len as int);
    }
    loop
        invariant
            len == materials.len(),
            len < usize::MAX,
            base == material.name@,
            1 <= number <= len + 1,
            candidate@ == material_candidate(base, number as nat),
            used.finite(),
            used.len() == number - 1,
            used.subset_of(set_int_range(0, len as int)),
            set_int_range(0, len as int).finite(),
            set_int_range(0, len as int).len() == len,
            forall|i: int| #[trigger] used.contains(i) ==> owner.dom().contains(i) && 1 <= owner[i] < number
                && materials@[i].name@ == material_candidate(base, owner[i]),
            forall|j: nat| 1 <= j < number ==> !#[trigger] name_fits(materials@, *material, material_candidate(base, j)),
        decreases len + 1 - number,
    {
        let found = material_by_name(materials, candidate.as_str());
        let first = match found {
            None => {
                proof {
                    assert(first_fitting(materials@, *material, number as nat));
                }
                return candidate;
            },
            Some(i) => i,
        };
        if constants_eq(&materials[first], material) && no_other_named(materials, candidate.as_str(), first) {
            proof {
                assert(same_constants(materials@[first as int], *material));
                assert(name_fits(materials@, *material, candidate@));
                assert(first_fitting(materials@, *material, number as nat));
            }
            return candidate;
        }
        proof {
            if !name_fits(materials@, *material, candidate@) {
            } else {
                let w = choose|w: int| only_named(materials@, candidate@, w) && #[trigger] same_constants(materials@[w], *material);
                assert(w == first as int);
            }
            if used.contains(first as int) {
                lemma_candidate_injective(base, owner[first as int], number as nat);
            }
            assert(!used.contains(first as int));
            used = used.insert(first as int);
            owner = owner.insert(first as int, number as nat);
            lemma_len_subset(used, set_int_range(0, len as int));
        }
        number = number + 1;
        let mut next = material.name.clone();
        next.append("_");
        push_decimal(&mut next, number);
        proof {
            assert(next@ =~= material_candidate(base, number as nat));
        }
        candidate = next;
    }
}

/// A copy of `material` under another name.
fn renamed(material: &FemMaterial, name: String) -> (copy: FemMaterial)
    ensures
        copy.name == name,
        copy.young_modulus == material.young_modulus,
        copy.poisson_ratio == material.poisson_ratio,
        copy.density == material.density,
{
    FemMaterial {
        name,
        young_modulus: material.young_modulus,
        poisson_ratio: material.poisson_ratio,
        density: material.density,
    }
}

/// Stores `material` in the project under its resolved name and returns the
/// name: an equal record is reused, existing records are never changed, and a
/// new record is appended only when the name is free.
pub fn use_material(materials: &mut Vec<FemMaterial>, material: FemMaterial) -> (name: String)
    requires
        old(materials).len() < usize::MAX,
    ensures
        resolved_name(old(materials)@, material, name@),
        stored_after(old(materials)@, material, name@, final(materials)@),
{
    let name = resolved_material_name(materials, &material);
    match material_by_name(materials, name.as_str()) {
        Some(_) => {},
        None => {
            let record = renamed(&material, name.clone());
            materials.push(record);
            assert(materials@.subrange(0, old(materials)@.len() as int) =~= old(materials)@);
        },
    }
    name
}


/// What the library panel does with a button press.
pub enum LibraryAction {
    Open,
    Reload,
    Select(String),
    Units(LibraryUnits),
}

/// The outcome of a background library load.
pub enum LoadOutcome {
    /// A file was read (or failed to be read) at this path.
    Loaded(String, Result<Catalog, String>),
    /// The file dialog was dismissed.
    Cancelled,
    /// The loader stopped without replying.
    Interrupted,
}

/// What pressing a library button led to.
#[derive(Clone, Copy, Debug, PartialEq, Eq, Structural)]
pub enum LibraryPress {
    /// Nothing changed.
    Ignored,
    /// A background load must be started, with a file dialog or not.
    Load { open_dialog: bool },
    /// A catalogue material was chosen; the project material choice is dropped.
    Selected,
    /// The unit system was chosen.
    Units,
}

/// What the details line of the panel shows.
#[derive(Clone, Copy, Debug, PartialEq, Eq, Structural)]
pub enum LibraryDetail {
    /// The status message.
    Status,
    /// The selected catalogue material, by index.
    Entry(usize),
    /// The prompt to choose units and a material.
    Prompt,
}

/// The material library panel: the loaded catalogue and a draft selection.
/// Selections are drafts; only a confirmed assignment changes the project.
pub struct MaterialLibraryState {
    pub catalog: Option<Catalog>,
    pub selected: Option<String>,
    pub units: Option<LibraryUnits>,
    pub path: String,
    pub revision: u64,
    pub status: String,
    /// Whether a background load is running.
    pub pending: bool,
}

/// The catalogue's records, empty when none is loaded.
pub open spec fn catalog_records(catalog: Option<Catalog>) -> Seq<MaterialView> {
    match catalog {
        Some(c) => c@,
        None => Seq::empty(),
    }
}

/// The index of the first record called `name`.
pub open spec fn first_record_named(records: Seq<MaterialView>, name: Seq<char>, i: int) -> bool {
    &&& 0 <= i < records.len()
    &&& records[i].name == name
    &&& forall|j: int| 0 <= j < i ==> #[trigger] records[j].name != name
}

/// Whether some record is called `name`.
pub open spec fn has_record_named(records: Seq<MaterialView>, name: Seq<char>) -> bool {
    exists|i: int| 0 <= i < records.len() && #[trigger] records[i].name == name
}

/// `after` is `before` once a load has started: the request is pending, the
/// selection is dropped and the status says what is happening; the
/// catalogue, units, path and revision are kept.
pub open spec fn loading_started(before: MaterialLibraryState, after: MaterialLibraryState, open_dialog: bool) -> bool {
    &&& after.pending
    &&& after.selected is None
    &&& after.status@ == (if open_dialog {
        "Choose a TOML file..."@
    } else {
        "Reloading..."@
    })
    &&& after.catalog == before.catalog
    &&& after.units == before.units
    &&& after.path == before.path
    &&& after.revision == before.revision
}

/// What a press on a library button does: nothing while a load runs;
/// otherwise Open and Reload start a load, Select chooses an existing record
/// and Units sets the unit system.
pub open spec fn press_outcome(
    before: MaterialLibraryState,
    after: MaterialLibraryState,
    action: LibraryAction,
    effect: LibraryPress,
) -> bool {
    &&& before.pending ==> effect == LibraryPress::Ignored && after == before
    &&& !before.pending ==> match action {
        LibraryAction::Open => effect == (LibraryPress::Load { open_dialog: true })
            && loading_started(before, after, true),
        LibraryAction::Reload => effect == (LibraryPress::Load { open_dialog: false })
            && loading_started(before, after, false),
        LibraryAction::Select(name) => {
            &&& (effect == LibraryPress::Selected) == has_record_named(catalog_records(before.catalog), name@)
            &&& (effect == LibraryPress::Selected || effect == LibraryPress::Ignored)
            &&& effect == LibraryPress::Selected ==> {
                &&& after.selected matches Some(s) && s@ == name@
                &&& after.status@ == Seq::<char>::empty()
                &&& after.catalog == before.catalog
                &&& after.units == before.units
                &&& after.path == before.path
                &&& after.revision == before.revision
                &&& after.pending == before.pending
            }
            &&& effect == LibraryPress::Ignored ==> after == before
        },
        LibraryAction::Units(u) => {
            &&& effect == LibraryPress::Units
            &&& after.units == Some(u)
            &&& after.selected == before.selected
            &&& after.catalog == before.catalog
            &&& after.status == before.status
            &&& after.path == before.path
            &&& after.revision == before.revision
            &&& after.pending == before.pending
        },
    }
}

/// The message shown when a library cannot be loaded.
pub open spec fn load_error_message(error: Seq<char>) -> Seq<char> {
    "Cannot load library: "@ + error
}

/// The source line of a record: its source, else its URL, else a warning.
pub open spec fn source_text(m: MaterialView) -> Seq<char> {
    if m.source.len() > 0 {
        m.source
    } else if m.source_url.len() > 0 {
        m.source_url
    } else {
        "User-defined (verify constants)"@
    }
}

fn find_record(catalog: &Catalog, name: &str) -> (found: Option<usize>)
    ensures
        match found {
            Some(i) => first_record_named(catalog@, name@, i as int),
            None => !has_record_named(catalog@, name@),
        },
{
    let mut i: usize = 0;
    while i < catalog.materials.len()
        invariant
            i <= catalog.materials.len(),
            catalog@ == material_views(catalog.materials@),
            forall|j: int| 0 <= j < i ==> #[trigger] catalog@[j].name != name@,
        decreases catalog.materials.len() - i,
    {
        assert(catalog@[i as int] == catalog.materials@[i as int]@);
        if str_eq(catalog.materials[i].name.as_str(), name) {
            return Some(i);
        }
        i += 1;
    }
    None
}

/// The source line of a record.
pub fn entry_source(entry: &LibraryMaterial) -> (text: String)
    ensures
        text@ == source_text(entry@),
{
    if entry.source.unicode_len() > 0 {
        entry.source.clone()
    } else if entry.source_url.unicode_len() > 0 {
        entry.source_url.clone()
    } else {
        String::from_str("User-defined (verify constants)")
    }
}

impl MaterialLibraryState {
    /// The panel after the catalogue at `path` was read with `result`.
    pub fn loaded(path: String, result: Result<Catalog, String>) -> (state: Self)
        ensures
            state.path == path,
            state.selected is None,
            state.units is None,
            state.revision == 1,
            !state.pending,
            match result {
                Ok(c) => state.catalog == Some(c) && state.status@ == Seq::<char>::empty(),
                Err(e) => state.catalog is None && state.status@ == load_error_message(e@),
            },
    {
        let mut state = MaterialLibraryState {
            catalog: None,
            selected: None,
            units: None,
            path: String::new(),
            revision: 0,
            status: String::new(),
            pending: false,
        };
        state.install(path, result);
        state
    }

    /// Installs the result of reading the catalogue at `path`: the selection
    /// is dropped and the revision advances.
    pub fn install(&mut self, path: String, result: Result<Catalog, String>)
        requires
            old(self).revision < u64::MAX,
        ensures
            final(self).path == path,
            final(self).selected is None,
            final(self).units == old(self).units,
            final(self).revision == old(self).revision + 1,
            final(self).pending == old(self).pending,
            match result {
                Ok(c) => final(self).catalog == Some(c) && final(self).status@ == Seq::<char>::empty(),
                Err(e) => final(self).catalog is None && final(self).status@ == load_error_message(e@),
            },
    {
        self.path = path;
        self.selected = None;
        self.revision = self.revision + 1;
        match result {
            Ok(catalog) => {
                self.catalog = Some(catalog);
                self.status = String::new();
            },
            Err(error) => {
                self.catalog = None;
                let mut status = String::from_str("Cannot load library: ");
                status.append(error.as_str());
                self.status = status;
            },
        }
    }

    /// Starts a load unless one is running: the selection is dropped and the
    /// status says what is happening. Returns whether a load was started.
    pub fn start_load(&mut self, open_dialog: bool) -> (started: bool)
        ensures
            started == !old(self).pending,
            old(self).pending ==> *final(self) == *old(self),
            !old(self).pending ==> loading_started(*old(self), *final(self), open_dialog),
    {
        if self.pending {
            return false;
        }
        self.pending = true;
        self.selected = None;
        self.status = if open_dialog {
            String::from_str("Choose a TOML file...")
        } else {
            String::from_str("Reloading...")
        };
        true
    }

    /// Takes the reply of a background load.
    pub fn finish_load(&mut self, outcome: LoadOutcome)
        requires
            old(self).revision < u64::MAX,
        ensures
            !final(self).pending,
            final(self).units == old(self).units,
            match outcome {
                LoadOutcome::Loaded(path, result) => {
                    &&& final(self).path == path
                    &&& final(self).selected is None
                    &&& final(self).revision == old(self).revision + 1
                    &&& match result {
                        Ok(c) => final(self).catalog == Some(c) && final(self).status@ == Seq::<char>::empty(),
                        Err(e) => final(self).catalog is None && final(self).status@ == load_error_message(e@),
                    }
                },
                LoadOutcome::Cancelled => {
                    &&& final(self).status@ == "File selection cancelled"@
                    &&& final(self).catalog == old(self).catalog
                    &&& final(self).selected == old(self).selected
                    &&& final(self).path == old(self).path
                    &&& final(self).revision == old(self).revision
                },
                LoadOutcome::Interrupted => {
                    &&& final(self).status@ == "Library load interrupted; try again"@
                    &&& final(self).catalog == old(self).catalog
                    &&& final(self).selected == old(self).selected
                    &&& final(self).path == old(self).path
                    &&& final(self).revision == old(self).revision
                },
            },
    {
        self.pending = false;
        match outcome {
            LoadOutcome::Loaded(path, result) => self.install(path, result),
            LoadOutcome::Cancelled => {
                self.status = String::from_str("File selection cancelled");
            },
            LoadOutcome::Interrupted => {
                self.status = String::from_str("Library load interrupted; try again");
            },
        }
    }

    /// Chooses the catalogue material called `name`, when there is one; the
    /// status is cleared. Returns whether it was chosen.
    pub fn select(&mut self, name: &str) -> (chosen: bool)
        ensures
            chosen == has_record_named(catalog_records(old(self).catalog), name@),
            chosen ==> (final(self).selected matches Some(s) && s@ == name@),
            chosen ==> final(self).status@ == Seq::<char>::empty(),
            !chosen ==> *final(self) == *old(self),
            final(self).catalog == old(self).catalog,
            final(self).units == old(self).units,
            final(self).path == old(self).path,
            final(self).revision == old(self).revision,
            final(self).pending == old(self).pending,
    {
        let found = match &self.catalog {
            Some(catalog) => find_record(catalog, name).is_some(),
            None => false,
        };
        if found {
            self.selected = Some(String::from_str(name));
            self.status = String::new();
        }
        found
    }

    /// Handles a press on a library button; nothing happens while a load runs.
    pub fn press(&mut self, action: &LibraryAction) -> (effect: LibraryPress)
        ensures
            press_outcome(*old(self), *final(self), *action, effect),
    {
        if self.pending {
            return LibraryPress::Ignored;
        }
        match action {
            LibraryAction::Open => {
                self.start_load(true);
                LibraryPress::Load { open_dialog: true }
            },
            LibraryAction::Reload => {
                self.start_load(false);
                LibraryPress::Load { open_dialog: false }
            },
            LibraryAction::Select(name) => if self.select(name.as_str()) {
                LibraryPress::Selected
            } else {
                LibraryPress::Ignored
            },
            LibraryAction::Units(units) => {
                self.units = Some(*units);
                LibraryPress::Units
            },
        }
    }

    /// A press as the Materials page receives it: library buttons act only on
    /// that page and while an assignment target is chosen; otherwise nothing
    /// happens. A `Selected` press also drops the material chosen for the
    /// section, which the host does.
    pub fn press_on_page(&mut self, page: SidebarPage, has_target: bool, action: &LibraryAction) -> (effect: LibraryPress)
        ensures
            !(page == SidebarPage::Materials && has_target) ==> effect == LibraryPress::Ignored && *final(self)
                == *old(self),
            page == SidebarPage::Materials && has_target ==> press_outcome(*old(self), *final(self), *action, effect),
    {
        match page {
            SidebarPage::Materials => {},
            _ => {
                return LibraryPress::Ignored;
            },
        }
        if !has_target {
            return LibraryPress::Ignored;
        }
        self.press(action)
    }

    /// Whether a library button is shown as chosen.
    pub fn is_active(&self, action: &LibraryAction) -> (active: bool)
        ensures
            active == match *action {
                LibraryAction::Select(name) => self.selected matches Some(s) && s@ == name@,
                LibraryAction::Units(u) => self.units == Some(u),
                _ => false,
            },
    {
        match action {
            LibraryAction::Select(name) => match &self.selected {
                Some(s) => str_eq(s.as_str(), name.as_str()),
                None => false,
            },
            LibraryAction::Units(u) => match self.units {
                Some(v) => v == *u,
                None => false,
            },
            _ => false,
        }
    }

    /// The index of the selected catalogue record.
    pub fn selected_entry(&self) -> (index: Option<usize>)
        ensures
            match index {
                Some(i) => self.selected matches Some(s) && first_record_named(catalog_records(self.catalog), s@, i as int),
                None => self.selected is None || !has_record_named(catalog_records(self.catalog), self.selected->0@),
            },
    {
        match (&self.catalog, &self.selected) {
            (Some(catalog), Some(name)) => find_record(catalog, name.as_str()),
            _ => None,
        }
    }

    /// The record and unit system from which a draft material is made: none
    /// while a load runs, without a selected record or without units.
    pub fn draft_source(&self) -> (draft: Option<(usize, LibraryUnits)>)
        ensures
            match draft {
                Some((i, u)) => !self.pending && self.units == Some(u) && (self.selected matches Some(s)
                    && first_record_named(catalog_records(self.catalog), s@, i as int)),
                None => self.pending || self.units is None || self.selected is None || !has_record_named(
                    catalog_records(self.catalog),
                    self.selected->0@,
                ),
            },
    {
        if self.pending {
            return None;
        }
        match (self.selected_entry(), self.units) {
            (Some(i), Some(u)) => Some((i, u)),
            _ => None,
        }
    }

    /// What the details line shows: the status when there is one, else the
    /// selected record, else the prompt.
    pub fn detail(&self) -> (detail: LibraryDetail)
        ensures
            self.status@.len() > 0 ==> detail == LibraryDetail::Status,
            self.status@.len() == 0 ==> match detail {
                LibraryDetail::Entry(i) => self.selected matches Some(s) && first_record_named(
                    catalog_records(self.catalog),
                    s@,
                    i as int,
                ),
                LibraryDetail::Prompt => self.selected is None || !has_record_named(
                    catalog_records(self.catalog),
                    self.selected->0@,
                ),
                LibraryDetail::Status => false,
            },
    {
        if self.status.unicode_len() > 0 {
            return LibraryDetail::Status;
        }
        match self.selected_entry() {
            Some(i) => LibraryDetail::Entry(i),
            None => LibraryDetail::Prompt,
        }
    }
}


/// The part (and optionally the element group of it) that a material is
/// assigned to.
#[derive(Debug)]
pub struct AssignmentTarget {
    pub mesh_index: usize,
    pub group: Option<String>,
}

/// The value of an optional assignment target.
pub open spec fn target_view(target: Option<AssignmentTarget>) -> Option<(usize, Option<Seq<char>>)> {
    match target {
        Some(t) => Some(
            (
                t.mesh_index,
                match t.group {
                    Some(g) => Some(g@),
                    None => None,
                },
            ),
        ),
        None => None,
    }
}

fn same_target(a: &Option<AssignmentTarget>, b: &Option<AssignmentTarget>) -> (same: bool)
    ensures
        same == (target_view(*a) == target_view(*b)),
{
    match (a, b) {
        (None, None) => true,
        (Some(x), Some(y)) => x.mesh_index == y.mesh_index && match (&x.group, &y.group) {
            (None, None) => true,
            (Some(g), Some(h)) => str_eq(g.as_str(), h.as_str()),
            _ => false,
        },
        _ => false,
    }
}

/// Chooses the assignment target; a different target drops the chosen
/// project material and the library selection.
pub fn choose_assignment_target(
    selected: &mut Option<AssignmentTarget>,
    target: Option<AssignmentTarget>,
    material: &mut Option<String>,
    library: &mut MaterialLibraryState,
)
    ensures
        target_view(*final(selected)) == target_view(target),
        target_view(*old(selected)) == target_view(target) ==> *final(material) == *old(material) && *final(library)
            == *old(library),
        target_view(*old(selected)) != target_view(target) ==> {
            &&& *final(material) is None
            &&& final(library).selected is None
            &&& final(library).catalog == old(library).catalog
            &&& final(library).units == old(library).units
            &&& final(library).status == old(library).status
            &&& final(library).pending == old(library).pending
            &&& final(library).revision == old(library).revision
            &&& final(library).path == old(library).path
        },
{
    if !same_target(selected, &target) {
        *selected = target;
        *material = None;
        library.selected = None;
    }
}

} // verus!
