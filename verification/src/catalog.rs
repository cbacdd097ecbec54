use vstd::prelude::*;

verus! {

use crate::float_bits::{f64_finite_positive, f64_in_poisson_range, f64_poisson_range, f64_positive};
use crate::settings::{blank, is_blank, opt_view};
use crate::text::{decimal, push_char, push_decimal, str_eq};
use crate::toml::{
    TomlDoc,
    TomlEdit,
    TomlEntry,
    TomlValue,
    toml_lookup,
    toml_parse_error,
    toml_row_count,
    toml_row_keys,
    toml_row_lookup,
    toml_top_keys,
};

/// Unit system in which catalogue constants are handed to the model.
#[derive(Clone, Copy, Debug, PartialEq, Eq, Structural)]
pub enum LibraryUnits {
    Metres,
    Millimetres,
}

/// The label shown on the unit choice button.
pub open spec fn units_label(units: LibraryUnits) -> Seq<char> {
    match units {
        LibraryUnits::Metres => "m / kg / N / s"@,
        LibraryUnits::Millimetres => "mm / t / N / s"@,
    }
}

impl LibraryUnits {
    pub fn label(self) -> (label: &'static str)
        ensures
            label@ == units_label(self),
    {
        match self {
            LibraryUnits::Metres => "m / kg / N / s",
            LibraryUnits::Millimetres => "mm / t / N / s",
        }
    }
}


/// Largest material library file that is read, in bytes.
pub const MAX_LIBRARY_BYTES: u64 = 1_048_576;

/// Whether a library file of `len` bytes may be read.
pub fn check_library_size(len: u64) -> (r: Result<(), String>)
    ensures
        r is Ok <==> len <= MAX_LIBRARY_BYTES,
        r matches Err(e) ==> e@ == "Library exceeds the 1 MiB limit"@,
{
    if len > MAX_LIBRARY_BYTES {
        Err(String::from_str("Library exceeds the 1 MiB limit"))
    } else {
        Ok(())
    }
}

/// A numeric constant as the catalogue wrote it: a TOML float (by its `f64`
/// bit pattern) or a TOML integer, which the model reads as the nearest `f64`.
#[derive(Clone, Copy, Debug, PartialEq, Eq, Structural)]
pub enum CatalogNumber {
    FloatBits(u64),
    Integer(i64),
}

/// One `[[materials]]` record of the catalogue.
#[derive(Debug)]
pub struct LibraryMaterial {
    pub name: String,
    pub label: String,
    pub young_pa: CatalogNumber,
    pub poisson: CatalogNumber,
    pub density_kg_m3: Option<CatalogNumber>,
    pub source: String,
    pub source_url: String,
    pub note: String,
}

/// The mathematical value of a [`LibraryMaterial`].
pub struct MaterialView {
    pub name: Seq<char>,
    pub label: Seq<char>,
    pub young_pa: CatalogNumber,
    pub poisson: CatalogNumber,
    pub density_kg_m3: Option<CatalogNumber>,
    pub source: Seq<char>,
    pub source_url: Seq<char>,
    pub note: Seq<char>,
}

impl View for LibraryMaterial {
    type V = MaterialView;

    open spec fn view(&self) -> MaterialView {
        MaterialView {
            name: self.name@,
            label: self.label@,
            young_pa: self.young_pa,
            poisson: self.poisson,
            density_kg_m3: self.density_kg_m3,
            source: self.source@,
            source_url: self.source_url@,
            note: self.note@,
        }
    }
}

/// The records of a sequence of materials.
pub open spec fn material_views(materials: Seq<LibraryMaterial>) -> Seq<MaterialView> {
    materials.map_values(|m: LibraryMaterial| m@)
}

/// A validated material catalogue (schema version 1, at least one record).
#[derive(Debug)]
pub struct Catalog {
    pub schema_version: u32,
    pub materials: Vec<LibraryMaterial>,
}

impl View for Catalog {
    type V = Seq<MaterialView>;

    open spec fn view(&self) -> Seq<MaterialView> {
        material_views(self.materials@)
    }
}

/// `text` without its leading byte-order marks (`trim_start_matches('\u{feff}')`).
pub open spec fn strip_boms(text: Seq<char>) -> Seq<char>
    decreases text.len(),
{
    if text.len() > 0 && text[0] == '\u{feff}' {
        strip_boms(text.drop_first())
    } else {
        text
    }
}

/// The keys a catalogue may use: at the top level (`in_row` false) or in a
/// `[[materials]]` record.
pub open spec fn key_allowed(in_row: bool, key: Seq<char>) -> bool {
    if in_row {
        key == "name"@ || key == "label"@ || key == "young_pa"@ || key == "poisson"@ || key == "density_kg_m3"@
            || key == "source"@ || key == "source_url"@ || key == "note"@
    } else {
        key == "schema_version"@ || key == "materials"@
    }
}

/// The first key from position `i` on that is not allowed.
pub open spec fn unknown_key_from(keys: Seq<Seq<char>>, in_row: bool, i: int) -> Option<Seq<char>>
    decreases keys.len() - i,
{
    if i < 0 || i >= keys.len() {
        None
    } else if !key_allowed(in_row, keys[i]) {
        Some(keys[i])
    } else {
        unknown_key_from(keys, in_row, i + 1)
    }
}

/// A text field of a record: its string, empty when optional and absent.
pub open spec fn string_field(value: TomlValue, name: Seq<char>, required: bool) -> Result<Seq<char>, Seq<char>> {
    match value {
        TomlValue::Absent => if required {
            Err("Missing "@ + name)
        } else {
            Ok(Seq::empty())
        },
        TomlValue::Text(s) => Ok(s),
        _ => Err(name + " must be a string"@),
    }
}

/// A numeric field of a record: a float or an integer, `None` when optional
/// and absent.
pub open spec fn number_field(value: TomlValue, name: Seq<char>, required: bool) -> Result<Option<CatalogNumber>, Seq<char>> {
    match value {
        TomlValue::Absent => if required {
            Err("Missing "@ + name)
        } else {
            Ok(None)
        },
        TomlValue::Float(b) => Ok(Some(CatalogNumber::FloatBits(b))),
        TomlValue::Integer(n) => Ok(Some(CatalogNumber::Integer(n))),
        _ => Err(name + " must be a number"@),
    }
}

/// A required numeric field of a record.
pub open spec fn required_number(value: TomlValue, name: Seq<char>) -> Result<CatalogNumber, Seq<char>> {
    match value {
        TomlValue::Absent => Err("Missing "@ + name),
        TomlValue::Float(b) => Ok(CatalogNumber::FloatBits(b)),
        TomlValue::Integer(n) => Ok(CatalogNumber::Integer(n)),
        _ => Err(name + " must be a number"@),
    }
}

/// The `index`-th record of the `[[materials]]` array, or the first problem
/// with it (unknown keys first, then the fields in declaration order).
pub open spec fn row_material(doc: Seq<TomlEdit>, index: int) -> Result<MaterialView, Seq<char>> {
    let field = |name: Seq<char>| toml_row_lookup(doc, "materials"@, index, name);
    match unknown_key_from(toml_row_keys(doc, "materials"@, index), true, 0) {
        Some(k) => Err("Unknown field: "@ + k),
        None => match (
            string_field(field("name"@), "name"@, true),
            string_field(field("label"@), "label"@, false),
            required_number(field("young_pa"@), "young_pa"@),
            required_number(field("poisson"@), "poisson"@),
            number_field(field("density_kg_m3"@), "density_kg_m3"@, false),
            string_field(field("source"@), "source"@, false),
            string_field(field("source_url"@), "source_url"@, false),
            string_field(field("note"@), "note"@, false),
        ) {
            (Err(e), _, _, _, _, _, _, _) => Err(e),
            (Ok(_), Err(e), _, _, _, _, _, _) => Err(e),
            (Ok(_), Ok(_), Err(e), _, _, _, _, _) => Err(e),
            (Ok(_), Ok(_), Ok(_), Err(e), _, _, _, _) => Err(e),
            (Ok(_), Ok(_), Ok(_), Ok(_), Err(e), _, _, _) => Err(e),
            (Ok(_), Ok(_), Ok(_), Ok(_), Ok(_), Err(e), _, _) => Err(e),
            (Ok(_), Ok(_), Ok(_), Ok(_), Ok(_), Ok(_), Err(e), _) => Err(e),
            (Ok(_), Ok(_), Ok(_), Ok(_), Ok(_), Ok(_), Ok(_), Err(e)) => Err(e),
            (Ok(name), Ok(label), Ok(young), Ok(poisson), Ok(density), Ok(source), Ok(url), Ok(note)) => Ok(
                MaterialView {
                    name,
                    label,
                    young_pa: young,
                    poisson,
                    density_kg_m3: density,
                    source,
                    source_url: url,
                    note,
                },
            ),
        },
    }
}

/// The first `n` records, or the first problem, reported with the record's
/// 1-based position.
pub open spec fn rows_from(doc: Seq<TomlEdit>, n: int) -> Result<Seq<MaterialView>, Seq<char>>
    decreases n,
{
    if n <= 0 {
        Ok(Seq::empty())
    } else {
        match rows_from(doc, n - 1) {
            Err(e) => Err(e),
            Ok(rows) => match row_material(doc, n - 1) {
                Err(e) => Err("materials["@ + decimal(n as nat) + "]: "@ + e),
                Ok(m) => Ok(rows.push(m)),
            },
        }
    }
}

/// The records a catalogue text declares, before their values are checked,
/// or the first structural problem.
pub open spec fn catalog_rows(text: Seq<char>) -> Result<Seq<MaterialView>, Seq<char>> {
    let t = strip_boms(text);
    match toml_parse_error(t) {
        Some(e) => Err(e),
        None => {
            let doc = seq![TomlEdit::Parsed(t)];
            match unknown_key_from(toml_top_keys(doc), false, 0) {
                Some(k) => Err("Unknown field: "@ + k),
                None => if toml_lookup(doc, None, "schema_version"@) != TomlValue::Integer(1) {
                    Err("Expected schema_version = 1"@)
                } else {
                    match toml_row_count(doc, "materials"@) {
                        None => Err("Expected [[materials]] tables"@),
                        Some(n) => rows_from(doc, n as int),
                    }
                }
            }
        },
    }
}

/// A byte-order mark in front of a catalogue text changes nothing.
pub proof fn lemma_bom_is_ignored(text: Seq<char>)
    ensures
        catalog_rows(seq!['\u{feff}'] + text) == catalog_rows(text),
{
    let t = seq!['\u{feff}'] + text;
    assert(t.drop_first() =~= text);
    assert(strip_boms(t) == strip_boms(text));
}

/// Once a prefix of the records has a problem, every longer prefix reports it.
proof fn lemma_rows_error_persists(doc: Seq<TomlEdit>, m: int, n: int)
    requires
        0 <= m <= n,
        rows_from(doc, m) is Err,
    ensures
        rows_from(doc, n) == rows_from(doc, m),
    decreases n - m,
{
    if m < n {
        lemma_rows_error_persists(doc, m, n - 1);
    }
}

/// Material names are ASCII letters, digits and underscores.
pub open spec fn name_char_ok(c: char) -> bool {
    ('a' <= c && c <= 'z') || ('A' <= c && c <= 'Z') || ('0' <= c && c <= '9') || c == '_'
}

/// A usable material name: non-empty, of name characters only.
pub open spec fn name_ok(name: Seq<char>) -> bool {
    name.len() > 0 && forall|i: int| 0 <= i < name.len() ==> name_char_ok(#[trigger] name[i])
}

/// A constant that is finite and `> 0`.
pub open spec fn number_positive(x: CatalogNumber) -> bool {
    match x {
        CatalogNumber::FloatBits(b) => f64_finite_positive(b),
        CatalogNumber::Integer(n) => n > 0,
    }
}

/// A Poisson ratio that is finite and strictly between -1 and 0.5.
pub open spec fn poisson_ok(x: CatalogNumber) -> bool {
    match x {
        CatalogNumber::FloatBits(b) => f64_in_poisson_range(b),
        CatalogNumber::Integer(n) => n == 0,
    }
}

/// E > 0, -1 < nu < 0.5, and density > 0 when given.
pub open spec fn constants_ok(m: MaterialView) -> bool {
    number_positive(m.young_pa) && poisson_ok(m.poisson) && match m.density_kg_m3 {
        Some(d) => number_positive(d),
        None => true,
    }
}

/// Whether an earlier record has the same name as record `k`.
pub open spec fn name_taken_before(rows: Seq<MaterialView>, k: int) -> bool {
    exists|j: int| 0 <= j < k && #[trigger] rows[j].name == rows[k].name
}

/// What is wrong with record `k`, given that the records before it are fine;
/// `precise[k]` tells whether its constants survive conversion to the model's
/// single precision in both unit systems.
pub open spec fn entry_problem(rows: Seq<MaterialView>, precise: Seq<bool>, k: int) -> Option<Seq<char>> {
    let m = rows[k];
    if !name_ok(m.name) || name_taken_before(rows, k) {
        Some("Invalid/duplicate material name: "@ + m.name + " (use letters, digits, underscore)"@)
    } else if !constants_ok(m) {
        Some(m.name + ": require E > 0, -1 < nu < 0.5, density > 0 (or omit density)"@)
    } else if !precise[k] {
        Some(m.name + ": constants exceed supported precision"@)
    } else {
        None
    }
}

/// The first problem among the first `n` records.
pub open spec fn first_problem(rows: Seq<MaterialView>, precise: Seq<bool>, n: int) -> Option<Seq<char>>
    decreases n,
{
    if n <= 0 {
        None
    } else {
        match first_problem(rows, precise, n - 1) {
            Some(e) => Some(e),
            None => entry_problem(rows, precise, n - 1),
        }
    }
}

/// Once a prefix of the records has a problem, every longer prefix reports it.
proof fn lemma_problem_persists(rows: Seq<MaterialView>, precise: Seq<bool>, m: int, n: int)
    requires
        0 <= m <= n,
        first_problem(rows, precise, m) is Some,
    ensures
        first_problem(rows, precise, n) == first_problem(rows, precise, m),
    decreases n - m,
{
    if m < n {
        lemma_problem_persists(rows, precise, m, n - 1);
    }
}

/// The records of the first `n` entries have no problem.
proof fn lemma_no_problem_prefix(rows: Seq<MaterialView>, precise: Seq<bool>, n: int, k: int)
    requires
        0 <= k < n <= rows.len(),
        first_problem(rows, precise, n) is None,
    ensures
        entry_problem(rows, precise, k) is None,
    decreases n,
{
    if k < n - 1 {
        lemma_no_problem_prefix(rows, precise, n - 1, k);
    }
}

/// Every catalogue that loads has records with valid, distinct names, valid
/// constants that survive single precision, and a non-blank label.
pub proof fn lemma_loaded_catalogue_is_valid(rows: Seq<MaterialView>, precise: Seq<bool>)
    requires
        precise.len() == rows.len(),
        checked_catalog(rows, precise) is Ok,
    ensures
        ({
            let c = checked_catalog(rows, precise)->Ok_0;
            &&& c.len() == rows.len() > 0
            &&& forall|i: int| 0 <= i < c.len() ==> name_ok((#[trigger] c[i]).name) && constants_ok(c[i])
                && precise[i] && !is_blank(c[i].label)
            &&& forall|i: int, j: int| 0 <= i < j < c.len() ==> (#[trigger] c[i]).name != (#[trigger] c[j]).name
        }),
{
    let c = checked_catalog(rows, precise)->Ok_0;
    let n = rows.len() as int;
    assert forall|i: int| 0 <= i < c.len() implies name_ok((#[trigger] c[i]).name) && constants_ok(c[i]) && precise[i]
        && !is_blank(c[i].label) by {
        lemma_no_problem_prefix(rows, precise, n, i);
        assert(c[i] == with_label(rows[i]));
        if is_blank(rows[i].label) {
            assert(name_char_ok(rows[i].name[0]));
            assert(!crate::settings::is_white_space(rows[i].name[0]));
        }
    }
    assert forall|i: int, j: int| 0 <= i < j < c.len() implies (#[trigger] c[i]).name != (#[trigger] c[j]).name by {
        lemma_no_problem_prefix(rows, precise, n, j);
        assert(c[i] == with_label(rows[i]));
        assert(c[j] == with_label(rows[j]));
        if rows[i].name == rows[j].name {
            assert(name_taken_before(rows, j));
        }
    }
}

/// A record whose blank label is replaced by its name.
pub open spec fn with_label(m: MaterialView) -> MaterialView {
    if is_blank(m.label) {
        MaterialView {
            name: m.name,
            label: m.name,
            young_pa: m.young_pa,
            poisson: m.poisson,
            density_kg_m3: m.density_kg_m3,
            source: m.source,
            source_url: m.source_url,
            note: m.note,
        }
    } else {
        m
    }
}

/// The catalogue made of checked records, or the first problem.
pub open spec fn checked_catalog(rows: Seq<MaterialView>, precise: Seq<bool>) -> Result<Seq<MaterialView>, Seq<char>> {
    if rows.len() == 0 {
        Err("Expected schema_version = 1 and at least one [[materials]]"@)
    } else {
        match first_problem(rows, precise, rows.len() as int) {
            Some(e) => Err(e),
            None => Ok(rows.map_values(|m: MaterialView| with_label(m))),
        }
    }
}

fn strip_leading_boms(text: &str) -> (t: String)
    ensures
        t@ == strip_boms(text@),
{
    let n = text.unicode_len();
    let mut i: usize = 0;
    assert(text@.subrange(0, n as int) =~= text@);
    while i < n && text.get_char(i) == '\u{feff}'
        invariant
            n == text@.len(),
            i <= n,
            strip_boms(text@) == strip_boms(text@.subrange(i as int, n as int)),
        decreases n - i,
    {
        assert(text@.subrange(i as int, n as int).drop_first() =~= text@.subrange(i + 1, n as int));
        i += 1;
    }
    let mut t = String::new();
    let start = i;
    while i < n
        invariant
            n == text@.len(),
            start <= i <= n,
            t@ == text@.subrange(start as int, i as int),
        decreases n - i,
    {
        push_char(&mut t, text.get_char(i));
        i += 1;
        assert(t@ =~= text@.subrange(start as int, i as int));
    }
    t
}

fn key_is_allowed(in_row: bool, key: &str) -> (ok: bool)
    ensures
        ok == key_allowed(in_row, key@),
{
    if in_row {
        str_eq(key, "name") || str_eq(key, "label") || str_eq(key, "young_pa") || str_eq(key, "poisson") || str_eq(
            key,
            "density_kg_m3",
        ) || str_eq(key, "source") || str_eq(key, "source_url") || str_eq(key, "note")
    } else {
        str_eq(key, "schema_version") || str_eq(key, "materials")
    }
}

/// The views of a list of keys.
pub open spec fn key_views(keys: Seq<String>) -> Seq<Seq<char>> {
    keys.map_values(|k: String| k@)
}

fn first_unknown_key(keys: &Vec<String>, in_row: bool) -> (found: Option<String>)
    ensures
        opt_view(found) == unknown_key_from(key_views(keys@), in_row, 0),
{
    let ghost views = key_views(keys@);
    let mut i: usize = 0;
    while i < keys.len()
        invariant
            views == key_views(keys@),
            i <= keys.len(),
            unknown_key_from(views, in_row, 0) == unknown_key_from(views, in_row, i as int),
        decreases keys.len() - i,
    {
        assert(views[i as int] == keys@[i as int]@);
        if !key_is_allowed(in_row, keys[i].as_str()) {
            return Some(keys[i].clone());
        }
        i += 1;
    }
    None
}

fn row_string(doc: &TomlDoc, index: usize, name: &str, required: bool) -> (r: Result<String, String>)
    requires
        toml_row_count(doc@, "materials"@) matches Some(n) && index < n,
    ensures
        match r {
            Ok(s) => string_field(toml_row_lookup(doc@, "materials"@, index as int, name@), name@, required) == Ok::<
                Seq<char>,
                Seq<char>,
            >(s@),
            Err(e) => string_field(toml_row_lookup(doc@, "materials"@, index as int, name@), name@, required) == Err::<
                Seq<char>,
                Seq<char>,
            >(e@),
        },
{
    match doc.row_lookup("materials", index, name) {
        TomlEntry::Absent => if required {
            let mut e = String::from_str("Missing ");
            e.append(name);
            Err(e)
        } else {
            Ok(String::new())
        },
        TomlEntry::Text(s) => Ok(s),
        _ => {
            let mut e = String::from_str(name);
            e.append(" must be a string");
            Err(e)
        },
    }
}

fn row_number(doc: &TomlDoc, index: usize, name: &str) -> (r: Result<Option<CatalogNumber>, String>)
    requires
        toml_row_count(doc@, "materials"@) matches Some(n) && index < n,
    ensures
        match r {
            Ok(x) => number_field(toml_row_lookup(doc@, "materials"@, index as int, name@), name@, false) == Ok::<
                Option<CatalogNumber>,
                Seq<char>,
            >(x),
            Err(e) => number_field(toml_row_lookup(doc@, "materials"@, index as int, name@), name@, false) == Err::<
                Option<CatalogNumber>,
                Seq<char>,
            >(e@),
        },
{
    match doc.row_lookup("materials", index, name) {
        TomlEntry::Absent => Ok(None),
        TomlEntry::Float(b) => Ok(Some(CatalogNumber::FloatBits(b))),
        TomlEntry::Integer(n) => Ok(Some(CatalogNumber::Integer(n))),
        _ => {
            let mut e = String::from_str(name);
            e.append(" must be a number");
            Err(e)
        },
    }
}

fn row_required_number(doc: &TomlDoc, index: usize, name: &str) -> (r: Result<CatalogNumber, String>)
    requires
        toml_row_count(doc@, "materials"@) matches Some(n) && index < n,
    ensures
        match r {
            Ok(x) => required_number(toml_row_lookup(doc@, "materials"@, index as int, name@), name@) == Ok::<
                CatalogNumber,
                Seq<char>,
            >(x),
            Err(e) => required_number(toml_row_lookup(doc@, "materials"@, index as int, name@), name@) == Err::<
                CatalogNumber,
                Seq<char>,
            >(e@),
        },
{
    match doc.row_lookup("materials", index, name) {
        TomlEntry::Absent => {
            let mut e = String::from_str("Missing ");
            e.append(name);
            Err(e)
        },
        TomlEntry::Float(b) => Ok(CatalogNumber::FloatBits(b)),
        TomlEntry::Integer(n) => Ok(CatalogNumber::Integer(n)),
        _ => {
            let mut e = String::from_str(name);
            e.append(" must be a number");
            Err(e)
        },
    }
}

fn read_row(doc: &TomlDoc, index: usize) -> (r: Result<LibraryMaterial, String>)
    requires
        toml_row_count(doc@, "materials"@) matches Some(n) && index < n,
    ensures
        match r {
            Ok(m) => row_material(doc@, index as int) == Ok::<MaterialView, Seq<char>>(m@),
            Err(e) => row_material(doc@, index as int) == Err::<MaterialView, Seq<char>>(e@),
        },
{
    let keys = doc.row_keys("materials", index);
    if let Some(k) = first_unknown_key(&keys, true) {
        let mut e = String::from_str("Unknown field: ");
        e.append(k.as_str());
        return Err(e);
    }
    let name = row_string(doc, index, "name", true)?;
    let label = row_string(doc, index, "label", false)?;
    let young_pa = row_required_number(doc, index, "young_pa")?;
    let poisson = row_required_number(doc, index, "poisson")?;
    let density_kg_m3 = row_number(doc, index, "density_kg_m3")?;
    let source = row_string(doc, index, "source", false)?;
    let source_url = row_string(doc, index, "source_url", false)?;
    let note = row_string(doc, index, "note", false)?;
    Ok(LibraryMaterial { name, label, young_pa, poisson, density_kg_m3, source, source_url, note })
}

fn name_is_valid(name: &str) -> (ok: bool)
    ensures
        ok == name_ok(name@),
{
    let n = name.unicode_len();
    if n == 0 {
        return false;
    }
    let mut i: usize = 0;
    while i < n
        invariant
            n == name@.len(),
            i <= n,
            forall|j: int| 0 <= j < i ==> name_char_ok(#[trigger] name@[j]),
        decreases n - i,
    {
        let c = name.get_char(i);
        if !(('a' <= c && c <= 'z') || ('A' <= c && c <= 'Z') || ('0' <= c && c <= '9') || c == '_') {
            return false;
        }
        i += 1;
    }
    true
}

/// Whether an earlier record already has the name of record `k`. The names
/// are compared directly: vstd specifies `BTreeSet` only for keys whose order
/// it knows, which `String` is not.
fn name_used_before(rows: &Vec<LibraryMaterial>, k: usize) -> (found: bool)
    requires
        k < rows.len(),
    ensures
        found == name_taken_before(material_views(rows@), k as int),
{
    let ghost views = material_views(rows@);
    let mut j: usize = 0;
    while j < k
        invariant
            views == material_views(rows@),
            k < rows.len(),
            j <= k,
            forall|q: int| 0 <= q < j ==> views[q].name != views[k as int].name,
        decreases k - j,
    {
        if str_eq(rows[j].name.as_str(), rows[k].name.as_str()) {
            assert(views[j as int].name == views[k as int].name);
            return true;
        }
        j += 1;
    }
    false
}

fn number_is_positive(x: CatalogNumber) -> (ok: bool)
    ensures
        ok == number_positive(x),
{
    match x {
        CatalogNumber::FloatBits(b) => f64_positive(b),
        CatalogNumber::Integer(n) => n > 0,
    }
}

fn constants_valid(m: &LibraryMaterial) -> (ok: bool)
    ensures
        ok == constants_ok(m@),
{
    let poisson = match m.poisson {
        CatalogNumber::FloatBits(b) => f64_poisson_range(b),
        CatalogNumber::Integer(n) => n == 0,
    };
    let density = match m.density_kg_m3 {
        Some(d) => number_is_positive(d),
        None => true,
    };
    number_is_positive(m.young_pa) && poisson && density
}

impl Catalog {
    /// Reads the `[[materials]]` records of a catalogue text (leading
    /// byte-order marks ignored), checking the document's structure, its keys
    /// and the types of its fields; the values are checked by
    /// [`Catalog::from_rows`].
    pub fn parse_rows(text: &str) -> (r: Result<Vec<LibraryMaterial>, String>)
        ensures
            match r {
                Ok(rows) => catalog_rows(text@) == Ok::<Seq<MaterialView>, Seq<char>>(material_views(rows@)),
                Err(e) => catalog_rows(text@) == Err::<Seq<MaterialView>, Seq<char>>(e@),
            },
    {
        let t = strip_leading_boms(text);
        let doc = TomlDoc::parse(t.as_str())?;
        let keys = doc.top_keys();
        if let Some(k) = first_unknown_key(&keys, false) {
            let mut e = String::from_str("Unknown field: ");
            e.append(k.as_str());
            return Err(e);
        }
        let schema_ok = match doc.lookup(None, "schema_version") {
            TomlEntry::Integer(n) => n == 1,
            _ => false,
        };
        if !schema_ok {
            return Err(String::from_str("Expected schema_version = 1"));
        }
        let count = match doc.row_count("materials") {
            Some(n) => n,
            None => {
                return Err(String::from_str("Expected [[materials]] tables"));
            },
        };
        let mut rows: Vec<LibraryMaterial> = Vec::new();
        let mut i: usize = 0;
        assert(material_views(rows@) =~= Seq::<MaterialView>::empty());
        while i < count
            invariant
                i <= count,
                doc@ == seq![TomlEdit::Parsed(strip_boms(text@))],
                toml_row_count(doc@, "materials"@) == Some(count),
                catalog_rows(text@) == rows_from(doc@, count as int),
                rows_from(doc@, i as int) == Ok::<Seq<MaterialView>, Seq<char>>(material_views(rows@)),
            decreases count - i,
        {
            match read_row(&doc, i) {
                Ok(m) => {
                    let ghost before = rows@;
                    rows.push(m);
                    assert(material_views(rows@) =~= material_views(before).push(m@));
                },
                Err(e) => {
                    let mut msg = String::from_str("materials[");
                    push_decimal(&mut msg, i + 1);
                    msg.append("]: ");
                    msg.append(e.as_str());
                    proof {
                        assert(msg@ =~= "materials["@ + decimal((i + 1) as nat) + "]: "@ + e@);
                        lemma_rows_error_persists(doc@, i + 1, count as int);
                    }
                    return Err(msg);
                },
            }
            i += 1;
        }
        Ok(rows)
    }

    /// Checks the records read by [`Catalog::parse_rows`], in order: a valid,
    /// unique name; E > 0, -1 < nu < 0.5 and density > 0 when given; and
    /// `precise[k]`, whether record `k`'s constants survive conversion to the
    /// model's single precision in both unit systems. A blank label becomes
    /// the name.
    pub fn from_rows(rows: Vec<LibraryMaterial>, precise: &Vec<bool>) -> (r: Result<Catalog, String>)
        requires
            precise@.len() == rows@.len(),
        ensures
            match r {
                Ok(c) => checked_catalog(material_views(rows@), precise@) == Ok::<Seq<MaterialView>, Seq<char>>(c@)
                    && c.schema_version == 1,
                Err(e) => checked_catalog(material_views(rows@), precise@) == Err::<Seq<MaterialView>, Seq<char>>(e@),
            },
    {
        let ghost views = material_views(rows@);
        if rows.len() == 0 {
            return Err(String::from_str("Expected schema_version = 1 and at least one [[materials]]"));
        }
        let mut k: usize = 0;
        while k < rows.len()
            invariant
                views == material_views(rows@),
                precise@.len() == rows@.len(),
                k <= rows.len(),
                first_problem(views, precise@, k as int) is None,
            decreases rows.len() - k,
        {
            let m = &rows[k];
            assert(views[k as int] == m@);
            if !name_is_valid(m.name.as_str()) || name_used_before(&rows, k) {
                let mut e = String::from_str("Invalid/duplicate material name: ");
                e.append(m.name.as_str());
                e.append(" (use letters, digits, underscore)");
                proof {
                    lemma_problem_persists(views, precise@, k + 1, rows.len() as int);
                }
                return Err(e);
            }
            if !constants_valid(m) {
                let mut e = m.name.clone();
                e.append(": require E > 0, -1 < nu < 0.5, density > 0 (or omit density)");
                proof {
                    lemma_problem_persists(views, precise@, k + 1, rows.len() as int);
                }
                return Err(e);
            }
            if !precise[k] {
                let mut e = m.name.clone();
                e.append(": constants exceed supported precision");
                proof {
                    lemma_problem_persists(views, precise@, k + 1, rows.len() as int);
                }
                return Err(e);
            }
            k += 1;
        }
        let mut out: Vec<LibraryMaterial> = Vec::new();
        let mut j: usize = 0;
        while j < rows.len()
            invariant
                views == material_views(rows@),
                j <= rows.len(),
                out@.len() == j,
                forall|q: int| 0 <= q < j ==> #[trigger] out@[q]@ == with_label(views[q]),
            decreases rows.len() - j,
        {
            let m = &rows[j];
            assert(views[j as int] == m@);
            let label = if blank(m.label.as_str()) {
                m.name.clone()
            } else {
                m.label.clone()
            };
            out.push(
                LibraryMaterial {
                    name: m.name.clone(),
                    label,
                    young_pa: m.young_pa,
                    poisson: m.poisson,
                    density_kg_m3: m.density_kg_m3,
                    source: m.source.clone(),
                    source_url: m.source_url.clone(),
                    note: m.note.clone(),
                },
            );
            j += 1;
        }
        let c = Catalog { schema_version: 1, materials: out };
        assert(c@ =~= views.map_values(|m: MaterialView| with_label(m)));
        Ok(c)
    }
}

} // verus!
