use vstd::prelude::*;

verus! {

use crate::float_bits::{
    f32_finite_positive, f32_in_poisson_range, f32_is_finite, f32_is_zero, f32_poisson_range, f64_finite,
    f64_is_finite, finite_positive, is_finite,
};
use crate::library::{FemMaterial, only_named, same_constant};
use crate::settings::{blank, is_blank};

/// The elastic constants that can be edited in place.
#[derive(Clone, Copy, Debug, PartialEq, Eq, Structural)]
pub enum MaterialField {
    Young,
    Poisson,
    Density,
}

pub open spec fn field_label(field: MaterialField) -> Seq<char> {
    match field {
        MaterialField::Young => "Young's modulus E"@,
        MaterialField::Poisson => "Poisson ratio nu"@,
        MaterialField::Density => "Density rho"@,
    }
}

/// The constant of a material that a field edits.
pub open spec fn field_value(field: MaterialField, m: FemMaterial) -> Option<u32> {
    match field {
        MaterialField::Young => m.young_modulus,
        MaterialField::Poisson => m.poisson_ratio,
        MaterialField::Density => m.density,
    }
}

impl MaterialField {
    pub fn label(self) -> (label: &'static str)
        ensures
            label@ == field_label(self),
    {
        match self {
            MaterialField::Young => "Young's modulus E",
            MaterialField::Poisson => "Poisson ratio nu",
            MaterialField::Density => "Density rho",
        }
    }

    pub fn value(self, material: &FemMaterial) -> (value: Option<u32>)
        ensures
            value == field_value(self, *material),
    {
        match self {
            MaterialField::Young => material.young_modulus,
            MaterialField::Poisson => material.poisson_ratio,
            MaterialField::Density => material.density,
        }
    }

    /// Replaces the constant this field edits; the others are kept.
    pub fn set(self, material: &mut FemMaterial, value: Option<u32>)
        ensures
            field_value(self, *final(material)) == value,
            final(material).name == old(material).name,
            forall|f: MaterialField| f != self ==> field_value(f, *final(material)) == field_value(f, *old(material)),
    {
        match self {
            MaterialField::Young => material.young_modulus = value,
            MaterialField::Poisson => material.poisson_ratio = value,
            MaterialField::Density => material.density = value,
        }
    }
}

/// Whether the mantissa of a typed number (the text before the first `e` or
/// `E`) holds a non-zero digit. Surrounding whitespace holds neither digits
/// nor exponent markers, so this is the same for the trimmed text.
pub open spec fn nonzero_mantissa(text: Seq<char>) -> bool {
    exists|i: int|
        0 <= i < text.len() && '1' <= #[trigger] text[i] && text[i] <= '9' && forall|j: int|
            0 <= j < i ==> #[trigger] text[j] != 'e' && text[j] != 'E'
}

/// The value of a typed material constant, or why it is refused. `parsed` is
/// what the trimmed text reads as: the `f64` bit pattern and the bit pattern
/// of that value rounded to `f32`, or `None` when it is not a number. A blank
/// density means "unspecified".
pub open spec fn material_value(field: MaterialField, text: Seq<char>, parsed: Option<(u64, u32)>) -> Result<
    Option<u32>,
    Seq<char>,
> {
    if is_blank(text) && field == MaterialField::Density {
        Ok(None)
    } else {
        match parsed {
            None => Err("enter a finite number"@),
            Some((wide, narrow)) => if !f64_is_finite(wide) || !f32_is_finite(narrow) {
                Err("enter a finite number"@)
            } else if nonzero_mantissa(text) && f32_is_zero(narrow) {
                Err("value is too small for the supported precision"@)
            } else if field == MaterialField::Poisson {
                if f32_in_poisson_range(narrow) {
                    Ok(Some(narrow))
                } else {
                    Err("must be greater than -1 and less than 0.5"@)
                }
            } else if f32_finite_positive(narrow) {
                Ok(Some(narrow))
            } else {
                Err("must be greater than zero"@)
            },
        }
    }
}

fn has_nonzero_mantissa(text: &str) -> (found: bool)
    ensures
        found == nonzero_mantissa(text@),
{
    let n = text.unicode_len();
    let mut i: usize = 0;
    while i < n
        invariant
            n == text@.len(),
            i <= n,
            forall|j: int| 0 <= j < i ==> #[trigger] text@[j] != 'e' && text@[j] != 'E' && !('1' <= text@[j] && text@[j] <= '9'),
        decreases n - i,
    {
        let c = text.get_char(i);
        if c == 'e' || c == 'E' {
            proof {
                if nonzero_mantissa(text@) {
                    let k = choose|k: int|
                        0 <= k < text@.len() && '1' <= #[trigger] text@[k] && text@[k] <= '9' && forall|j: int|
                            0 <= j < k ==> #[trigger] text@[j] != 'e' && text@[j] != 'E';
                    if k > i as int {
                        assert(text@[i as int] != 'e' && text@[i as int] != 'E');
                    }
                }
            }
            return false;
        }
        if '1' <= c && c <= '9' {
            return true;
        }
        i += 1;
    }
    false
}

/// Checks a typed material constant (see [`material_value`]).
pub fn check_material_value(field: MaterialField, text: &str, parsed: Option<(u64, u32)>) -> (r: Result<
    Option<u32>,
    &'static str,
>)
    ensures
        match r {
            Ok(v) => material_value(field, text@, parsed) == Ok::<Option<u32>, Seq<char>>(v),
            Err(e) => material_value(field, text@, parsed) == Err::<Option<u32>, Seq<char>>(e@),
        },
{
    if field == MaterialField::Density && blank(text) {
        return Ok(None);
    }
    let (wide, narrow) = match parsed {
        None => {
            return Err("enter a finite number");
        },
        Some(p) => p,
    };
    if !f64_finite(wide) || !is_finite(narrow) {
        return Err("enter a finite number");
    }
    if has_nonzero_mantissa(text) && (narrow == 0 || narrow == 0x8000_0000) {
        return Err("value is too small for the supported precision");
    }
    match field {
        MaterialField::Poisson => if f32_poisson_range(narrow) {
            Ok(Some(narrow))
        } else {
            Err("must be greater than -1 and less than 0.5")
        },
        _ => if finite_positive(narrow) {
            Ok(Some(narrow))
        } else {
            Err("must be greater than zero")
        },
    }
}

/// The material that the editor works on: the one called `name`, when no
/// other material has that name.
pub fn editable_material(materials: &Vec<FemMaterial>, name: &str) -> (index: Option<usize>)
    ensures
        match index {
            Some(i) => only_named(materials@, name@, i as int),
            None => forall|i: int| !only_named(materials@, name@, i),
        },
{
    let mut first: Option<usize> = None;
    let mut i: usize = 0;
    while i < materials.len()
        invariant
            i <= materials.len(),
            match first {
                Some(f) => f < i && materials@[f as int].name@ == name@ && forall|j: int|
                    0 <= j < i && j != f ==> #[trigger] materials@[j].name@ != name@,
                None => forall|j: int| 0 <= j < i ==> #[trigger] materials@[j].name@ != name@,
            },
        decreases materials.len() - i,
    {
        if crate::text::str_eq(materials[i].name.as_str(), name) {
            if first.is_some() {
                proof {
                    let f = first->0 as int;
                    assert forall|k: int| !only_named(materials@, name@, k) by {
                        if only_named(materials@, name@, k) {
                            if k == f {
                                assert(materials@[i as int].name@ == name@);
                            } else {
                                assert(materials@[f].name@ == name@);
                            }
                        }
                    }
                }
                return None;
            }
            first = Some(i);
        }
        i += 1;
    }
    proof {
        if first is None {
            assert forall|k: int| !only_named(materials@, name@, k) by {
                if only_named(materials@, name@, k) {
                    assert(materials@[k].name@ == name@);
                }
            }
        }
    }
    first
}

/// Commits a checked value: the constant changes only when it differs (as
/// `f32` values) from the stored one; nothing else changes.
pub fn commit_value(materials: &mut Vec<FemMaterial>, index: usize, field: MaterialField, value: Option<u32>)
    requires
        index < old(materials).len(),
    ensures
        final(materials)@.len() == old(materials)@.len(),
        forall|j: int| 0 <= j < old(materials)@.len() && j != index ==> #[trigger] final(materials)@[j] == old(materials)@[j],
        same_constant(field_value(field, old(materials)@[index as int]), value) ==> final(materials)@[index as int]
            == old(materials)@[index as int],
        !same_constant(field_value(field, old(materials)@[index as int]), value) ==> {
            let m = final(materials)@[index as int];
            &&& field_value(field, m) == value
            &&& m.name == old(materials)@[index as int].name
            &&& forall|f: MaterialField| f != field ==> field_value(f, m) == field_value(f, old(materials)@[index as int])
        },
{
    let current = field.value(&materials[index]);
    let unchanged = match (current, value) {
        (None, None) => true,
        (Some(a), Some(b)) => crate::float_bits::float_eq(a, b),
        _ => false,
    };
    if !unchanged {
        let old_m = &materials[index];
        let mut m = FemMaterial {
            name: old_m.name.clone(),
            young_modulus: old_m.young_modulus,
            poisson_ratio: old_m.poisson_ratio,
            density: old_m.density,
        };
        field.set(&mut m, value);
        materials.set(index, m);
    }
}

/// The status line of the material editor.
pub fn editor_status(error: Option<(MaterialField, &str)>, editable: bool, selected: bool) -> (status: String)
    ensures
        status@ == match error {
            Some((f, e)) => field_label(f) + ": "@ + e@ + "; Esc restores"@,
            None => if !editable && selected {
                "Duplicate material names; resolve before editing"@
            } else if !editable {
                "Choose a project material to edit, or select a library material and confirm the assignment"@
            } else {
                "Enter applies; Esc restores. Blank rho = unspecified. Editing affects all sections using this material."@
            },
        },
{
    match error {
        Some((field, e)) => {
            let mut s = String::from_str(field.label());
            s.append(": ");
            s.append(e);
            s.append("; Esc restores");
            s
        },
        None => if !editable && selected {
            String::from_str("Duplicate material names; resolve before editing")
        } else if !editable {
            String::from_str(
                "Choose a project material to edit, or select a library material and confirm the assignment",
            )
        } else {
            String::from_str(
                "Enter applies; Esc restores. Blank rho = unspecified. Editing affects all sections using this material.",
            )
        },
    }
}


/// The stored constants of a material, bit for bit (an imported NaN equals
/// itself here, so it can be shown and repaired).
pub struct MaterialFingerprint {
    pub name: String,
    pub values: [Option<u32>; 3],
}

pub open spec fn fingerprint_view(f: Option<MaterialFingerprint>) -> Option<(Seq<char>, Seq<Option<u32>>)> {
    match f {
        Some(x) => Some((x.name@, x.values@)),
        None => None,
    }
}

impl MaterialFingerprint {
    pub fn of(material: &FemMaterial) -> (f: MaterialFingerprint)
        ensures
            f.name@ == material.name@,
            f.values@ == seq![material.young_modulus, material.poisson_ratio, material.density],
    {
        let f = MaterialFingerprint {
            name: material.name.clone(),
            values: [material.young_modulus, material.poisson_ratio, material.density],
        };
        assert(f.values@ =~= seq![material.young_modulus, material.poisson_ratio, material.density]);
        f
    }
}

fn same_fingerprint(a: &Option<MaterialFingerprint>, b: &Option<MaterialFingerprint>) -> (same: bool)
    ensures
        same == (fingerprint_view(*a) == fingerprint_view(*b)),
{
    match (a, b) {
        (None, None) => true,
        (Some(x), Some(y)) => {
            let same = crate::text::str_eq(x.name.as_str(), y.name.as_str()) && x.values[0] == y.values[0]
                && x.values[1] == y.values[1] && x.values[2] == y.values[2];
            proof {
                if x.values[0] == y.values[0] && x.values[1] == y.values[1] && x.values[2] == y.values[2] {
                    assert(x.values@ =~= y.values@);
                }
            }
            same
        },
        _ => false,
    }
}

/// What the editor last showed: the model version and the edited material,
/// and the refusal of the value being typed.
pub struct MaterialEditorState {
    pub context: Option<(u64, Option<MaterialFingerprint>)>,
    pub error: Option<(MaterialField, &'static str)>,
}

pub open spec fn context_view(c: Option<(u64, Option<MaterialFingerprint>)>) -> Option<(u64, Option<(Seq<char>, Seq<Option<u32>>)>)> {
    match c {
        Some((v, f)) => Some((v, fingerprint_view(f))),
        None => None,
    }
}

/// A key pressed in the focused value field this frame (Enter only counts
/// outside an input-method composition).
#[derive(Clone, Copy, Debug, PartialEq, Eq, Structural)]
pub enum EditorKey {
    Other,
    Escape,
    Enter,
}

/// What happens to the focused value field.
#[derive(Clone, Copy, Debug, PartialEq)]
pub enum EditorAction {
    /// Keep editing.
    Keep,
    /// Drop the draft and show the stored value again.
    Restore,
    /// Store this value and leave the field.
    Commit(Option<u32>),
    /// The typed text is refused for this reason.
    Refuse(&'static str),
}

impl MaterialEditorState {
    pub fn new() -> (state: Self)
        ensures
            state.context is None,
            state.error is None,
    {
        MaterialEditorState { context: None, error: None }
    }

    /// Starts a frame of the editor on `version` of the model, editing the
    /// material with `fingerprint` (`active`: the Materials page shows an
    /// editable material). A changed model, material or page abandons any
    /// draft: returns whether the value fields must drop their focus. The
    /// refusal of the previous frame is cleared.
    pub fn begin_frame(&mut self, version: u64, fingerprint: Option<MaterialFingerprint>, active: bool) -> (abandon: bool)
        ensures
            abandon == (context_view(old(self).context) != Some((version, fingerprint_view(fingerprint))) || !active),
            final(self).error is None,
            abandon ==> context_view(final(self).context) == Some((version, fingerprint_view(fingerprint))),
            !abandon ==> final(self).context == old(self).context,
    {
        let changed = match &self.context {
            Some((v, f)) => *v != version || !same_fingerprint(f, &fingerprint),
            None => true,
        };
        self.error = None;
        if changed || !active {
            self.context = Some((version, fingerprint));
            true
        } else {
            false
        }
    }

    /// Handles the focused value field of `field` in a frame whose context
    /// did not change: Escape restores; otherwise the typed value is checked
    /// (`checked`, see [`check_material_value`]) and committed on Enter, or its
    /// refusal is recorded.
    pub fn focused_input(&mut self, field: MaterialField, key: EditorKey, checked: Result<Option<u32>, &'static str>) -> (action: EditorAction)
        ensures
            key == EditorKey::Escape ==> action == EditorAction::Restore && final(self).error is None,
            key != EditorKey::Escape ==> match checked {
                Ok(v) => (action == (if key == EditorKey::Enter {
                    EditorAction::Commit(v)
                } else {
                    EditorAction::Keep
                })) && final(self).error is None,
                Err(e) => action == EditorAction::Refuse(e) && final(self).error == Some((field, e)),
            },
            final(self).context == old(self).context,
    {
        if key == EditorKey::Escape {
            self.error = None;
            return EditorAction::Restore;
        }
        match checked {
            Ok(v) => {
                self.error = None;
                if key == EditorKey::Enter {
                    EditorAction::Commit(v)
                } else {
                    EditorAction::Keep
                }
            },
            Err(e) => {
                self.error = Some((field, e));
                EditorAction::Refuse(e)
            },
        }
    }

    /// After a commit the editor shows the stored material, so the commit
    /// itself is not taken for an outside change.
    pub fn committed(&mut self, version: u64, fingerprint: MaterialFingerprint)
        ensures
            context_view(final(self).context) == Some((version, fingerprint_view(Some(fingerprint)))),
            final(self).error == old(self).error,
    {
        self.context = Some((version, Some(fingerprint)));
    }
}

} // verus!
