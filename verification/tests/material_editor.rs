use fem_ui::library::FemMaterial;
use fem_ui::undo::UndoStack;
use fem_ui::material_editor::{
    MaterialField, check_material_value, commit_value, editable_material, editor_status,
};

const ALL: [MaterialField; 3] = [MaterialField::Young, MaterialField::Poisson, MaterialField::Density];

fn parse_material_value(field: MaterialField, text: &str) -> Result<Option<f32>, &'static str> {
    let parsed = text.trim().parse::<f64>().ok().map(|p| (p.to_bits(), (p as f32).to_bits()));
    check_material_value(field, text, parsed).map(|v| v.map(f32::from_bits))
}

fn material(name: &str, young: f32) -> FemMaterial {
    FemMaterial {
        name: name.to_string(),
        young_modulus: Some(young.to_bits()),
        poisson_ratio: Some(0.3f32.to_bits()),
        density: None,
    }
}

#[test]
fn material_domains_reject_invalid_values_but_allow_auxetic_poisson_ratios() {
    for field in ALL {
        for invalid in ["abc", "NaN", "inf", "-inf", "1e999", "1e-999", "--1"] {
            assert!(parse_material_value(field, invalid).is_err(), "{field:?} {invalid}");
        }
        assert!(parse_material_value(field, "1e-90").is_err());
    }
    for field in [MaterialField::Young, MaterialField::Density] {
        for invalid in ["-1", "0", "-0"] {
            assert!(parse_material_value(field, invalid).is_err());
        }
    }
    for invalid in ["-1", "-1.1", "0.5", "1", ""] {
        assert!(parse_material_value(MaterialField::Poisson, invalid).is_err());
    }
    assert_eq!(parse_material_value(MaterialField::Poisson, "-0.2"), Ok(Some(-0.2)));
    assert_eq!(parse_material_value(MaterialField::Poisson, "0"), Ok(Some(0.0)));
    assert_eq!(parse_material_value(MaterialField::Density, " 7.85e-9 "), Ok(Some(7.85e-9)));
    assert_eq!(parse_material_value(MaterialField::Density, " "), Ok(None));
    assert!(parse_material_value(MaterialField::Young, " ").is_err());
}

#[test]
fn refusals_say_why() {
    assert_eq!(parse_material_value(MaterialField::Young, "abc"), Err("enter a finite number"));
    assert_eq!(
        parse_material_value(MaterialField::Young, "1e-90"),
        Err("value is too small for the supported precision")
    );
    assert_eq!(parse_material_value(MaterialField::Young, "0e5"), Err("must be greater than zero"));
    assert_eq!(
        parse_material_value(MaterialField::Poisson, "0.5"),
        Err("must be greater than -1 and less than 0.5")
    );
    assert_eq!(MaterialField::Poisson.label(), "Poisson ratio nu");
}

#[test]
fn only_a_uniquely_named_material_is_editable() {
    let materials = vec![material("STEEL", 1.0), material("AL", 2.0), material("AL", 3.0)];
    assert_eq!(editable_material(&materials, "STEEL"), Some(0));
    assert_eq!(editable_material(&materials, "AL"), None);
    assert_eq!(editable_material(&materials, "CU"), None);
    assert_eq!(editor_status(None, false, true), "Duplicate material names; resolve before editing");
    assert_eq!(
        editor_status(Some((MaterialField::Density, "enter a finite number")), true, true),
        "Density rho: enter a finite number; Esc restores"
    );
}

#[test]
fn only_the_selected_property_is_changed_and_equal_values_are_kept() {
    let mut materials = vec![material("STEEL", 210000.0), material("AL", 70000.0)];
    commit_value(&mut materials, 0, MaterialField::Young, Some(215123.45f32.to_bits()));
    assert_eq!(materials[0].young_modulus, Some(215123.45f32.to_bits()));
    assert_eq!(materials[0].poisson_ratio, Some(0.3f32.to_bits()));
    assert_eq!(materials[1].young_modulus, Some(70000.0f32.to_bits()));
    commit_value(&mut materials, 1, MaterialField::Density, Some(2.7e-9f32.to_bits()));
    assert_eq!(materials[1].density, Some(2.7e-9f32.to_bits()));
    commit_value(&mut materials, 1, MaterialField::Density, None);
    assert_eq!(materials[1].density, None);
    materials[0].poisson_ratio = Some(0.0f32.to_bits());
    commit_value(&mut materials, 0, MaterialField::Poisson, Some((-0.0f32).to_bits()));
    assert_eq!(materials[0].poisson_ratio, Some(0.0f32.to_bits()));
}

use fem_ui::material_editor::{EditorAction, EditorKey, MaterialEditorState, MaterialFingerprint};

/// The Materials page with the STEEL and AL project materials, as one frame
/// of the editor sees it.
struct Editor {
    materials: Vec<FemMaterial>,
    version: u64,
    on_materials_page: bool,
    selected: Option<String>,
    state: MaterialEditorState,
    focus: Option<MaterialField>,
    text: String,
}

impl Editor {
    fn new() -> Self {
        let mut steel = material("STEEL", 210_000.0);
        steel.density = Some(7.85e-9f32.to_bits());
        let mut al = material("AL", 69_000.0);
        al.poisson_ratio = Some(0.33f32.to_bits());
        let mut editor = Editor {
            materials: vec![steel, al],
            version: 0,
            on_materials_page: true,
            selected: Some("STEEL".into()),
            state: MaterialEditorState::new(),
            focus: None,
            text: String::new(),
        };
        editor.frame(EditorKey::Other);
        editor
    }

    fn frame(&mut self, key: EditorKey) {
        if let Some(name) = &self.selected {
            if fem_ui::library::material_by_name(&self.materials, name).is_none() {
                self.selected = None;
            }
        }
        let index = self.selected.as_deref().and_then(|name| editable_material(&self.materials, name));
        let fingerprint = index.map(|i| MaterialFingerprint::of(&self.materials[i]));
        let active = self.on_materials_page && index.is_some();
        if self.state.begin_frame(self.version, fingerprint, active) {
            self.focus = None;
            return;
        }
        if let (Some(field), Some(index)) = (self.focus, index) {
            let parsed = self.text.trim().parse::<f64>().ok().map(|p| (p.to_bits(), (p as f32).to_bits()));
            let checked = check_material_value(field, &self.text, parsed);
            match self.state.focused_input(field, key, checked) {
                EditorAction::Restore => self.focus = None,
                EditorAction::Commit(value) => {
                    commit_value(&mut self.materials, index, field, value);
                    self.state.committed(self.version, MaterialFingerprint::of(&self.materials[index]));
                    self.focus = None;
                }
                EditorAction::Keep | EditorAction::Refuse(_) => {}
            }
        }
    }

    fn type_value(&mut self, field: MaterialField, text: &str) {
        self.focus = Some(field);
        self.text = text.to_string();
        self.frame(EditorKey::Other);
    }
}

fn young(m: &FemMaterial) -> Option<f32> {
    m.young_modulus.map(f32::from_bits)
}

#[test]
fn only_enter_commits_and_only_the_selected_property_is_changed() {
    let mut editor = Editor::new();
    editor.type_value(MaterialField::Young, "215123.45");
    assert_eq!(young(&editor.materials[0]), Some(210_000.0));
    editor.frame(EditorKey::Enter);
    assert_eq!(young(&editor.materials[0]), Some(215123.45));
    assert_eq!(editor.materials[0].poisson_ratio, Some(0.3f32.to_bits()));
    assert_eq!(editor.materials[0].density, Some(7.85e-9f32.to_bits()));
    assert_eq!(young(&editor.materials[1]), Some(69_000.0));
    assert_eq!(editor.focus, None);
    editor.frame(EditorKey::Other);
    assert_eq!(editor.focus, None);
}

#[test]
fn invalid_enter_does_not_modify_the_model_and_escape_restores_the_value() {
    let mut editor = Editor::new();
    editor.type_value(MaterialField::Poisson, "0.5");
    editor.frame(EditorKey::Enter);
    assert_eq!(editor.materials[0].poisson_ratio, Some(0.3f32.to_bits()));
    assert_eq!(editor.focus, Some(MaterialField::Poisson));
    assert!(editor.state.error.is_some());
    editor.frame(EditorKey::Escape);
    assert_eq!(editor.focus, None);
    assert!(editor.state.error.is_none());
}

#[test]
fn density_can_be_unset_without_affecting_elastic_constants() {
    let mut editor = Editor::new();
    editor.type_value(MaterialField::Density, "");
    editor.frame(EditorKey::Enter);
    assert_eq!(editor.materials[0].density, None);
    assert_eq!(young(&editor.materials[0]), Some(210_000.0));
    assert_eq!(editor.materials[0].poisson_ratio, Some(0.3f32.to_bits()));
}

#[test]
fn switching_material_or_page_cannot_commit_a_stale_draft() {
    for change_page in [false, true] {
        let mut editor = Editor::new();
        editor.type_value(MaterialField::Young, "123");
        if change_page {
            editor.on_materials_page = false;
        } else {
            editor.selected = Some("AL".into());
        }
        editor.frame(EditorKey::Enter);
        assert_eq!(young(&editor.materials[0]), Some(210_000.0));
        assert_eq!(young(&editor.materials[1]), Some(69_000.0));
        assert_eq!(editor.focus, None);
    }
}

#[test]
fn reload_deletion_and_external_changes_invalidate_pending_input() {
    for action in 0..3 {
        let mut editor = Editor::new();
        editor.type_value(MaterialField::Young, "123");
        match action {
            0 => editor.version += 1,
            1 => {
                editor.materials.remove(0);
            }
            _ => editor.materials[0].young_modulus = Some(99.0f32.to_bits()),
        }
        editor.frame(EditorKey::Enter);
        assert_eq!(editor.focus, None);
        let expected = [210_000.0, 69_000.0, 99.0][action];
        assert_eq!(young(&editor.materials[0]), Some(expected));
    }
}

#[test]
fn an_imported_nonfinite_value_can_be_repaired() {
    let mut editor = Editor::new();
    editor.materials[0].young_modulus = Some(f32::NAN.to_bits());
    editor.frame(EditorKey::Other);
    editor.type_value(MaterialField::Young, "2.1e5");
    editor.frame(EditorKey::Enter);
    assert_eq!(young(&editor.materials[0]), Some(210_000.0));
}

#[test]
fn an_empty_or_ambiguous_material_list_has_no_editable_fields() {
    for duplicate in [false, true] {
        let mut editor = Editor::new();
        if duplicate {
            editor.materials.push(material("STEEL", 123.0));
        } else {
            editor.materials.clear();
        }
        editor.frame(EditorKey::Other);
        let index = editor.selected.as_deref().and_then(|name| editable_material(&editor.materials, name));
        assert_eq!(index, None);
        let before: Vec<Option<u32>> = editor.materials.iter().map(|m| m.young_modulus).collect();
        editor.type_value(MaterialField::Young, "123");
        editor.frame(EditorKey::Enter);
        let after: Vec<Option<u32>> = editor.materials.iter().map(|m| m.young_modulus).collect();
        assert_eq!(after, before);
    }
}

#[test]
fn undo_redo_restores_material_constants_and_enter_on_unchanged_value_is_a_noop() {
    let mut editor = Editor::new();
    let mut history: UndoStack<Vec<FemMaterial>> = UndoStack::new();
    let snapshot = editor.materials.clone();
    editor.type_value(MaterialField::Young, "215000");
    editor.frame(EditorKey::Enter);
    history.push(snapshot);
    assert_eq!(young(&editor.materials[0]), Some(215_000.0));

    let unchanged = editor.materials.clone();
    editor.type_value(MaterialField::Young, "215000.0");
    editor.frame(EditorKey::Enter);
    assert_eq!(editor.materials[0].young_modulus, unchanged[0].young_modulus);

    let mut current = editor.materials.clone();
    assert!(history.undo(&mut current));
    assert_eq!(young(&current[0]), Some(210_000.0));
    assert!(history.redo(&mut current));
    assert_eq!(young(&current[0]), Some(215_000.0));
}
