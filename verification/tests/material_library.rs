use fem_ui::sidebar::SidebarPage;
use fem_ui::catalog::{Catalog, CatalogNumber, LibraryMaterial, LibraryUnits};
use fem_ui::library::{
    AssignmentTarget, FemMaterial, LibraryAction, LibraryDetail, LibraryPress, LoadOutcome,
    MaterialLibraryState, choose_assignment_target, entry_source, material_by_name,
    resolved_material_name, use_material,
};

fn steel(young: f32, density: f32) -> FemMaterial {
    FemMaterial {
        name: "STEEL".to_string(),
        young_modulus: Some(young.to_bits()),
        poisson_ratio: Some(0.3f32.to_bits()),
        density: Some(density.to_bits()),
    }
}

fn record(name: &str) -> LibraryMaterial {
    LibraryMaterial {
        name: name.to_string(),
        label: name.to_string(),
        young_pa: CatalogNumber::Integer(70_000_000_000),
        poisson: CatalogNumber::FloatBits(0.3f64.to_bits()),
        density_kg_m3: None,
        source: String::new(),
        source_url: String::new(),
        note: String::new(),
    }
}

fn catalog(names: &[&str]) -> Catalog {
    Catalog { schema_version: 1, materials: names.iter().map(|n| record(n)).collect() }
}

#[test]
fn equal_materials_are_reused_and_different_ones_get_suffixed_names() {
    let si = steel(210e9, 7850.0);
    let mm = steel(210000.0, 7.85e-9);
    let mut setup: Vec<FemMaterial> = Vec::new();
    assert_eq!(use_material(&mut setup, steel(210e9, 7850.0)), "STEEL");
    assert_eq!(use_material(&mut setup, steel(210000.0, 7.85e-9)), "STEEL_2");
    assert_eq!(use_material(&mut setup, steel(210000.0, 7.85e-9)), "STEEL_2");
    assert_eq!(setup.len(), 2);
    assert_eq!(setup[0].young_modulus, si.young_modulus);
    assert_eq!(setup[1].name, "STEEL_2");
    assert_eq!(setup[1].density, mm.density);
}

#[test]
fn ambiguous_or_customized_records_are_never_reused_or_overwritten() {
    let mut setup = vec![steel(1.0, 1.0), steel(210e9, 7850.0)];
    // Two records are called STEEL, so neither is reused.
    assert_eq!(resolved_material_name(&setup, &steel(210e9, 7850.0)), "STEEL_2");
    setup[0].name = "STEEL_2".to_string();
    assert_eq!(resolved_material_name(&setup, &steel(1.0, 1.0)), "STEEL_2");
    assert_eq!(resolved_material_name(&setup, &steel(5.0, 1.0)), "STEEL_3");
    assert_eq!(material_by_name(&setup, "STEEL_2"), Some(0));
    assert_eq!(material_by_name(&setup, "STEEL_9"), None);
}

#[test]
fn minus_zero_equals_zero_and_nan_never_matches() {
    let mut setup = vec![FemMaterial { name: "M".into(), young_modulus: Some(0.0f32.to_bits()), poisson_ratio: None, density: None }];
    let same = FemMaterial { name: "M".into(), young_modulus: Some((-0.0f32).to_bits()), poisson_ratio: None, density: None };
    assert_eq!(resolved_material_name(&setup, &same), "M");
    setup[0].young_modulus = Some(f32::NAN.to_bits());
    let nan = FemMaterial { name: "M".into(), young_modulus: Some(f32::NAN.to_bits()), poisson_ratio: None, density: None };
    assert_eq!(resolved_material_name(&setup, &nan), "M_2");
}

#[test]
fn reload_clears_the_draft_and_a_failed_reload_reports_why() {
    let mut state = MaterialLibraryState::loaded("lib.toml".into(), Ok(catalog(&["MY_ALLOY"])));
    assert_eq!(state.revision, 1);
    assert_eq!(state.draft_source(), None);
    assert!(state.select("MY_ALLOY"));
    assert_eq!(state.press(&LibraryAction::Units(LibraryUnits::Metres)), LibraryPress::Units);
    assert_eq!(state.draft_source(), Some((0, LibraryUnits::Metres)));
    state.install("lib.toml".into(), Ok(catalog(&["MY_ALLOY"])));
    assert_eq!(state.draft_source(), None);
    assert!(state.select("MY_ALLOY"));
    assert_eq!(state.draft_source(), Some((0, LibraryUnits::Metres)));
    state.install("lib.toml".into(), Err("TOML parse error".into()));
    assert!(state.catalog.is_none());
    assert_eq!(state.draft_source(), None);
    assert!(state.status.contains("Cannot load"));
    assert_eq!(state.detail(), LibraryDetail::Status);
    assert!(!state.select("MY_ALLOY"));
}

#[test]
fn loads_block_presses_until_they_finish() {
    let mut state = MaterialLibraryState::loaded("a.toml".into(), Ok(catalog(&["A", "B"])));
    assert!(state.select("B"));
    assert_eq!(state.detail(), LibraryDetail::Entry(1));
    assert!(state.is_active(&LibraryAction::Select("B".into())));
    assert_eq!(state.press(&LibraryAction::Reload), LibraryPress::Load { open_dialog: false });
    assert!(state.pending);
    assert_eq!(state.status, "Reloading...");
    assert_eq!(state.selected, None);
    assert_eq!(state.press(&LibraryAction::Select("A".into())), LibraryPress::Ignored);
    assert_eq!(state.draft_source(), None);
    state.finish_load(LoadOutcome::Cancelled);
    assert!(!state.pending);
    assert_eq!(state.status, "File selection cancelled");
    assert_eq!(state.press(&LibraryAction::Open), LibraryPress::Load { open_dialog: true });
    assert_eq!(state.status, "Choose a TOML file...");
    state.finish_load(LoadOutcome::Interrupted);
    assert_eq!(state.status, "Library load interrupted; try again");
    state.finish_load(LoadOutcome::Loaded("b.toml".into(), Ok(catalog(&["C"]))));
    assert_eq!(state.path, "b.toml");
    assert_eq!(state.status, "");
    assert_eq!(state.detail(), LibraryDetail::Prompt);
    assert_eq!(state.press(&LibraryAction::Select("missing".into())), LibraryPress::Ignored);
}

#[test]
fn sources_fall_back_to_the_url_then_a_warning() {
    let mut entry = record("A");
    assert_eq!(entry_source(&entry), "User-defined (verify constants)");
    entry.source_url = "https://example.org".into();
    assert_eq!(entry_source(&entry), "https://example.org");
    entry.source = "Handbook".into();
    assert_eq!(entry_source(&entry), "Handbook");
}

#[test]
fn a_new_target_drops_pending_material_choices() {
    let mut state = MaterialLibraryState::loaded("a.toml".into(), Ok(catalog(&["A"])));
    assert!(state.select("A"));
    let mut selected = Some(AssignmentTarget { mesh_index: 0, group: None });
    let mut material = Some("STEEL".to_string());
    choose_assignment_target(&mut selected, Some(AssignmentTarget { mesh_index: 0, group: None }), &mut material, &mut state);
    assert_eq!(material.as_deref(), Some("STEEL"));
    assert!(state.selected.is_some());
    choose_assignment_target(
        &mut selected,
        Some(AssignmentTarget { mesh_index: 0, group: Some("ALL".into()) }),
        &mut material,
        &mut state,
    );
    assert_eq!(material, None);
    assert_eq!(state.selected, None);
    assert_eq!(selected.unwrap().group.as_deref(), Some("ALL"));
}

#[test]
fn opening_or_reloading_keeps_the_loaded_catalogue_until_the_reply() {
    let mut state = MaterialLibraryState::loaded("a.toml".into(), Ok(catalog(&["A", "B"])));
    assert_eq!(state.press(&LibraryAction::Units(LibraryUnits::Millimetres)), LibraryPress::Units);
    assert!(state.select("A"));
    let revision = state.revision;
    assert_eq!(state.press(&LibraryAction::Open), LibraryPress::Load { open_dialog: true });
    assert_eq!(state.status, "Choose a TOML file...");
    assert_eq!(state.selected, None);
    assert_eq!(state.units, Some(LibraryUnits::Millimetres));
    assert_eq!(state.path, "a.toml");
    assert_eq!(state.revision, revision);
    assert_eq!(state.catalog.as_ref().map(|c| c.materials.len()), Some(2));
    state.finish_load(LoadOutcome::Cancelled);
    assert!(state.select("B"));
}

#[test]
fn library_buttons_act_only_on_the_materials_page_with_a_target() {
    let mut state = MaterialLibraryState::loaded("a.toml".into(), Ok(catalog(&["A"])));
    let select = LibraryAction::Select("A".into());
    assert_eq!(state.press_on_page(SidebarPage::Loads, true, &select), LibraryPress::Ignored);
    assert_eq!(state.press_on_page(SidebarPage::Materials, false, &select), LibraryPress::Ignored);
    assert_eq!(state.selected, None);
    assert_eq!(state.press_on_page(SidebarPage::Materials, true, &select), LibraryPress::Selected);
    assert_eq!(state.selected.as_deref(), Some("A"));
    assert_eq!(
        state.press_on_page(SidebarPage::Materials, true, &LibraryAction::Reload),
        LibraryPress::Load { open_dialog: false }
    );
    assert_eq!(state.press_on_page(SidebarPage::Materials, true, &select), LibraryPress::Ignored);
}
