use fem_ui::sidebar::ViewportTool;
use fem_ui::measurement::{AxisBits, BoxAction, BoxInput, MeasurementBoxState, MeasurementTarget, SliderId};

fn axis(x: f32, y: f32, z: f32) -> AxisBits {
    AxisBits { x: x.to_bits(), y: y.to_bits(), z: z.to_bits() }
}

#[test]
fn rotation_measurement_tracks_degrees_for_numeric_override() {
    let mut state = MeasurementBoxState::new();
    state.begin_assembly_rotation(2, axis(0.0, 0.0, 1.0));
    state.preview_rotation(32.5f32.to_bits());
    assert_eq!(f32::from_bits(state.value_bits), 32.5);
    assert!(state.dragging);

    state.commit_rotation(30.0f32.to_bits());
    assert_eq!(f32::from_bits(state.value_bits), 30.0);
    assert!(!state.dragging);
    let Some(MeasurementTarget::AssemblyRotation { part_index, axis: a, committed_bits }) = state.target
    else {
        panic!("rotation target");
    };
    assert_eq!(part_index, 2);
    assert_eq!(a, axis(0.0, 0.0, 1.0));
    assert_eq!(f32::from_bits(committed_bits), 30.0);
}

#[test]
fn slider_measurement_tracks_an_exact_engineering_value() {
    let mut state = MeasurementBoxState::new();
    state.begin_slider_value(SliderId::LoadMagnitude, "Nodal load +X", "analysis units", 100.0f32.to_bits());
    state.update_slider_value(SliderId::LoadMagnitude, 1250.5f32.to_bits());

    assert_eq!(f32::from_bits(state.value_bits), 1250.5);
    assert!(matches!(
        state.target,
        Some(MeasurementTarget::SliderValue { slider_id: SliderId::LoadMagnitude, .. })
    ));
}

#[test]
fn translation_preview_ignores_non_finite_values_and_other_sliders() {
    let mut state = MeasurementBoxState::new();
    state.begin_assembly_translation(0, axis(1.0, 0.0, 0.0));
    state.preview_translation(4.0f32.to_bits());
    state.preview_translation(f32::NAN.to_bits());
    assert_eq!(f32::from_bits(state.value_bits), 4.0);
    state.commit_translation(5.0f32.to_bits());
    assert!(!state.dragging);
    state.preview_translation(7.0f32.to_bits());
    assert_eq!(f32::from_bits(state.value_bits), 5.0);

    state.begin_slider_value(SliderId::DeformScale, "Scale", "x", 1.0f32.to_bits());
    state.update_slider_value(SliderId::PlaybackSpeed, 3.0f32.to_bits());
    assert_eq!(f32::from_bits(state.value_bits), 1.0);
    state.clear();
    assert!(state.target.is_none());
}

#[test]
fn the_box_follows_the_active_tool_and_explains_what_to_do() {
    let mut state = MeasurementBoxState::new();
    assert!(!state.visible(ViewportTool::Assembly));
    state.begin_assembly_translation(1, axis(1.0, 0.0, 0.0));
    assert!(state.visible(ViewportTool::Assembly));
    assert!(!state.visible(ViewportTool::Selection));
    assert_eq!(state.status_line(false), "model units  |  drag now; Shift = fine, Ctrl = snap");
    state.commit_translation(2.0f32.to_bits());
    assert_eq!(state.status_line(true), "model units  |  Enter = apply exact distance, Esc = restore");
    state.begin_slider_value(SliderId::ContactFriction, "Friction", "coefficient", 0.2f32.to_bits());
    assert!(state.visible(ViewportTool::Selection));
    assert_eq!(state.status_line(false), "coefficient  |  click value, Enter = apply exact value");
    state.error = Some("Enter a valid number".to_string());
    assert_eq!(state.status_line(true), "Enter a valid number  |  Esc = restore");
}

fn keys() -> BoxInput {
    BoxInput { focused: true, click_outside: false, escape: false, enter: false, composing: false }
}

#[test]
fn enter_applies_the_typed_value_and_escape_or_a_click_abandons_it() {
    let mut state = MeasurementBoxState::new();
    let typed = Ok(2.5f32.to_bits());
    assert!(matches!(state.handle_input(BoxInput { enter: true, ..keys() }, typed.clone()), BoxAction::Ignore));
    assert_eq!(state.error.as_deref(), Some("No viewport operation to update"));
    state.begin_assembly_translation(1, axis(1.0, 0.0, 0.0));
    match state.handle_input(BoxInput { enter: true, ..keys() }, typed.clone()) {
        BoxAction::Apply { target: MeasurementTarget::AssemblyTranslation { part_index: 1, .. }, value_bits } => {
            assert_eq!(value_bits, 2.5f32.to_bits())
        }
        other => panic!("{other:?}"),
    }
    assert!(matches!(
        state.handle_input(BoxInput { enter: true, composing: true, ..keys() }, typed.clone()),
        BoxAction::Ignore
    ));
    state.handle_input(BoxInput { enter: true, ..keys() }, Err("Enter a number".to_string()));
    assert_eq!(state.error.as_deref(), Some("Enter a number"));
    assert!(matches!(
        state.handle_input(BoxInput { escape: true, ..keys() }, typed.clone()),
        BoxAction::Unfocus { capture_keys: true }
    ));
    assert_eq!(state.error, None);
    assert!(matches!(
        state.handle_input(BoxInput { click_outside: true, escape: true, ..keys() }, typed.clone()),
        BoxAction::Unfocus { capture_keys: false }
    ));
    assert!(matches!(state.handle_input(BoxInput { focused: false, enter: true, ..keys() }, typed), BoxAction::Ignore));
}
