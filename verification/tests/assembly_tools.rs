use fem_ui::assembly::{
    AssemblyViewport, PartDrag, ViewportInput, ViewportStep, viewport_step,
};
use fem_ui::measurement::{AxisBits, MeasurementBoxState, MeasurementTarget};
use fem_ui::assembly::{
    AssemblyGizmoMode, AssemblyToolChoice, AssemblyTransformAction, AxisDirection, ToolSwitch,
    choose_tool, nudge_controls_display, reconcile_selected_part, transform_enabled,
};
use fem_ui::sidebar::{DisplayMode, SidebarPage, ViewportTool};

const X_PLUS: AxisDirection = AxisDirection { axis: 0, positive: true };

#[test]
fn a_single_tool_choice_activates_matching_viewport_mode_and_clears_old_selection() {
    let switch = choose_tool(
        SidebarPage::Model,
        Some(AssemblyToolChoice::Rotate),
        ViewportTool::Selection,
        AssemblyGizmoMode::Move,
    );
    assert_eq!(
        switch,
        ToolSwitch { tool: ViewportTool::Assembly, mode: AssemblyGizmoMode::Rotate, reset_hover: true, clear_selection: true }
    );
    let back = choose_tool(SidebarPage::Contact, Some(AssemblyToolChoice::Select), switch.tool, switch.mode);
    assert_eq!(back.tool, ViewportTool::Selection);
    assert_eq!(back.mode, AssemblyGizmoMode::Rotate);
    assert!(back.reset_hover);
    assert!(!back.clear_selection);
}

#[test]
fn reselecting_the_active_tool_preserves_exact_input_and_step_values() {
    let same = choose_tool(
        SidebarPage::Model,
        Some(AssemblyToolChoice::Move),
        ViewportTool::Assembly,
        AssemblyGizmoMode::Move,
    );
    assert_eq!(
        same,
        ToolSwitch { tool: ViewportTool::Assembly, mode: AssemblyGizmoMode::Move, reset_hover: false, clear_selection: false }
    );
}

#[test]
fn hidden_workflow_cannot_activate_a_position_tool() {
    for page in [SidebarPage::Loads, SidebarPage::Materials, SidebarPage::Solve, SidebarPage::Results] {
        let switch = choose_tool(page, Some(AssemblyToolChoice::Move), ViewportTool::Selection, AssemblyGizmoMode::Rotate);
        assert_eq!(switch.tool, ViewportTool::Selection);
        assert!(!switch.reset_hover);
    }
}

#[test]
fn only_active_mode_controls_take_space_and_each_step_is_retained() {
    assert_eq!(
        nudge_controls_display(Some(AssemblyGizmoMode::Move), AssemblyGizmoMode::Move, ViewportTool::Assembly),
        DisplayMode::Flex
    );
    assert_eq!(
        nudge_controls_display(Some(AssemblyGizmoMode::Rotate), AssemblyGizmoMode::Move, ViewportTool::Assembly),
        DisplayMode::Collapsed
    );
    assert_eq!(nudge_controls_display(None, AssemblyGizmoMode::Rotate, ViewportTool::Assembly), DisplayMode::Flex);
    assert_eq!(nudge_controls_display(None, AssemblyGizmoMode::Rotate, ViewportTool::Selection), DisplayMode::Collapsed);
}

#[test]
fn absent_selection_and_unrelated_pages_disable_nudging() {
    let translate = AssemblyTransformAction::for_axis(AssemblyGizmoMode::Move, X_PLUS);
    assert!(transform_enabled(translate, ViewportTool::Assembly, SidebarPage::Model, false, Some(1), 2, AssemblyGizmoMode::Move));
    assert!(!transform_enabled(translate, ViewportTool::Assembly, SidebarPage::Model, false, None, 2, AssemblyGizmoMode::Move));
    assert!(!transform_enabled(translate, ViewportTool::Assembly, SidebarPage::Model, false, Some(2), 2, AssemblyGizmoMode::Move));
    assert!(!transform_enabled(translate, ViewportTool::Assembly, SidebarPage::Loads, false, Some(1), 2, AssemblyGizmoMode::Move));
    assert!(!transform_enabled(translate, ViewportTool::Assembly, SidebarPage::Model, true, Some(1), 2, AssemblyGizmoMode::Move));
}

#[test]
fn hidden_mode_buttons_do_not_apply_a_stale_press() {
    let rotate = AssemblyTransformAction::for_axis(AssemblyGizmoMode::Rotate, X_PLUS);
    assert!(!transform_enabled(rotate, ViewportTool::Assembly, SidebarPage::Model, false, Some(0), 1, AssemblyGizmoMode::Move));
    assert_eq!(rotate.mode(), Some(AssemblyGizmoMode::Rotate));
    assert_eq!(rotate.axis(), Some(X_PLUS));
}

#[test]
fn reset_remains_available_in_both_modes() {
    for mode in [AssemblyGizmoMode::Move, AssemblyGizmoMode::Rotate] {
        assert!(transform_enabled(AssemblyTransformAction::Reset, ViewportTool::Assembly, SidebarPage::Contact, false, Some(0), 1, mode));
    }
    assert_eq!(AssemblyTransformAction::Reset.axis(), None);
}

#[test]
fn select_hides_position_actions_and_never_nudges_a_part() {
    assert_eq!(AssemblyToolChoice::from_state(ViewportTool::Selection, AssemblyGizmoMode::Move), AssemblyToolChoice::Select);
    assert!(!transform_enabled(AssemblyTransformAction::Reset, ViewportTool::Selection, SidebarPage::Model, false, Some(0), 1, AssemblyGizmoMode::Move));
    assert_eq!(nudge_controls_display(None, AssemblyGizmoMode::Move, ViewportTool::Selection), DisplayMode::Collapsed);
    assert_eq!(AssemblyToolChoice::Select.gizmo_mode(), None);
    assert_eq!(AssemblyToolChoice::Move.label(), "Move");
    assert!(AssemblyToolChoice::Rotate.hint().starts_with("Drag an RX/RY/RZ ring"));
}

#[test]
fn part_selection_survives_only_while_the_part_exists() {
    assert_eq!(reconcile_selected_part(Some(1), 3), Some(1));
    assert_eq!(reconcile_selected_part(Some(3), 3), Some(0));
    assert_eq!(reconcile_selected_part(None, 2), Some(0));
    assert_eq!(reconcile_selected_part(Some(0), 0), None);
}

fn frame() -> ViewportInput {
    ViewportInput {
        assembly_tool: true,
        escape: false,
        cursor: true,
        press: false,
        drag_ready: true,
        holding: false,
        release: false,
    }
}

#[test]
fn viewport_press_selects_or_drags_and_release_or_escape_ends_the_drag() {
    let y = AxisBits { x: 0, y: 1.0f32.to_bits(), z: 0 };
    let mut viewport = AssemblyViewport {
        selected_part: None,
        hovered_part: Some(1),
        hovered_axis: None,
        gizmo_mode: AssemblyGizmoMode::Move,
        drag: None,
        dragging: false,
    };
    let mut measurement = MeasurementBoxState::new();
    // A click elsewhere selects the hovered part.
    let step = viewport_step(&mut viewport, &mut measurement, ViewportInput { press: true, ..frame() });
    assert_eq!(step, ViewportStep { reset_preview: None, advance_drag: false, released: None });
    assert_eq!(viewport.selected_part, Some(1));
    // A click on a gizmo axis starts a drag and a translation measurement.
    viewport.hovered_axis = Some(y);
    let step = viewport_step(&mut viewport, &mut measurement, ViewportInput { press: true, holding: true, ..frame() });
    assert!(step.advance_drag);
    assert_eq!(viewport.drag, Some(PartDrag { part_index: 1, axis: y }));
    assert!(viewport.dragging);
    assert!(matches!(
        measurement.target,
        Some(MeasurementTarget::AssemblyTranslation { part_index: 1, committed_bits: 0, .. })
    ));
    // Releasing hands the drag back for committing.
    let step = viewport_step(&mut viewport, &mut measurement, ViewportInput { holding: true, release: true, ..frame() });
    assert_eq!(step.released, Some(PartDrag { part_index: 1, axis: y }));
    assert!(step.advance_drag);
    assert_eq!(viewport.drag, None);
    assert!(!viewport.dragging);
    // Escape cancels a drag, resets its preview and ends the measurement.
    viewport_step(&mut viewport, &mut measurement, ViewportInput { press: true, ..frame() });
    let step = viewport_step(&mut viewport, &mut measurement, ViewportInput { escape: true, ..frame() });
    assert_eq!(step.reset_preview, Some(1));
    assert_eq!(viewport.drag, None);
    assert_eq!(viewport.hovered_axis, None);
    assert!(measurement.target.is_none());
}

#[test]
fn a_drag_needs_its_geometry_and_the_assembly_tool() {
    let x = AxisBits { x: 1.0f32.to_bits(), y: 0, z: 0 };
    let mut viewport = AssemblyViewport {
        selected_part: Some(0),
        hovered_part: None,
        hovered_axis: Some(x),
        gizmo_mode: AssemblyGizmoMode::Rotate,
        drag: None,
        dragging: false,
    };
    let mut measurement = MeasurementBoxState::new();
    let before = viewport;
    viewport_step(&mut viewport, &mut measurement, ViewportInput { press: true, drag_ready: false, ..frame() });
    assert_eq!(viewport, before);
    viewport_step(&mut viewport, &mut measurement, ViewportInput { press: true, ..frame() });
    assert!(matches!(measurement.target, Some(MeasurementTarget::AssemblyRotation { part_index: 0, .. })));
    let step = viewport_step(&mut viewport, &mut measurement, ViewportInput { assembly_tool: false, ..frame() });
    assert_eq!(step.reset_preview, Some(0));
    assert_eq!(viewport.drag, None);
    assert!(measurement.target.is_some());
}
