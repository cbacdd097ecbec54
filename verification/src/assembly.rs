use vstd::prelude::*;

verus! {

use crate::measurement::{AxisBits, MeasurementBoxState, MeasurementTarget};
use crate::sidebar::{DisplayMode, SidebarPage, ViewportTool, supports_part_position};

/// Whether the assembly gizmo moves or rotates the selected part.
#[derive(Clone, Copy, Debug, PartialEq, Eq, Structural)]
pub enum AssemblyGizmoMode {
    Move,
    Rotate,
}

impl AssemblyGizmoMode {
    pub fn label(self) -> (label: &'static str)
        ensures
            label@ == (match self {
                AssemblyGizmoMode::Move => "Move"@,
                AssemblyGizmoMode::Rotate => "Rotate"@,
            }),
    {
        match self {
            AssemblyGizmoMode::Move => "Move",
            AssemblyGizmoMode::Rotate => "Rotate",
        }
    }
}

/// The three tool buttons above the part-position controls.
#[derive(Clone, Copy, Debug, PartialEq, Eq, Structural)]
pub enum AssemblyToolChoice {
    Select,
    Move,
    Rotate,
}

/// The gizmo mode a tool choice activates (`None` for plain selection).
pub open spec fn choice_mode(choice: AssemblyToolChoice) -> Option<AssemblyGizmoMode> {
    match choice {
        AssemblyToolChoice::Select => None,
        AssemblyToolChoice::Move => Some(AssemblyGizmoMode::Move),
        AssemblyToolChoice::Rotate => Some(AssemblyGizmoMode::Rotate),
    }
}

/// The tool choice that the viewport tool and gizmo mode currently express.
pub open spec fn choice_of(tool: ViewportTool, mode: AssemblyGizmoMode) -> AssemblyToolChoice {
    match (tool, mode) {
        (ViewportTool::Assembly, AssemblyGizmoMode::Move) => AssemblyToolChoice::Move,
        (ViewportTool::Assembly, AssemblyGizmoMode::Rotate) => AssemblyToolChoice::Rotate,
        _ => AssemblyToolChoice::Select,
    }
}

impl AssemblyToolChoice {
    pub fn label(self) -> (label: &'static str)
        ensures
            label@ == (match self {
                AssemblyToolChoice::Select => "Select"@,
                AssemblyToolChoice::Move => "Move"@,
                AssemblyToolChoice::Rotate => "Rotate"@,
            }),
    {
        match self {
            AssemblyToolChoice::Select => "Select",
            AssemblyToolChoice::Move => "Move",
            AssemblyToolChoice::Rotate => "Rotate",
        }
    }

    pub fn gizmo_mode(self) -> (mode: Option<AssemblyGizmoMode>)
        ensures
            mode == choice_mode(self),
    {
        match self {
            AssemblyToolChoice::Select => None,
            AssemblyToolChoice::Move => Some(AssemblyGizmoMode::Move),
            AssemblyToolChoice::Rotate => Some(AssemblyGizmoMode::Rotate),
        }
    }

    pub fn from_state(tool: ViewportTool, mode: AssemblyGizmoMode) -> (choice: AssemblyToolChoice)
        ensures
            choice == choice_of(tool, mode),
    {
        match (tool, mode) {
            (ViewportTool::Assembly, AssemblyGizmoMode::Move) => AssemblyToolChoice::Move,
            (ViewportTool::Assembly, AssemblyGizmoMode::Rotate) => AssemblyToolChoice::Rotate,
            _ => AssemblyToolChoice::Select,
        }
    }

    /// The hint line under the tool buttons.
    pub fn hint(self) -> (hint: &'static str)
        ensures
            hint@ == (match self {
                AssemblyToolChoice::Select => "Select nodes/faces. Choose Move or Rotate to position a part."@,
                AssemblyToolChoice::Move => "Drag an X/Y/Z arrow or use -/+ below. Shift=fine, Ctrl=snap"@,
                AssemblyToolChoice::Rotate => "Drag an RX/RY/RZ ring or use -/+ below. Shift=fine, Ctrl=snap"@,
            }),
    {
        match self {
            AssemblyToolChoice::Select => "Select nodes/faces. Choose Move or Rotate to position a part.",
            AssemblyToolChoice::Move => "Drag an X/Y/Z arrow or use -/+ below. Shift=fine, Ctrl=snap",
            AssemblyToolChoice::Rotate => "Drag an RX/RY/RZ ring or use -/+ below. Shift=fine, Ctrl=snap",
        }
    }
}

/// Nudge rows for `mode` (`None`: pose actions shared by Move and Rotate) take
/// space only while the assembly tool is active in that mode.
pub fn nudge_controls_display(
    mode: Option<AssemblyGizmoMode>,
    active: AssemblyGizmoMode,
    tool: ViewportTool,
) -> (display: DisplayMode)
    ensures
        display == (if tool == ViewportTool::Assembly && (mode is None || mode == Some(active)) {
            DisplayMode::Flex
        } else {
            DisplayMode::Collapsed
        }),
{
    let shown = match tool {
        ViewportTool::Assembly => match mode {
            None => true,
            Some(m) => m == active,
        },
        _ => false,
    };
    if shown {
        DisplayMode::Flex
    } else {
        DisplayMode::Collapsed
    }
}

/// Result of pressing a tool button.
#[derive(Clone, Copy, Debug, PartialEq, Eq, Structural)]
pub struct ToolSwitch {
    pub tool: ViewportTool,
    pub mode: AssemblyGizmoMode,
    /// Hover state, measurement transaction and hover previews are cleared.
    pub reset_hover: bool,
    /// The entity selection is cleared (entering a position tool).
    pub clear_selection: bool,
}

/// Applies a tool button press on `page`. A choice is honoured only on the
/// pages that position parts and only when it differs from the current one;
/// otherwise nothing changes.
pub fn choose_tool(
    page: SidebarPage,
    requested: Option<AssemblyToolChoice>,
    tool: ViewportTool,
    mode: AssemblyGizmoMode,
) -> (switch: ToolSwitch)
    ensures
        ({
            let honoured = supports_part_position(page) && requested is Some && requested->0 != choice_of(tool, mode);
            if honoured {
                let choice = requested->0;
                &&& switch.tool == (if choice_mode(choice) is Some { ViewportTool::Assembly } else { ViewportTool::Selection })
                &&& switch.mode == (if choice_mode(choice) is Some { choice_mode(choice)->0 } else { mode })
                &&& switch.reset_hover
                &&& switch.clear_selection == (choice_mode(choice) is Some)
                &&& choice_of(switch.tool, switch.mode) == choice
            } else {
                switch == (ToolSwitch { tool, mode, reset_hover: false, clear_selection: false })
            }
        }),
{
    let on_position_page = match page {
        SidebarPage::Model | SidebarPage::Contact => true,
        _ => false,
    };
    match requested {
        Some(choice) => {
            if on_position_page && choice != AssemblyToolChoice::from_state(tool, mode) {
                match choice.gizmo_mode() {
                    Some(m) => ToolSwitch { tool: ViewportTool::Assembly, mode: m, reset_hover: true, clear_selection: true },
                    None => ToolSwitch { tool: ViewportTool::Selection, mode, reset_hover: true, clear_selection: false },
                }
            } else {
                ToolSwitch { tool, mode, reset_hover: false, clear_selection: false }
            }
        },
        None => ToolSwitch { tool, mode, reset_hover: false, clear_selection: false },
    }
}

/// A world axis with a sign, as used by the nudge buttons.
#[derive(Clone, Copy, Debug, PartialEq, Eq, Structural)]
pub struct AxisDirection {
    /// 0 = X, 1 = Y, 2 = Z.
    pub axis: u8,
    pub positive: bool,
}

/// A part-position button.
#[derive(Clone, Copy, Debug, PartialEq, Eq, Structural)]
pub enum AssemblyTransformAction {
    Translate(AxisDirection),
    Rotate(AxisDirection),
    Reset,
}

impl AssemblyTransformAction {
    pub fn for_axis(mode: AssemblyGizmoMode, axis: AxisDirection) -> (action: AssemblyTransformAction)
        ensures
            action == (match mode {
                AssemblyGizmoMode::Move => AssemblyTransformAction::Translate(axis),
                AssemblyGizmoMode::Rotate => AssemblyTransformAction::Rotate(axis),
            }),
    {
        match mode {
            AssemblyGizmoMode::Move => AssemblyTransformAction::Translate(axis),
            AssemblyGizmoMode::Rotate => AssemblyTransformAction::Rotate(axis),
        }
    }

    /// The gizmo mode in which the button is shown; `None` for Reset.
    pub fn mode(self) -> (mode: Option<AssemblyGizmoMode>)
        ensures
            mode == (match self {
                AssemblyTransformAction::Translate(_) => Some(AssemblyGizmoMode::Move),
                AssemblyTransformAction::Rotate(_) => Some(AssemblyGizmoMode::Rotate),
                AssemblyTransformAction::Reset => None,
            }),
    {
        match self {
            AssemblyTransformAction::Translate(_) => Some(AssemblyGizmoMode::Move),
            AssemblyTransformAction::Rotate(_) => Some(AssemblyGizmoMode::Rotate),
            AssemblyTransformAction::Reset => None,
        }
    }

    pub fn axis(self) -> (axis: Option<AxisDirection>)
        ensures
            axis == (match self {
                AssemblyTransformAction::Translate(a) => Some(a),
                AssemblyTransformAction::Rotate(a) => Some(a),
                AssemblyTransformAction::Reset => None,
            }),
    {
        match self {
            AssemblyTransformAction::Translate(a) => Some(a),
            AssemblyTransformAction::Rotate(a) => Some(a),
            AssemblyTransformAction::Reset => None,
        }
    }
}

/// Whether a part-position button applies: the assembly tool is active on a
/// part-position page, no drag is in progress, the selected part exists, and
/// the button belongs to the active gizmo mode (Reset belongs to both).
pub open spec fn spec_transform_enabled(
    action: AssemblyTransformAction,
    tool: ViewportTool,
    page: SidebarPage,
    dragging: bool,
    selected_part: Option<usize>,
    part_count: nat,
    mode: AssemblyGizmoMode,
) -> bool {
    &&& tool == ViewportTool::Assembly
    &&& supports_part_position(page)
    &&& !dragging
    &&& selected_part is Some && selected_part->0 < part_count
    &&& match action {
        AssemblyTransformAction::Translate(_) => mode == AssemblyGizmoMode::Move,
        AssemblyTransformAction::Rotate(_) => mode == AssemblyGizmoMode::Rotate,
        AssemblyTransformAction::Reset => true,
    }
}

pub fn transform_enabled(
    action: AssemblyTransformAction,
    tool: ViewportTool,
    page: SidebarPage,
    dragging: bool,
    selected_part: Option<usize>,
    part_count: usize,
    mode: AssemblyGizmoMode,
) -> (enabled: bool)
    ensures
        enabled == spec_transform_enabled(action, tool, page, dragging, selected_part, part_count as nat, mode),
{
    let page_ok = match page {
        SidebarPage::Model | SidebarPage::Contact => true,
        _ => false,
    };
    let part_ok = match selected_part {
        Some(index) => index < part_count,
        None => false,
    };
    let mode_ok = match action.mode() {
        None => true,
        Some(m) => m == mode,
    };
    tool == ViewportTool::Assembly && page_ok && !dragging && part_ok && mode_ok
}

/// The part selection kept after the part list was rebuilt: none without
/// parts, the same index while it still exists, the first part otherwise.
pub fn reconcile_selected_part(selected: Option<usize>, part_count: usize) -> (kept: Option<usize>)
    ensures
        kept == (if part_count == 0 {
            None
        } else if selected is Some && selected->0 < part_count {
            selected
        } else {
            Some(0usize)
        }),
        kept is Some ==> kept->0 < part_count,
{
    if part_count == 0 {
        None
    } else {
        match selected {
            Some(index) => if index < part_count {
                Some(index)
            } else {
                Some(0)
            },
            None => Some(0),
        }
    }
}

/// A part drag in progress: the part and the gizmo axis it follows.
#[derive(Clone, Copy, Debug, PartialEq, Eq, Structural)]
pub struct PartDrag {
    pub part_index: usize,
    pub axis: AxisBits,
}

/// What the assembly viewport remembers between frames. `dragging` is the
/// viewport's interaction mode (a part drag owns the pointer).
#[derive(Clone, Copy, Debug, PartialEq, Eq, Structural)]
pub struct AssemblyViewport {
    pub selected_part: Option<usize>,
    pub hovered_part: Option<usize>,
    pub hovered_axis: Option<AxisBits>,
    pub gizmo_mode: AssemblyGizmoMode,
    pub drag: Option<PartDrag>,
    pub dragging: bool,
}

/// One frame of pointer and keyboard input, as the host sees it.
#[derive(Clone, Copy, Debug, PartialEq, Eq, Structural)]
pub struct ViewportInput {
    /// The assembly tool is active.
    pub assembly_tool: bool,
    /// Escape was just pressed and no text field is being edited.
    pub escape: bool,
    /// The cursor is inside the window.
    pub cursor: bool,
    /// The left button was just pressed with the pointer outside the panels.
    pub press: bool,
    /// The part, its centroid and the camera projection a drag needs exist.
    pub drag_ready: bool,
    /// The left button is held or was just released.
    pub holding: bool,
    /// The left button was just released.
    pub release: bool,
}

/// What the host does after a viewport frame: reset the preview of a part
/// whose drag was cancelled, advance the drag preview from the cursor, and
/// finish a released drag (commit it when its preview moved the part).
#[derive(Clone, Copy, Debug, PartialEq, Eq, Structural)]
pub struct ViewportStep {
    pub reset_preview: Option<usize>,
    pub advance_drag: bool,
    pub released: Option<PartDrag>,
}

/// The viewport after a cancelled drag: no drag, nothing hovered, and the
/// pointer released.
pub open spec fn cancelled(v: AssemblyViewport) -> AssemblyViewport {
    AssemblyViewport { drag: None, hovered_part: None, hovered_axis: None, dragging: false, ..v }
}

pub open spec fn reset_of(drag: Option<PartDrag>) -> Option<usize> {
    match drag {
        Some(d) => Some(d.part_index),
        None => None,
    }
}

/// The viewport after the press of a frame: a press on a gizmo axis of the
/// selected part starts a drag along it (when the host can drag); any other
/// press selects the hovered part (or none).
pub open spec fn after_press(v: AssemblyViewport, input: ViewportInput) -> AssemblyViewport {
    if input.press {
        match (v.selected_part, v.hovered_axis) {
            (Some(part_index), Some(axis)) => AssemblyViewport {
                drag: Some(PartDrag { part_index, axis }),
                dragging: true,
                ..v
            },
            _ => AssemblyViewport { selected_part: v.hovered_part, ..v },
        }
    } else {
        v
    }
}

/// Whether the frame's press starts a drag.
pub open spec fn starts_drag(v: AssemblyViewport, input: ViewportInput) -> bool {
    input.press && v.selected_part is Some && v.hovered_axis is Some
}

/// Handles one frame of viewport input. Leaving the assembly tool cancels a
/// drag; Escape cancels it and ends the measurement; a press on a gizmo axis
/// starts a drag (and a measurement along that axis), another press selects
/// the hovered part; a release ends the drag.
pub fn viewport_step(
    viewport: &mut AssemblyViewport,
    measurement: &mut MeasurementBoxState,
    input: ViewportInput,
) -> (step: ViewportStep)
    ensures
        !input.assembly_tool ==> {
            &&& *final(viewport) == cancelled(*old(viewport))
            &&& *final(measurement) == *old(measurement)
            &&& step == (ViewportStep { reset_preview: reset_of(old(viewport).drag), advance_drag: false, released: None })
        },
        input.assembly_tool && input.escape ==> {
            &&& *final(viewport) == cancelled(*old(viewport))
            &&& final(measurement).target is None
            &&& final(measurement).value_bits == 0
            &&& !final(measurement).dragging
            &&& final(measurement).error is None
            &&& step == (ViewportStep { reset_preview: reset_of(old(viewport).drag), advance_drag: false, released: None })
        },
        input.assembly_tool && !input.escape && (!input.cursor || (starts_drag(*old(viewport), input)
            && !input.drag_ready)) ==> {
            &&& *final(viewport) == *old(viewport)
            &&& *final(measurement) == *old(measurement)
            &&& step == (ViewportStep { reset_preview: None, advance_drag: false, released: None })
        },
        input.assembly_tool && !input.escape && input.cursor && !(starts_drag(*old(viewport), input)
            && !input.drag_ready) ==> ({
            let pressed = after_press(*old(viewport), input);
            &&& starts_drag(*old(viewport), input) ==> final(measurement).target == Some(
                match old(viewport).gizmo_mode {
                    AssemblyGizmoMode::Move => MeasurementTarget::AssemblyTranslation {
                        part_index: old(viewport).selected_part->0,
                        axis: old(viewport).hovered_axis->0,
                        committed_bits: 0,
                    },
                    AssemblyGizmoMode::Rotate => MeasurementTarget::AssemblyRotation {
                        part_index: old(viewport).selected_part->0,
                        axis: old(viewport).hovered_axis->0,
                        committed_bits: 0,
                    },
                },
            ) && final(measurement).value_bits == 0 && final(measurement).dragging
            &&& !starts_drag(*old(viewport), input) ==> *final(measurement) == *old(measurement)
            &&& step.reset_preview is None
            &&& input.press && !starts_drag(*old(viewport), input) ==> final(viewport).selected_part
                == old(viewport).hovered_part
            &&& starts_drag(*old(viewport), input) ==> final(viewport).selected_part == old(viewport).selected_part
            &&& step.advance_drag == (pressed.drag is Some && input.holding)
            &&& if input.release {
                &&& step.released == pressed.drag
                &&& *final(viewport) == (if pressed.drag is Some {
                    AssemblyViewport { drag: None, dragging: false, ..pressed }
                } else {
                    pressed
                })
            } else {
                &&& step.released is None
                &&& *final(viewport) == pressed
            }
        }),
{
    if !input.assembly_tool || input.escape {
        let reset_preview = match viewport.drag {
            Some(d) => Some(d.part_index),
            None => None,
        };
        viewport.drag = None;
        viewport.hovered_axis = None;
        viewport.hovered_part = None;
        viewport.dragging = false;
        if input.assembly_tool {
            measurement.clear();
        }
        return ViewportStep { reset_preview, advance_drag: false, released: None };
    }
    let idle = ViewportStep { reset_preview: None, advance_drag: false, released: None };
    if !input.cursor {
        return idle;
    }
    if input.press {
        match (viewport.selected_part, viewport.hovered_axis) {
            (Some(part_index), Some(axis)) => {
                if !input.drag_ready {
                    return idle;
                }
                match viewport.gizmo_mode {
                    AssemblyGizmoMode::Move => measurement.begin_assembly_translation(part_index, axis),
                    AssemblyGizmoMode::Rotate => measurement.begin_assembly_rotation(part_index, axis),
                }
                viewport.drag = Some(PartDrag { part_index, axis });
                viewport.dragging = true;
            },
            _ => {
                viewport.selected_part = viewport.hovered_part;
            },
        }
    }
    let advance_drag = viewport.drag.is_some() && input.holding;
    let mut released = None;
    if input.release {
        released = viewport.drag;
        if viewport.drag.is_some() {
            viewport.drag = None;
            viewport.dragging = false;
        }
    }
    ViewportStep { reset_preview: None, advance_drag, released }
}

/// A press that does not grab a gizmo axis selects exactly the hovered part,
/// whatever was selected before: clicking empty space deselects. A press on an
/// axis of the selected part keeps the selection and drags that part along
/// that axis.
pub proof fn lemma_press_selects_hovered_part(v: AssemblyViewport, input: ViewportInput)
    ensures
        input.press && !starts_drag(v, input) ==> after_press(v, input).selected_part == v.hovered_part
            && after_press(v, input).drag == v.drag,
        starts_drag(v, input) ==> after_press(v, input).selected_part == v.selected_part && after_press(
            v,
            input,
        ).drag == Some(PartDrag { part_index: v.selected_part->0, axis: v.hovered_axis->0 }),
        !input.press ==> after_press(v, input) == v,
{
}

} // verus!
