use vstd::prelude::*;

verus! {

use crate::float_bits::{f32_is_finite, is_finite};
use crate::sidebar::ViewportTool;

/// The engineering sliders whose exact value can be typed.
#[derive(Clone, Copy, Debug, PartialEq, Eq, Structural)]
pub enum SliderId {
    AssemblyMovePercent,
    AssemblyRotationDegrees,
    ContactFriction,
    ContactPenaltyFactor,
    ContactReviewSeparation,
    ContactSearchAngle,
    ContactSearchGap,
    DeformScale,
    DloadMagnitude,
    LoadMagnitude,
    PlaybackSpeed,
    ResultStep,
    RigidSpiderRadius,
    SectionThickness,
    SurfaceAngle,
}

/// A direction in model space; components are `f32` bit patterns.
#[derive(Clone, Copy, Debug, PartialEq, Eq, Structural)]
pub struct AxisBits {
    pub x: u32,
    pub y: u32,
    pub z: u32,
}

/// The viewport operation whose value the measurement box shows. Values are
/// `f32` bit patterns.
#[derive(Clone, Copy, Debug)]
pub enum MeasurementTarget {
    AssemblyTranslation { part_index: usize, axis: AxisBits, committed_bits: u32 },
    AssemblyRotation { part_index: usize, axis: AxisBits, committed_bits: u32 },
    SliderValue { slider_id: SliderId, label: &'static str, units: &'static str },
}

/// The numeric transaction of the most recent direct viewport operation.
#[derive(Debug)]
pub struct MeasurementBoxState {
    pub target: Option<MeasurementTarget>,
    pub value_bits: u32,
    pub dragging: bool,
    pub error: Option<String>,
}

impl MeasurementBoxState {
    /// No transaction: nothing to show.
    pub fn new() -> (state: Self)
        ensures
            state.target is None,
            state.value_bits == 0,
            !state.dragging,
            state.error is None,
    {
        MeasurementBoxState { target: None, value_bits: 0, dragging: false, error: None }
    }

    /// A translation drag starts along `axis`; the committed distance is 0.
    pub fn begin_assembly_translation(&mut self, part_index: usize, axis: AxisBits)
        ensures
            final(self).target == Some(MeasurementTarget::AssemblyTranslation { part_index, axis, committed_bits: 0 }),
            final(self).value_bits == 0,
            final(self).dragging,
            final(self).error is None,
    {
        self.target = Some(MeasurementTarget::AssemblyTranslation { part_index, axis, committed_bits: 0 });
        self.value_bits = 0;
        self.dragging = true;
        self.error = None;
    }

    /// Shows the live distance while dragging; non-finite values are ignored.
    pub fn preview_translation(&mut self, value_bits: u32)
        ensures
            final(self).target == old(self).target,
            final(self).dragging == old(self).dragging,
            final(self).error == old(self).error,
            final(self).value_bits == (if old(self).dragging && f32_is_finite(value_bits) {
                value_bits
            } else {
                old(self).value_bits
            }),
    {
        if self.dragging && is_finite(value_bits) {
            self.value_bits = value_bits;
        }
    }

    /// Records the released distance of a translation transaction; does
    /// nothing unless a translation is the current target.
    pub fn commit_translation(&mut self, value_bits: u32)
        ensures
            match old(self).target {
                Some(MeasurementTarget::AssemblyTranslation { part_index, axis, committed_bits }) => {
                    &&& final(self).target == Some(MeasurementTarget::AssemblyTranslation {
                        part_index,
                        axis,
                        committed_bits: value_bits,
                    })
                    &&& final(self).value_bits == value_bits
                    &&& !final(self).dragging
                    &&& final(self).error is None
                },
                _ => {
                    &&& final(self).target == old(self).target
                    &&& final(self).value_bits == old(self).value_bits
                    &&& final(self).dragging == old(self).dragging
                    &&& final(self).error == old(self).error
                },
            },
    {
        match self.target {
            Some(MeasurementTarget::AssemblyTranslation { part_index, axis, committed_bits: _ }) => {
                self.target = Some(MeasurementTarget::AssemblyTranslation { part_index, axis, committed_bits: value_bits });
                self.value_bits = value_bits;
                self.dragging = false;
                self.error = None;
            },
            _ => {},
        }
    }

    /// A rotation drag starts about `axis`; the committed angle is 0 degrees.
    pub fn begin_assembly_rotation(&mut self, part_index: usize, axis: AxisBits)
        ensures
            final(self).target == Some(MeasurementTarget::AssemblyRotation { part_index, axis, committed_bits: 0 }),
            final(self).value_bits == 0,
            final(self).dragging,
            final(self).error is None,
    {
        self.target = Some(MeasurementTarget::AssemblyRotation { part_index, axis, committed_bits: 0 });
        self.value_bits = 0;
        self.dragging = true;
        self.error = None;
    }

    /// Shows the live angle in degrees while dragging; non-finite values are ignored.
    pub fn preview_rotation(&mut self, degrees_bits: u32)
        ensures
            final(self).target == old(self).target,
            final(self).dragging == old(self).dragging,
            final(self).error == old(self).error,
            final(self).value_bits == (if old(self).dragging && f32_is_finite(degrees_bits) {
                degrees_bits
            } else {
                old(self).value_bits
            }),
    {
        if self.dragging && is_finite(degrees_bits) {
            self.value_bits = degrees_bits;
        }
    }

    /// Records the released angle of a rotation transaction; does nothing
    /// unless a rotation is the current target.
    pub fn commit_rotation(&mut self, degrees_bits: u32)
        ensures
            match old(self).target {
                Some(MeasurementTarget::AssemblyRotation { part_index, axis, committed_bits }) => {
                    &&& final(self).target == Some(MeasurementTarget::AssemblyRotation {
                        part_index,
                        axis,
                        committed_bits: degrees_bits,
                    })
                    &&& final(self).value_bits == degrees_bits
                    &&& !final(self).dragging
                    &&& final(self).error is None
                },
                _ => {
                    &&& final(self).target == old(self).target
                    &&& final(self).value_bits == old(self).value_bits
                    &&& final(self).dragging == old(self).dragging
                    &&& final(self).error == old(self).error
                },
            },
    {
        match self.target {
            Some(MeasurementTarget::AssemblyRotation { part_index, axis, committed_bits: _ }) => {
                self.target = Some(MeasurementTarget::AssemblyRotation { part_index, axis, committed_bits: degrees_bits });
                self.value_bits = degrees_bits;
                self.dragging = false;
                self.error = None;
            },
            _ => {},
        }
    }

    /// Shows the exact value of an engineering slider.
    pub fn begin_slider_value(&mut self, slider_id: SliderId, label: &'static str, units: &'static str, value_bits: u32)
        ensures
            final(self).target == Some(MeasurementTarget::SliderValue { slider_id, label, units }),
            final(self).value_bits == value_bits,
            !final(self).dragging,
            final(self).error is None,
    {
        self.target = Some(MeasurementTarget::SliderValue { slider_id, label, units });
        self.value_bits = value_bits;
        self.dragging = false;
        self.error = None;
    }

    /// Follows the slider's value while it is the target; non-finite values
    /// and other sliders are ignored.
    pub fn update_slider_value(&mut self, slider_id: SliderId, value_bits: u32)
        ensures
            final(self).target == old(self).target,
            final(self).dragging == old(self).dragging,
            ({
                let applies = old(self).target matches Some(MeasurementTarget::SliderValue { slider_id: target, .. })
                    && target == slider_id && f32_is_finite(value_bits);
                if applies {
                    final(self).value_bits == value_bits && final(self).error is None
                } else {
                    final(self).value_bits == old(self).value_bits && final(self).error == old(self).error
                }
            }),
    {
        let same = match self.target {
            Some(MeasurementTarget::SliderValue { slider_id: target, label: _, units: _ }) => target == slider_id,
            _ => false,
        };
        if same && is_finite(value_bits) {
            self.value_bits = value_bits;
            self.error = None;
        }
    }

    /// Ends the transaction.
    pub fn clear(&mut self)
        ensures
            final(self).target is None,
            final(self).value_bits == 0,
            !final(self).dragging,
            final(self).error is None,
    {
        *self = MeasurementBoxState::new();
    }

    /// The box is shown for part transactions under the assembly tool and
    /// for slider values under the selection tool.
    pub fn visible(&self, tool: ViewportTool) -> (shown: bool)
        ensures
            shown == match self.target {
                Some(MeasurementTarget::AssemblyTranslation { .. }) => tool == ViewportTool::Assembly,
                Some(MeasurementTarget::AssemblyRotation { .. }) => tool == ViewportTool::Assembly,
                Some(MeasurementTarget::SliderValue { .. }) => tool == ViewportTool::Selection,
                None => false,
            },
    {
        match self.target {
            Some(MeasurementTarget::AssemblyTranslation { .. }) => tool == ViewportTool::Assembly,
            Some(MeasurementTarget::AssemblyRotation { .. }) => tool == ViewportTool::Assembly,
            Some(MeasurementTarget::SliderValue { .. }) => tool == ViewportTool::Selection,
            None => false,
        }
    }

    /// The status line under the value: the error with the restore hint,
    /// the drag hint, or how to enter an exact value.
    pub fn status_line(&self, focused: bool) -> (line: String)
        requires
            self.target is Some,
        ensures
            ({
                let (units, value_name) = match self.target->0 {
                    MeasurementTarget::AssemblyTranslation { .. } => ("model units"@, "distance"@),
                    MeasurementTarget::AssemblyRotation { .. } => ("degrees"@, "angle"@),
                    MeasurementTarget::SliderValue { units, .. } => (units@, "value"@),
                };
                line@ == (if self.error is Some {
                    self.error->0@ + "  |  Esc = restore"@
                } else if self.dragging {
                    units + "  |  drag now; Shift = fine, Ctrl = snap"@
                } else if focused {
                    units + "  |  Enter = apply exact "@ + value_name + ", Esc = restore"@
                } else {
                    units + "  |  click value, Enter = apply exact "@ + value_name
                })
            }),
    {
        let (units, value_name): (&str, &str) = match self.target {
            Some(MeasurementTarget::AssemblyTranslation { .. }) => ("model units", "distance"),
            Some(MeasurementTarget::AssemblyRotation { .. }) => ("degrees", "angle"),
            Some(MeasurementTarget::SliderValue { slider_id: _, label: _, units }) => (units, "value"),
            None => ("", ""),
        };
        match &self.error {
            Some(error) => {
                let mut line = error.clone();
                line.append("  |  Esc = restore");
                line
            },
            None => {
                let mut line = String::from_str(units);
                if self.dragging {
                    line.append("  |  drag now; Shift = fine, Ctrl = snap");
                } else if focused {
                    line.append("  |  Enter = apply exact ");
                    line.append(value_name);
                    line.append(", Esc = restore");
                } else {
                    line.append("  |  click value, Enter = apply exact ");
                    line.append(value_name);
                }
                line
            },
        }
    }
}

/// One frame of input for the measurement box's text field.
#[derive(Clone, Copy, Debug, PartialEq, Eq, Structural)]
pub struct BoxInput {
    /// The value field has the keyboard focus.
    pub focused: bool,
    /// The left button was just pressed outside the box.
    pub click_outside: bool,
    /// Escape was just pressed.
    pub escape: bool,
    /// Enter was just pressed.
    pub enter: bool,
    /// An input method is still composing text.
    pub composing: bool,
}

/// What the host does after the measurement box handled a frame.
#[derive(Clone, Copy, Debug)]
pub enum BoxAction {
    /// Nothing to do.
    Ignore,
    /// The field loses the focus; with `capture_keys` the keyboard stays
    /// captured for the rest of the frame, so Escape reaches nothing else.
    Unfocus { capture_keys: bool },
    /// Apply the typed value (an `f32` bit pattern) to the operation.
    Apply { target: MeasurementTarget, value_bits: u32 },
}

impl MeasurementBoxState {
    /// Handles the keys and clicks of a frame while the value field may be
    /// edited. A click outside the box or Escape abandons the typed text;
    /// Enter (outside an input-method composition) applies the parsed value
    /// to the current operation, or reports why it cannot. `parsed` is the
    /// typed text read as a number, or the reason it is not one.
    pub fn handle_input(&mut self, input: BoxInput, parsed: Result<u32, String>) -> (action: BoxAction)
        ensures
            !input.focused ==> action is Ignore && *final(self) == *old(self),
            input.focused && input.click_outside ==> (action matches BoxAction::Unfocus { capture_keys }
                && !capture_keys),
            input.focused && !input.click_outside && input.escape ==> (action matches BoxAction::Unfocus {
                capture_keys,
            } && capture_keys),
            input.focused && (input.click_outside || input.escape) ==> {
                &&& final(self).error is None
                &&& final(self).target == old(self).target
                &&& final(self).value_bits == old(self).value_bits
                &&& final(self).dragging == old(self).dragging
            },
            input.focused && !input.click_outside && !input.escape && (!input.enter || input.composing) ==> action
                is Ignore && *final(self) == *old(self),
            input.focused && !input.click_outside && !input.escape && input.enter && !input.composing ==> match parsed {
                Err(message) => action is Ignore && final(self).error == Some(message) && final(self).target
                    == old(self).target && final(self).value_bits == old(self).value_bits && final(self).dragging
                    == old(self).dragging,
                Ok(value) => match old(self).target {
                    None => {
                        &&& action is Ignore
                        &&& final(self).error matches Some(e) && e@ == "No viewport operation to update"@
                        &&& final(self).target == old(self).target
                        &&& final(self).value_bits == old(self).value_bits
                        &&& final(self).dragging == old(self).dragging
                    },
                    Some(target) => (action matches BoxAction::Apply { target: t, value_bits } && t == target
                        && value_bits == value) && *final(self) == *old(self),
                },
            },
    {
        if !input.focused {
            return BoxAction::Ignore;
        }
        if input.click_outside {
            self.error = None;
            return BoxAction::Unfocus { capture_keys: false };
        }
        if input.escape {
            self.error = None;
            return BoxAction::Unfocus { capture_keys: true };
        }
        if !input.enter || input.composing {
            return BoxAction::Ignore;
        }
        let value = match parsed {
            Ok(v) => v,
            Err(message) => {
                self.error = Some(message);
                return BoxAction::Ignore;
            },
        };
        match self.target {
            None => {
                self.error = Some(String::from_str("No viewport operation to update"));
                BoxAction::Ignore
            },
            Some(target) => BoxAction::Apply { target, value_bits: value },
        }
    }
}

} // verus!
