use vstd::prelude::*;

verus! {

use crate::float_bits::{f32_is_finite, f32_is_nan, f32_sign, i8_f32_bits, i8_to_f32_bits};
use crate::mpc::{MINUS_ONE_BITS, ONE_BITS};
use crate::measurement::AxisBits;
use crate::mpc::NodeId;
use crate::text::{decimal, push_decimal};

/// How rotational components are entered: as FrontISTR DOFs 4..6 directly,
/// or as rotations about a picked centre (solved as DOFs 1..3 there).
#[derive(Clone, Copy, Debug, PartialEq, Eq, Structural)]
pub enum RotationalInputMode {
    DirectDof,
    AboutCenter,
}

/// A picked viewport entity: its mesh and, when it is a node, the node.
#[derive(Clone, Copy, Debug, PartialEq, Eq, Structural)]
pub struct EntityPick {
    pub mesh_index: usize,
    pub node: Option<NodeId>,
}

/// The node about which rotations are applied.
#[derive(Clone, Copy, Debug, PartialEq, Eq, Structural)]
pub struct RotationCenter {
    pub mesh_index: usize,
    pub node: Option<NodeId>,
}

/// Values authored on the BC / Loads page before Apply. Numeric values are
/// `f32` bit patterns.
#[derive(Clone, Copy, Debug)]
pub struct BoundaryLoadEditorState {
    pub constraint_enabled: [bool; 6],
    pub constraint_value_bits: [u32; 6],
    pub nodal_component_bits: [u32; 6],
    pub constraint_rotation_mode: RotationalInputMode,
    pub load_moment_mode: RotationalInputMode,
    pub rotation_center: Option<EntityPick>,
}

/// The centre to rotate about: the picked entity when it is a node.
pub open spec fn spec_rotation_center(pick: Option<EntityPick>) -> Option<RotationCenter> {
    match pick {
        Some(p) => match p.node {
            Some(n) => Some(RotationCenter { mesh_index: p.mesh_index, node: Some(n) }),
            None => None,
        },
        None => None,
    }
}

/// The FrontISTR DOF (and rotation centre) that UI component `index` (0..6)
/// is solved as.
pub open spec fn spec_solver_component(
    index: usize,
    mode: RotationalInputMode,
    pick: Option<EntityPick>,
) -> Option<(u8, Option<RotationCenter>)> {
    if index <= 2 {
        Some(((index + 1) as u8, None))
    } else if index <= 5 && mode == RotationalInputMode::DirectDof {
        Some(((index + 1) as u8, None))
    } else if index <= 5 {
        match spec_rotation_center(pick) {
            Some(c) => Some(((index - 2) as u8, Some(c))),
            None => None,
        }
    } else {
        None
    }
}

/// Whether a constraint preset over `dof_start..=dof_end` (clamped to 1..=6)
/// constrains `dof`.
pub open spec fn preset_chooses(dof_start: u8, dof_end: u8, dof: int) -> bool {
    (if dof_start > 1 { dof_start as int } else { 1 }) <= dof && dof <= (if dof_end < 6 { dof_end as int } else { 6 })
}

impl BoundaryLoadEditorState {
    /// Nothing constrained, all values zero, rotations entered directly.
    pub fn new() -> (state: Self)
        ensures
            forall|i: int| 0 <= i < 6 ==> !state.constraint_enabled[i] && state.constraint_value_bits[i] == 0
                && state.nodal_component_bits[i] == 0,
            state.constraint_rotation_mode == RotationalInputMode::DirectDof,
            state.load_moment_mode == RotationalInputMode::DirectDof,
            state.rotation_center is None,
    {
        BoundaryLoadEditorState {
            constraint_enabled: [false; 6],
            constraint_value_bits: [0; 6],
            nodal_component_bits: [0; 6],
            constraint_rotation_mode: RotationalInputMode::DirectDof,
            load_moment_mode: RotationalInputMode::DirectDof,
            rotation_center: None,
        }
    }

    /// A constraint preset: exactly DOFs `dof_start..=dof_end` (clamped to
    /// 1..=6) are constrained, and their values are reset to 0; other values
    /// are kept.
    pub fn set_constraint_preset(&mut self, dof_start: u8, dof_end: u8)
        ensures
            forall|i: int|
                0 <= i < 6 ==> #[trigger] final(self).constraint_enabled[i] == preset_chooses(dof_start, dof_end, i + 1),
            forall|i: int|
                0 <= i < 6 ==> #[trigger] final(self).constraint_value_bits[i] == (if preset_chooses(dof_start, dof_end, i + 1) {
                    0
                } else {
                    old(self).constraint_value_bits[i]
                }),
            final(self).nodal_component_bits == old(self).nodal_component_bits,
            final(self).constraint_rotation_mode == old(self).constraint_rotation_mode,
            final(self).load_moment_mode == old(self).load_moment_mode,
            final(self).rotation_center == old(self).rotation_center,
    {
        let first: u8 = if dof_start > 1 { dof_start } else { 1 };
        let last: u8 = if dof_end < 6 { dof_end } else { 6 };
        let ghost before = old(self).constraint_value_bits;
        let mut i: usize = 0;
        while i < 6
            invariant
                i <= 6,
                first == (if dof_start > 1 { dof_start } else { 1 }),
                last == (if dof_end < 6 { dof_end } else { 6 }),
                forall|j: int|
                    0 <= j < i ==> #[trigger] self.constraint_enabled[j] == preset_chooses(dof_start, dof_end, j + 1),
                forall|j: int|
                    0 <= j < i ==> #[trigger] self.constraint_value_bits[j] == (if preset_chooses(dof_start, dof_end, j + 1) {
                        0
                    } else {
                        before[j]
                    }),
                forall|j: int| i <= j < 6 ==> #[trigger] self.constraint_value_bits[j] == before[j],
                self.nodal_component_bits == old(self).nodal_component_bits,
                self.constraint_rotation_mode == old(self).constraint_rotation_mode,
                self.load_moment_mode == old(self).load_moment_mode,
                self.rotation_center == old(self).rotation_center,
            decreases 6 - i,
        {
            let dof = (i + 1) as u8;
            if first <= dof && dof <= last {
                self.constraint_enabled[i] = true;
                self.constraint_value_bits[i] = 0;
            } else {
                self.constraint_enabled[i] = false;
            }
            i += 1;
        }
    }

    /// A force along one axis (`dof` 1..=3): the three force components
    /// become zero except that one, which gets the magnitude of `magnitude`
    /// with the sign of `sign` (`abs(magnitude) * signum(sign)`; a NaN sign
    /// gives a NaN). Nothing changes for another DOF or a magnitude that is
    /// not finite.
    pub fn set_axis_force(&mut self, dof: u8, sign_bits: u32, magnitude_bits: u32)
        ensures
            final(self).constraint_enabled == old(self).constraint_enabled,
            final(self).constraint_value_bits == old(self).constraint_value_bits,
            final(self).constraint_rotation_mode == old(self).constraint_rotation_mode,
            final(self).load_moment_mode == old(self).load_moment_mode,
            final(self).rotation_center == old(self).rotation_center,
            !(1 <= dof <= 3 && f32_is_finite(magnitude_bits)) ==> final(self).nodal_component_bits
                == old(self).nodal_component_bits,
            1 <= dof <= 3 && f32_is_finite(magnitude_bits) ==> {
                &&& forall|i: int|
                    0 <= i < 3 && i != dof - 1 ==> #[trigger] final(self).nodal_component_bits[i] == 0
                &&& forall|i: int| 3 <= i < 6 ==> #[trigger] final(self).nodal_component_bits[i]
                    == old(self).nodal_component_bits[i]
                &&& f32_is_nan(sign_bits) ==> f32_is_nan(final(self).nodal_component_bits[dof - 1])
                &&& !f32_is_nan(sign_bits) ==> final(self).nodal_component_bits[dof - 1] == signed_magnitude(
                    sign_bits,
                    magnitude_bits,
                )
            },
    {
        if dof < 1 || dof > 3 || !crate::float_bits::is_finite(magnitude_bits) {
            return;
        }
        let value = if crate::float_bits::is_nan(sign_bits) {
            0x7fc0_0000u32
        } else if sign_bits >= 0x8000_0000 {
            magnitude_bits % 0x8000_0000 + 0x8000_0000
        } else {
            magnitude_bits % 0x8000_0000
        };
        proof {
            if crate::float_bits::f32_is_nan(sign_bits) {
                assert(0x7fc0_0000u32 as int % 0x80_0000 != 0);
            }
        }
        self.nodal_component_bits[0] = 0;
        self.nodal_component_bits[1] = 0;
        self.nodal_component_bits[2] = 0;
        let index = (dof - 1) as usize;
        self.nodal_component_bits[index] = value;
    }

    /// The force when exactly one of its three components has a magnitude
    /// above `f32::EPSILON`: that DOF (1..=3) with the component's sign
    /// (`±1.0`), and its magnitude.
    pub fn single_axis_force(&self) -> (force: Option<((u8, u32), u32)>)
        ensures
            match force {
                Some(((dof, sign), magnitude)) => {
                    &&& count_nonzero(self.nodal_component_bits@, 3) == 1
                    &&& 1 <= dof <= 3
                    &&& above_epsilon(self.nodal_component_bits[dof - 1])
                    &&& sign == (if f32_sign(self.nodal_component_bits[dof - 1]) { MINUS_ONE_BITS } else { ONE_BITS })
                    &&& magnitude == self.nodal_component_bits[dof - 1] as int % 0x8000_0000
                },
                None => count_nonzero(self.nodal_component_bits@, 3) != 1,
            },
    {
        let c = self.nodal_component_bits;
        let a = is_above_epsilon(c[0]);
        let b = is_above_epsilon(c[1]);
        let d = is_above_epsilon(c[2]);
        proof {
            reveal_with_fuel(count_nonzero, 4);
            assert(c@[0] == c[0] && c@[1] == c[1] && c@[2] == c[2]);
        }
        let index: usize = if a && !b && !d {
            0
        } else if !a && b && !d {
            1
        } else if !a && !b && d {
            2
        } else {
            return None;
        };
        let value = c[index];
        let sign = if value >= 0x8000_0000 { MINUS_ONE_BITS } else { ONE_BITS };
        Some((((index + 1) as u8, sign), value % 0x8000_0000))
    }

    /// The rotation centre, when a node has been picked.
    pub fn resolved_rotation_center(&self) -> (center: Option<RotationCenter>)
        ensures
            center == spec_rotation_center(self.rotation_center),
    {
        match self.rotation_center {
            Some(pick) => match pick.node {
                Some(node) => Some(RotationCenter { mesh_index: pick.mesh_index, node: Some(node) }),
                None => None,
            },
            None => None,
        }
    }

    /// How constraint component `index` is solved.
    pub fn constraint_solver_component(&self, index: usize) -> (component: Option<(u8, Option<RotationCenter>)>)
        ensures
            component == spec_solver_component(index, self.constraint_rotation_mode, self.rotation_center),
            index <= 2 ==> component == Some(((index + 1) as u8, None::<RotationCenter>)),
            3 <= index <= 5 && self.constraint_rotation_mode == RotationalInputMode::AboutCenter ==> component == match spec_rotation_center(
                self.rotation_center,
            ) {
                Some(c) => Some(((index - 2) as u8, Some(c))),
                None => None,
            },
            index <= 5 && self.constraint_rotation_mode == RotationalInputMode::DirectDof ==> component == Some(
                ((index + 1) as u8, None::<RotationCenter>),
            ),
            index > 5 ==> component is None,
    {
        solver_component(index, self.constraint_rotation_mode, self.resolved_rotation_center())
    }

    /// How load component `index` is solved.
    pub fn load_solver_component(&self, index: usize) -> (component: Option<(u8, Option<RotationCenter>)>)
        ensures
            component == spec_solver_component(index, self.load_moment_mode, self.rotation_center),
            index <= 2 ==> component == Some(((index + 1) as u8, None::<RotationCenter>)),
            3 <= index <= 5 && self.load_moment_mode == RotationalInputMode::AboutCenter ==> component == match spec_rotation_center(
                self.rotation_center,
            ) {
                Some(c) => Some(((index - 2) as u8, Some(c))),
                None => None,
            },
            index <= 5 && self.load_moment_mode == RotationalInputMode::DirectDof ==> component == Some(
                ((index + 1) as u8, None::<RotationCenter>),
            ),
            index > 5 ==> component is None,
    {
        solver_component(index, self.load_moment_mode, self.resolved_rotation_center())
    }
}

fn solver_component(index: usize, mode: RotationalInputMode, center: Option<RotationCenter>) -> (component: Option<(u8, Option<RotationCenter>)>)
    ensures
        forall|pick: Option<EntityPick>| spec_rotation_center(pick) == center ==> component == spec_solver_component(
            index,
            mode,
            pick,
        ),
{
    if index <= 2 {
        Some(((index + 1) as u8, None))
    } else if index <= 5 && mode == RotationalInputMode::DirectDof {
        Some(((index + 1) as u8, None))
    } else if index <= 5 {
        match center {
            Some(c) => Some(((index - 2) as u8, Some(c))),
            None => None,
        }
    } else {
        None
    }
}

/// A global load direction: FrontISTR DOF 1..3 and a sign.
#[derive(Clone, Copy, Debug, PartialEq, Eq, Structural)]
pub struct DirectionChoice {
    pub dof: u8,
    pub sign: i8,
}

/// The bit pattern of `0.0 * (sign as f32)`: a zero carrying the sign.
pub open spec fn signed_zero_bits(sign: i8) -> u32 {
    if sign < 0 {
        0x8000_0000u32
    } else {
        0u32
    }
}

/// One component of `axis * (sign as f32)`, where the axis component is
/// 1.0 (`unit`) or 0.0.
pub open spec fn scaled_component(unit: bool, sign: i8) -> u32 {
    if unit {
        i8_f32_bits(sign)
    } else {
        signed_zero_bits(sign)
    }
}

impl DirectionChoice {
    pub fn new(dof: u8, sign: i8) -> (choice: DirectionChoice)
        ensures
            choice == (DirectionChoice { dof, sign }),
    {
        DirectionChoice { dof, sign }
    }

    /// The value stored as the selected load direction: the DOF and the sign
    /// as an `f32` bit pattern (`sign as f32`).
    pub fn selected_value(self) -> (value: (u8, u32))
        ensures
            value == (self.dof, i8_f32_bits(self.sign)),
    {
        (self.dof, i8_to_f32_bits(self.sign))
    }

    /// The world direction: the unit axis of the DOF (none for other DOFs)
    /// times the sign, component by component as `f32` bit patterns.
    pub fn vector(self) -> (v: AxisBits)
        ensures
            v == (AxisBits {
                x: scaled_component(self.dof == 1, self.sign),
                y: scaled_component(self.dof == 2, self.sign),
                z: scaled_component(self.dof == 3, self.sign),
            }),
    {
        let unit = i8_to_f32_bits(self.sign);
        let zero: u32 = if self.sign < 0 { 0x8000_0000 } else { 0 };
        AxisBits {
            x: if self.dof == 1 { unit } else { zero },
            y: if self.dof == 2 { unit } else { zero },
            z: if self.dof == 3 { unit } else { zero },
        }
    }

    pub fn label(self) -> (label: &'static str)
        ensures
            label@ == (if self.dof == 1 && self.sign == 1 {
                "+X"@
            } else if self.dof == 1 && self.sign == -1 {
                "-X"@
            } else if self.dof == 2 && self.sign == 1 {
                "+Y"@
            } else if self.dof == 2 && self.sign == -1 {
                "-Y"@
            } else if self.dof == 3 && self.sign == 1 {
                "+Z"@
            } else if self.dof == 3 && self.sign == -1 {
                "-Z"@
            } else {
                "?"@
            }),
    {
        match (self.dof, self.sign) {
            (1, 1) => "+X",
            (1, -1) => "-X",
            (2, 1) => "+Y",
            (2, -1) => "-Y",
            (3, 1) => "+Z",
            (3, -1) => "-Z",
            _ => "?",
        }
    }

    /// The caption of the measurement box while this direction is loaded.
    pub fn measurement_label(self) -> (label: &'static str)
        ensures
            label@ == (if self.dof == 1 && self.sign == 1 {
                "Nodal load +X"@
            } else if self.dof == 1 && self.sign == -1 {
                "Nodal load -X"@
            } else if self.dof == 2 && self.sign == 1 {
                "Nodal load +Y"@
            } else if self.dof == 2 && self.sign == -1 {
                "Nodal load -Y"@
            } else if self.dof == 3 && self.sign == 1 {
                "Nodal load +Z"@
            } else if self.dof == 3 && self.sign == -1 {
                "Nodal load -Z"@
            } else {
                "Nodal load"@
            }),
    {
        match (self.dof, self.sign) {
            (1, 1) => "Nodal load +X",
            (1, -1) => "Nodal load -X",
            (2, 1) => "Nodal load +Y",
            (2, -1) => "Nodal load -Y",
            (3, 1) => "Nodal load +Z",
            (3, -1) => "Nodal load -Z",
            _ => "Nodal load",
        }
    }
}

/// The six picker directions, in display order.
pub fn directions() -> (all: Vec<DirectionChoice>)
    ensures
        all@ == seq![
            DirectionChoice { dof: 1u8, sign: 1i8 },
            DirectionChoice { dof: 1u8, sign: -1i8 },
            DirectionChoice { dof: 2u8, sign: 1i8 },
            DirectionChoice { dof: 2u8, sign: -1i8 },
            DirectionChoice { dof: 3u8, sign: 1i8 },
            DirectionChoice { dof: 3u8, sign: -1i8 },
        ],
{
    let all = vec![
        DirectionChoice::new(1, 1),
        DirectionChoice::new(1, -1),
        DirectionChoice::new(2, 1),
        DirectionChoice::new(2, -1),
        DirectionChoice::new(3, 1),
        DirectionChoice::new(3, -1),
    ];
    proof {
        assert(all@ =~= seq![
            DirectionChoice { dof: 1u8, sign: 1i8 },
            DirectionChoice { dof: 1u8, sign: -1i8 },
            DirectionChoice { dof: 2u8, sign: 1i8 },
            DirectionChoice { dof: 2u8, sign: -1i8 },
            DirectionChoice { dof: 3u8, sign: 1i8 },
            DirectionChoice { dof: 3u8, sign: -1i8 },
        ]);
    }
    all
}

/// Whether an `f32` bit pattern is `>= 0.0` (true for -0.0 and +inf, false for NaN).
pub open spec fn f32_ge_zero(bits: u32) -> bool {
    !crate::float_bits::f32_is_nan(bits) && (bits < 0x8000_0000 || bits == 0x8000_0000)
}

/// The measurement caption for a nodal load along DOF `dof` whose sign is
/// the `f32` with bits `sign_bits`.
pub fn nodal_load_measurement_label(dof: u8, sign_bits: u32) -> (label: &'static str)
    ensures
        label@ == (if dof == 1 && f32_ge_zero(sign_bits) {
            "Nodal load +X"@
        } else if dof == 1 {
            "Nodal load -X"@
        } else if dof == 2 && f32_ge_zero(sign_bits) {
            "Nodal load +Y"@
        } else if dof == 2 {
            "Nodal load -Y"@
        } else if dof == 3 && f32_ge_zero(sign_bits) {
            "Nodal load +Z"@
        } else if dof == 3 {
            "Nodal load -Z"@
        } else {
            "Nodal load"@
        }),
{
    let non_negative = !crate::float_bits::is_nan(sign_bits) && (sign_bits < 0x8000_0000 || sign_bits
        == 0x8000_0000);
    match (dof, non_negative) {
        (1, true) => "Nodal load +X",
        (1, false) => "Nodal load -X",
        (2, true) => "Nodal load +Y",
        (2, false) => "Nodal load -Y",
        (3, true) => "Nodal load +Z",
        (3, false) => "Nodal load -Z",
        _ => "Nodal load",
    }
}


/// `abs(magnitude) * signum(sign)` for a finite magnitude and a sign that is
/// not NaN: the magnitude's bits with the sign bit of `sign`.
pub open spec fn signed_magnitude(sign_bits: u32, magnitude_bits: u32) -> u32 {
    ((magnitude_bits as int % 0x8000_0000) + (if f32_sign(sign_bits) { 0x8000_0000int } else { 0 })) as u32
}

/// Whether an `f32` bit pattern has a magnitude above `f32::EPSILON`
/// (`0x3400_0000`); NaN compares as not.
pub open spec fn above_epsilon(bits: u32) -> bool {
    !f32_is_nan(bits) && bits as int % 0x8000_0000 > 0x3400_0000
}

fn is_above_epsilon(bits: u32) -> (above: bool)
    ensures
        above == above_epsilon(bits),
{
    !crate::float_bits::is_nan(bits) && bits % 0x8000_0000 > 0x3400_0000
}

/// How many of the first `n` flags are set.
pub open spec fn count_set(flags: Seq<bool>, n: int) -> nat
    decreases n,
{
    if n <= 0 {
        0
    } else {
        count_set(flags, n - 1) + if flags[n - 1] {
            1nat
        } else {
            0nat
        }
    }
}

/// How many of the first `n` values have a magnitude above `f32::EPSILON`.
pub open spec fn count_nonzero(values: Seq<u32>, n: int) -> nat
    decreases n,
{
    if n <= 0 {
        0
    } else {
        count_nonzero(values, n - 1) + if above_epsilon(values[n - 1]) {
            1nat
        } else {
            0nat
        }
    }
}

/// Whether constraints about a centre are enabled but no centre is set.
pub open spec fn constraints_need_center(state: BoundaryLoadEditorState) -> bool {
    state.constraint_rotation_mode == RotationalInputMode::AboutCenter && (state.constraint_enabled[3]
        || state.constraint_enabled[4] || state.constraint_enabled[5]) && state.rotation_center is None
}

/// Whether moments about a centre are entered but no centre is set.
pub open spec fn loads_need_center(state: BoundaryLoadEditorState) -> bool {
    state.load_moment_mode == RotationalInputMode::AboutCenter && (above_epsilon(state.nodal_component_bits[3])
        || above_epsilon(state.nodal_component_bits[4]) || above_epsilon(state.nodal_component_bits[5]))
        && state.rotation_center is None
}

impl BoundaryLoadEditorState {
    /// The caption of the Apply Constraints button for `node_count` selected nodes.
    pub fn apply_constraint_label(&self, node_count: usize) -> (label: String)
        ensures
            label@ == (if constraints_need_center(*self) {
                "Apply Constraints - set one rotation center"@
            } else if node_count == 0 {
                "Apply Constraints - no nodes selected"@
            } else if count_set(self.constraint_enabled@, 6) == 0 {
                "Apply Constraints - choose DOF ("@ + decimal(node_count as nat) + " nodes)"@
            } else {
                "Apply "@ + decimal(count_set(self.constraint_enabled@, 6)) + " DOF to "@ + decimal(
                    node_count as nat,
                ) + " nodes"@
            }),
    {
        let mut dofs: usize = 0;
        let mut i: usize = 0;
        while i < 6
            invariant
                i <= 6,
                dofs == count_set(self.constraint_enabled@, i as int),
                dofs <= i,
            decreases 6 - i,
        {
            if self.constraint_enabled[i] {
                dofs += 1;
            }
            i += 1;
        }
        let needs_center = self.constraint_rotation_mode == RotationalInputMode::AboutCenter && (
        self.constraint_enabled[3] || self.constraint_enabled[4] || self.constraint_enabled[5])
            && self.rotation_center.is_none();
        if needs_center {
            String::from_str("Apply Constraints - set one rotation center")
        } else if node_count == 0 {
            String::from_str("Apply Constraints - no nodes selected")
        } else if dofs == 0 {
            let mut label = String::from_str("Apply Constraints - choose DOF (");
            push_decimal(&mut label, node_count);
            label.append(" nodes)");
            label
        } else {
            let mut label = String::from_str("Apply ");
            push_decimal(&mut label, dofs);
            label.append(" DOF to ");
            push_decimal(&mut label, node_count);
            label.append(" nodes");
            label
        }
    }

    /// The caption of the Apply Load button for `node_count` selected nodes.
    pub fn apply_load_label(&self, node_count: usize) -> (label: String)
        ensures
            label@ == (if loads_need_center(*self) {
                "Apply Load - set one rotation center"@
            } else if node_count > 0 {
                "Apply "@ + decimal(count_nonzero(self.nodal_component_bits@, 6)) + " load components  ("@
                    + decimal(node_count as nat) + " nodes)"@
            } else {
                "Apply Load - no nodes selected"@
            }),
    {
        let mut components: usize = 0;
        let mut i: usize = 0;
        while i < 6
            invariant
                i <= 6,
                components == count_nonzero(self.nodal_component_bits@, i as int),
                components <= i,
            decreases 6 - i,
        {
            if is_above_epsilon(self.nodal_component_bits[i]) {
                components += 1;
            }
            i += 1;
        }
        let needs_center = self.load_moment_mode == RotationalInputMode::AboutCenter && (is_above_epsilon(
            self.nodal_component_bits[3],
        ) || is_above_epsilon(self.nodal_component_bits[4]) || is_above_epsilon(self.nodal_component_bits[5]))
            && self.rotation_center.is_none();
        if needs_center {
            String::from_str("Apply Load - set one rotation center")
        } else if node_count > 0 {
            let mut label = String::from_str("Apply ");
            push_decimal(&mut label, components);
            label.append(" load components  (");
            push_decimal(&mut label, node_count);
            label.append(" nodes)");
            label
        } else {
            String::from_str("Apply Load - no nodes selected")
        }
    }
}

/// The caption of a constraint preset button: its name and, when nodes are
/// selected, their number.
pub fn preset_button_label(name: &str, node_count: usize) -> (label: String)
    ensures
        label@ == (if node_count > 0 {
            name@ + " ("@ + decimal(node_count as nat) + ")"@
        } else {
            name@
        }),
{
    let mut label = String::from_str(name);
    if node_count > 0 {
        label.append(" (");
        push_decimal(&mut label, node_count);
        label.append(")");
    }
    label
}


/// The rotation centre status line: a pending feedback message, else the
/// picked centre, else a note that it is only needed about a centre.
pub fn rotation_center_status(feedback: Option<&str>, center: Option<EntityPick>) -> (text: String)
    requires
        center matches Some(c) ==> c.mesh_index < usize::MAX,
    ensures
        text@ == match feedback {
            Some(m) => m@,
            None => match center {
                Some(c) => match c.node {
                    Some(n) => "Center: part "@ + decimal(c.mesh_index as nat + 1) + " / node "@ + decimal(
                        n.0 as nat,
                    ) + " - now select target nodes"@,
                    None => "Center: invalid selection"@,
                },
                None => "Center: not set (required only for About center)"@,
            },
        },
{
    match feedback {
        Some(m) => String::from_str(m),
        None => match center {
            Some(c) => match c.node {
                Some(n) => {
                    let mut text = String::from_str("Center: part ");
                    push_decimal(&mut text, c.mesh_index + 1);
                    text.append(" / node ");
                    crate::text::push_decimal_u64(&mut text, n.0);
                    text.append(" - now select target nodes");
                    text
                },
                None => String::from_str("Center: invalid selection"),
            },
            None => String::from_str("Center: not set (required only for About center)"),
        },
    }
}

/// About a picked node, the rotation about an axis is solved on the same
/// FrontISTR DOF as the translation along that axis (Rx, Ry, Rz on DOFs 1, 2,
/// 3), about that node; so the three rotations go to three different DOFs.
/// Directly entered, every component keeps its own DOF.
pub proof fn lemma_rotations_share_translation_dofs(i: usize, pick: Option<EntityPick>, mode: RotationalInputMode)
    ensures
        0 <= i <= 2 ==> spec_solver_component(i, mode, pick) == Some(((i + 1) as u8, None::<RotationCenter>)),
        3 <= i <= 5 && spec_rotation_center(pick) is Some ==> spec_solver_component(
            i,
            RotationalInputMode::AboutCenter,
            pick,
        ) == Some(
            ((spec_solver_component((i - 3) as usize, RotationalInputMode::AboutCenter, pick)->0).0, spec_rotation_center(pick)),
        ),
        3 <= i <= 5 && spec_rotation_center(pick) is None ==> spec_solver_component(
            i,
            RotationalInputMode::AboutCenter,
            pick,
        ) is None,
        i <= 5 ==> spec_solver_component(i, RotationalInputMode::DirectDof, pick) == Some(((i + 1) as u8, None::<RotationCenter>)),
{
}

/// Different rotation components about a node are solved on different DOFs.
pub proof fn lemma_rotation_dofs_distinct(i: usize, j: usize, pick: Option<EntityPick>)
    requires
        3 <= i <= 5,
        3 <= j <= 5,
        i != j,
        spec_rotation_center(pick) is Some,
    ensures
        (spec_solver_component(i, RotationalInputMode::AboutCenter, pick)->0).0 != (spec_solver_component(
            j,
            RotationalInputMode::AboutCenter,
            pick,
        )->0).0,
{
}

} // verus!
