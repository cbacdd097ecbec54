use vstd::prelude::*;

verus! {

use crate::float_bits::{f32_is_finite, f32_finite_non_negative, f32_finite_positive, finite_non_negative, finite_positive};
use crate::measurement::{MeasurementBoxState, MeasurementTarget, SliderId};
use crate::sidebar::{SidebarPage, ViewportTool};
use crate::names::{contact_name, contact_name_taken, first_free, next_contact_name};
use crate::text::{decimal, push_decimal};

/// How the two sides of a contact pair are described.
#[derive(Clone, Copy, Debug, PartialEq, Eq, Structural)]
pub enum ContactPairKind {
    NodeSurface,
    SurfaceSurface,
}

/// The FrontISTR contact formulation.
#[derive(Clone, Copy, Debug, PartialEq, Eq, Structural)]
pub enum ContactType {
    Tied,
    SmallSliding,
    FiniteSliding,
}

/// The keyword FrontISTR uses for a pair kind.
pub open spec fn pair_kind_label(kind: ContactPairKind) -> Seq<char> {
    match kind {
        ContactPairKind::NodeSurface => "NODE-SURF"@,
        ContactPairKind::SurfaceSurface => "SURF-SURF"@,
    }
}

impl ContactPairKind {
    pub fn label(self) -> (label: &'static str)
        ensures
            label@ == pair_kind_label(self),
    {
        match self {
            ContactPairKind::NodeSurface => "NODE-SURF",
            ContactPairKind::SurfaceSurface => "SURF-SURF",
        }
    }
}

/// The friction and penalty that a contact of `contact_type` is created with
/// (`f32` bit patterns), or why the entered values are refused. Tied contacts
/// carry no friction and no custom penalty.
pub open spec fn contact_parameters(
    contact_type: ContactType,
    friction: u32,
    penalty: Option<u32>,
) -> Result<(u32, Option<u32>), Seq<char>> {
    if contact_type == ContactType::Tied {
        Ok((0, None))
    } else if !f32_finite_non_negative(friction) {
        Err("Friction coefficient must be zero or greater"@)
    } else if penalty matches Some(p) && !f32_finite_positive(p) {
        Err("Custom penalty factor must be greater than zero"@)
    } else {
        Ok((friction, penalty))
    }
}

/// Checks the friction coefficient (finite, `>= 0`) and the optional custom
/// penalty factor (finite, `> 0`) of a sliding contact.
pub fn validated_contact_parameters(
    contact_type: ContactType,
    friction_coefficient: u32,
    penalty_factor: Option<u32>,
) -> (r: Result<(u32, Option<u32>), String>)
    ensures
        match r {
            Ok(v) => contact_parameters(contact_type, friction_coefficient, penalty_factor) == Ok::<
                (u32, Option<u32>),
                Seq<char>,
            >(v),
            Err(e) => contact_parameters(contact_type, friction_coefficient, penalty_factor) == Err::<
                (u32, Option<u32>),
                Seq<char>,
            >(e@),
        },
        contact_type != ContactType::Tied && f32_finite_non_negative(friction_coefficient) && (penalty_factor is None
            || f32_finite_positive(penalty_factor->0)) ==> r == Ok::<(u32, Option<u32>), String>(
            (friction_coefficient, penalty_factor),
        ),
        contact_type == ContactType::Tied ==> r == Ok::<(u32, Option<u32>), String>((0, None)),
{
    match contact_type {
        ContactType::Tied => Ok((0, None)),
        _ => {
            if !finite_non_negative(friction_coefficient) {
                return Err(String::from_str("Friction coefficient must be zero or greater"));
            }
            if let Some(factor) = penalty_factor {
                if !finite_positive(factor) {
                    return Err(String::from_str("Custom penalty factor must be greater than zero"));
                }
            }
            Ok((friction_coefficient, penalty_factor))
        },
    }
}


/// The slave side of a contact draft: captured nodes or faces of one mesh.
#[derive(Clone, Copy, Debug, PartialEq, Eq, Structural)]
pub enum ContactSlave {
    Nodes { mesh_index: usize, count: usize },
    Faces { mesh_index: usize, count: usize },
}

/// One line of the contact draft status.
pub open spec fn slave_line(slave: Option<ContactSlave>) -> Seq<char> {
    match slave {
        Some(ContactSlave::Nodes { mesh_index, count }) => "Slave: "@ + decimal(count as nat) + " nodes (part "@
            + decimal(mesh_index as nat + 1) + ")"@,
        Some(ContactSlave::Faces { mesh_index, count }) => "Slave: "@ + decimal(count as nat) + " faces (part "@
            + decimal(mesh_index as nat + 1) + ")"@,
        None => "Slave: not set"@,
    }
}

pub open spec fn master_line(master: Option<(usize, usize)>) -> Seq<char> {
    match master {
        Some((mesh_index, count)) => "Master: "@ + decimal(count as nat) + " faces (part "@ + decimal(
            mesh_index as nat + 1,
        ) + ")"@,
        None => "Master: not set"@,
    }
}

/// The contact draft status: the slave side, the master side (its mesh and
/// face count) and the last message, one per line.
pub fn contact_draft_status(slave: Option<ContactSlave>, master: Option<(usize, usize)>, message: &str) -> (text: String)
    requires
        slave matches Some(ContactSlave::Nodes { mesh_index, .. }) ==> mesh_index < usize::MAX,
        slave matches Some(ContactSlave::Faces { mesh_index, .. }) ==> mesh_index < usize::MAX,
        master matches Some((mesh_index, _)) ==> mesh_index < usize::MAX,
    ensures
        text@ == slave_line(slave) + "\n"@ + master_line(master) + "\n"@ + message@,
{
    let mut text = String::new();
    match slave {
        Some(ContactSlave::Nodes { mesh_index, count }) => {
            text.append("Slave: ");
            push_decimal(&mut text, count);
            text.append(" nodes (part ");
            push_decimal(&mut text, mesh_index + 1);
            text.append(")");
        },
        Some(ContactSlave::Faces { mesh_index, count }) => {
            text.append("Slave: ");
            push_decimal(&mut text, count);
            text.append(" faces (part ");
            push_decimal(&mut text, mesh_index + 1);
            text.append(")");
        },
        None => text.append("Slave: not set"),
    }
    text.append("\n");
    match master {
        Some((mesh_index, count)) => {
            text.append("Master: ");
            push_decimal(&mut text, count);
            text.append(" faces (part ");
            push_decimal(&mut text, mesh_index + 1);
            text.append(")");
        },
        None => text.append("Master: not set"),
    }
    text.append("\n");
    text.append(message);
    text
}

/// What creating a contact from the captured draft does to the model.
#[derive(Debug)]
pub enum ContactCreation {
    /// Nothing is created; the message says why.
    Refused(String),
    /// The master surface group `master_set` is added to the master mesh, and
    /// then creation stops because the slave mesh is gone.
    MasterOnly { master_set: String, error: String },
    /// The contact `name` is added with its master surface group
    /// `master_set` and its slave group `slave_set` (a node group when
    /// `slave_nodes`, else a surface group), with the checked parameters.
    Created {
        name: String,
        master_set: String,
        slave_set: String,
        slave_nodes: bool,
        friction_bits: u32,
        penalty_bits: Option<u32>,
    },
}

/// Whether `name` is the automatic name the next contact gets.
pub open spec fn is_next_contact_name(existing: Seq<String>, name: Seq<char>) -> bool {
    exists|k: nat| #[trigger] contact_name(k) == name && first_free(
        |j: nat| contact_name_taken(existing, j),
        (existing.len() + 1) as nat,
        k,
    )
}

/// Whether creation was refused with `message`.
pub open spec fn refused_with(creation: ContactCreation, message: Seq<char>) -> bool {
    creation matches ContactCreation::Refused(m) && m@ == message
}

/// Whether the captured slave side fits the chosen pair topology.
pub open spec fn slave_fits(kind: ContactPairKind, slave: ContactSlave) -> bool {
    match (kind, slave) {
        (ContactPairKind::NodeSurface, ContactSlave::Nodes { .. }) => true,
        (ContactPairKind::SurfaceSurface, ContactSlave::Faces { .. }) => true,
        _ => false,
    }
}

pub open spec fn slave_mesh(slave: ContactSlave) -> usize {
    match slave {
        ContactSlave::Nodes { mesh_index, .. } => mesh_index,
        ContactSlave::Faces { mesh_index, .. } => mesh_index,
    }
}

/// Decides how a contact is created from the captured draft: the master
/// surface (its mesh and face count) and the slave side must both be
/// captured, the slave must fit the topology and the parameters must be
/// valid before any group is made; the groups are named after the contact.
/// `contacts` holds the names of the existing contacts and `mesh_count` the
/// number of meshes in the model.
pub fn plan_contact_from_draft(
    master: Option<(usize, usize)>,
    slave: Option<ContactSlave>,
    kind: ContactPairKind,
    contact_type: ContactType,
    friction_bits: u32,
    penalty_bits: Option<u32>,
    contacts: &Vec<String>,
    mesh_count: usize,
) -> (creation: ContactCreation)
    requires
        contacts.len() < usize::MAX / 2,
    ensures
        master is None ==> refused_with(creation, "Capture the master surface first"@),
        master is Some && slave is None ==> refused_with(creation, "Capture the slave side first"@),
        master is Some && slave is Some && !slave_fits(kind, slave->0) ==> refused_with(
            creation,
            "Captured slave does not match the selected topology"@,
        ),
        master is Some && slave is Some && slave_fits(kind, slave->0) ==> match contact_parameters(
            contact_type,
            friction_bits,
            penalty_bits,
        ) {
            Err(e) => refused_with(creation, e),
            Ok((friction, penalty)) => if (master->0).0 >= mesh_count {
                refused_with(creation, "Master mesh no longer exists"@)
            } else if slave_mesh(slave->0) >= mesh_count {
                creation matches ContactCreation::MasterOnly { master_set, error } && error@
                    == "Slave mesh no longer exists"@ && exists|name: Seq<char>|
                    is_next_contact_name(contacts@, name) && master_set@ == name + "_MASTER"@
            } else {
                creation matches ContactCreation::Created {
                    name,
                    master_set,
                    slave_set,
                    slave_nodes,
                    friction_bits: f,
                    penalty_bits: p,
                } && {
                    &&& is_next_contact_name(contacts@, name@)
                    &&& master_set@ == name@ + "_MASTER"@
                    &&& slave_set@ == name@ + "_SLAVE"@
                    &&& slave_nodes == (kind == ContactPairKind::NodeSurface)
                    &&& f == friction
                    &&& p == penalty
                }
            },
        },
{
    let (master_mesh, _) = match master {
        Some(m) => m,
        None => {
            return ContactCreation::Refused(String::from_str("Capture the master surface first"));
        },
    };
    let slave = match slave {
        Some(s) => s,
        None => {
            return ContactCreation::Refused(String::from_str("Capture the slave side first"));
        },
    };
    let (fits, slave_mesh_index) = match (kind, slave) {
        (ContactPairKind::NodeSurface, ContactSlave::Nodes { mesh_index, .. }) => (true, mesh_index),
        (ContactPairKind::SurfaceSurface, ContactSlave::Faces { mesh_index, .. }) => (true, mesh_index),
        (_, ContactSlave::Nodes { mesh_index, .. }) => (false, mesh_index),
        (_, ContactSlave::Faces { mesh_index, .. }) => (false, mesh_index),
    };
    if !fits {
        return ContactCreation::Refused(String::from_str("Captured slave does not match the selected topology"));
    }
    let (friction, penalty) = match validated_contact_parameters(contact_type, friction_bits, penalty_bits) {
        Ok(v) => v,
        Err(e) => {
            return ContactCreation::Refused(e);
        },
    };
    let name = next_contact_name(contacts);
    if master_mesh >= mesh_count {
        return ContactCreation::Refused(String::from_str("Master mesh no longer exists"));
    }
    if slave_mesh_index >= mesh_count {
        let mut master_set = name;
        master_set.append("_MASTER");
        return ContactCreation::MasterOnly { master_set, error: String::from_str("Slave mesh no longer exists") };
    }
    let mut master_set = name.clone();
    master_set.append("_MASTER");
    let mut slave_set = name.clone();
    slave_set.append("_SLAVE");
    ContactCreation::Created {
        name,
        master_set,
        slave_set,
        slave_nodes: match kind {
            ContactPairKind::NodeSurface => true,
            ContactPairKind::SurfaceSurface => false,
        },
        friction_bits: friction,
        penalty_bits: penalty,
    }
}

/// The contact parameter whose slider the measurement box follows.
#[derive(Clone, Copy, Debug, PartialEq, Eq, Structural)]
pub enum ContactParameter {
    Friction,
    PenaltyFactor,
    SearchGap,
    SearchAngle,
    SpiderRadius,
}

/// The parameter shown: the penalty factor only while a custom one is used,
/// the friction coefficient in its place otherwise.
pub open spec fn shown_parameter(active: ContactParameter, use_penalty_factor: bool) -> ContactParameter {
    if active == ContactParameter::PenaltyFactor && !use_penalty_factor {
        ContactParameter::Friction
    } else {
        active
    }
}

/// The slider of a parameter, its caption and units, and the `f32` value
/// (as bits) shown when the slider is not found.
pub open spec fn parameter_slider(p: ContactParameter) -> (SliderId, Seq<char>, Seq<char>, u32) {
    match p {
        ContactParameter::Friction => (SliderId::ContactFriction, "Friction coefficient"@, "dimensionless"@, 0),
        ContactParameter::PenaltyFactor => (
            SliderId::ContactPenaltyFactor,
            "Contact penalty factor"@,
            "FrontISTR input value"@,
            0x47c3_5000,
        ),
        ContactParameter::SearchGap => (SliderId::ContactSearchGap, "Contact search gap"@, "model units"@, 0x3d4c_cccd),
        ContactParameter::SearchAngle => (
            SliderId::ContactSearchAngle,
            "Contact normal tolerance"@,
            "degrees"@,
            0x41a0_0000,
        ),
        ContactParameter::SpiderRadius => (SliderId::RigidSpiderRadius, "MPC spider search radius"@, "model units"@, 0x3f80_0000),
    }
}

fn slider_of(p: ContactParameter) -> (r: (SliderId, &'static str, &'static str, u32))
    ensures
        r.0 == parameter_slider(p).0,
        r.1@ == parameter_slider(p).1,
        r.2@ == parameter_slider(p).2,
        r.3 == parameter_slider(p).3,
{
    match p {
        ContactParameter::Friction => (SliderId::ContactFriction, "Friction coefficient", "dimensionless", 0),
        ContactParameter::PenaltyFactor => (
            SliderId::ContactPenaltyFactor,
            "Contact penalty factor",
            "FrontISTR input value",
            0x47c3_5000,
        ),
        ContactParameter::SearchGap => (SliderId::ContactSearchGap, "Contact search gap", "model units", 0x3d4c_cccd),
        ContactParameter::SearchAngle => (SliderId::ContactSearchAngle, "Contact normal tolerance", "degrees", 0x41a0_0000),
        ContactParameter::SpiderRadius => (SliderId::RigidSpiderRadius, "MPC spider search radius", "model units", 0x3f80_0000),
    }
}

/// The first slider with `id` from position `i` on: its value (bits) and
/// whether it changed this frame.
pub open spec fn find_slider(sliders: Seq<(SliderId, u32, bool)>, id: SliderId, i: int) -> Option<(u32, bool)>
    decreases sliders.len() - i,
{
    if i < 0 || i >= sliders.len() {
        None
    } else if sliders[i].0 == id {
        Some((sliders[i].1, sliders[i].2))
    } else {
        find_slider(sliders, id, i + 1)
    }
}

/// Whether the measurement box follows the slider `id`.
pub open spec fn follows_slider(m: MeasurementBoxState, id: SliderId) -> bool {
    m.target matches Some(MeasurementTarget::SliderValue { slider_id, .. }) && slider_id == id
}

/// Keeps the measurement box on the contact parameter being edited: on the
/// Contact page with the selection tool, it shows the slider of the shown
/// parameter (beginning anew when it showed something else, following the
/// slider when it moved). Tied contacts have no friction or penalty, so a box
/// showing those is closed instead. `sliders` lists every slider with its
/// value and whether it changed this frame.
pub fn sync_contact_measurement(
    page: SidebarPage,
    tool: ViewportTool,
    contact_type: ContactType,
    active: ContactParameter,
    use_penalty_factor: bool,
    sliders: &Vec<(SliderId, u32, bool)>,
    measurement: &mut MeasurementBoxState,
)
    ensures
        !(page == SidebarPage::Contact && tool == ViewportTool::Selection) ==> *final(measurement) == *old(measurement),
        page == SidebarPage::Contact && tool == ViewportTool::Selection && contact_type == ContactType::Tied && (active
            == ContactParameter::Friction || active == ContactParameter::PenaltyFactor) ==> if follows_slider(
            *old(measurement),
            SliderId::ContactFriction,
        ) || follows_slider(*old(measurement), SliderId::ContactPenaltyFactor) {
            final(measurement).target is None && !final(measurement).dragging
        } else {
            *final(measurement) == *old(measurement)
        },
        page == SidebarPage::Contact && tool == ViewportTool::Selection && !(contact_type == ContactType::Tied && (active
            == ContactParameter::Friction || active == ContactParameter::PenaltyFactor)) ==> ({
            let (id, label, units, fallback) = parameter_slider(shown_parameter(active, use_penalty_factor));
            let reading = find_slider(sliders@, id, 0);
            let value = match reading {
                Some((v, _)) => v,
                None => fallback,
            };
            if !follows_slider(*old(measurement), id) {
                &&& final(measurement).target matches Some(MeasurementTarget::SliderValue { slider_id, label: l, units: u })
                    && slider_id == id && l@ == label && u@ == units
                &&& final(measurement).value_bits == value
                &&& !final(measurement).dragging
                &&& final(measurement).error is None
            } else if reading matches Some((_, true)) {
                &&& final(measurement).target == old(measurement).target
                &&& final(measurement).dragging == old(measurement).dragging
                &&& f32_is_finite(value) ==> final(measurement).value_bits == value && final(measurement).error is None
                &&& !f32_is_finite(value) ==> final(measurement).value_bits == old(measurement).value_bits
                    && final(measurement).error == old(measurement).error
            } else {
                *final(measurement) == *old(measurement)
            }
        }),
{
    let on_page = match (page, tool) {
        (SidebarPage::Contact, ViewportTool::Selection) => true,
        _ => false,
    };
    if !on_page {
        return;
    }
    let frictional = match active {
        ContactParameter::Friction | ContactParameter::PenaltyFactor => true,
        _ => false,
    };
    let tied = match contact_type {
        ContactType::Tied => true,
        _ => false,
    };
    if tied && frictional {
        let showing = match measurement.target {
            Some(MeasurementTarget::SliderValue { slider_id: SliderId::ContactFriction, .. }) => true,
            Some(MeasurementTarget::SliderValue { slider_id: SliderId::ContactPenaltyFactor, .. }) => true,
            _ => false,
        };
        if showing {
            measurement.clear();
        }
        return;
    }
    let parameter = match (active, use_penalty_factor) {
        (ContactParameter::PenaltyFactor, false) => ContactParameter::Friction,
        _ => active,
    };
    let (id, label, units, fallback) = slider_of(parameter);
    let mut reading: Option<(u32, bool)> = None;
    let mut i: usize = 0;
    while i < sliders.len()
        invariant_except_break
            i <= sliders.len(),
            reading is None,
            find_slider(sliders@, id, 0) == find_slider(sliders@, id, i as int),
        ensures
            reading == find_slider(sliders@, id, 0),
        decreases sliders.len() - i,
    {
        let (sid, bits, changed) = sliders[i];
        if sid == id {
            reading = Some((bits, changed));
            break;
        }
        i += 1;
    }
    let value = match reading {
        Some((v, _)) => v,
        None => fallback,
    };
    let follows = match measurement.target {
        Some(MeasurementTarget::SliderValue { slider_id, .. }) => slider_id == id,
        _ => false,
    };
    if !follows {
        measurement.begin_slider_value(id, label, units, value);
    } else {
        match reading {
            Some((_, true)) => measurement.update_slider_value(id, value),
            _ => {},
        }
    }
}

/// A sliding contact keeps exactly the friction coefficient and penalty factor
/// that were entered, once they are valid (finite friction `>= 0`, and no
/// penalty or a finite one `> 0`); a tied contact never carries them.
pub proof fn lemma_valid_parameters_are_kept(contact_type: ContactType, friction: u32, penalty: Option<u32>)
    ensures
        contact_type != ContactType::Tied && f32_finite_non_negative(friction) && (penalty is None
            || f32_finite_positive(penalty->0)) ==> contact_parameters(contact_type, friction, penalty) == Ok::<
            (u32, Option<u32>),
            Seq<char>,
        >((friction, penalty)),
        contact_type == ContactType::Tied ==> contact_parameters(contact_type, friction, penalty) == Ok::<
            (u32, Option<u32>),
            Seq<char>,
        >((0, None)),
        contact_type != ContactType::Tied && !f32_finite_non_negative(friction) ==> contact_parameters(
            contact_type,
            friction,
            penalty,
        ) is Err,
        contact_type != ContactType::Tied && (penalty matches Some(x) && !f32_finite_positive(x)) ==> contact_parameters(
            contact_type,
            friction,
            penalty,
        ) is Err,
{
}

} // verus!
