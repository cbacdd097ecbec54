use fem_ui::measurement::{AxisBits, MeasurementBoxState, MeasurementTarget, SliderId};
use fem_ui::sidebar::{SidebarPage, ViewportTool};
use fem_ui::contact::{
    ContactParameter, sync_contact_measurement,
};
use fem_ui::contact::{
    ContactCreation, ContactPairKind, ContactSlave, ContactType, contact_draft_status, plan_contact_from_draft,
    validated_contact_parameters,
};
use fem_ui::names::{PartName, mesh_label, target_label};

#[test]
fn tied_contacts_carry_no_friction_or_penalty() {
    assert_eq!(
        validated_contact_parameters(ContactType::Tied, f32::NAN.to_bits(), Some((-1.0f32).to_bits())),
        Ok((0, None))
    );
}

#[test]
fn sliding_contact_rejects_invalid_parameters() {
    let ok = validated_contact_parameters(ContactType::SmallSliding, 0.2f32.to_bits(), Some(1.0e5f32.to_bits()));
    assert_eq!(ok, Ok((0.2f32.to_bits(), Some(1.0e5f32.to_bits()))));
    assert_eq!(
        validated_contact_parameters(ContactType::FiniteSliding, (-0.1f32).to_bits(), None),
        Err("Friction coefficient must be zero or greater".to_string())
    );
    assert_eq!(
        validated_contact_parameters(ContactType::FiniteSliding, f32::INFINITY.to_bits(), None),
        Err("Friction coefficient must be zero or greater".to_string())
    );
    assert_eq!(
        validated_contact_parameters(ContactType::SmallSliding, 0.0f32.to_bits(), Some(0.0f32.to_bits())),
        Err("Custom penalty factor must be greater than zero".to_string())
    );
    assert!(validated_contact_parameters(ContactType::SmallSliding, (-0.0f32).to_bits(), None).is_ok());
}

#[test]
fn pair_kinds_use_frontistr_keywords() {
    assert_eq!(ContactPairKind::NodeSurface.label(), "NODE-SURF");
    assert_eq!(ContactPairKind::SurfaceSurface.label(), "SURF-SURF");
}

#[test]
fn meshes_are_labelled_by_their_part_or_index() {
    let parts = vec![
        PartName { mesh_index: 1, name: "Bracket".to_string() },
        PartName { mesh_index: 1, name: "Duplicate".to_string() },
    ];
    assert_eq!(mesh_label(&parts, 1), "Bracket");
    assert_eq!(mesh_label(&parts, 4), "Mesh 4");
    assert_eq!(target_label(&parts, 1, Some("ALL")), "[2] Bracket / ALL");
    assert_eq!(target_label(&parts, 0, None), "[1] Mesh / whole part");
}

#[test]
fn draft_status_names_both_sides() {
    assert_eq!(
        contact_draft_status(None, None, ""),
        "Slave: not set\nMaster: not set\n"
    );
    assert_eq!(
        contact_draft_status(Some(ContactSlave::Nodes { mesh_index: 0, count: 12 }), Some((1, 4)), "Ready"),
        "Slave: 12 nodes (part 1)\nMaster: 4 faces (part 2)\nReady"
    );
    assert_eq!(
        contact_draft_status(Some(ContactSlave::Faces { mesh_index: 2, count: 1 }), None, "x"),
        "Slave: 1 faces (part 3)\nMaster: not set\nx"
    );
}

#[test]
fn sliding_contact_rejects_invalid_parameters_before_creating_groups() {
    let master = Some((0, 1));
    let slave = Some(ContactSlave::Nodes { mesh_index: 0, count: 1 });
    let contacts: Vec<String> = Vec::new();
    let friction_error = plan_contact_from_draft(
        master,
        slave,
        ContactPairKind::NodeSurface,
        ContactType::FiniteSliding,
        (-0.1f32).to_bits(),
        None,
        &contacts,
        1,
    );
    match friction_error {
        ContactCreation::Refused(e) => assert!(e.contains("Friction coefficient")),
        other => panic!("{other:?}"),
    }
    let penalty_error = plan_contact_from_draft(
        master,
        slave,
        ContactPairKind::NodeSurface,
        ContactType::FiniteSliding,
        0.1f32.to_bits(),
        Some(0.0f32.to_bits()),
        &contacts,
        1,
    );
    match penalty_error {
        ContactCreation::Refused(e) => assert!(e.contains("penalty factor")),
        other => panic!("{other:?}"),
    }
}

#[test]
fn a_draft_contact_is_named_after_the_existing_contacts() {
    let contacts = vec!["contact_2".to_string()];
    let created = plan_contact_from_draft(
        Some((0, 3)),
        Some(ContactSlave::Faces { mesh_index: 1, count: 2 }),
        ContactPairKind::SurfaceSurface,
        ContactType::SmallSliding,
        0.2f32.to_bits(),
        None,
        &contacts,
        2,
    );
    match created {
        ContactCreation::Created { name, master_set, slave_set, slave_nodes, friction_bits, penalty_bits } => {
            assert_eq!(name, "CONTACT_3");
            assert_eq!(master_set, "CONTACT_3_MASTER");
            assert_eq!(slave_set, "CONTACT_3_SLAVE");
            assert!(!slave_nodes);
            assert_eq!(friction_bits, 0.2f32.to_bits());
            assert_eq!(penalty_bits, None);
        }
        other => panic!("{other:?}"),
    }
}

#[test]
fn drafts_must_be_complete_and_fit_the_topology() {
    let none: Vec<String> = Vec::new();
    let nodes = Some(ContactSlave::Nodes { mesh_index: 0, count: 1 });
    let plan = |master, slave, kind| {
        plan_contact_from_draft(master, slave, kind, ContactType::Tied, 0, None, &none, 1)
    };
    for (creation, message) in [
        (plan(None, nodes, ContactPairKind::NodeSurface), "Capture the master surface first"),
        (plan(Some((0, 1)), None, ContactPairKind::NodeSurface), "Capture the slave side first"),
        (
            plan(Some((0, 1)), nodes, ContactPairKind::SurfaceSurface),
            "Captured slave does not match the selected topology",
        ),
        (plan(Some((4, 1)), nodes, ContactPairKind::NodeSurface), "Master mesh no longer exists"),
    ] {
        match creation {
            ContactCreation::Refused(e) => assert_eq!(e, message),
            other => panic!("{other:?}"),
        }
    }
    match plan(Some((0, 1)), Some(ContactSlave::Nodes { mesh_index: 7, count: 1 }), ContactPairKind::NodeSurface) {
        ContactCreation::MasterOnly { master_set, error } => {
            assert_eq!(master_set, "CONTACT_1_MASTER");
            assert_eq!(error, "Slave mesh no longer exists");
        }
        other => panic!("{other:?}"),
    }
}

#[test]
fn contact_measurement_sync_preserves_part_position_input() {
    let mut measurement = MeasurementBoxState::new();
    measurement.begin_assembly_translation(0, AxisBits { x: 1.0f32.to_bits(), y: 0, z: 0 });
    sync_contact_measurement(
        SidebarPage::Contact,
        ViewportTool::Assembly,
        ContactType::SmallSliding,
        ContactParameter::Friction,
        false,
        &Vec::new(),
        &mut measurement,
    );
    assert!(matches!(measurement.target, Some(MeasurementTarget::AssemblyTranslation { .. })));
}

#[test]
fn contact_measurement_follows_the_edited_parameter() {
    let mut measurement = MeasurementBoxState::new();
    let sliders = vec![(SliderId::ContactSearchGap, 0.2f32.to_bits(), false)];
    let sync = |m: &mut MeasurementBoxState, kind, active, penalty, sliders: &Vec<(SliderId, u32, bool)>| {
        sync_contact_measurement(SidebarPage::Contact, ViewportTool::Selection, kind, active, penalty, sliders, m)
    };
    // Without a custom penalty the friction coefficient is shown, from its default.
    sync(&mut measurement, ContactType::SmallSliding, ContactParameter::PenaltyFactor, false, &sliders);
    assert!(matches!(
        measurement.target,
        Some(MeasurementTarget::SliderValue { slider_id: SliderId::ContactFriction, label: "Friction coefficient", .. })
    ));
    assert_eq!(measurement.value_bits, 0);
    sync(&mut measurement, ContactType::SmallSliding, ContactParameter::PenaltyFactor, true, &sliders);
    assert_eq!(f32::from_bits(measurement.value_bits), 1.0e5);
    sync(&mut measurement, ContactType::SmallSliding, ContactParameter::SearchGap, true, &sliders);
    assert_eq!(f32::from_bits(measurement.value_bits), 0.2);
    let moved = vec![(SliderId::ContactSearchGap, 0.3f32.to_bits(), true)];
    sync(&mut measurement, ContactType::SmallSliding, ContactParameter::SearchGap, true, &moved);
    assert_eq!(f32::from_bits(measurement.value_bits), 0.3);
    // Tied contacts close a friction or penalty box, and leave others alone.
    sync(&mut measurement, ContactType::Tied, ContactParameter::Friction, true, &moved);
    assert!(matches!(measurement.target, Some(MeasurementTarget::SliderValue { slider_id: SliderId::ContactSearchGap, .. })));
    sync(&mut measurement, ContactType::SmallSliding, ContactParameter::Friction, true, &moved);
    sync(&mut measurement, ContactType::Tied, ContactParameter::PenaltyFactor, true, &moved);
    assert!(measurement.target.is_none());
}
