use fem_ui::mpc::{
    DefinedMpcAction, DefinedMpcEffect, DefinedMpcReview, create_mpc_pair, pair_created_message, pair_draft_text,
    press_defined_mpc,
};
use fem_ui::names::PartName;
use fem_ui::mpc::{
    MpcEquation, MpcTerm, NodeId, mpc_dof_label, next_mpc_pair_name, pair_mpc_equations,
    remove_mpc_equation_or_group,
};

#[test]
fn pair_equations_reject_identical_nodes_and_rotations() {
    let same = pair_mpc_equations("G", (0, NodeId(1)), (0, NodeId(1)), 1).unwrap_err();
    assert_eq!(same, "Reference and coupled nodes must be different");
    let rotation = pair_mpc_equations("G", (0, NodeId(1)), (1, NodeId(1)), 4).unwrap_err();
    assert_eq!(rotation, "Pair MPC supports only Ux, Uy, Uz, or XYZ");
}

#[test]
fn pair_names_use_upper_case_dof_suffixes() {
    let equations = pair_mpc_equations("P", (0, NodeId(1)), (0, NodeId(2)), 0).unwrap();
    let names: Vec<_> = equations.iter().map(|e| e.name.as_str()).collect();
    assert_eq!(names, ["P_UX", "P_UY", "P_UZ"]);
    assert!(equations.iter().all(|e| e.constant_bits == 0));
}

#[test]
fn removing_an_ungrouped_equation_or_out_of_range_index() {
    let mut equations = vec![
        MpcEquation::new("A", 0, Vec::new()),
        MpcEquation::new("B", 0, Vec::new()).with_group("G"),
        MpcEquation::new("C", 0, Vec::new()),
        MpcEquation::new("D", 0, Vec::new()).with_group("G"),
    ];
    assert_eq!(remove_mpc_equation_or_group(&mut equations, 9), 0);
    assert_eq!(equations.len(), 4);
    assert_eq!(remove_mpc_equation_or_group(&mut equations, 2), 1);
    let names: Vec<_> = equations.iter().map(|e| e.name.as_str()).collect();
    assert_eq!(names, ["A", "B", "D"]);
    assert_eq!(remove_mpc_equation_or_group(&mut equations, 2), 2);
    assert_eq!(equations[0].name, "A");
}

#[test]
fn pair_name_skips_group_name_and_derived_names() {
    assert_eq!(next_mpc_pair_name(&Vec::new()), "MPC_PAIR_1");
    let equations = vec![
        MpcEquation::new("MPC_PAIR_1", 0, Vec::new()),
        MpcEquation::new("X", 0, Vec::new()).with_group("MPC_PAIR_2"),
        MpcEquation::new("MPC_PAIR_3_UZ", 0, Vec::new()),
        MpcEquation::new("MPC_PAIR_45", 0, Vec::new()),
    ];
    assert_eq!(next_mpc_pair_name(&equations), "MPC_PAIR_4");
    let not_derived = vec![MpcEquation::new("MPC_PAIR_10", 0, Vec::new())];
    assert_eq!(next_mpc_pair_name(&not_derived), "MPC_PAIR_1");
}

#[test]
fn validity_requires_terms_dofs_and_a_nonzero_leading_coefficient() {
    let term = |dof, bits| MpcTerm::new(0, NodeId(1), dof, bits);
    assert!(!MpcEquation::new("E", 0, Vec::new()).is_valid());
    assert!(MpcEquation::new("E", 0, vec![term(1, 1.0f32.to_bits())]).is_valid());
    assert!(!MpcEquation::new("", 0, vec![term(1, 1.0f32.to_bits())]).is_valid());
    assert!(!MpcEquation::new("E", 0, vec![term(7, 1.0f32.to_bits())]).is_valid());
    assert!(!MpcEquation::new("E", 0, vec![term(1, 0.0f32.to_bits())]).is_valid());
    assert!(!MpcEquation::new("E", 0, vec![term(1, f32::NAN.to_bits())]).is_valid());
    assert!(!MpcEquation::new("E", f32::INFINITY.to_bits(), vec![term(1, 1.0f32.to_bits())]).is_valid());
}

#[test]
fn dof_labels() {
    assert_eq!(mpc_dof_label(1), "Ux");
    assert_eq!(mpc_dof_label(5), "Ry");
    assert_eq!(mpc_dof_label(0), "invalid DOF");
}

#[test]
fn creating_a_pair_appends_grouped_equations_or_explains_why_not() {
    let mut equations: Vec<MpcEquation> = Vec::new();
    let a = (0, NodeId(1));
    let b = (1, NodeId(2));
    assert_eq!(
        create_mpc_pair(&mut equations, None, Some(b), Some((true, true)), 0).unwrap_err(),
        "Capture the reference (+) node first"
    );
    assert_eq!(
        create_mpc_pair(&mut equations, Some(a), None, Some((true, true)), 0).unwrap_err(),
        "Capture the coupled (-) node first"
    );
    assert_eq!(create_mpc_pair(&mut equations, Some(a), Some(b), None, 0).unwrap_err(), "No model is loaded");
    assert_eq!(
        create_mpc_pair(&mut equations, Some(a), Some(b), Some((true, false)), 0).unwrap_err(),
        "Coupled node no longer exists in the model"
    );
    assert_eq!(
        create_mpc_pair(&mut equations, Some(a), Some(a), Some((true, true)), 0).unwrap_err(),
        "Reference and coupled nodes must be different"
    );
    assert!(equations.is_empty());
    let (group, first, count) = create_mpc_pair(&mut equations, Some(a), Some(b), Some((true, true)), 0).unwrap();
    assert_eq!((group.as_str(), first, count), ("MPC_PAIR_1", 0, 3));
    assert_eq!(equations.len(), 3);
    assert_eq!(equations[2].name, "MPC_PAIR_1_UZ");
    let (group, first, count) = create_mpc_pair(&mut equations, Some(a), Some(b), Some((true, true)), 2).unwrap();
    assert_eq!((group.as_str(), first, count), ("MPC_PAIR_2", 3, 1));
    assert_eq!(pair_created_message(&group, count), "Created MPC_PAIR_2: 1 equation; shown in viewport");
    assert_eq!(pair_created_message("MPC_PAIR_1", 3), "Created MPC_PAIR_1: 3 equations; shown in viewport");
}

#[test]
fn pair_draft_text_names_both_nodes_and_the_dof() {
    let parts = vec![PartName { mesh_index: 0, name: "Base".into() }];
    assert_eq!(
        pair_draft_text(&parts, Some((0, NodeId(12))), None, 0, "Pair MPC draft cleared"),
        "Reference (+): Base / node 12\nCoupled (-): not set   DOF: XYZ\nPair MPC draft cleared"
    );
    assert_eq!(
        pair_draft_text(&parts, None, Some((3, NodeId(4))), 2, ""),
        "Reference (+): not set\nCoupled (-): Mesh 3 / node 4   DOF: Uy\n"
    );
}

#[test]
fn defined_mpc_review_wraps_over_equations_and_terms() {
    let terms = vec![MpcTerm::new(0, NodeId(1), 1, 0x3f80_0000), MpcTerm::new(0, NodeId(2), 1, 0xbf80_0000)];
    let mut equations = vec![
        MpcEquation::new("A", 0, terms.clone()),
        MpcEquation::new("B", 0x4000_0000, Vec::new()).with_group("G"),
        MpcEquation::new("C", 0, Vec::new()).with_group("G"),
    ];
    let mut review = DefinedMpcReview { selected: None, active: false, equation: None, term: 0 };
    assert_eq!(
        press_defined_mpc(&mut review, &mut equations, DefinedMpcAction::Previous),
        DefinedMpcEffect::Reviewed { clear_measurement: true }
    );
    assert_eq!(review, DefinedMpcReview { selected: Some(2), active: true, equation: Some(2), term: 0 });
    press_defined_mpc(&mut review, &mut equations, DefinedMpcAction::Next);
    assert_eq!(review.selected, Some(0));
    press_defined_mpc(&mut review, &mut equations, DefinedMpcAction::Next);
    assert_eq!(review.selected, Some(1));
    assert_eq!(
        press_defined_mpc(&mut review, &mut equations, DefinedMpcAction::EditConstant),
        DefinedMpcEffect::EditConstant { equation: 1, constant_bits: 0x4000_0000 }
    );
    press_defined_mpc(&mut review, &mut equations, DefinedMpcAction::Previous);
    press_defined_mpc(&mut review, &mut equations, DefinedMpcAction::PreviousTerm);
    assert_eq!(review.term, 1);
    assert_eq!(
        press_defined_mpc(&mut review, &mut equations, DefinedMpcAction::EditCoefficient),
        DefinedMpcEffect::EditCoefficient { equation: 0, term: 1, coefficient_bits: 0xbf80_0000 }
    );
    press_defined_mpc(&mut review, &mut equations, DefinedMpcAction::NextTerm);
    assert_eq!(review.term, 0);
    press_defined_mpc(&mut review, &mut equations, DefinedMpcAction::Next);
    press_defined_mpc(&mut review, &mut equations, DefinedMpcAction::Remove);
    assert_eq!(equations.len(), 1);
    assert_eq!(review, DefinedMpcReview { selected: Some(0), active: false, equation: Some(0), term: 0 });
    press_defined_mpc(&mut review, &mut equations, DefinedMpcAction::Remove);
    assert!(equations.is_empty());
    assert_eq!(review.selected, None);
    assert_eq!(press_defined_mpc(&mut review, &mut equations, DefinedMpcAction::Next), DefinedMpcEffect::Ignored);
}
