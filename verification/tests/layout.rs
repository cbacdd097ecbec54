use fem_ui::mpc::{
    MpcEquation, NodeId, next_mpc_pair_name, pair_mpc_equations, remove_mpc_equation_or_group,
};
use fem_ui::sidebar::{
    DisplayMode, PageSwitch, SidebarPage, SidebarPageContent, ViewportTool, page_supports_part_position,
    page_supports_tool, press_page, sidebar_page_display,
};

#[test]
fn analysis_shell_is_limited_to_analysis_pages() {
    let pages = SidebarPageContent::analysis();

    assert!(!pages.contains(SidebarPage::Model));
    assert!(!pages.contains(SidebarPage::Contact));
    assert!(pages.contains(SidebarPage::Loads));
    assert!(pages.contains(SidebarPage::Materials));
    assert!(pages.contains(SidebarPage::Solve));
    assert!(!pages.contains(SidebarPage::Results));
}

#[test]
fn removing_a_grouped_mpc_keeps_unrelated_equations_intact() {
    let mut equations = vec![
        MpcEquation::new("SPIDER_1_U1", 0, Vec::new()).with_group("SPIDER_1"),
        MpcEquation::new("SPIDER_1_U2", 0, Vec::new()).with_group("SPIDER_1"),
        MpcEquation::new("INDEPENDENT", 0, Vec::new()),
    ];

    assert_eq!(remove_mpc_equation_or_group(&mut equations, 0), 2);
    assert_eq!(equations.len(), 1);
    assert_eq!(equations[0].name, "INDEPENDENT");
    assert_eq!(remove_mpc_equation_or_group(&mut equations, 0), 1);
    assert!(equations.is_empty());
}

#[test]
fn pair_mpc_xyz_builds_three_grouped_equal_displacement_equations() {
    let equations = pair_mpc_equations("MPC_PAIR_1", (0, NodeId(10)), (1, NodeId(20)), 0).unwrap();

    assert_eq!(equations.len(), 3);
    for (index, equation) in equations.iter().enumerate() {
        let dof = index as u8 + 1;
        assert_eq!(equation.group.as_deref(), Some("MPC_PAIR_1"));
        assert!(equation.is_valid());
        assert_eq!(equation.terms.len(), 2);
        assert_eq!(equation.terms[0].mesh_index, 0);
        assert_eq!(equation.terms[0].node, NodeId(10));
        assert_eq!(equation.terms[0].dof, dof);
        assert_eq!(f32::from_bits(equation.terms[0].coefficient_bits), 1.0);
        assert_eq!(equation.terms[1].mesh_index, 1);
        assert_eq!(equation.terms[1].node, NodeId(20));
        assert_eq!(equation.terms[1].dof, dof);
        assert_eq!(f32::from_bits(equation.terms[1].coefficient_bits), -1.0);
    }
}

#[test]
fn pair_mpc_single_dof_and_name_generation_are_collision_safe() {
    let equations = pair_mpc_equations("MPC_PAIR_2", (0, NodeId(1)), (0, NodeId(2)), 2).unwrap();
    assert_eq!(equations.len(), 1);
    assert_eq!(equations[0].name, "MPC_PAIR_2_UY");
    assert_eq!(equations[0].terms[0].dof, 2);

    let mut mpc_equations = Vec::new();
    mpc_equations.push(MpcEquation::new("MPC_PAIR_1_UX", 0, Vec::new()).with_group("MPC_PAIR_1"));
    mpc_equations.push(MpcEquation::new("MPC_PAIR_2_UZ", 0, Vec::new()));
    assert_eq!(next_mpc_pair_name(&mpc_equations), "MPC_PAIR_3");
}

#[test]
fn part_position_controls_are_shared_by_model_and_contact() {
    let pages = SidebarPageContent::part_position();

    assert!(pages.contains(SidebarPage::Model));
    assert!(pages.contains(SidebarPage::Contact));
    assert!(!pages.contains(SidebarPage::Loads));
    assert!(page_supports_part_position(SidebarPage::Model));
    assert!(page_supports_part_position(SidebarPage::Contact));
    assert!(!page_supports_part_position(SidebarPage::Materials));
}

#[test]
fn viewport_tools_are_limited_to_their_workflow_pages() {
    assert!(page_supports_tool(SidebarPage::Contact, ViewportTool::Assembly));
    assert!(!page_supports_tool(SidebarPage::Loads, ViewportTool::Assembly));
    assert!(page_supports_tool(SidebarPage::Loads, ViewportTool::LoadDirection));
    assert!(!page_supports_tool(SidebarPage::Model, ViewportTool::LoadDirection));
}

#[test]
fn single_page_masks_do_not_leak_to_other_pages() {
    let all_pages = [
        SidebarPage::Model,
        SidebarPage::Contact,
        SidebarPage::Loads,
        SidebarPage::Materials,
        SidebarPage::Solve,
        SidebarPage::Results,
    ];

    for selected in all_pages {
        let content = SidebarPageContent::page(selected);
        for candidate in all_pages {
            assert_eq!(content.contains(candidate), selected == candidate);
        }
    }
}

#[test]
fn inactive_sidebar_pages_are_removed_from_layout() {
    let contact = SidebarPageContent::page(SidebarPage::Contact);

    assert_eq!(sidebar_page_display(contact, SidebarPage::Contact), DisplayMode::Flex);
    assert_eq!(sidebar_page_display(contact, SidebarPage::Model), DisplayMode::Collapsed);
}

#[test]
fn selection_tool_is_available_on_every_page() {
    for page in [
        SidebarPage::Model,
        SidebarPage::Contact,
        SidebarPage::Loads,
        SidebarPage::Materials,
        SidebarPage::Solve,
        SidebarPage::Results,
    ] {
        assert!(page_supports_tool(page, ViewportTool::Selection));
    }
    assert_eq!(SidebarPage::default_page(), SidebarPage::Model);
}

#[test]
fn page_buttons_drop_tools_that_the_new_page_does_not_offer() {
    assert_eq!(
        press_page(SidebarPage::Model, ViewportTool::Assembly, SidebarPage::Contact),
        PageSwitch { page: SidebarPage::Contact, tool: ViewportTool::Assembly, clear_measurement: true }
    );
    assert_eq!(
        press_page(SidebarPage::Model, ViewportTool::Assembly, SidebarPage::Loads),
        PageSwitch { page: SidebarPage::Loads, tool: ViewportTool::Selection, clear_measurement: true }
    );
    assert_eq!(
        press_page(SidebarPage::Loads, ViewportTool::LoadDirection, SidebarPage::Loads),
        PageSwitch { page: SidebarPage::Loads, tool: ViewportTool::LoadDirection, clear_measurement: false }
    );
}
