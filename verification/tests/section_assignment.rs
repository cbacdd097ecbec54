use fem_ui::library::AssignmentTarget;
use fem_ui::sections::{Section, assign_material};

fn section(mesh_index: usize, group: Option<&str>, material: &str) -> Section<u8> {
    Section { mesh_index, group: group.map(|g| g.to_string()), material: material.to_string(), kind: 1 }
}

fn summary(sections: &[Section<u8>]) -> Vec<(usize, Option<&str>, &str, u8)> {
    sections.iter().map(|s| (s.mesh_index, s.group.as_deref(), s.material.as_str(), s.kind)).collect()
}

#[test]
fn an_unassigned_target_gets_a_new_section() {
    let mut sections = vec![section(0, None, "STEEL")];
    let target = AssignmentTarget { mesh_index: 1, group: Some("ALL".to_string()) };
    assert!(assign_material(&mut sections, &target, "AL", 7));
    assert_eq!(summary(&sections), vec![(0, None, "STEEL", 1), (1, Some("ALL"), "AL", 7)]);
}

#[test]
fn a_group_assignment_renames_only_that_group() {
    let mut sections = vec![section(0, Some("A"), "STEEL"), section(0, Some("B"), "STEEL"), section(1, Some("A"), "STEEL")];
    let target = AssignmentTarget { mesh_index: 0, group: Some("A".to_string()) };
    assert!(assign_material(&mut sections, &target, "AL", 7));
    assert_eq!(
        summary(&sections),
        vec![(0, Some("A"), "AL", 1), (0, Some("B"), "STEEL", 1), (1, Some("A"), "STEEL", 1)]
    );
    assert!(!assign_material(&mut sections, &target, "AL", 7));
}

#[test]
fn whole_part_reassignment_keeps_sections_and_covers_unassigned_elements() {
    let mut sections = vec![section(0, Some("A"), "STEEL"), section(0, Some("B"), "AL")];
    let target = AssignmentTarget { mesh_index: 0, group: None };
    assert!(assign_material(&mut sections, &target, "TI", 3));
    assert_eq!(
        summary(&sections),
        vec![(0, Some("A"), "TI", 1), (0, Some("B"), "TI", 1), (0, None, "TI", 3)]
    );
    assert!(!assign_material(&mut sections, &target, "TI", 3));
    assert_eq!(sections.len(), 3);
}
