use fem_ui::boundary::EntityPick;
use fem_ui::mpc::NodeId;
use fem_ui::node_groups::{selected_node_count, selected_nodes_by_mesh, single_selected_node};

fn node(mesh_index: usize, id: u64) -> EntityPick {
    EntityPick { mesh_index, node: Some(NodeId(id)) }
}

fn face(mesh_index: usize) -> EntityPick {
    EntityPick { mesh_index, node: None }
}

fn get(groups: &[(usize, Vec<NodeId>)], mesh: usize) -> Option<&Vec<NodeId>> {
    groups.iter().find(|(m, _)| *m == mesh).map(|(_, nodes)| nodes)
}

#[test]
fn selected_nodes_remain_partitioned_by_mesh() {
    let grouped = selected_nodes_by_mesh(&vec![node(0, 7), node(1, 7)]);
    assert_eq!(get(&grouped, 0), Some(&vec![NodeId(7)]));
    assert_eq!(get(&grouped, 1), Some(&vec![NodeId(7)]));
}

#[test]
fn groups_are_sorted_and_free_of_repeats() {
    let grouped = selected_nodes_by_mesh(&vec![
        node(2, 9),
        face(1),
        node(0, 5),
        node(2, 3),
        node(2, 9),
        node(0, 1),
    ]);
    assert_eq!(grouped, vec![(0, vec![NodeId(1), NodeId(5)]), (2, vec![NodeId(3), NodeId(9)])]);
    assert!(selected_nodes_by_mesh(&vec![face(0)]).is_empty());
}

#[test]
fn exactly_one_node_is_required_for_a_pair_side() {
    assert_eq!(single_selected_node(&vec![node(1, 4), node(1, 4), face(0)]), Ok((1, NodeId(4))));
    assert_eq!(
        single_selected_node(&vec![face(0)]),
        Err("Select exactly one Node in the viewport first".to_string())
    );
    assert_eq!(
        single_selected_node(&vec![node(0, 1), node(1, 1), node(1, 2)]),
        Err("3 nodes selected; select exactly one Node".to_string())
    );
    assert_eq!(selected_node_count(&vec![node(0, 1), node(0, 1), face(2)]), 2);
}
