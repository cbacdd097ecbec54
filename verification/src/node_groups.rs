use vstd::prelude::*;

verus! {

use std::collections::BTreeSet;
use vstd::laws_cmp::obeys_cmp;
use vstd::std_specs::btree::{increasing_seq, spec_btree_keys_iter};
use vstd::std_specs::iter::IteratorSpec;
use vstd::std_specs::cmp::OrdSpec;
use crate::boundary::EntityPick;
use crate::mpc::NodeId;
use crate::text::{decimal, push_decimal};

/// A selected node: its mesh and its id.
pub type NodeKey = (usize, u64);

/// Strict lexicographic order of node keys.
pub open spec fn key_lt(a: NodeKey, b: NodeKey) -> bool {
    a.0 < b.0 || (a.0 == b.0 && a.1 < b.1)
}

/// Whether the selection holds node `key.1` of mesh `key.0`.
pub open spec fn node_selected(targets: Seq<EntityPick>, key: NodeKey) -> bool {
    exists|i: int|
        0 <= i < targets.len() && (#[trigger] targets[i]).mesh_index == key.0 && targets[i].node == Some(
            NodeId(key.1),
        )
}

/// Whether the groups list node `key.1` under mesh `key.0`.
pub open spec fn in_groups(groups: Seq<(usize, Vec<NodeId>)>, key: NodeKey) -> bool {
    exists|g: int, p: int|
        0 <= g < groups.len() && 0 <= p < groups[g].1@.len() && (#[trigger] groups[g]).0 == key.0
            && #[trigger] groups[g].1@[p] == NodeId(key.1)
}

/// Groups ordered by mesh, each a non-empty list of node ids in increasing
/// order without repetition.
pub open spec fn groups_ordered(groups: Seq<(usize, Vec<NodeId>)>) -> bool {
    &&& forall|g: int| 0 <= g < groups.len() ==> (#[trigger] groups[g]).1@.len() > 0
    &&& forall|g: int, h: int| 0 <= g < h < groups.len() ==> (#[trigger] groups[g]).0 < (#[trigger] groups[h]).0
    &&& forall|g: int, p: int, q: int|
        0 <= g < groups.len() && 0 <= p < q < groups[g].1@.len() ==> (#[trigger] groups[g].1@[p]).0
            < (#[trigger] groups[g].1@[q]).0
}

/// Node keys are ordered as `BTreeSet` needs: by their integer fields.
pub open spec fn keys_comparable() -> bool {
    obeys_cmp::<NodeKey>()
}

proof fn lemma_keys_comparable()
    ensures
        keys_comparable(),
{
    broadcast use vstd::laws_cmp::group_laws_cmp;
    assert(obeys_cmp::<usize>());
    assert(obeys_cmp::<u64>());
    assert(obeys_cmp::<NodeKey>());
}

/// Two positions of an increasing sequence compare as less.
proof fn lemma_increasing_at<K: Ord>(s: Seq<K>, i: int, j: int)
    requires
        obeys_cmp::<K>(),
        increasing_seq(s),
        0 <= i < j < s.len(),
    ensures
        s[i].cmp_spec(&s[j]) is Less,
{
    vstd::std_specs::btree::axiom_increasing_seq_meaning::<K>(s);
}

/// The keys of a set in increasing order.
fn set_in_order(set: &BTreeSet<NodeKey>) -> (keys: Vec<NodeKey>)
    ensures
        keys_strictly_sorted(keys@),
        forall|key: NodeKey| keys@.contains(key) <==> set@.contains(key),
{
    broadcast use {vstd::std_specs::btree::group_btree_axioms, vstd::laws_cmp::group_laws_cmp};
    let mut keys: Vec<NodeKey> = Vec::new();
    for k in it: set.iter()
        invariant
            keys@.len() == it.index(),
            forall|j: int| 0 <= j < it.index() ==> keys@[j] == *it.seq()[j],
    {
        keys.push(*k);
    }
    let ghost s = spec_btree_keys_iter(set).remaining();
    proof {
        assert(keys@ =~= s.unref());
        assert(obeys_cmp::<usize>());
        assert(obeys_cmp::<u64>());
        assert(obeys_cmp::<NodeKey>());
        assert(obeys_cmp::<&NodeKey>());
        assert(increasing_seq(s));
        vstd::std_specs::btree::axiom_increasing_seq_meaning::<&NodeKey>(s);
        assert forall|i: int, j: int| 0 <= i < j < keys@.len() implies key_lt(#[trigger] keys@[i], #[trigger] keys@[j]) by {
            assert(s.unref().len() == s.len());
            assert(0 <= i < j < s.len());
            lemma_increasing_at(s, i, j);
            let x: NodeKey = *s[i];
            let y: NodeKey = *s[j];
            assert(x.cmp_spec(&y) is Less);
        }
        assert forall|key: NodeKey| keys@.contains(key) <==> set@.contains(key) by {
            assert(s.unref().to_set().contains(key) == s.unref().contains(key));
        }
    }
    keys
}

/// The selected nodes in increasing order, each once.
fn selected_keys(targets: &Vec<EntityPick>) -> (keys: Vec<NodeKey>)
    ensures
        keys_strictly_sorted(keys@),
        forall|key: NodeKey| keys@.contains(key) <==> node_selected(targets@, key),
{
    broadcast use vstd::std_specs::btree::group_btree_axioms;
    proof {
        lemma_keys_comparable();
    }
    let mut set: BTreeSet<NodeKey> = BTreeSet::new();
    let mut t: usize = 0;
    while t < targets.len()
        invariant
            t <= targets.len(),
            keys_comparable(),
            forall|key: NodeKey| set@.contains(key) <==> node_selected(targets@.subrange(0, t as int), key),
        decreases targets.len() - t,
    {
        let ghost before = set@;
        let target = targets[t];
        match target.node {
            Some(node) => {
                set.insert((target.mesh_index, node.0));
            },
            None => {},
        }
        proof {
            let prefix = targets@.subrange(0, t + 1);
            let shorter = targets@.subrange(0, t as int);
            assert forall|key: NodeKey| set@.contains(key) <==> node_selected(prefix, key) by {
                if node_selected(shorter, key) {
                    let i = choose|i: int|
                        0 <= i < shorter.len() && (#[trigger] shorter[i]).mesh_index == key.0 && shorter[i].node
                            == Some(NodeId(key.1));
                    assert(prefix[i] == shorter[i]);
                }
                if node_selected(prefix, key) {
                    let i = choose|i: int|
                        0 <= i < prefix.len() && (#[trigger] prefix[i]).mesh_index == key.0 && prefix[i].node == Some(
                            NodeId(key.1),
                        );
                    if i < t {
                        assert(shorter[i] == prefix[i]);
                    }
                }
                if set@.contains(key) && !before.contains(key) {
                    assert(prefix[t as int] == target);
                }
            }
        }
        t += 1;
    }
    proof {
        assert(targets@.subrange(0, targets@.len() as int) =~= targets@);
    }
    set_in_order(&set)
}

/// The selected nodes, grouped by mesh: meshes in increasing order, each with
/// its node ids in increasing order and without repetition. Targets that are
/// not nodes are ignored.
pub fn selected_nodes_by_mesh(targets: &Vec<EntityPick>) -> (groups: Vec<(usize, Vec<NodeId>)>)
    ensures
        groups_ordered(groups@),
        forall|key: NodeKey| #[trigger] in_groups(groups@, key) <==> node_selected(targets@, key),
{
    let unique = selected_keys(targets);
    let groups = group_by_mesh(&unique);
    proof {
        assert forall|key: NodeKey| #[trigger] in_groups(groups@, key) <==> node_selected(targets@, key) by {
            lemma_in_groups_flatten(groups@, key);
        }
    }
    groups
}

/// The set of selected nodes.
pub open spec fn selected_node_set(targets: Seq<EntityPick>) -> Set<NodeKey> {
    Set::new(|key: NodeKey| node_selected(targets, key))
}

/// How many targets are nodes (a node selected twice counts twice).
pub open spec fn node_target_count(targets: Seq<EntityPick>) -> nat
    decreases targets.len(),
{
    if targets.len() == 0 {
        0
    } else {
        node_target_count(targets.drop_last()) + if targets.last().node is Some {
            1nat
        } else {
            0nat
        }
    }
}

/// The number of selected targets that are nodes.
pub fn selected_node_count(targets: &Vec<EntityPick>) -> (count: usize)
    ensures
        count == node_target_count(targets@),
{
    let mut count: usize = 0;
    let mut i: usize = 0;
    while i < targets.len()
        invariant
            i <= targets.len(),
            count == node_target_count(targets@.subrange(0, i as int)),
            count <= i,
        decreases targets.len() - i,
    {
        proof {
            assert(targets@.subrange(0, i + 1).drop_last() =~= targets@.subrange(0, i as int));
        }
        if targets[i].node.is_some() {
            count += 1;
        }
        i += 1;
    }
    proof {
        assert(targets@.subrange(0, targets@.len() as int) =~= targets@);
    }
    count
}

/// The one selected node, or why there is not exactly one: nothing selected,
/// or how many distinct nodes are.
pub fn single_selected_node(targets: &Vec<EntityPick>) -> (r: Result<(usize, NodeId), String>)
    ensures
        selected_node_set(targets@).finite(),
        match r {
            Ok((mesh, node)) => selected_node_set(targets@) == set![(mesh, node.0)],
            Err(e) => if selected_node_set(targets@).len() == 0 {
                e@ == "Select exactly one Node in the viewport first"@
            } else {
                selected_node_set(targets@).len() >= 2 && e@ == decimal(selected_node_set(targets@).len())
                    + " nodes selected; select exactly one Node"@
            },
        },
{
    let keys = selected_keys(targets);
    proof {
        assert(keys@.no_duplicates()) by {
            assert forall|i: int, j: int| 0 <= i < keys@.len() && 0 <= j < keys@.len() && i != j implies keys@[i]
                != keys@[j] by {
                if i < j {
                    assert(key_lt(keys@[i], keys@[j]));
                } else {
                    assert(key_lt(keys@[j], keys@[i]));
                }
            }
        }
        keys@.unique_seq_to_set();
        assert(keys@.to_set() =~= selected_node_set(targets@));
    }
    if keys.len() == 1 {
        let (mesh, node) = keys[0];
        proof {
            assert forall|k: NodeKey| selected_node_set(targets@).contains(k) <==> k == (mesh, node) by {
                if keys@.contains(k) {
                    let i = choose|i: int| 0 <= i < keys@.len() && #[trigger] keys@[i] == k;
                    assert(i == 0);
                }
                if k == (mesh, node) {
                    assert(keys@[0] == k);
                }
            }
            assert(selected_node_set(targets@) =~= set![(mesh, node)]);
        }
        Ok((mesh, NodeId(node)))
    } else if keys.len() == 0 {
        Err(String::from_str("Select exactly one Node in the viewport first"))
    } else {
        let mut e = String::new();
        push_decimal(&mut e, keys.len());
        e.append(" nodes selected; select exactly one Node");
        Err(e)
    }
}

/// The keys of the nodes `nodes` of mesh `mesh`.
pub open spec fn node_keys(mesh: usize, nodes: Seq<NodeId>) -> Seq<NodeKey> {
    nodes.map_values(|n: NodeId| (mesh, n.0))
}

/// The keys of one group.
pub open spec fn group_keys(g: (usize, Vec<NodeId>)) -> Seq<NodeKey> {
    node_keys(g.0, g.1@)
}

/// The keys of all groups, in order.
pub open spec fn flatten(groups: Seq<(usize, Vec<NodeId>)>) -> Seq<NodeKey>
    decreases groups.len(),
{
    if groups.len() == 0 {
        Seq::empty()
    } else {
        flatten(groups.drop_last()) + group_keys(groups.last())
    }
}

proof fn lemma_in_groups_flatten(groups: Seq<(usize, Vec<NodeId>)>, key: NodeKey)
    ensures
        in_groups(groups, key) <==> flatten(groups).contains(key),
    decreases groups.len(),
{
    if groups.len() > 0 {
        let init = groups.drop_last();
        let last = groups.last();
        lemma_in_groups_flatten(init, key);
        let f = flatten(init);
        let lk = group_keys(last);
        assert(flatten(groups) == f + lk);
        if in_groups(groups, key) {
            let (g, p) = choose|g: int, p: int|
                0 <= g < groups.len() && 0 <= p < groups[g].1@.len() && (#[trigger] groups[g]).0 == key.0
                    && #[trigger] groups[g].1@[p] == NodeId(key.1);
            if g < groups.len() - 1 {
                assert(init[g] == groups[g]);
                assert(in_groups(init, key));
                let k = choose|k: int| 0 <= k < f.len() && #[trigger] f[k] == key;
                assert((f + lk)[k] == key);
            } else {
                assert(lk[p] == key);
                assert((f + lk)[f.len() + p] == key);
            }
        }
        if flatten(groups).contains(key) {
            let k = choose|k: int| 0 <= k < (f + lk).len() && #[trigger] (f + lk)[k] == key;
            if k < f.len() {
                assert(f[k] == key);
                assert(in_groups(init, key));
                let (g, p) = choose|g: int, p: int|
                    0 <= g < init.len() && 0 <= p < init[g].1@.len() && (#[trigger] init[g]).0 == key.0
                        && #[trigger] init[g].1@[p] == NodeId(key.1);
                assert(groups[g] == init[g]);
            } else {
                let p = k - f.len();
                assert(lk[p] == key);
                assert(last.1@[p] == NodeId(key.1));
                let g = groups.len() - 1;
                assert(groups[g].1@[p] == NodeId(key.1));
            }
        }
    }
}

pub open spec fn keys_strictly_sorted(s: Seq<NodeKey>) -> bool {
    forall|i: int, j: int| 0 <= i < j < s.len() ==> key_lt(#[trigger] s[i], #[trigger] s[j])
}

/// Splits strictly sorted keys into per-mesh groups.
fn group_by_mesh(unique: &Vec<NodeKey>) -> (groups: Vec<(usize, Vec<NodeId>)>)
    requires
        keys_strictly_sorted(unique@),
    ensures
        groups_ordered(groups@),
        flatten(groups@) == unique@,
{
    let mut groups: Vec<(usize, Vec<NodeId>)> = Vec::new();
    if unique.len() == 0 {
        proof {
            assert(flatten(groups@) =~= unique@);
        }
        return groups;
    }
    let mut current_mesh: usize = unique[0].0;
    let mut current: Vec<NodeId> = Vec::new();
    current.push(NodeId(unique[0].1));
    let mut i: usize = 1;
    proof {
        assert(node_keys(current_mesh, current@) =~= unique@.subrange(0, 1));
        assert(flatten(groups@) =~= Seq::<NodeKey>::empty());
        assert(flatten(groups@) + node_keys(current_mesh, current@) =~= unique@.subrange(0, 1));
    }
    while i < unique.len()
        invariant
            keys_strictly_sorted(unique@),
            1 <= i <= unique.len(),
            groups_ordered(groups@),
            current@.len() > 0,
            current_mesh == unique@[i - 1].0,
            current@.last() == NodeId(unique@[i - 1].1),
            forall|g: int| 0 <= g < groups@.len() ==> (#[trigger] groups@[g]).0 < current_mesh,
            forall|p: int, q: int| 0 <= p < q < current@.len() ==> (#[trigger] current@[p]).0 < (#[trigger] current@[q]).0,
            flatten(groups@) + node_keys(current_mesh, current@) == unique@.subrange(0, i as int),
        decreases unique.len() - i,
    {
        let ghost old_groups = groups@;
        let ghost old_current = current@;
        let ghost old_mesh = current_mesh;
        let (mesh, node) = unique[i];
        proof {
            assert(key_lt(unique@[i - 1], unique@[i as int]));
            assert(unique@.subrange(0, i + 1) =~= unique@.subrange(0, i as int).push((mesh, node)));
        }
        if mesh == current_mesh {
            current.push(NodeId(node));
            proof {
                assert(node_keys(current_mesh, current@) =~= node_keys(old_mesh, old_current).push((mesh, node)));
                assert forall|p: int, q: int| 0 <= p < q < current@.len() implies (#[trigger] current@[p]).0 < (
                #[trigger] current@[q]).0 by {
                    if q == current@.len() - 1 && p < old_current.len() - 1 {
                        assert(old_current[p].0 < old_current[old_current.len() - 1].0);
                    }
                }
            }
        } else {
            let finished = current;
            groups.push((current_mesh, finished));
            current = Vec::new();
            current.push(NodeId(node));
            current_mesh = mesh;
            proof {
                assert(groups@.drop_last() =~= old_groups);
                assert(flatten(groups@) == flatten(old_groups) + node_keys(old_mesh, finished@));
                assert(node_keys(current_mesh, current@) =~= seq![(mesh, node)]);
                assert(flatten(groups@) + node_keys(current_mesh, current@) =~= (flatten(old_groups)
                    + node_keys(old_mesh, old_current)).push((mesh, node)));
                assert forall|g: int, h: int| 0 <= g < h < groups@.len() implies (#[trigger] groups@[g]).0 < (
                #[trigger] groups@[h]).0 by {
                    if g < old_groups.len() {
                        assert(groups@[g] == old_groups[g]);
                    }
                    if h < old_groups.len() {
                        assert(old_groups[h] == groups@[h]);
                    }
                }
                assert forall|g: int| 0 <= g < groups@.len() implies (#[trigger] groups@[g]).1@.len() > 0 by {
                    if g < old_groups.len() {
                        assert(old_groups[g] == groups@[g]);
                    }
                }
                assert forall|g: int, p: int, q: int|
                    0 <= g < groups@.len() && 0 <= p < q < groups@[g].1@.len() implies (#[trigger] groups@[g].1@[p]).0
                    < (#[trigger] groups@[g].1@[q]).0 by {
                    if g < old_groups.len() {
                        assert(old_groups[g] == groups@[g]);
                    }
                }
                assert forall|g: int| 0 <= g < groups@.len() implies (#[trigger] groups@[g]).0 < current_mesh by {
                    if g < old_groups.len() {
                        assert(old_groups[g] == groups@[g]);
                    }
                }
            }
        }
        i += 1;
    }
    let ghost old_groups = groups@;
    let ghost last = (current_mesh, current@);
    groups.push((current_mesh, current));
    proof {
        assert(groups@.drop_last() =~= old_groups);
        assert(flatten(groups@) == flatten(old_groups) + node_keys(last.0, last.1));
        assert(unique@.subrange(0, unique@.len() as int) =~= unique@);
        assert forall|g: int, h: int| 0 <= g < h < groups@.len() implies (#[trigger] groups@[g]).0 < (
        #[trigger] groups@[h]).0 by {
            if g < old_groups.len() {
                assert(groups@[g] == old_groups[g]);
            }
            if h < old_groups.len() {
                assert(old_groups[h] == groups@[h]);
            }
        }
        assert forall|g: int| 0 <= g < groups@.len() implies (#[trigger] groups@[g]).1@.len() > 0 by {
            if g < old_groups.len() {
                assert(old_groups[g] == groups@[g]);
            }
        }
        assert forall|g: int, p: int, q: int|
            0 <= g < groups@.len() && 0 <= p < q < groups@[g].1@.len() implies (#[trigger] groups@[g].1@[p]).0 < (
            #[trigger] groups@[g].1@[q]).0 by {
            if g < old_groups.len() {
                assert(old_groups[g] == groups@[g]);
            }
        }
    }
    groups
}

} // verus!
