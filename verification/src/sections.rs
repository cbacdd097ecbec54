use vstd::prelude::*;

verus! {

use crate::library::AssignmentTarget;
use crate::text::str_eq;

/// A section of the analysis setup, as far as assigning materials reads it:
/// the part, the element group it covers (the whole part when `None`), the
/// material name, and its kind.
#[derive(Debug)]
pub struct Section<K> {
    pub mesh_index: usize,
    pub group: Option<String>,
    pub material: String,
    pub kind: K,
}

pub open spec fn opt_text(s: Option<String>) -> Option<Seq<char>> {
    match s {
        Some(t) => Some(t@),
        None => None,
    }
}

/// Whether a section is one that an assignment to `target` changes: a
/// section of the target's part, of the target's group when it names one.
pub open spec fn covers<K>(section: Section<K>, mesh_index: usize, group: Option<Seq<char>>) -> bool {
    section.mesh_index == mesh_index && (group is None || opt_text(section.group) == group)
}

/// Whether the part has a section for its elements outside named groups.
pub open spec fn has_whole_part_section<K>(sections: Seq<Section<K>>, mesh_index: usize) -> bool {
    exists|i: int| 0 <= i < sections.len() && #[trigger] sections[i].mesh_index == mesh_index && sections[i].group is None
}

pub open spec fn any_covered<K>(sections: Seq<Section<K>>, mesh_index: usize, group: Option<Seq<char>>) -> bool {
    exists|i: int| 0 <= i < sections.len() && covers(#[trigger] sections[i], mesh_index, group)
}

/// Whether `after` is `before` with the material of every covered section
/// renamed to `name` and everything else kept.
pub open spec fn renamed<K>(
    before: Seq<Section<K>>,
    after: Seq<Section<K>>,
    mesh_index: usize,
    group: Option<Seq<char>>,
    name: Seq<char>,
) -> bool {
    &&& after.len() == before.len()
    &&& forall|i: int|
        0 <= i < before.len() ==> {
            &&& (#[trigger] after[i]).mesh_index == before[i].mesh_index
            &&& opt_text(after[i].group) == opt_text(before[i].group)
            &&& after[i].kind == before[i].kind
            &&& after[i].material@ == (if covers(before[i], mesh_index, group) {
                name
            } else {
                before[i].material@
            })
        }
}

/// Whether `section` is a new section of `kind` for `name` on the part.
pub open spec fn new_section<K>(section: Section<K>, mesh_index: usize, group: Option<Seq<char>>, name: Seq<char>, kind: K) -> bool {
    &&& section.mesh_index == mesh_index
    &&& opt_text(section.group) == group
    &&& section.material@ == name
    &&& section.kind == kind
}

fn same_group(a: &Option<String>, b: &Option<String>) -> (same: bool)
    ensures
        same == (opt_text(*a) == opt_text(*b)),
{
    match (a, b) {
        (Some(x), Some(y)) => str_eq(x.as_str(), y.as_str()),
        (None, None) => true,
        _ => false,
    }
}

fn clone_group(g: &Option<String>) -> (c: Option<String>)
    ensures
        opt_text(c) == opt_text(*g),
{
    match g {
        Some(t) => Some(t.clone()),
        None => None,
    }
}

/// Assigns the material `name` to `target`, keeping the geometry of existing
/// sections: when no section covers the target a new one of `kind` is added;
/// otherwise every covered section takes the material, and a whole-part
/// assignment also adds a section for the elements outside named groups when
/// the part has none. Returns whether anything changed.
pub fn assign_material<K: Copy>(sections: &mut Vec<Section<K>>, target: &AssignmentTarget, name: &str, kind: K) -> (changed: bool)
    ensures
        ({
            let group = opt_text(target.group);
            let before = old(sections)@;
            let after = final(sections)@;
            if !any_covered(before, target.mesh_index, group) {
                &&& after.len() == before.len() + 1
                &&& after.take(before.len() as int) == before
                &&& new_section(after.last(), target.mesh_index, group, name@, kind)
                &&& changed
            } else {
                let whole = group is None && !has_whole_part_section(before, target.mesh_index);
                let renamed_part = if whole { after.drop_last() } else { after };
                &&& renamed(before, renamed_part, target.mesh_index, group, name@)
                &&& whole ==> after.len() == before.len() + 1 && new_section(
                    after.last(),
                    target.mesh_index,
                    None,
                    name@,
                    kind,
                )
                &&& changed == (whole || exists|i: int|
                    0 <= i < before.len() && covers(#[trigger] before[i], target.mesh_index, group)
                        && before[i].material@ != name@)
            }
        }),
{
    let ghost before = sections@;
    let ghost group = opt_text(target.group);
    let n = sections.len();
    let mut any = false;
    let mut whole_found = false;
    let mut changed = false;
    let mut i: usize = 0;
    while i < n
        invariant
            n == before.len(),
            i <= n,
            group == opt_text(target.group),
            sections@.len() == n,
            forall|j: int| i <= j < n ==> #[trigger] sections@[j] == before[j],
            forall|j: int|
                0 <= j < i ==> {
                    &&& (#[trigger] sections@[j]).mesh_index == before[j].mesh_index
                    &&& opt_text(sections@[j].group) == opt_text(before[j].group)
                    &&& sections@[j].kind == before[j].kind
                    &&& sections@[j].material@ == (if covers(before[j], target.mesh_index, group) {
                        name@
                    } else {
                        before[j].material@
                    })
                },
            forall|j: int|
                0 <= j < i && !(covers(before[j], target.mesh_index, group) && before[j].material@ != name@) ==> #[trigger] sections@[j]
                    == before[j],
            any == exists|j: int| 0 <= j < i && covers(#[trigger] before[j], target.mesh_index, group),
            whole_found == exists|j: int|
                0 <= j < i && #[trigger] before[j].mesh_index == target.mesh_index && before[j].group is None,
            changed == exists|j: int|
                0 <= j < i && covers(#[trigger] before[j], target.mesh_index, group) && before[j].material@ != name@,
        decreases n - i,
    {
        let section_mesh = sections[i].mesh_index;
        let is_whole = sections[i].group.is_none();
        if section_mesh == target.mesh_index && is_whole {
            whole_found = true;
        }
        let covered = section_mesh == target.mesh_index && (target.group.is_none() || same_group(
            &sections[i].group,
            &target.group,
        ));
        if covered {
            any = true;
            if !str_eq(sections[i].material.as_str(), name) {
                changed = true;
                let mut section = sections.remove(i);
                section.material = String::from_str(name);
                sections.insert(i, section);
            }
        }
        i += 1;
    }
    if !any {
        proof {
            assert(sections@ =~= before) by {
                assert forall|j: int| 0 <= j < n implies sections@[j] == before[j] by {
                    if covers(before[j], target.mesh_index, group) {
                        assert(any);
                    }
                }
            }
        }
        sections.push(Section { mesh_index: target.mesh_index, group: clone_group(&target.group), material: String::from_str(name), kind });
        proof {
            assert(sections@.take(n as int) =~= before);
        }
        return true;
    }
    let ghost renamed_seq = sections@;
    if target.group.is_none() && !whole_found {
        sections.push(Section { mesh_index: target.mesh_index, group: None, material: String::from_str(name), kind });
        proof {
            assert(sections@.drop_last() =~= renamed_seq);
        }
        changed = true;
    }
    changed
}

} // verus!
