use vstd::prelude::*;

verus! {

use vstd::set_lib::{lemma_int_range, lemma_len_subset, set_int_range};
use crate::text::{
    ascii_lower, decimal, eq_ignore_ascii_case, eq_ignore_ascii_case_spec, lemma_decimal_facts,
    lemma_decimal_injective, push_decimal,
};

/// The `k`-th automatic contact name, `CONTACT_k`.
pub open spec fn contact_name(k: nat) -> Seq<char> {
    "CONTACT_"@ + decimal(k)
}

/// Whether an existing contact already uses `CONTACT_k`, ignoring ASCII case.
pub open spec fn contact_name_taken(names: Seq<String>, k: nat) -> bool {
    exists|i: int| 0 <= i < names.len() && #[trigger] eq_ignore_ascii_case_spec(names[i]@, contact_name(k))
}

/// The lowest free number from `from` on: `k >= from`, `k` is free and every
/// number in between is taken.
pub open spec fn first_free(taken: spec_fn(nat) -> bool, from: nat, k: nat) -> bool {
    &&& from <= k
    &&& !taken(k)
    &&& forall|j: nat| from <= j < k ==> #[trigger] taken(j)
}

/// Two sequences that agree with a third up to ASCII case agree with each other.
proof fn lemma_fold_transitive(x: Seq<char>, a: Seq<char>, b: Seq<char>)
    requires
        eq_ignore_ascii_case_spec(x, a),
        eq_ignore_ascii_case_spec(x, b),
    ensures
        eq_ignore_ascii_case_spec(a, b),
{
    assert forall|i: int| 0 <= i < a.len() implies #[trigger] ascii_lower(a[i]) == ascii_lower(b[i]) by {
        assert(ascii_lower(x[i]) == ascii_lower(a[i]));
        assert(ascii_lower(x[i]) == ascii_lower(b[i]));
    }
}

/// A digit is its own case folding, so two case-insensitively equal decimal
/// suffixes are equal.
proof fn lemma_fold_digits(p: Seq<char>, a: nat, b: nat)
    requires
        eq_ignore_ascii_case_spec(p + decimal(a), p + decimal(b)),
    ensures
        a == b,
{
    lemma_decimal_facts(a);
    lemma_decimal_facts(b);
    assert forall|i: int| 0 <= i < decimal(a).len() implies decimal(a)[i] == decimal(b)[i] by {
        assert(ascii_lower((p + decimal(a))[p.len() + i]) == ascii_lower((p + decimal(b))[p.len() + i]));
        assert((p + decimal(a))[p.len() + i] == decimal(a)[i]);
        assert((p + decimal(b))[p.len() + i] == decimal(b)[i]);
        assert('0' <= decimal(a)[i] <= '9');
        assert('0' <= decimal(b)[i] <= '9');
    }
    assert(decimal(a) =~= decimal(b));
    lemma_decimal_injective(a, b);
}

/// One existing name blocks at most one automatic contact number.
proof fn lemma_contact_name_blocks_once(x: Seq<char>, a: nat, b: nat)
    requires
        eq_ignore_ascii_case_spec(x, contact_name(a)),
        eq_ignore_ascii_case_spec(x, contact_name(b)),
    ensures
        a == b,
{
    lemma_fold_transitive(x, contact_name(a), contact_name(b));
    lemma_fold_digits("CONTACT_"@, a, b);
}

/// Index of the first name equal to `candidate` up to ASCII case.
fn find_ignore_case(names: &Vec<String>, candidate: &str) -> (found: Option<usize>)
    ensures
        match found {
            Some(i) => i < names.len() && eq_ignore_ascii_case_spec(names@[i as int]@, candidate@),
            None => forall|i: int| 0 <= i < names.len() ==> !eq_ignore_ascii_case_spec(names@[i]@, candidate@),
        },
{
    let mut i: usize = 0;
    while i < names.len()
        invariant
            i <= names.len(),
            forall|j: int| 0 <= j < i ==> !eq_ignore_ascii_case_spec(names@[j]@, candidate@),
        decreases names.len() - i,
    {
        if eq_ignore_ascii_case(names[i].as_str(), candidate) {
            return Some(i);
        }
        i += 1;
    }
    None
}

/// The next automatic contact name: `CONTACT_k` for the lowest `k` above the
/// number of existing contacts that no existing contact name uses, ignoring
/// ASCII case.
pub fn next_contact_name(existing: &Vec<String>) -> (name: String)
    requires
        existing.len() < usize::MAX / 2,
    ensures
        exists|k: nat| #[trigger] contact_name(k) == name@ && first_free(
            |j: nat| contact_name_taken(existing@, j),
            (existing.len() + 1) as nat,
            k,
        ),
{
    let len = existing.len();
    let mut number: usize = len + 1;
    let ghost mut used: Set<int> = Set::empty();
    let ghost mut owner: Map<int, nat> = Map::empty();
    proof {
        lemma_int_range(0, len as int);
    }
    loop
        invariant
            len == existing.len(),
            len < usize::MAX / 2,
            len + 1 <= number,
            used.finite(),
            used.len() == number - (len + 1),
            used.subset_of(set_int_range(0, len as int)),
            set_int_range(0, len as int).finite(),
            set_int_range(0, len as int).len() == len,
            forall|i: int| #[trigger] used.contains(i) ==> owner.dom().contains(i) && owner[i] < number && eq_ignore_ascii_case_spec(
                existing@[i]@,
                contact_name(owner[i]),
            ),
            forall|j: nat| len + 1 <= j < number ==> #[trigger] contact_name_taken(existing@, j),
        decreases 2 * len + 2 - number,
    {
        proof {
            lemma_len_subset(used, set_int_range(0, len as int));
        }
        let mut name = String::from_str("CONTACT_");
        push_decimal(&mut name, number);
        proof {
            assert(name@ =~= contact_name(number as nat));
        }
        match find_ignore_case(existing, name.as_str()) {
            None => {
                proof {
                    assert(!contact_name_taken(existing@, number as nat));
                    assert(first_free(
                        |j: nat| contact_name_taken(existing@, j),
                        (existing.len() + 1) as nat,
                        number as nat,
                    ));
                }
                return name;
            },
            Some(i) => {
                proof {
                    if used.contains(i as int) {
                        lemma_contact_name_blocks_once(existing@[i as int]@, owner[i as int], number as nat);
                    }
                    assert(!used.contains(i as int));
                    assert(contact_name_taken(existing@, number as nat));
                    used = used.insert(i as int);
                    owner = owner.insert(i as int, number as nat);
                    lemma_len_subset(used, set_int_range(0, len as int));
                }
                number = number + 1;
            },
        }
    }
}


/// A part of the model: the mesh it is made of and its name.
pub struct PartName {
    pub mesh_index: usize,
    pub name: String,
}

/// The name of the first part made of mesh `mesh_index`.
pub open spec fn part_name_of(parts: Seq<PartName>, mesh_index: usize, i: int) -> bool {
    &&& 0 <= i < parts.len()
    &&& parts[i].mesh_index == mesh_index
    &&& forall|j: int| 0 <= j < i ==> #[trigger] parts[j].mesh_index != mesh_index
}

/// Whether some part is made of mesh `mesh_index`.
pub open spec fn has_part_for(parts: Seq<PartName>, mesh_index: usize) -> bool {
    exists|i: int| 0 <= i < parts.len() && #[trigger] parts[i].mesh_index == mesh_index
}

fn part_for_mesh(parts: &Vec<PartName>, mesh_index: usize) -> (found: Option<usize>)
    ensures
        match found {
            Some(i) => part_name_of(parts@, mesh_index, i as int),
            None => !has_part_for(parts@, mesh_index),
        },
{
    let mut i: usize = 0;
    while i < parts.len()
        invariant
            i <= parts.len(),
            forall|j: int| 0 <= j < i ==> #[trigger] parts@[j].mesh_index != mesh_index,
        decreases parts.len() - i,
    {
        if parts[i].mesh_index == mesh_index {
            return Some(i);
        }
        i += 1;
    }
    None
}

/// The name of the part made of mesh `mesh_index` (the first such part).
pub open spec fn mesh_part_name(parts: Seq<PartName>, mesh_index: usize) -> Option<Seq<char>> {
    if has_part_for(parts, mesh_index) {
        Some(parts[choose|i: int| part_name_of(parts, mesh_index, i)].name@)
    } else {
        None
    }
}

/// The part found by [`part_for_mesh`] is the one [`mesh_part_name`] names.
proof fn lemma_part_name(parts: Seq<PartName>, mesh_index: usize, i: int)
    requires
        part_name_of(parts, mesh_index, i),
    ensures
        mesh_part_name(parts, mesh_index) == Some(parts[i].name@),
{
    let j = choose|j: int| part_name_of(parts, mesh_index, j);
    assert(part_name_of(parts, mesh_index, j));
    if j < i {
        assert(parts[j].mesh_index != mesh_index);
    } else if i < j {
        assert(parts[i].mesh_index != mesh_index);
    }
}

/// The label of a mesh: the name of its part, else `Mesh <index>`.
pub fn mesh_label(parts: &Vec<PartName>, mesh_index: usize) -> (label: String)
    ensures
        label@ == match mesh_part_name(parts@, mesh_index) {
            Some(name) => name,
            None => "Mesh "@ + decimal(mesh_index as nat),
        },
{
    match part_for_mesh(parts, mesh_index) {
        Some(i) => {
            proof {
                lemma_part_name(parts@, mesh_index, i as int);
            }
            parts[i].name.clone()
        },
        None => {
            let mut label = String::from_str("Mesh ");
            push_decimal(&mut label, mesh_index);
            label
        },
    }
}

/// The label of a material assignment target: `[<mesh + 1>] <part> / <group>`,
/// with `Mesh` for a mesh without part and `whole part` without group.
pub fn target_label(parts: &Vec<PartName>, mesh_index: usize, group: Option<&str>) -> (label: String)
    requires
        mesh_index < usize::MAX,
    ensures
        label@ == "["@ + decimal(mesh_index as nat + 1) + "] "@ + match mesh_part_name(parts@, mesh_index) {
            Some(name) => name,
            None => "Mesh"@,
        } + " / "@ + match group {
            Some(g) => g@,
            None => "whole part"@,
        },
{
    let mut label = String::from_str("[");
    push_decimal(&mut label, mesh_index + 1);
    label.append("] ");
    match part_for_mesh(parts, mesh_index) {
        Some(i) => {
            proof {
                lemma_part_name(parts@, mesh_index, i as int);
            }
            label.append(parts[i].name.as_str());
        },
        None => {
            label.append("Mesh");
        },
    }
    label.append(" / ");
    match group {
        Some(g) => label.append(g),
        None => label.append("whole part"),
    }
    label
}

} // verus!
