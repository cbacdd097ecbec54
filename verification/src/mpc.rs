use vstd::prelude::*;

verus! {

use vstd::arithmetic::div_mod::{
    lemma_fundamental_div_mod, lemma_mod_multiples_vanish, lemma_mod_pos_bound, lemma_mod_self_0, lemma_small_mod,
};
use vstd::set_lib::{lemma_int_range, lemma_len_subset, set_int_range};
use crate::float_bits::{f32_is_finite, f32_is_zero, is_finite};
use crate::names::{PartName, mesh_label, mesh_part_name};
use crate::text::{
    decimal, digit_char, lemma_decimal_facts, lemma_decimal_injective, push_decimal, starts_with, str_eq,
};

/// A node of one mesh, as FrontISTR numbers it.
#[derive(Clone, Copy, Debug, PartialEq, Eq, Structural)]
pub struct NodeId(pub u64);

/// `coefficient * u(mesh_index, node, dof)`; the coefficient is held as the
/// bit pattern of its `f32` value.
#[derive(Clone, Copy, Debug, PartialEq, Eq, Structural)]
pub struct MpcTerm {
    pub mesh_index: usize,
    pub node: NodeId,
    pub dof: u8,
    pub coefficient_bits: u32,
}

/// One linear multi-point constraint `sum(terms) = constant`, optionally part
/// of a named group that is created and removed together.
#[derive(Debug)]
pub struct MpcEquation {
    pub name: String,
    pub constant_bits: u32,
    pub terms: Vec<MpcTerm>,
    pub group: Option<String>,
}

/// Bit pattern of `1.0f32`.
pub const ONE_BITS: u32 = 0x3f80_0000;

/// Bit pattern of `-1.0f32`.
pub const MINUS_ONE_BITS: u32 = 0xbf80_0000;

impl MpcTerm {
    pub fn new(mesh_index: usize, node: NodeId, dof: u8, coefficient_bits: u32) -> (term: MpcTerm)
        ensures
            term == (MpcTerm { mesh_index, node, dof, coefficient_bits }),
    {
        MpcTerm { mesh_index, node, dof, coefficient_bits }
    }
}

impl MpcEquation {
    pub fn new(name: &str, constant_bits: u32, terms: Vec<MpcTerm>) -> (equation: MpcEquation)
        ensures
            equation.name@ == name@,
            equation.constant_bits == constant_bits,
            equation.terms@ == terms@,
            equation.group is None,
    {
        MpcEquation { name: String::from_str(name), constant_bits, terms, group: None }
    }

    /// The same equation, made a member of `group`.
    pub fn with_group(self, group: &str) -> (equation: MpcEquation)
        ensures
            equation.name@ == self.name@,
            equation.constant_bits == self.constant_bits,
            equation.terms@ == self.terms@,
            equation.group is Some,
            equation.group->0@ == group@,
    {
        MpcEquation { group: Some(String::from_str(group)), ..self }
    }
}

/// A well-formed equation: a name, at least one term, every term on a
/// displacement or rotation DOF (1..=6) with a finite coefficient, a finite
/// constant, and a non-zero leading coefficient (the constrained DOF).
pub open spec fn equation_valid(equation: MpcEquation) -> bool {
    &&& equation.name@.len() > 0
    &&& equation.terms@.len() > 0
    &&& f32_is_finite(equation.constant_bits)
    &&& !f32_is_zero(equation.terms@[0].coefficient_bits)
    &&& forall|i: int| 0 <= i < equation.terms@.len() ==> 1 <= (#[trigger] equation.terms@[i]).dof <= 6
        && f32_is_finite(equation.terms@[i].coefficient_bits)
}

impl MpcEquation {
    pub fn is_valid(&self) -> (valid: bool)
        ensures
            valid == equation_valid(*self),
    {
        if self.name.unicode_len() == 0 || self.terms.len() == 0 || !is_finite(self.constant_bits) {
            return false;
        }
        let lead = self.terms[0].coefficient_bits;
        if lead == 0 || lead == 0x8000_0000 {
            return false;
        }
        let mut i: usize = 0;
        while i < self.terms.len()
            invariant
                i <= self.terms.len(),
                forall|j: int| 0 <= j < i ==> 1 <= (#[trigger] self.terms@[j]).dof <= 6 && f32_is_finite(
                    self.terms@[j].coefficient_bits,
                ),
            decreases self.terms.len() - i,
        {
            let term = self.terms[i];
            if term.dof < 1 || term.dof > 6 || !is_finite(term.coefficient_bits) {
                return false;
            }
            i += 1;
        }
        true
    }
}

/// The label of a FrontISTR degree of freedom.
pub open spec fn dof_label(dof: u8) -> Seq<char> {
    if dof == 1 {
        "Ux"@
    } else if dof == 2 {
        "Uy"@
    } else if dof == 3 {
        "Uz"@
    } else if dof == 4 {
        "Rx"@
    } else if dof == 5 {
        "Ry"@
    } else if dof == 6 {
        "Rz"@
    } else {
        "invalid DOF"@
    }
}

pub fn mpc_dof_label(dof: u8) -> (label: &'static str)
    ensures
        label@ == dof_label(dof),
{
    match dof {
        1 => "Ux",
        2 => "Uy",
        3 => "Uz",
        4 => "Rx",
        5 => "Ry",
        6 => "Rz",
        _ => "invalid DOF",
    }
}

/// The translational DOFs coupled by a pair constraint for the UI choice
/// `dof` (0 = all three), or `None` when the choice is not supported.
pub open spec fn pair_dofs(dof: u8) -> Option<Seq<u8>> {
    if dof == 0 {
        Some(seq![1u8, 2u8, 3u8])
    } else if 1 <= dof <= 3 {
        Some(seq![dof])
    } else {
        None
    }
}

/// The suffix appended to the group name for one coupled DOF.
pub open spec fn pair_suffix(dof: u8) -> Seq<char> {
    if dof == 1 {
        "_UX"@
    } else if dof == 2 {
        "_UY"@
    } else {
        "_UZ"@
    }
}

/// The equation `u(positive) - u(negative) = 0` for one DOF, in `group`.
pub open spec fn is_pair_equation(
    equation: MpcEquation,
    group: Seq<char>,
    positive: (usize, NodeId),
    negative: (usize, NodeId),
    dof: u8,
) -> bool {
    &&& equation.name@ == group + pair_suffix(dof)
    &&& equation.constant_bits == 0
    &&& equation.group is Some
    &&& equation.group->0@ == group
    &&& equation.terms@ == seq![
        MpcTerm { mesh_index: positive.0, node: positive.1, dof, coefficient_bits: ONE_BITS },
        MpcTerm { mesh_index: negative.0, node: negative.1, dof, coefficient_bits: MINUS_ONE_BITS },
    ]
}

fn pair_equation(group: &str, positive: (usize, NodeId), negative: (usize, NodeId), dof: u8) -> (equation: MpcEquation)
    requires
        1 <= dof <= 3,
    ensures
        is_pair_equation(equation, group@, positive, negative, dof),
{
    let mut name = String::from_str(group);
    let suffix = if dof == 1 {
        "_UX"
    } else if dof == 2 {
        "_UY"
    } else {
        "_UZ"
    };
    name.append(suffix);
    let terms = vec![
        MpcTerm::new(positive.0, positive.1, dof, ONE_BITS),
        MpcTerm::new(negative.0, negative.1, dof, MINUS_ONE_BITS),
    ];
    let equation = MpcEquation::new("", 0, terms);
    let equation = MpcEquation { name, ..equation };
    let equation = equation.with_group(group);
    proof {
        assert(equation.terms@ =~= seq![
            MpcTerm { mesh_index: positive.0, node: positive.1, dof, coefficient_bits: ONE_BITS },
            MpcTerm { mesh_index: negative.0, node: negative.1, dof, coefficient_bits: MINUS_ONE_BITS },
        ]);
    }
    equation
}

/// Equal-displacement constraints between two nodes: one equation per coupled
/// DOF, all in `group`. Fails when both nodes are the same or the DOF choice
/// is not Ux, Uy, Uz or XYZ (0).
pub fn pair_mpc_equations(
    group: &str,
    positive: (usize, NodeId),
    negative: (usize, NodeId),
    dof: u8,
) -> (result: Result<Vec<MpcEquation>, String>)
    ensures
        positive == negative ==> result is Err && result->Err_0@ == "Reference and coupled nodes must be different"@,
        positive != negative && pair_dofs(dof) is None ==> result is Err && result->Err_0@
            == "Pair MPC supports only Ux, Uy, Uz, or XYZ"@,
        positive != negative && pair_dofs(dof) is Some ==> {
            &&& result is Ok
            &&& result->Ok_0.len() == pair_dofs(dof)->0.len()
            &&& forall|i: int| 0 <= i < result->Ok_0.len() ==> #[trigger] is_pair_equation(
                result->Ok_0@[i],
                group@,
                positive,
                negative,
                pair_dofs(dof)->0[i],
            )
        },
{
    if positive.0 == negative.0 && positive.1.0 == negative.1.0 {
        return Err(String::from_str("Reference and coupled nodes must be different"));
    }
    let mut equations: Vec<MpcEquation> = Vec::new();
    if dof == 0 {
        equations.push(pair_equation(group, positive, negative, 1));
        equations.push(pair_equation(group, positive, negative, 2));
        equations.push(pair_equation(group, positive, negative, 3));
    } else if 1 <= dof && dof <= 3 {
        equations.push(pair_equation(group, positive, negative, dof));
    } else {
        return Err(String::from_str("Pair MPC supports only Ux, Uy, Uz, or XYZ"));
    }
    Ok(equations)
}

/// Whether `equation` belongs to the group named `group`.
pub open spec fn in_group(equation: MpcEquation, group: Seq<char>) -> bool {
    equation.group is Some && equation.group->0@ == group
}

/// Deletes the selected equation, or its whole group when it belongs to one.
/// Returns the number of equations removed (0 when `selected` is out of range).
pub fn remove_mpc_equation_or_group(equations: &mut Vec<MpcEquation>, selected: usize) -> (removed: usize)
    ensures
        selected >= old(equations).len() ==> removed == 0 && final(equations)@ == old(equations)@,
        selected < old(equations).len() && old(equations)@[selected as int].group is None ==> {
            &&& removed == 1
            &&& final(equations)@ == old(equations)@.remove(selected as int)
        },
        selected < old(equations).len() && old(equations)@[selected as int].group is Some ==> {
            let group = old(equations)@[selected as int].group->0@;
            &&& final(equations)@ == old(equations)@.filter(|e: MpcEquation| !in_group(e, group))
            &&& removed == old(equations).len() - final(equations).len()
        },
{
    if selected >= equations.len() {
        return 0;
    }
    let group = match &equations[selected].group {
        Some(g) => Some(g.clone()),
        None => None,
    };
    match group {
        None => {
            equations.remove(selected);
            1
        },
        Some(g) => {
            let ghost input = equations@;
            let ghost keep = |e: MpcEquation| !in_group(e, g@);
            let before = equations.len();
            let mut i: usize = 0;
            let mut k: usize = 0;
            while k < before
                invariant
                    before == input.len(),
                    k <= before,
                    keep == (|e: MpcEquation| !in_group(e, g@)),
                    equations@ == input.take(k as int).filter(keep) + input.skip(k as int),
                    i == input.take(k as int).filter(keep).len(),
                decreases before - k,
            {
                proof {
                    reveal_with_fuel(Seq::filter, 1);
                    assert(input.take(k as int + 1).drop_last() =~= input.take(k as int));
                    assert(input.take(k as int + 1).last() == input[k as int]);
                    assert(equations@[i as int] == input[k as int]);
                }
                let member = match &equations[i].group {
                    Some(h) => str_eq(h.as_str(), g.as_str()),
                    None => false,
                };
                if member {
                    equations.remove(i);
                    proof {
                        assert(input.skip(k as int).drop_first() =~= input.skip(k as int + 1));
                        assert(equations@ =~= input.take(k as int + 1).filter(keep) + input.skip(k as int + 1));
                    }
                } else {
                    proof {
                        assert(equations@ =~= input.take(k as int + 1).filter(keep) + input.skip(k as int + 1));
                    }
                    i += 1;
                }
                k += 1;
            }
            proof {
                assert(input.take(before as int) =~= input);
                assert(input.skip(before as int) =~= Seq::<MpcEquation>::empty());
                assert(equations@ =~= input.filter(keep));
                input.lemma_filter_len(keep);
            }
            before - equations.len()
        },
    }
}

/// The `k`-th automatic pair group name, `MPC_PAIR_k`.
pub open spec fn pair_group_name(k: nat) -> Seq<char> {
    "MPC_PAIR_"@ + decimal(k)
}

/// Whether `s` begins with `prefix`.
pub open spec fn has_prefix(s: Seq<char>, prefix: Seq<char>) -> bool {
    prefix.len() <= s.len() && s.subrange(0, prefix.len() as int) == prefix
}

/// Whether a name is, or is derived from, the pair group name `MPC_PAIR_k`
/// (`MPC_PAIR_k` itself or `MPC_PAIR_k_...`).
pub open spec fn claims_pair(s: Seq<char>, k: nat) -> bool {
    s == pair_group_name(k) || has_prefix(s, pair_group_name(k) + "_"@)
}

/// Whether field `field` of an equation (0: its group, 1: its name) uses `MPC_PAIR_k`.
pub open spec fn slot_claims(equation: MpcEquation, field: int, k: nat) -> bool {
    if field == 0 {
        equation.group is Some && equation.group->0@ == pair_group_name(k)
    } else {
        claims_pair(equation.name@, k)
    }
}

/// Whether an existing equation keeps `MPC_PAIR_k` from being used.
pub open spec fn pair_name_taken(equations: Seq<MpcEquation>, k: nat) -> bool {
    exists|i: int, f: int| 0 <= i < equations.len() && 0 <= f < 2 && #[trigger] slot_claims(equations[i], f, k)
}

/// The lowest pair number from 1 on whose name is unused.
pub open spec fn first_free_pair(equations: Seq<MpcEquation>, k: nat) -> bool {
    &&& 1 <= k
    &&& !pair_name_taken(equations, k)
    &&& forall|j: nat| 1 <= j < k ==> #[trigger] pair_name_taken(equations, j)
}

proof fn lemma_claim_facts(s: Seq<char>, k: nat)
    requires
        claims_pair(s, k),
    ensures
        s.len() >= 9 + decimal(k).len(),
        forall|j: int| 0 <= j < decimal(k).len() ==> s[9 + j] == #[trigger] decimal(k)[j],
        s.len() > 9 + decimal(k).len() ==> s[9 + decimal(k).len() as int] == '_',
{
    reveal_strlit("MPC_PAIR_");
    reveal_strlit("_");
    let key = pair_group_name(k);
    assert(key.len() == 9 + decimal(k).len());
    assert forall|j: int| 0 <= j < decimal(k).len() implies s[9 + j] == #[trigger] decimal(k)[j] by {
        assert(key[9 + j] == decimal(k)[j]);
        if s != key {
            assert(s.subrange(0, key.len() as int + 1)[9 + j] == (key + "_"@)[9 + j]);
        }
    }
    if s.len() > 9 + decimal(k).len() {
        assert(s != key);
        assert(s.subrange(0, key.len() as int + 1)[key.len() as int] == (key + "_"@)[key.len() as int]);
    }
}

/// A name (or group name) derives from at most one pair number.
proof fn lemma_claims_unique(s: Seq<char>, a: nat, b: nat)
    requires
        claims_pair(s, a),
        claims_pair(s, b),
    ensures
        a == b,
{
    lemma_claim_facts(s, a);
    lemma_claim_facts(s, b);
    lemma_decimal_facts(a);
    lemma_decimal_facts(b);
    let da = decimal(a);
    let db = decimal(b);
    if da.len() < db.len() {
        assert(s[9 + da.len() as int] == db[da.len() as int]);
    } else if db.len() < da.len() {
        assert(s[9 + db.len() as int] == da[db.len() as int]);
    } else {
        assert forall|j: int| 0 <= j < da.len() implies da[j] == db[j] by {
            assert(s[9 + j] == da[j]);
            assert(s[9 + j] == db[j]);
        }
        assert(da =~= db);
        lemma_decimal_injective(a, b);
    }
}

proof fn lemma_slot_unique(e: MpcEquation, f: int, a: nat, b: nat)
    requires
        slot_claims(e, f, a),
        slot_claims(e, f, b),
    ensures
        a == b,
{
    if f == 0 {
        lemma_claims_unique(e.group->0@, a, b);
    } else {
        lemma_claims_unique(e.name@, a, b);
    }
}

/// The first equation field that uses the candidate name, if any.
fn pair_blocker(equations: &Vec<MpcEquation>, name: &str, derived_prefix: &str, Ghost(k): Ghost<nat>) -> (found: Option<(usize, usize)>)
    requires
        name@ == pair_group_name(k),
        derived_prefix@ == pair_group_name(k) + "_"@,
    ensures
        match found {
            Some((i, f)) => i < equations.len() && f < 2 && slot_claims(equations@[i as int], f as int, k),
            None => !pair_name_taken(equations@, k),
        },
{
    let mut i: usize = 0;
    while i < equations.len()
        invariant
            i <= equations.len(),
            name@ == pair_group_name(k),
            derived_prefix@ == pair_group_name(k) + "_"@,
            forall|j: int, f: int| 0 <= j < i && 0 <= f < 2 ==> !#[trigger] slot_claims(equations@[j], f, k),
        decreases equations.len() - i,
    {
        let in_group = match &equations[i].group {
            Some(g) => str_eq(g.as_str(), name),
            None => false,
        };
        if in_group {
            return Some((i, 0));
        }
        if str_eq(equations[i].name.as_str(), name) || starts_with(equations[i].name.as_str(), derived_prefix) {
            return Some((i, 1));
        }
        i += 1;
    }
    None
}

/// The next unused pair group name `MPC_PAIR_k`: the lowest `k >= 1` such that
/// no equation is in group `MPC_PAIR_k`, named `MPC_PAIR_k`, or named
/// `MPC_PAIR_k_...`.
pub fn next_mpc_pair_name(equations: &Vec<MpcEquation>) -> (name: String)
    requires
        equations.len() < usize::MAX / 4,
    ensures
        exists|k: nat| #[trigger] pair_group_name(k) == name@ && first_free_pair(equations@, k),
{
    let len = equations.len();
    let mut serial: usize = 1;
    let ghost mut used: Set<int> = Set::empty();
    let ghost mut owner: Map<int, nat> = Map::empty();
    proof {
        lemma_int_range(0, 2 * len as int);
    }
    loop
        invariant
            len == equations.len(),
            len < usize::MAX / 4,
            1 <= serial,
            used.finite(),
            used.len() == serial - 1,
            used.subset_of(set_int_range(0, 2 * len as int)),
            set_int_range(0, 2 * len as int).finite(),
            set_int_range(0, 2 * len as int).len() == 2 * len,
            forall|s: int| #[trigger] used.contains(s) ==> owner.dom().contains(s) && owner[s] < serial
                && slot_claims(equations@[s / 2], s % 2, owner[s]),
            forall|j: nat| 1 <= j < serial ==> #[trigger] pair_name_taken(equations@, j),
        decreases 2 * len + 1 - serial,
    {
        proof {
            lemma_len_subset(used, set_int_range(0, 2 * len as int));
        }
        let mut name = String::from_str("MPC_PAIR_");
        push_decimal(&mut name, serial);
        let mut derived_prefix = name.clone();
        derived_prefix.append("_");
        proof {
            assert(name@ =~= pair_group_name(serial as nat));
        }
        match pair_blocker(equations, name.as_str(), derived_prefix.as_str(), Ghost(serial as nat)) {
            None => {
                return name;
            },
            Some((i, f)) => {
                proof {
                    let slot = 2 * i as int + f as int;
                    assert(slot / 2 == i as int && slot % 2 == f as int);
                    if used.contains(slot) {
                        lemma_slot_unique(equations@[i as int], f as int, owner[slot], serial as nat);
                    }
                    assert(pair_name_taken(equations@, serial as nat));
                    used = used.insert(slot);
                    owner = owner.insert(slot, serial as nat);
                    lemma_len_subset(used, set_int_range(0, 2 * len as int));
                }
                serial = serial + 1;
            },
        }
    }
}


/// Creates the equations of a pair MPC and appends them to the project:
/// both nodes must have been captured (reference first), the model must be
/// loaded (`exists` is `None` otherwise) and still hold both nodes (`exists`
/// tells, reference first). Returns the new group's name, the index of its
/// first equation and the number of equations; on refusal nothing changes.
pub fn create_mpc_pair(
    equations: &mut Vec<MpcEquation>,
    positive: Option<(usize, NodeId)>,
    negative: Option<(usize, NodeId)>,
    exists: Option<(bool, bool)>,
    dof: u8,
) -> (r: Result<(String, usize, usize), String>)
    requires
        old(equations).len() < usize::MAX / 4,
    ensures
        r is Err ==> final(equations)@ == old(equations)@,
        positive is None ==> r is Err && r->Err_0@ == "Capture the reference (+) node first"@,
        positive is Some && negative is None ==> r is Err && r->Err_0@ == "Capture the coupled (-) node first"@,
        positive is Some && negative is Some && exists is None ==> r is Err && r->Err_0@ == "No model is loaded"@,
        positive is Some && negative is Some && exists is Some ==> {
            let (a, b) = (positive->0, negative->0);
            let (p, q) = exists->0;
            if !p {
                r is Err && r->Err_0@ == "Reference node no longer exists in the model"@
            } else if !q {
                r is Err && r->Err_0@ == "Coupled node no longer exists in the model"@
            } else if a == b {
                r is Err && r->Err_0@ == "Reference and coupled nodes must be different"@
            } else if pair_dofs(dof) is None {
                r is Err && r->Err_0@ == "Pair MPC supports only Ux, Uy, Uz, or XYZ"@
            } else {
                let (group, first, count) = r->Ok_0;
                let dofs = pair_dofs(dof)->0;
                &&& r is Ok
                &&& exists|k: nat| #[trigger] pair_group_name(k) == group@ && first_free_pair(old(equations)@, k)
                &&& first == old(equations).len()
                &&& count == dofs.len()
                &&& final(equations)@.len() == old(equations)@.len() + count
                &&& final(equations)@.subrange(0, first as int) == old(equations)@
                &&& forall|i: int| 0 <= i < count ==> #[trigger] is_pair_equation(
                    final(equations)@[first + i],
                    group@,
                    a,
                    b,
                    dofs[i],
                )
            }
        },
{
    let a = match positive {
        Some(a) => a,
        None => {
            return Err(String::from_str("Capture the reference (+) node first"));
        },
    };
    let b = match negative {
        Some(b) => b,
        None => {
            return Err(String::from_str("Capture the coupled (-) node first"));
        },
    };
    let (p, q) = match exists {
        Some(e) => e,
        None => {
            return Err(String::from_str("No model is loaded"));
        },
    };
    if !p {
        return Err(String::from_str("Reference node no longer exists in the model"));
    }
    if !q {
        return Err(String::from_str("Coupled node no longer exists in the model"));
    }
    let group = next_mpc_pair_name(equations);
    let new_equations = pair_mpc_equations(group.as_str(), a, b, dof)?;
    let first = equations.len();
    let count = new_equations.len();
    let ghost before = equations@;
    let ghost added = new_equations@;
    let mut new_equations = new_equations;
    equations.append(&mut new_equations);
    proof {
        assert(equations@.subrange(0, first as int) =~= before);
        assert forall|j: int| 0 <= j < count implies #[trigger] equations@[first + j] == added[j] by {
            assert(equations@ == before + added);
        }
    }
    Ok((group, first, count))
}

/// The status after creating a pair MPC.
pub fn pair_created_message(group: &str, count: usize) -> (message: String)
    ensures
        message@ == "Created "@ + group@ + ": "@ + decimal(count as nat) + (if count == 1 {
            " equation"@
        } else {
            " equations"@
        }) + "; shown in viewport"@,
{
    let mut message = String::from_str("Created ");
    message.append(group);
    message.append(": ");
    push_decimal(&mut message, count);
    if count == 1 {
        message.append(" equation");
    } else {
        message.append(" equations");
    }
    message.append("; shown in viewport");
    message
}


/// How a captured pair node is described: its mesh label and node number.
pub open spec fn pair_node_text(parts: Seq<PartName>, node: Option<(usize, NodeId)>) -> Seq<char> {
    match node {
        Some((mesh, id)) => (match mesh_part_name(parts, mesh) {
            Some(name) => name,
            None => "Mesh "@ + decimal(mesh as nat),
        }) + " / node "@ + decimal(id.0 as nat),
        None => "not set"@,
    }
}

fn push_pair_node(text: &mut String, parts: &Vec<PartName>, node: Option<(usize, NodeId)>)
    ensures
        final(text)@ == old(text)@ + pair_node_text(parts@, node),
{
    match node {
        Some((mesh, id)) => {
            let label = mesh_label(parts, mesh);
            text.append(label.as_str());
            text.append(" / node ");
            let digits = crate::text::format_decimal_u64(id.0);
            text.append(digits.as_str());
        },
        None => text.append("not set"),
    }
}

/// The pair MPC draft panel: both captured nodes, the coupled DOF (`XYZ`
/// for all three) and the last message.
pub fn pair_draft_text(
    parts: &Vec<PartName>,
    positive: Option<(usize, NodeId)>,
    negative: Option<(usize, NodeId)>,
    dof: u8,
    message: &str,
) -> (text: String)
    ensures
        text@ == "Reference (+): "@ + pair_node_text(parts@, positive) + "\nCoupled (-): "@ + pair_node_text(
            parts@,
            negative,
        ) + "   DOF: "@ + (if dof == 0 {
            "XYZ"@
        } else {
            dof_label(dof)
        }) + "\n"@ + message@,
{
    let mut text = String::from_str("Reference (+): ");
    push_pair_node(&mut text, parts, positive);
    text.append("\nCoupled (-): ");
    push_pair_node(&mut text, parts, negative);
    text.append("   DOF: ");
    if dof == 0 {
        text.append("XYZ");
    } else {
        text.append(mpc_dof_label(dof));
    }
    text.append("\n");
    text.append(message);
    text
}

/// The buttons of the defined-MPC review.
#[derive(Clone, Copy, Debug, PartialEq, Eq, Structural)]
pub enum DefinedMpcAction {
    Show,
    Previous,
    Next,
    EditConstant,
    PreviousTerm,
    NextTerm,
    EditCoefficient,
    Remove,
}

/// Which defined equation is previewed and which of its terms is edited.
#[derive(Clone, Copy, Debug, PartialEq, Eq, Structural)]
pub struct DefinedMpcReview {
    pub selected: Option<usize>,
    pub active: bool,
    pub equation: Option<usize>,
    pub term: usize,
}

/// What the host does after a press on the defined-MPC review.
#[derive(Clone, Copy, Debug, PartialEq, Eq, Structural)]
pub enum DefinedMpcEffect {
    /// No equation is defined: nothing happens.
    Ignored,
    /// The review moved; other drafts and candidates are cleared.
    Reviewed { clear_measurement: bool },
    /// The viewport tool becomes selection and the constant of `equation` is
    /// edited in the measurement box, starting from `constant_bits`.
    EditConstant { equation: usize, constant_bits: u32 },
    /// As above, for the coefficient of one term.
    EditCoefficient { equation: usize, term: usize, coefficient_bits: u32 },
}

/// The equation a press acts on: the previewed one while it exists, else the first.
pub open spec fn review_current(selected: Option<usize>, count: nat) -> nat {
    match selected {
        Some(i) => if i < count { i as nat } else { 0 },
        None => 0,
    }
}

/// One step forward or back around `m` positions, computed without leaving
/// the range `0..m`.
proof fn lemma_wrap_step(x: int, m: int)
    requires
        x >= 0,
        m > 0,
    ensures
        0 <= x % m < m,
        (x + 1) % m == (if x % m + 1 == m { 0 } else { x % m + 1 }),
        (x + m - 1) % m == (if x % m == 0 { m - 1 } else { x % m - 1 }),
{
    let q = x / m;
    let r = x % m;
    lemma_fundamental_div_mod(x, m);
    lemma_mod_pos_bound(x, m);
    assert(x + 1 == m * q + (r + 1));
    lemma_mod_multiples_vanish(q, r + 1, m);
    if r + 1 == m {
        lemma_mod_self_0(m);
    } else {
        lemma_small_mod((r + 1) as nat, m as nat);
    }
    if r == 0 {
        assert(x + m - 1 == m * q + (m - 1));
        lemma_mod_multiples_vanish(q, m - 1, m);
        lemma_small_mod((m - 1) as nat, m as nat);
    } else {
        assert(x + m - 1 == m * (q + 1) + (r - 1)) by (nonlinear_arith)
            requires
                x == m * q + r,
        ;
        lemma_mod_multiples_vanish(q + 1, r - 1, m);
        lemma_small_mod((r - 1) as nat, m as nat);
    }
}

/// Presses a button of the defined-MPC review. Stepping wraps around the
/// equations (and around the terms of the edited equation); removing deletes
/// the equation, or its whole group, and previews the one now at its place.
pub fn press_defined_mpc(
    review: &mut DefinedMpcReview,
    equations: &mut Vec<MpcEquation>,
    action: DefinedMpcAction,
) -> (effect: DefinedMpcEffect)
    ensures
        old(equations).len() == 0 ==> effect == DefinedMpcEffect::Ignored && *final(review) == *old(review)
            && final(equations)@ == old(equations)@,
        old(equations).len() > 0 ==> ({
            let count = old(equations).len() as int;
            let current = review_current(old(review).selected, count as nat) as int;
            let equation = old(equations)@[current];
            // Acting on another equation restarts at its first term.
            let term: int = if old(review).equation == Some(current as usize) { old(review).term as int } else { 0 };
            let term_count = equation.terms.len() as int;
            &&& action != DefinedMpcAction::Remove ==> final(equations)@ == old(equations)@
            &&& match action {
                DefinedMpcAction::Show => {
                    &&& effect == (DefinedMpcEffect::Reviewed { clear_measurement: false })
                    &&& *final(review) == (DefinedMpcReview {
                        selected: Some(current as usize),
                        active: true,
                        equation: Some(current as usize),
                        term: term as usize,
                    })
                },
                DefinedMpcAction::Previous | DefinedMpcAction::Next => {
                    let next = if action == DefinedMpcAction::Next {
                        (current + 1) % count
                    } else {
                        (current + count - 1) % count
                    };
                    &&& effect == (DefinedMpcEffect::Reviewed { clear_measurement: true })
                    &&& *final(review) == (DefinedMpcReview {
                        selected: Some(next as usize),
                        active: true,
                        equation: Some(next as usize),
                        term: 0,
                    })
                },
                DefinedMpcAction::EditConstant => {
                    &&& effect == (DefinedMpcEffect::EditConstant {
                        equation: current as usize,
                        constant_bits: equation.constant_bits,
                    })
                    &&& *final(review) == (DefinedMpcReview {
                        selected: old(review).selected,
                        active: true,
                        equation: Some(current as usize),
                        term: term as usize,
                    })
                },
                DefinedMpcAction::PreviousTerm | DefinedMpcAction::NextTerm => if term_count > 0 {
                    let next = if action == DefinedMpcAction::NextTerm {
                        (term + 1) % term_count
                    } else {
                        (term + term_count - 1) % term_count
                    };
                    &&& effect == (DefinedMpcEffect::Reviewed { clear_measurement: true })
                    &&& *final(review) == (DefinedMpcReview {
                        selected: old(review).selected,
                        active: true,
                        equation: Some(current as usize),
                        term: next as usize,
                    })
                } else {
                    &&& effect == (DefinedMpcEffect::Reviewed { clear_measurement: false })
                    &&& *final(review) == (DefinedMpcReview {
                        selected: old(review).selected,
                        active: old(review).active,
                        equation: Some(current as usize),
                        term: term as usize,
                    })
                },
                DefinedMpcAction::EditCoefficient => if term < term_count {
                    &&& effect == (DefinedMpcEffect::EditCoefficient {
                        equation: current as usize,
                        term: term as usize,
                        coefficient_bits: equation.terms@[term as int].coefficient_bits,
                    })
                    &&& *final(review) == (DefinedMpcReview {
                        selected: old(review).selected,
                        active: true,
                        equation: Some(current as usize),
                        term: term as usize,
                    })
                } else {
                    &&& effect == (DefinedMpcEffect::Reviewed { clear_measurement: false })
                    &&& *final(review) == (DefinedMpcReview {
                        selected: old(review).selected,
                        active: old(review).active,
                        equation: Some(current as usize),
                        term: term as usize,
                    })
                },
                DefinedMpcAction::Remove => {
                    let remaining = final(equations).len();
                    let selected = if remaining > 0 {
                        Some(if current < remaining { current as usize } else { (remaining - 1) as usize })
                    } else {
                        None
                    };
                    &&& equation.group is None ==> final(equations)@ == old(equations)@.remove(current as int)
                    &&& equation.group is Some ==> final(equations)@ == old(equations)@.filter(
                        |e: MpcEquation| !in_group(e, equation.group->0@),
                    )
                    &&& effect == (DefinedMpcEffect::Reviewed { clear_measurement: true })
                    &&& *final(review) == (DefinedMpcReview { selected, active: false, equation: selected, term: 0 })
                },
            }
        }),
{
    let count = equations.len();
    if count == 0 {
        return DefinedMpcEffect::Ignored;
    }
    let current = match review.selected {
        Some(i) => if i < count {
            i
        } else {
            0
        },
        None => 0,
    };
    let same = match review.equation {
        Some(e) => e == current,
        None => false,
    };
    if !same {
        review.equation = Some(current);
        review.term = 0;
    }
    match action {
        DefinedMpcAction::Show => {
            review.selected = Some(current);
            review.active = true;
            DefinedMpcEffect::Reviewed { clear_measurement: false }
        },
        DefinedMpcAction::Previous | DefinedMpcAction::Next => {
            proof {
                lemma_wrap_step(current as int, count as int);
                lemma_small_mod(current as nat, count as nat);
            }
            let next = match action {
                DefinedMpcAction::Next => if current + 1 == count {
                    0
                } else {
                    current + 1
                },
                _ => if current == 0 {
                    count - 1
                } else {
                    current - 1
                },
            };
            review.selected = Some(next);
            review.equation = Some(next);
            review.term = 0;
            review.active = true;
            DefinedMpcEffect::Reviewed { clear_measurement: true }
        },
        DefinedMpcAction::EditConstant => {
            review.active = true;
            DefinedMpcEffect::EditConstant { equation: current, constant_bits: equations[current].constant_bits }
        },
        DefinedMpcAction::PreviousTerm | DefinedMpcAction::NextTerm => {
            let term_count = equations[current].terms.len();
            if term_count > 0 {
                let term = review.term;
                proof {
                    lemma_wrap_step(term as int, term_count as int);
                }
                let r = term % term_count;
                review.term = match action {
                    DefinedMpcAction::NextTerm => if r + 1 == term_count {
                        0
                    } else {
                        r + 1
                    },
                    _ => if r == 0 {
                        term_count - 1
                    } else {
                        r - 1
                    },
                };
                review.active = true;
                DefinedMpcEffect::Reviewed { clear_measurement: true }
            } else {
                DefinedMpcEffect::Reviewed { clear_measurement: false }
            }
        },
        DefinedMpcAction::EditCoefficient => {
            let term = review.term;
            if term < equations[current].terms.len() {
                review.active = true;
                DefinedMpcEffect::EditCoefficient {
                    equation: current,
                    term,
                    coefficient_bits: equations[current].terms[term].coefficient_bits,
                }
            } else {
                DefinedMpcEffect::Reviewed { clear_measurement: false }
            }
        },
        DefinedMpcAction::Remove => {
            remove_mpc_equation_or_group(equations, current);
            let remaining = equations.len();
            let selected = if remaining > 0 {
                Some(if current < remaining { current } else { remaining - 1 })
            } else {
                None
            };
            review.selected = selected;
            review.equation = selected;
            review.term = 0;
            review.active = false;
            DefinedMpcEffect::Reviewed { clear_measurement: true }
        },
    }
}

} // verus!
