use vstd::prelude::*;

verus! {

use vstd::multiset::Multiset;
use crate::sidebar::{SidebarPage, supports_part_position};
use crate::text::{decimal, push_decimal};

broadcast use vstd::seq_lib::group_to_multiset_ensures;

/// How two part boundaries relate.
#[derive(Clone, Copy, Debug, PartialEq, Eq, Structural)]
pub enum ClearanceKind {
    Separated,
    Touching,
    Intersecting,
}

/// The colour class of the clearance status line.
#[derive(Clone, Copy, Debug, PartialEq, Eq, Structural)]
pub enum ClearanceTone {
    Muted,
    Success,
    Warning,
    Error,
}

/// One measured pair: the selected part against `other_part`. The distance is
/// kept as the bit pattern of its `f32` value (for ordering) and as its
/// display text; `gap_text` shows the gap vector between witness points.
/// `witness` carries the geometry used to draw the measurement.
#[derive(Debug)]
pub struct ClearanceReport<P> {
    pub checked_version: u64,
    pub selected_part: usize,
    pub other_part: usize,
    pub kind: ClearanceKind,
    pub distance_bits: u32,
    pub distance_text: String,
    pub gap_text: Option<String>,
    pub witness: P,
}

/// Review order of the kinds: interference first, then contact, then gaps.
pub open spec fn clearance_priority(kind: ClearanceKind) -> int {
    match kind {
        ClearanceKind::Intersecting => 0,
        ClearanceKind::Touching => 1,
        ClearanceKind::Separated => 2,
    }
}

pub fn priority(kind: ClearanceKind) -> (p: u8)
    ensures
        p == clearance_priority(kind),
{
    match kind {
        ClearanceKind::Intersecting => 0,
        ClearanceKind::Touching => 1,
        ClearanceKind::Separated => 2,
    }
}

/// The position of an `f32` bit pattern in IEEE 754 total order
/// (`f32::total_cmp`): negative values by decreasing magnitude, then positive
/// values by increasing magnitude.
pub open spec fn total_order_key(bits: u32) -> int {
    if bits >= 0x8000_0000 {
        0xFFFF_FFFF - bits
    } else {
        bits + 0x8000_0000
    }
}

pub fn total_key(bits: u32) -> (key: u32)
    ensures
        key == total_order_key(bits),
{
    if bits >= 0x8000_0000 {
        0xFFFF_FFFF - bits
    } else {
        bits + 0x8000_0000
    }
}

/// Review order of reports: by risk, then by distance, then by part index.
pub open spec fn report_le<P>(a: ClearanceReport<P>, b: ClearanceReport<P>) -> bool {
    let (pa, pb) = (clearance_priority(a.kind), clearance_priority(b.kind));
    let (da, db) = (total_order_key(a.distance_bits), total_order_key(b.distance_bits));
    pa < pb || (pa == pb && (da < db || (da == db && a.other_part <= b.other_part)))
}

pub open spec fn sorted_for_review<P>(s: Seq<ClearanceReport<P>>) -> bool {
    forall|i: int, j: int| 0 <= i < j < s.len() ==> report_le(#[trigger] s[i], #[trigger] s[j])
}

fn report_le_exec<P>(a: &ClearanceReport<P>, b: &ClearanceReport<P>) -> (le: bool)
    ensures
        le == report_le(*a, *b),
{
    let pa = priority(a.kind);
    let pb = priority(b.kind);
    let da = total_key(a.distance_bits);
    let db = total_key(b.distance_bits);
    pa < pb || (pa == pb && (da < db || (da == db && a.other_part <= b.other_part)))
}

/// Index of a least report in review order.
fn index_of_first<P>(reports: &Vec<ClearanceReport<P>>) -> (m: usize)
    requires
        reports.len() > 0,
    ensures
        m < reports.len(),
        forall|j: int| 0 <= j < reports.len() ==> report_le(reports@[m as int], #[trigger] reports@[j]),
{
    let mut m: usize = 0;
    let mut j: usize = 1;
    while j < reports.len()
        invariant
            m < j <= reports.len(),
            forall|k: int| 0 <= k < j ==> report_le(reports@[m as int], #[trigger] reports@[k]),
        decreases reports.len() - j,
    {
        if !report_le_exec(&reports[m], &reports[j]) {
            m = j;
        }
        j += 1;
    }
    m
}

/// Orders reports for review: interference first, then touching pairs, then
/// separated pairs; ties by distance (IEEE total order) and part index.
pub fn sort_for_review<P>(reports: Vec<ClearanceReport<P>>) -> (sorted: Vec<ClearanceReport<P>>)
    ensures
        sorted_for_review(sorted@),
        sorted@.to_multiset() == reports@.to_multiset(),
{
    let ghost input = reports@;
    let mut rest = reports;
    let mut sorted: Vec<ClearanceReport<P>> = Vec::new();
    while rest.len() > 0
        invariant
            sorted_for_review(sorted@),
            forall|i: int, j: int| 0 <= i < sorted.len() && 0 <= j < rest.len() ==> report_le(
                #[trigger] sorted@[i],
                #[trigger] rest@[j],
            ),
            sorted@.to_multiset().add(rest@.to_multiset()) == input.to_multiset(),
        decreases rest.len(),
    {
        let m = index_of_first(&rest);
        let ghost before_rest = rest@;
        let ghost before_sorted = sorted@;
        let item = rest.remove(m);
        proof {
            assert(rest@ == before_rest.remove(m as int));
            assert forall|j: int| 0 <= j < rest.len() implies report_le(item, #[trigger] rest@[j]) by {
                if j < m {
                    assert(rest@[j] == before_rest[j]);
                } else {
                    assert(rest@[j] == before_rest[j + 1]);
                }
            }
            assert forall|i: int, j: int| 0 <= i < sorted.len() && 0 <= j < rest.len() implies report_le(
                #[trigger] sorted@[i],
                #[trigger] rest@[j],
            ) by {
                if j < m {
                    assert(rest@[j] == before_rest[j]);
                } else {
                    assert(rest@[j] == before_rest[j + 1]);
                }
            }
            assert forall|i: int| 0 <= i < sorted.len() implies report_le(#[trigger] sorted@[i], item) by {
                assert(item == before_rest[m as int]);
            }
        }
        sorted.push(item);
        proof {
            assert(sorted@ == before_sorted.push(item));
            assert(before_sorted.push(item).to_multiset() =~= before_sorted.to_multiset().insert(item));
            assert(sorted@.to_multiset() == before_sorted.to_multiset().insert(item));
            assert(before_rest.remove(m as int).to_multiset() =~= before_rest.to_multiset().remove(
                before_rest[m as int],
            ));
            assert(rest@.to_multiset() == before_rest.to_multiset().remove(item));
            assert(before_rest.to_multiset().count(item) > 0) by {
                assert(before_rest.contains(item)) by {
                    assert(before_rest[m as int] == item);
                }
            }
            assert(sorted@.to_multiset().add(rest@.to_multiset()) =~= before_sorted.to_multiset().add(
                before_rest.to_multiset(),
            ));
        }
    }
    proof {
        assert(rest@ =~= Seq::<ClearanceReport<P>>::empty());
        assert(rest@.to_multiset() =~= Multiset::<ClearanceReport<P>>::empty());
        assert(sorted@.to_multiset().add(rest@.to_multiset()) =~= sorted@.to_multiset());
    }
    sorted
}

/// Shown when the measured geometry or part list no longer matches the model.
pub open spec fn geometry_changed() -> Seq<char> {
    "Geometry changed - check clearance again"@
}

/// Shown when the selected part changed after a check.
pub open spec fn part_changed() -> Seq<char> {
    "Selected part changed - check clearance again"@
}

/// Review direction of the previous/next buttons.
#[derive(Clone, Copy, Debug, PartialEq, Eq, Structural)]
pub enum ClearanceReviewAction {
    Previous,
    Next,
}

/// The report shown after a review step from `current` among `len` reports
/// (wrapping at both ends).
pub open spec fn review_step(action: ClearanceReviewAction, current: nat, len: nat) -> nat {
    match action {
        ClearanceReviewAction::Previous => if current == 0 { (len - 1) as nat } else { (current - 1) as nat },
        ClearanceReviewAction::Next => (current + 1) % (len as int) as nat,
    }
}

/// Review wraps in both directions, and a step forward is undone by a step back.
pub proof fn lemma_review_wraps(current: nat, len: nat)
    requires
        len >= 2,
        current < len,
    ensures
        review_step(ClearanceReviewAction::Next, (len - 1) as nat, len) == 0,
        review_step(ClearanceReviewAction::Previous, 0, len) == len - 1,
        review_step(ClearanceReviewAction::Next, current, len) < len,
        review_step(ClearanceReviewAction::Previous, current, len) < len,
        review_step(
            ClearanceReviewAction::Previous,
            review_step(ClearanceReviewAction::Next, current, len),
            len,
        ) == current,
        review_step(
            ClearanceReviewAction::Next,
            review_step(ClearanceReviewAction::Previous, current, len),
            len,
        ) == current,
{
    if current + 1 < len {
        vstd::arithmetic::div_mod::lemma_small_mod((current + 1) as nat, len);
    } else {
        vstd::arithmetic::div_mod::lemma_mod_self_0(len as int);
    }
    vstd::arithmetic::div_mod::lemma_small_mod(current, len);
    vstd::arithmetic::div_mod::lemma_mod_self_0(len as int);
    vstd::arithmetic::div_mod::lemma_small_mod(0, len);
}

/// "\n{n} unsupported part(s) skipped" when parts were skipped.
pub open spec fn skipped_suffix(skipped: nat) -> Seq<char> {
    if skipped > 0 {
        "\n"@ + decimal(skipped) + " unsupported part(s) skipped"@
    } else {
        Seq::empty()
    }
}

/// "  [position/total]\n{selected} -> [{other number}] {other}{skipped}".
pub open spec fn pair_lines(
    position: nat,
    total: nat,
    selected: Seq<char>,
    other_number: nat,
    other: Seq<char>,
) -> Seq<char> {
    "  ["@ + decimal(position) + "/"@ + decimal(total) + "]\n"@ + selected + " -> ["@ + decimal(other_number)
        + "] "@ + other
}

/// The status message describing report `index` of `reports`.
pub open spec fn report_message<P>(
    reports: Seq<ClearanceReport<P>>,
    index: nat,
    names: Seq<String>,
    skipped: nat,
) -> (Seq<char>, ClearanceTone) {
    let report = reports[index as int];
    let lines = pair_lines(
        index + 1,
        reports.len(),
        names[report.selected_part as int]@,
        (report.other_part + 1) as nat,
        names[report.other_part as int]@,
    );
    match report.kind {
        ClearanceKind::Separated => (
            "Clearance: "@ + report.distance_text@ + " model units"@ + lines + (match report.gap_text {
                Some(gap) => "\nGap vector: "@ + gap@,
                None => Seq::empty(),
            }) + skipped_suffix(skipped),
            ClearanceTone::Success,
        ),
        ClearanceKind::Touching => (
            "TOUCHING (within tolerance)"@ + lines + skipped_suffix(skipped),
            ClearanceTone::Warning,
        ),
        ClearanceKind::Intersecting => (
            "INTERFERENCE DETECTED"@ + lines + skipped_suffix(skipped),
            ClearanceTone::Error,
        ),
    }
}

/// Whether a check can run: at least two parts and an existing selection.
pub open spec fn spec_can_check(part_count: nat, selected_part: Option<usize>) -> bool {
    part_count >= 2 && selected_part is Some && selected_part->0 < part_count
}

pub fn can_check(part_count: usize, selected_part: Option<usize>) -> (ok: bool)
    ensures
        ok == spec_can_check(part_count as nat, selected_part),
{
    part_count >= 2 && match selected_part {
        Some(part) => part < part_count,
        None => false,
    }
}

/// Why review is paused: while a part is dragged, and while the exploded
/// contact review displays parts away from their real coordinates.
pub fn review_pause_reason(dragging: bool, exploded_review: bool) -> (reason: Option<&'static str>)
    ensures
        dragging ==> reason is Some && reason->0@ == "Moving part - clearance review paused until release"@,
        !dragging && exploded_review ==> reason is Some && reason->0@
            == "Exploded contact review - set Review separation to 0 to check clearance"@,
        !dragging && !exploded_review ==> reason is None,
{
    if dragging {
        Some("Moving part - clearance review paused until release")
    } else if exploded_review {
        Some("Exploded contact review - set Review separation to 0 to check clearance")
    } else {
        None
    }
}

/// The clearance errors when a check produced no report at all.
pub fn empty_evaluation_error(skipped: usize) -> (error: String)
    ensures
        error@ == (if skipped > 0 {
            "No comparable boundary surface; "@ + decimal(skipped as nat) + " part(s) were skipped"@
        } else {
            "No other part is available for comparison"@
        }),
{
    if skipped > 0 {
        let mut error = String::from_str("No comparable boundary surface; ");
        push_decimal(&mut error, skipped);
        error.append(" part(s) were skipped");
        error
    } else {
        String::from_str("No other part is available for comparison")
    }
}

/// Turns the measured pairs of one check into the review list: an error when
/// nothing was comparable, otherwise the reports in review order.
pub fn conclude_evaluation<P>(reports: Vec<ClearanceReport<P>>, skipped: usize) -> (result: Result<
    (Vec<ClearanceReport<P>>, usize),
    String,
>)
    ensures
        reports.len() == 0 ==> result is Err && result->Err_0@ == (if skipped > 0 {
            "No comparable boundary surface; "@ + decimal(skipped as nat) + " part(s) were skipped"@
        } else {
            "No other part is available for comparison"@
        }),
        reports.len() > 0 ==> {
            &&& result is Ok
            &&& sorted_for_review(result->Ok_0.0@)
            &&& result->Ok_0.0@.to_multiset() == reports@.to_multiset()
            &&& result->Ok_0.1 == skipped
        },
{
    if reports.len() == 0 {
        Err(empty_evaluation_error(skipped))
    } else {
        Ok((sort_for_review(reports), skipped))
    }
}

/// What the collision queries found for the selected part against one other
/// part: whether the separation is within the pair's tolerance, whether the
/// boundaries intersect (asked only within tolerance), whether one part lies
/// inside the other, and the measured distance with its display texts.
#[derive(Debug)]
pub struct PairMeasurement<P> {
    pub within_tolerance: bool,
    pub intersects: bool,
    pub contained: bool,
    pub distance_bits: u32,
    pub distance_text: String,
    pub gap_text: Option<String>,
    pub witness: P,
}

/// How a measured pair is classified: within tolerance it touches or
/// intersects; beyond it, parts inside one another intersect (at distance 0,
/// with no gap) and all others are separated.
pub open spec fn report_of<P>(m: PairMeasurement<P>, selected_part: usize, other_part: usize, version: u64) -> ClearanceReport<P> {
    let buried = !m.within_tolerance && m.contained;
    ClearanceReport {
        checked_version: version,
        selected_part,
        other_part,
        kind: if m.within_tolerance {
            if m.intersects {
                ClearanceKind::Intersecting
            } else {
                ClearanceKind::Touching
            }
        } else if m.contained {
            ClearanceKind::Intersecting
        } else {
            ClearanceKind::Separated
        },
        distance_bits: if buried { 0 } else { m.distance_bits },
        distance_text: m.distance_text,
        gap_text: if buried { None } else { m.gap_text },
        witness: m.witness,
    }
}

/// The reports and the number of skipped parts after the first `n` parts:
/// the selected part is passed over, parts without a usable collider are
/// skipped, a failed query ends the check with its error, and every other
/// part gives one report, in part order.
pub open spec fn evaluation<P>(
    others: Seq<Option<Result<PairMeasurement<P>, String>>>,
    selected_part: usize,
    version: u64,
    n: int,
) -> Result<(Seq<ClearanceReport<P>>, nat), Seq<char>>
    decreases n,
{
    if n <= 0 {
        Ok((Seq::empty(), 0))
    } else {
        match evaluation(others, selected_part, version, n - 1) {
            Err(e) => Err(e),
            Ok((reports, skipped)) => if n - 1 == selected_part {
                Ok((reports, skipped))
            } else {
                match others[n - 1] {
                    None => Ok((reports, skipped + 1)),
                    Some(Err(e)) => Err(e@),
                    Some(Ok(m)) => Ok((reports.push(report_of(m, selected_part, (n - 1) as usize, version)), skipped)),
                }
            },
        }
    }
}

/// Once a query has failed, the rest of the parts do not change the outcome.
proof fn lemma_evaluation_error_stays<P>(
    others: Seq<Option<Result<PairMeasurement<P>, String>>>,
    selected_part: usize,
    version: u64,
    i: int,
    n: int,
)
    requires
        0 <= i <= n,
        evaluation(others, selected_part, version, i) is Err,
    ensures
        evaluation(others, selected_part, version, n) == evaluation(others, selected_part, version, i),
    decreases n - i,
{
    if n > i {
        lemma_evaluation_error_stays(others, selected_part, version, i, n - 1);
    }
}

/// Evaluates a clearance check of `selected_part` against every other part.
/// `selected_collider` is the selected part's collider (`None` when missing,
/// the reason when it is unusable); `others[i]` is what was measured against
/// part `i`: `None` when that part has no usable collider, the error of a
/// failed query, or the measurement.
pub fn evaluate_selected_part<P>(
    selected_collider: Option<Result<(), String>>,
    others: Vec<Option<Result<PairMeasurement<P>, String>>>,
    selected_part: usize,
    version: u64,
) -> (result: Result<(Vec<ClearanceReport<P>>, usize), String>)
    ensures
        selected_collider is None ==> result is Err && result->Err_0@ == "selected part collider is missing"@,
        selected_collider matches Some(Err(e)) ==> result is Err && result->Err_0@ == "selected part: "@ + e@,
        selected_collider matches Some(Ok(_)) ==> match evaluation(others@, selected_part, version, others.len() as int) {
            Err(e) => result is Err && result->Err_0@ == e,
            Ok((reports, skipped)) => if reports.len() == 0 {
                result is Err && result->Err_0@ == (if skipped > 0 {
                    "No comparable boundary surface; "@ + decimal(skipped) + " part(s) were skipped"@
                } else {
                    "No other part is available for comparison"@
                })
            } else {
                &&& result is Ok
                &&& sorted_for_review(result->Ok_0.0@)
                &&& result->Ok_0.0@.to_multiset() == reports.to_multiset()
                &&& result->Ok_0.1 == skipped
            },
        },
{
    match selected_collider {
        None => {
            return Err(String::from_str("selected part collider is missing"));
        },
        Some(Err(e)) => {
            let mut message = String::from_str("selected part: ");
            message.append(e.as_str());
            return Err(message);
        },
        Some(Ok(())) => {},
    }
    let ghost all = others@;
    let n = others.len();
    let mut rest = others;
    let mut reports: Vec<ClearanceReport<P>> = Vec::new();
    let mut skipped: usize = 0;
    let mut i: usize = 0;
    while i < n
        invariant
            n == all.len(),
            i <= n,
            selected_collider matches Some(Ok(_)),
            all == others@,
            rest@ == all.subrange(i as int, n as int),
            skipped <= i,
            evaluation(all, selected_part, version, i as int) == Ok::<(Seq<ClearanceReport<P>>, nat), Seq<char>>(
                (reports@, skipped as nat),
            ),
        decreases n - i,
    {
        let entry = rest.remove(0);
        assert(entry == all[i as int]);
        if i != selected_part {
            match entry {
                None => {
                    skipped += 1;
                },
                Some(Err(e)) => {
                    proof {
                        lemma_evaluation_error_stays(all, selected_part, version, i + 1, n as int);
                    }
                    return Err(e);
                },
                Some(Ok(m)) => {
                    let buried = !m.within_tolerance && m.contained;
                    let kind = if m.within_tolerance {
                        if m.intersects {
                            ClearanceKind::Intersecting
                        } else {
                            ClearanceKind::Touching
                        }
                    } else if m.contained {
                        ClearanceKind::Intersecting
                    } else {
                        ClearanceKind::Separated
                    };
                    let ghost expected = report_of(m, selected_part, i, version);
                    let report = ClearanceReport {
                        checked_version: version,
                        selected_part,
                        other_part: i,
                        kind,
                        distance_bits: if buried { 0 } else { m.distance_bits },
                        distance_text: m.distance_text,
                        gap_text: if buried { None } else { m.gap_text },
                        witness: m.witness,
                    };
                    assert(report == expected);
                    reports.push(report);
                },
            }
        }
        i += 1;
        assert(rest@ =~= all.subrange(i as int, n as int));
    }
    conclude_evaluation(reports, skipped)
}

/// On-demand clearance check state: the boundary collider cache (built for
/// one model version), the reviewed reports and the status line.
pub struct AssemblyClearanceState<C, P> {
    collider_version: Option<u64>,
    colliders: Vec<C>,
    reports: Vec<ClearanceReport<P>>,
    selected_report: Option<usize>,
    skipped_parts: usize,
    message: String,
    tone: ClearanceTone,
}

impl<C, P> AssemblyClearanceState<C, P> {
    pub closed spec fn spec_collider_version(&self) -> Option<u64> {
        self.collider_version
    }

    pub closed spec fn spec_colliders(&self) -> Seq<C> {
        self.colliders@
    }

    pub closed spec fn spec_reports(&self) -> Seq<ClearanceReport<P>> {
        self.reports@
    }

    pub closed spec fn spec_selected_report(&self) -> Option<usize> {
        self.selected_report
    }

    pub closed spec fn spec_skipped_parts(&self) -> nat {
        self.skipped_parts as nat
    }

    pub closed spec fn spec_message(&self) -> Seq<char> {
        self.message@
    }

    pub closed spec fn spec_tone(&self) -> ClearanceTone {
        self.tone
    }

    /// A report is selected exactly when there are reports, and it exists.
    pub open spec fn wf(&self) -> bool {
        &&& (self.spec_selected_report() is Some <==> self.spec_reports().len() > 0)
        &&& (self.spec_selected_report() is Some ==> self.spec_selected_report()->0 < self.spec_reports().len())
    }

    /// The report currently under review.
    pub open spec fn spec_active(&self) -> Option<ClearanceReport<P>> {
        match self.spec_selected_report() {
            Some(i) => if i < self.spec_reports().len() {
                Some(self.spec_reports()[i as int])
            } else {
                None
            },
            None => None,
        }
    }

    pub fn new() -> (state: Self)
        ensures
            state.wf(),
            state.spec_collider_version() is None,
            state.spec_colliders().len() == 0,
            state.spec_reports().len() == 0,
            state.spec_skipped_parts() == 0,
            state.spec_message() == "Select a part, then check clearance"@,
            state.spec_tone() == ClearanceTone::Muted,
    {
        AssemblyClearanceState {
            collider_version: None,
            colliders: Vec::new(),
            reports: Vec::new(),
            selected_report: None,
            skipped_parts: 0,
            message: String::from_str("Select a part, then check clearance"),
            tone: ClearanceTone::Muted,
        }
    }

    pub fn message(&self) -> (message: &str)
        ensures
            message@ == self.spec_message(),
    {
        self.message.as_str()
    }

    pub fn tone(&self) -> (tone: ClearanceTone)
        ensures
            tone == self.spec_tone(),
    {
        self.tone
    }

    pub fn report_count(&self) -> (n: usize)
        ensures
            n == self.spec_reports().len(),
    {
        self.reports.len()
    }

    pub fn selected_report(&self) -> (index: Option<usize>)
        ensures
            index == self.spec_selected_report(),
    {
        self.selected_report
    }

    pub fn skipped_parts(&self) -> (n: usize)
        ensures
            n == self.spec_skipped_parts(),
    {
        self.skipped_parts
    }

    /// The cached boundary colliders, one per part.
    pub fn colliders(&self) -> (colliders: &Vec<C>)
        ensures
            colliders@ == self.spec_colliders(),
    {
        &self.colliders
    }

    pub fn active_report(&self) -> (report: Option<&ClearanceReport<P>>)
        ensures
            match report {
                Some(r) => self.spec_active() == Some(*r),
                None => self.spec_active() is None,
            },
    {
        match self.selected_report {
            Some(i) => if i < self.reports.len() {
                Some(&self.reports[i])
            } else {
                None
            },
            None => None,
        }
    }

    fn set_message(&mut self, message: String, tone: ClearanceTone)
        ensures
            final(self).spec_message() == message@,
            final(self).spec_tone() == tone,
            final(self).spec_reports() == old(self).spec_reports(),
            final(self).spec_selected_report() == old(self).spec_selected_report(),
            final(self).spec_skipped_parts() == old(self).spec_skipped_parts(),
            final(self).spec_colliders() == old(self).spec_colliders(),
            final(self).spec_collider_version() == old(self).spec_collider_version(),
    {
        self.message = message;
        self.tone = tone;
    }

    /// Forgets all reports.
    pub fn clear_reports(&mut self)
        ensures
            final(self).wf(),
            final(self).spec_reports().len() == 0,
            final(self).spec_skipped_parts() == 0,
            final(self).spec_message() == old(self).spec_message(),
            final(self).spec_tone() == old(self).spec_tone(),
            final(self).spec_colliders() == old(self).spec_colliders(),
            final(self).spec_collider_version() == old(self).spec_collider_version(),
    {
        self.reports.clear();
        self.selected_report = None;
        self.skipped_parts = 0;
    }

    /// Whether the collider cache was built for this model version and part count.
    pub fn colliders_current(&self, version: u64, part_count: usize) -> (current: bool)
        ensures
            current == (self.spec_collider_version() == Some(version) && self.spec_colliders().len()
                == part_count),
    {
        match self.collider_version {
            Some(v) => v == version && self.colliders.len() == part_count,
            None => false,
        }
    }

    /// Replaces the collider cache with colliders built for `version`.
    pub fn install_colliders(&mut self, version: u64, colliders: Vec<C>)
        requires
            old(self).wf(),
        ensures
            final(self).wf(),
            final(self).spec_collider_version() == Some(version),
            final(self).spec_colliders() == colliders@,
            final(self).spec_reports() == old(self).spec_reports(),
            final(self).spec_selected_report() == old(self).spec_selected_report(),
            final(self).spec_skipped_parts() == old(self).spec_skipped_parts(),
            final(self).spec_message() == old(self).spec_message(),
            final(self).spec_tone() == old(self).spec_tone(),
    {
        self.colliders = colliders;
        self.collider_version = Some(version);
    }

    /// Called before review actions and after every model or selection edit:
    /// reports measured on another model version, part list or selection are
    /// discarded, so a new model is never indexed with old part indices.
    /// Returns whether anything was discarded.
    pub fn invalidate_if_stale(&mut self, part_count: usize, version: u64, selected_part: Option<usize>) -> (invalidated: bool)
        requires
            old(self).wf(),
        ensures
            final(self).wf(),
            ({
                let active = old(self).spec_active();
                let geometry_stale = active is Some && (active->0.checked_version != version
                    || old(self).spec_colliders().len() != part_count || exists|i: int|
                    0 <= i < old(self).spec_reports().len() && (#[trigger] old(self).spec_reports()[i].selected_part
                    >= part_count || old(self).spec_reports()[i].other_part >= part_count));
                let selection_stale = active is Some && !geometry_stale && Some(
                    active->0.selected_part,
                ) != selected_part;
                &&& invalidated == (geometry_stale || selection_stale)
                &&& geometry_stale ==> {
                    &&& final(self).spec_reports().len() == 0
                    &&& final(self).spec_colliders().len() == 0
                    &&& final(self).spec_collider_version() is None
                    &&& final(self).spec_message() == geometry_changed()
                    &&& final(self).spec_tone() == ClearanceTone::Warning
                }
                &&& selection_stale ==> {
                    &&& final(self).spec_reports().len() == 0
                    &&& final(self).spec_colliders() == old(self).spec_colliders()
                    &&& final(self).spec_collider_version() == old(self).spec_collider_version()
                    &&& final(self).spec_message() == part_changed()
                    &&& final(self).spec_tone() == ClearanceTone::Warning
                }
                &&& !invalidated ==> *final(self) == *old(self)
            }),
            // Whatever remains under review belongs to this version, part
            // list and selection.
            final(self).spec_active() is Some ==> {
                &&& final(self).spec_active()->0.checked_version == version
                &&& final(self).spec_colliders().len() == part_count
                &&& Some(final(self).spec_active()->0.selected_part) == selected_part
                &&& forall|i: int| 0 <= i < final(self).spec_reports().len() ==> {
                    &&& (#[trigger] final(self).spec_reports()[i]).selected_part < part_count
                    &&& final(self).spec_reports()[i].other_part < part_count
                }
            },
    {
        let (report_version, report_selected) = match self.active_report() {
            None => {
                return false;
            },
            Some(report) => (report.checked_version, report.selected_part),
        };
        let mut out_of_range = false;
        let mut i: usize = 0;
        while i < self.reports.len()
            invariant
                i <= self.reports.len(),
                out_of_range == exists|j: int| 0 <= j < i && (#[trigger] self.reports@[j].selected_part >= part_count
                    || self.reports@[j].other_part >= part_count),
            decreases self.reports.len() - i,
        {
            if self.reports[i].selected_part >= part_count || self.reports[i].other_part >= part_count {
                out_of_range = true;
            }
            i += 1;
        }
        if report_version != version || self.colliders.len() != part_count || out_of_range {
            self.clear_reports();
            self.colliders.clear();
            self.collider_version = None;
            self.set_message(String::from_str("Geometry changed - check clearance again"), ClearanceTone::Warning);
            true
        } else {
            let same_selection = match selected_part {
                Some(part) => part == report_selected,
                None => false,
            };
            if !same_selection {
                self.clear_reports();
                self.set_message(String::from_str("Selected part changed - check clearance again"), ClearanceTone::Warning);
                true
            } else {
                false
            }
        }
    }

    /// Rewrites the status line for the report under review. When its parts
    /// no longer exist, the reports are discarded instead.
    pub fn refresh_message(&mut self, part_names: &Vec<String>)
        requires
            old(self).wf(),
        ensures
            final(self).wf(),
            final(self).spec_colliders() == old(self).spec_colliders(),
            final(self).spec_collider_version() == old(self).spec_collider_version(),
            old(self).spec_active() is None ==> *final(self) == *old(self),
            old(self).spec_active() is Some ==> ({
                let report = old(self).spec_active()->0;
                if report.selected_part >= part_names.len() || report.other_part >= part_names.len() {
                    &&& final(self).spec_reports().len() == 0
                    &&& final(self).spec_message() == geometry_changed()
                    &&& final(self).spec_tone() == ClearanceTone::Warning
                } else {
                    let (message, tone) = report_message(
                        old(self).spec_reports(),
                        old(self).spec_selected_report()->0 as nat,
                        part_names@,
                        old(self).spec_skipped_parts(),
                    );
                    &&& final(self).spec_reports() == old(self).spec_reports()
                    &&& final(self).spec_selected_report() == old(self).spec_selected_report()
                    &&& final(self).spec_skipped_parts() == old(self).spec_skipped_parts()
                    &&& final(self).spec_message() == message
                    &&& final(self).spec_tone() == tone
                }
            }),
    {
        let index = match self.selected_report {
            Some(i) => if i < self.reports.len() {
                i
            } else {
                return ;
            },
            None => {
                return ;
            },
        };
        let selected_part = self.reports[index].selected_part;
        let other_part = self.reports[index].other_part;
        if selected_part >= part_names.len() || other_part >= part_names.len() {
            self.clear_reports();
            self.set_message(String::from_str("Geometry changed - check clearance again"), ClearanceTone::Warning);
            return ;
        }
        let ghost lines = pair_lines(
            (index + 1) as nat,
            self.reports@.len(),
            part_names@[selected_part as int]@,
            (other_part + 1) as nat,
            part_names@[other_part as int]@,
        );
        let mut tail = String::from_str("  [");
        push_decimal(&mut tail, index + 1);
        tail.append("/");
        push_decimal(&mut tail, self.reports.len());
        tail.append("]\n");
        tail.append(part_names[selected_part].as_str());
        tail.append(" -> [");
        push_decimal(&mut tail, other_part + 1);
        tail.append("] ");
        tail.append(part_names[other_part].as_str());
        proof {
            assert(tail@ =~= lines);
        }
        let kind = self.reports[index].kind;
        let (mut message, tone) = match kind {
            ClearanceKind::Separated => {
                let mut m = String::from_str("Clearance: ");
                m.append(self.reports[index].distance_text.as_str());
                m.append(" model units");
                m.append(tail.as_str());
                match &self.reports[index].gap_text {
                    Some(gap) => {
                        m.append("\nGap vector: ");
                        m.append(gap.as_str());
                    },
                    None => {},
                }
                (m, ClearanceTone::Success)
            },
            ClearanceKind::Touching => {
                let mut m = String::from_str("TOUCHING (within tolerance)");
                m.append(tail.as_str());
                (m, ClearanceTone::Warning)
            },
            ClearanceKind::Intersecting => {
                let mut m = String::from_str("INTERFERENCE DETECTED");
                m.append(tail.as_str());
                (m, ClearanceTone::Error)
            },
        };
        if self.skipped_parts > 0 {
            message.append("\n");
            push_decimal(&mut message, self.skipped_parts);
            message.append(" unsupported part(s) skipped");
        }
        proof {
            let (expected, expected_tone) = report_message(
                self.reports@,
                index as nat,
                part_names@,
                self.skipped_parts as nat,
            );
            assert(message@ =~= expected);
            assert(tone == expected_tone);
        }
        self.set_message(message, tone);
    }

    /// Starts a check: clears the previous reports and tells whether the
    /// selected part can be measured. Returns the part to measure, or `None`
    /// after setting the message that explains why not.
    pub fn begin_check(&mut self, part_count: usize, selected_part: Option<usize>) -> (target: Option<usize>)
        requires
            old(self).wf(),
        ensures
            final(self).wf(),
            final(self).spec_reports().len() == 0,
            final(self).spec_skipped_parts() == 0,
            final(self).spec_colliders() == old(self).spec_colliders(),
            final(self).spec_collider_version() == old(self).spec_collider_version(),
            target == (if spec_can_check(part_count as nat, selected_part) { selected_part } else { None }),
            selected_part is None ==> final(self).spec_message() == "Select a part before checking clearance"@
                && final(self).spec_tone() == ClearanceTone::Warning,
            selected_part is Some && part_count < 2 ==> final(self).spec_message()
                == "Add at least two parts to check clearance"@ && final(self).spec_tone() == ClearanceTone::Muted,
            selected_part is Some && part_count >= 2 && selected_part->0 >= part_count ==> final(self).spec_message()
                == "The selected part is no longer available"@ && final(self).spec_tone() == ClearanceTone::Error,
            target is Some ==> final(self).spec_message() == old(self).spec_message() && final(self).spec_tone()
                == old(self).spec_tone(),
    {
        self.clear_reports();
        let part = match selected_part {
            None => {
                self.set_message(String::from_str("Select a part before checking clearance"), ClearanceTone::Warning);
                return None;
            },
            Some(part) => part,
        };
        if part_count < 2 {
            self.set_message(String::from_str("Add at least two parts to check clearance"), ClearanceTone::Muted);
            return None;
        }
        if part >= part_count {
            self.set_message(String::from_str("The selected part is no longer available"), ClearanceTone::Error);
            return None;
        }
        Some(part)
    }

    /// Installs the outcome of a check: on success the first report (the most
    /// critical one) is selected and described; on failure the error is shown.
    pub fn finish_check(
        &mut self,
        outcome: Result<(Vec<ClearanceReport<P>>, usize), String>,
        part_names: &Vec<String>,
    )
        requires
            old(self).wf(),
        ensures
            final(self).wf(),
            final(self).spec_colliders() == old(self).spec_colliders(),
            final(self).spec_collider_version() == old(self).spec_collider_version(),
            outcome is Err ==> {
                &&& final(self).spec_message() == outcome->Err_0@
                &&& final(self).spec_tone() == ClearanceTone::Error
                &&& final(self).spec_reports() == old(self).spec_reports()
            },
            outcome is Ok && outcome->Ok_0.0.len() > 0 ==> ({
                let reports = outcome->Ok_0.0@;
                let first = reports[0];
                if first.selected_part >= part_names.len() || first.other_part >= part_names.len() {
                    &&& final(self).spec_reports().len() == 0
                    &&& final(self).spec_message() == geometry_changed()
                    &&& final(self).spec_tone() == ClearanceTone::Warning
                } else {
                    let (message, tone) = report_message(reports, 0, part_names@, outcome->Ok_0.1 as nat);
                    &&& final(self).spec_reports() == reports
                    &&& final(self).spec_selected_report() == Some(0usize)
                    &&& final(self).spec_skipped_parts() == outcome->Ok_0.1
                    &&& final(self).spec_message() == message
                    &&& final(self).spec_tone() == tone
                }
            }),
    {
        match outcome {
            Err(error) => {
                self.set_message(error, ClearanceTone::Error);
            },
            Ok((reports, skipped)) => {
                if reports.len() == 0 {
                    self.clear_reports();
                    self.set_message(empty_evaluation_error(skipped), ClearanceTone::Error);
                    return ;
                }
                self.reports = reports;
                self.selected_report = Some(0);
                self.skipped_parts = skipped;
                self.refresh_message(part_names);
            },
        }
    }

    /// Steps to the previous or next report (wrapping), after discarding
    /// stale reports. With fewer than two reports nothing moves.
    pub fn navigate(
        &mut self,
        action: ClearanceReviewAction,
        part_names: &Vec<String>,
        version: u64,
        selected_part: Option<usize>,
    )
        requires
            old(self).wf(),
        ensures
            final(self).wf(),
            old(self).spec_reports().len() >= 2 && old(self).spec_active()->0.checked_version == version
                && old(self).spec_colliders().len() == part_names.len() && Some(
                old(self).spec_active()->0.selected_part,
            ) == selected_part && (forall|i: int| 0 <= i < old(self).spec_reports().len() ==> {
                &&& (#[trigger] old(self).spec_reports()[i]).selected_part < part_names.len()
                &&& old(self).spec_reports()[i].other_part < part_names.len()
            }) ==> ({
                let index = review_step(
                    action,
                    old(self).spec_selected_report()->0 as nat,
                    old(self).spec_reports().len(),
                );
                let (message, tone) = report_message(
                    old(self).spec_reports(),
                    index,
                    part_names@,
                    old(self).spec_skipped_parts(),
                );
                &&& final(self).spec_reports() == old(self).spec_reports()
                &&& final(self).spec_selected_report() == Some(index as usize)
                &&& final(self).spec_message() == message
                &&& final(self).spec_tone() == tone
                &&& final(self).spec_skipped_parts() == old(self).spec_skipped_parts()
                &&& final(self).spec_colliders() == old(self).spec_colliders()
                &&& final(self).spec_collider_version() == old(self).spec_collider_version()
            }),
    {
        self.invalidate_if_stale(part_names.len(), version, selected_part);
        let len = self.reports.len();
        if len < 2 {
            return ;
        }
        let current = match self.selected_report {
            Some(i) => if i < len - 1 {
                i
            } else {
                len - 1
            },
            None => 0,
        };
        let next = match action {
            ClearanceReviewAction::Previous => if current == 0 {
                len - 1
            } else {
                current - 1
            },
            ClearanceReviewAction::Next => (current + 1) % len,
        };
        self.selected_report = Some(next);
        self.refresh_message(part_names);
    }

    /// Whether the check button is enabled.
    pub fn check_enabled(page: SidebarPage, paused: bool, part_count: usize, selected_part: Option<usize>) -> (enabled: bool)
        ensures
            enabled == (supports_part_position(page) && !paused && spec_can_check(part_count as nat, selected_part)),
    {
        let page_ok = match page {
            SidebarPage::Model | SidebarPage::Contact => true,
            _ => false,
        };
        page_ok && !paused && can_check(part_count, selected_part)
    }

    /// Whether the previous/next review buttons are enabled.
    pub fn review_enabled(&self, page: SidebarPage, paused: bool) -> (enabled: bool)
        ensures
            enabled == (supports_part_position(page) && !paused && self.spec_active() is Some
                && self.spec_reports().len() > 1),
    {
        let page_ok = match page {
            SidebarPage::Model | SidebarPage::Contact => true,
            _ => false,
        };
        page_ok && !paused && self.active_report().is_some() && self.reports.len() > 1
    }

    /// The status line and its tone: a pause reason first, then hints while
    /// no check is possible, then the stored message.
    pub fn status_text(&self, pause: Option<&str>, part_count: usize, selected_part: Option<usize>) -> (status: (
        String,
        ClearanceTone,
    ))
        ensures
            pause is Some ==> status.0@ == pause->0@ && status.1 == ClearanceTone::Warning,
            pause is None && part_count < 2 ==> status.0@ == "Use Add Mesh to compare at least two parts"@
                && status.1 == ClearanceTone::Muted,
            pause is None && part_count >= 2 && !spec_can_check(part_count as nat, selected_part) ==> status.0@
                == "Select a part, then check clearance"@ && status.1 == ClearanceTone::Muted,
            pause is None && spec_can_check(part_count as nat, selected_part) ==> status.0@ == self.spec_message()
                && status.1 == self.spec_tone(),
    {
        match pause {
            Some(reason) => (String::from_str(reason), ClearanceTone::Warning),
            None => {
                if part_count < 2 {
                    (String::from_str("Use Add Mesh to compare at least two parts"), ClearanceTone::Muted)
                } else if !can_check(part_count, selected_part) {
                    (String::from_str("Select a part, then check clearance"), ClearanceTone::Muted)
                } else {
                    (self.message.clone(), self.tone)
                }
            },
        }
    }

}

} // verus!
