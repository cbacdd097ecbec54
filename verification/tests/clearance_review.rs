use fem_ui::clearance::{
    AssemblyClearanceState, ClearanceKind, ClearanceReport, ClearanceReviewAction, ClearanceTone,
    PairMeasurement, can_check, conclude_evaluation, empty_evaluation_error, evaluate_selected_part,
    review_pause_reason,
};
use fem_ui::sidebar::SidebarPage;

fn report(other: usize, kind: ClearanceKind, distance: f32, version: u64) -> ClearanceReport<()> {
    ClearanceReport {
        checked_version: version,
        selected_part: 0,
        other_part: other,
        kind,
        distance_bits: distance.to_bits(),
        distance_text: format!("{distance}"),
        gap_text: None,
        witness: (),
    }
}

fn names(n: usize) -> Vec<String> {
    (0..n).map(|i| format!("Part{i}")).collect()
}

/// A state after checking part 0 of three parts at model version 9: the
/// near part 1 (distance 1) and the far part 2 (distance 3).
fn checked_state() -> AssemblyClearanceState<u32, ()> {
    let mut state = AssemblyClearanceState::new();
    assert_eq!(state.begin_check(3, Some(0)), Some(0));
    state.install_colliders(9, vec![10, 11, 12]);
    let outcome = conclude_evaluation(
        vec![report(2, ClearanceKind::Separated, 3.0, 9), report(1, ClearanceKind::Separated, 1.0, 9)],
        0,
    );
    state.finish_check(outcome, &names(3));
    state
}

#[test]
fn clearance_reports_are_reviewed_by_risk_then_distance() {
    let reports = vec![
        report(1, ClearanceKind::Separated, 5.0, 4),
        report(2, ClearanceKind::Intersecting, 0.0, 4),
        report(3, ClearanceKind::Separated, 2.0, 4),
    ];
    let (sorted, skipped) = conclude_evaluation(reports, 0).unwrap();
    assert_eq!(skipped, 0);
    assert_eq!(sorted.len(), 3);
    assert_eq!(sorted[0].kind, ClearanceKind::Intersecting);
    assert_eq!(sorted[0].other_part, 2);
    assert_eq!(sorted[1].kind, ClearanceKind::Separated);
    assert_eq!(sorted[1].other_part, 3);
    assert_eq!(sorted[2].other_part, 1);
}

#[test]
fn clearance_review_wraps_in_both_directions() {
    let mut state = checked_state();
    assert_eq!(state.active_report().unwrap().other_part, 1);
    state.navigate(ClearanceReviewAction::Next, &names(3), 9, Some(0));
    assert_eq!(state.active_report().unwrap().other_part, 2);
    state.navigate(ClearanceReviewAction::Next, &names(3), 9, Some(0));
    assert_eq!(state.active_report().unwrap().other_part, 1);
    state.navigate(ClearanceReviewAction::Previous, &names(3), 9, Some(0));
    assert_eq!(state.active_report().unwrap().other_part, 2);
}

#[test]
fn navigating_after_mesh_replacement_discards_old_part_indices() {
    for part_count in [0, 1, 3] {
        let mut state = checked_state();
        state.navigate(ClearanceReviewAction::Next, &names(part_count), 10, Some(0));
        assert_eq!(state.report_count(), 0);
        assert!(state.active_report().is_none());
        assert!(state.colliders().is_empty());
        assert_eq!(state.message(), "Geometry changed - check clearance again");
    }
}

#[test]
fn part_count_change_is_safe_even_before_version_update() {
    let mut state = checked_state();
    state.navigate(ClearanceReviewAction::Previous, &names(1), 9, Some(0));
    assert!(state.active_report().is_none());
    assert_eq!(state.message(), "Geometry changed - check clearance again");
}

#[test]
fn changing_or_deselecting_part_keeps_only_collider_cache() {
    for selection in [Some(1), None] {
        let mut state = checked_state();
        assert!(state.invalidate_if_stale(3, 9, selection));
        assert!(state.active_report().is_none());
        assert_eq!(state.message(), "Selected part changed - check clearance again");
        assert!(state.colliders_current(9, 3));
        assert_eq!(state.colliders(), &vec![10, 11, 12]);
        assert_eq!(state.tone(), ClearanceTone::Warning);
    }
}

#[test]
fn pose_commit_invalidates_and_recheck_uses_new_geometry() {
    let mut state = checked_state();
    assert!(!state.invalidate_if_stale(3, 9, Some(0)));
    assert!(state.invalidate_if_stale(3, 10, Some(0)));
    assert!(state.active_report().is_none());
    assert!(!state.colliders_current(10, 3));
    assert_eq!(state.begin_check(3, Some(0)), Some(0));
    state.install_colliders(10, vec![20, 21, 22]);
    let outcome = conclude_evaluation(
        vec![report(1, ClearanceKind::Separated, 2.0, 10), report(2, ClearanceKind::Separated, 4.0, 10)],
        0,
    );
    state.finish_check(outcome, &names(3));
    let active = state.active_report().unwrap();
    assert_eq!(active.checked_version, 10);
    assert_eq!(f32::from_bits(active.distance_bits), 2.0);
    assert!(state.colliders_current(10, 3));
}

#[test]
fn exploded_review_blocks_queries_and_navigation_without_erasing_valid_results() {
    let state = checked_state();
    let paused = review_pause_reason(false, true).is_some();
    assert!(!AssemblyClearanceState::<u32, ()>::check_enabled(SidebarPage::Model, paused, 3, Some(0)));
    assert!(!state.review_enabled(SidebarPage::Model, paused));
    assert_eq!(state.report_count(), 2);
    assert_eq!(state.active_report().unwrap().other_part, 1);
    let (status, tone) = state.status_text(review_pause_reason(false, true), 3, Some(0));
    assert!(status.contains("Review separation"));
    assert_eq!(tone, ClearanceTone::Warning);
    assert!(state.review_enabled(SidebarPage::Model, false));
}

#[test]
fn selection_change_invalidates_before_next_pair_is_displayed() {
    let mut state = checked_state();
    state.navigate(ClearanceReviewAction::Next, &names(3), 9, Some(1));
    assert!(state.active_report().is_none());
    assert_eq!(state.message(), "Selected part changed - check clearance again");
    assert!(state.colliders_current(9, 3));
}

#[test]
fn review_pauses_only_while_display_differs_from_real_coordinates() {
    assert!(review_pause_reason(false, false).is_none());
    assert!(review_pause_reason(true, false).unwrap().contains("Moving part"));
    assert!(review_pause_reason(false, true).unwrap().contains("Review separation"));
    assert!(review_pause_reason(true, true).unwrap().contains("Moving part"));
}

#[test]
fn controls_enable_only_available_checks_and_review_pairs() {
    let state = checked_state();
    assert!(AssemblyClearanceState::<u32, ()>::check_enabled(SidebarPage::Model, false, 3, Some(0)));
    assert!(AssemblyClearanceState::<u32, ()>::check_enabled(SidebarPage::Contact, false, 3, Some(2)));
    assert!(!AssemblyClearanceState::<u32, ()>::check_enabled(SidebarPage::Loads, false, 3, Some(0)));
    assert!(!AssemblyClearanceState::<u32, ()>::check_enabled(SidebarPage::Model, true, 3, Some(0)));
    assert!(!AssemblyClearanceState::<u32, ()>::check_enabled(SidebarPage::Model, false, 1, Some(0)));
    assert!(state.review_enabled(SidebarPage::Model, false));
    assert!(!state.review_enabled(SidebarPage::Model, true));
}

#[test]
fn one_pair_needs_no_navigation_and_no_selection_cannot_check() {
    let mut state: AssemblyClearanceState<u32, ()> = AssemblyClearanceState::new();
    assert_eq!(state.begin_check(2, None), None);
    assert!(!can_check(2, None));
    assert!(!can_check(2, Some(2)));
    assert_eq!(state.begin_check(2, Some(1)), Some(1));
    state.install_colliders(4, vec![1, 2]);
    let outcome = conclude_evaluation(vec![report(0, ClearanceKind::Touching, 0.0, 4)], 0);
    state.finish_check(outcome, &names(2));
    assert_eq!(state.report_count(), 1);
    assert!(!state.review_enabled(SidebarPage::Model, false));
}

#[test]
fn a_check_without_comparable_parts_reports_an_error() {
    assert_eq!(empty_evaluation_error(0), "No other part is available for comparison");
    assert_eq!(empty_evaluation_error(2), "No comparable boundary surface; 2 part(s) were skipped");
    let mut state: AssemblyClearanceState<u32, ()> = AssemblyClearanceState::new();
    state.finish_check(conclude_evaluation(Vec::new(), 1), &names(2));
    assert_eq!(state.tone(), ClearanceTone::Error);
    assert_eq!(state.message(), "No comparable boundary surface; 1 part(s) were skipped");
}

fn measured(within: bool, intersects: bool, contained: bool, distance: f32) -> Option<Result<PairMeasurement<()>, String>> {
    Some(Ok(PairMeasurement {
        within_tolerance: within,
        intersects,
        contained,
        distance_bits: distance.to_bits(),
        distance_text: format!("{distance:.6}"),
        gap_text: Some("(1, 0, 0)".to_string()),
        witness: (),
    }))
}

#[test]
fn evaluation_classifies_skips_and_orders_the_other_parts() {
    let others = vec![
        measured(false, false, false, 2.0),
        None,
        None,
        measured(false, false, true, 5.0),
        measured(true, false, false, 0.0),
        measured(false, false, false, 1.0),
    ];
    let (reports, skipped) = evaluate_selected_part(Some(Ok(())), others, 2, 4).unwrap();
    assert_eq!(skipped, 1);
    let summary: Vec<(usize, ClearanceKind, u32)> =
        reports.iter().map(|r| (r.other_part, r.kind, r.distance_bits)).collect();
    assert_eq!(
        summary,
        vec![
            (3, ClearanceKind::Intersecting, 0),
            (4, ClearanceKind::Touching, 0),
            (5, ClearanceKind::Separated, 1.0f32.to_bits()),
            (0, ClearanceKind::Separated, 2.0f32.to_bits()),
        ]
    );
    assert!(reports.iter().all(|r| r.selected_part == 2 && r.checked_version == 4));
    assert_eq!(reports[0].gap_text, None);
    assert_eq!(reports[3].gap_text.as_deref(), Some("(1, 0, 0)"));
}

#[test]
fn evaluation_errors_name_their_cause() {
    let none: Vec<Option<Result<PairMeasurement<()>, String>>> = Vec::new();
    assert_eq!(
        evaluate_selected_part(None, none, 0, 1).unwrap_err(),
        "selected part collider is missing"
    );
    let none: Vec<Option<Result<PairMeasurement<()>, String>>> = vec![None];
    assert_eq!(
        evaluate_selected_part(Some(Err("no faces".to_string())), none, 0, 1).unwrap_err(),
        "selected part: no faces"
    );
    let alone = vec![measured(false, false, false, 1.0)];
    assert_eq!(
        evaluate_selected_part(Some(Ok(())), alone, 0, 1).unwrap_err(),
        "No other part is available for comparison"
    );
    let unsupported = vec![None, None, measured(false, false, false, 1.0)];
    assert_eq!(
        evaluate_selected_part(Some(Ok(())), unsupported, 2, 1).unwrap_err(),
        "No comparable boundary surface; 2 part(s) were skipped"
    );
    let failing = vec![None, Some(Err("query failed".to_string())), measured(false, false, false, 1.0)];
    assert_eq!(evaluate_selected_part(Some(Ok(())), failing, 2, 1).unwrap_err(), "query failed");
}
