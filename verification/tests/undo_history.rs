use fem_ui::undo::{MAX_UNDO_DEPTH, UndoStack, record_setup_change, undo_redo_step};

#[test]
fn undo_then_redo_restores_the_state() {
    let mut stack = UndoStack::new();
    let mut setup = 1;
    stack.push(setup);
    setup = 2;
    assert!(stack.undo(&mut setup));
    assert_eq!(setup, 1);
    assert_eq!(stack.redo_len(), 1);
    assert!(stack.redo(&mut setup));
    assert_eq!(setup, 2);
    assert_eq!(stack.undo_len(), 1);
    assert_eq!(stack.redo_len(), 0);
    assert!(!stack.redo(&mut setup));
    assert_eq!(setup, 2);
}

#[test]
fn depth_is_capped_and_push_clears_redo() {
    let mut stack = UndoStack::new();
    for state in 0..30 {
        stack.push(state);
    }
    assert_eq!(stack.undo_len(), MAX_UNDO_DEPTH);
    assert_eq!(stack.peek_undo(), Some(&29));
    let mut setup = 30;
    assert!(stack.undo(&mut setup));
    assert_eq!(stack.redo_len(), 1);
    stack.push(setup);
    assert_eq!(stack.redo_len(), 0);
    let mut current = 100;
    let mut restored = Vec::new();
    while stack.undo(&mut current) {
        restored.push(current);
    }
    assert_eq!(restored.len(), MAX_UNDO_DEPTH);
    assert_eq!(restored.last(), Some(&10));
}

#[test]
fn keyboard_shortcuts_undo_and_redo_unless_typing() {
    let mut stack = UndoStack::new();
    let mut setup = 'b';
    let mut in_progress = false;
    stack.push('a');
    undo_redo_step(&mut stack, &mut setup, &mut in_progress, true, true, false, true, false);
    assert_eq!(setup, 'b');
    assert!(!in_progress);
    undo_redo_step(&mut stack, &mut setup, &mut in_progress, false, true, false, true, false);
    assert_eq!(setup, 'a');
    assert!(in_progress);
    in_progress = false;
    undo_redo_step(&mut stack, &mut setup, &mut in_progress, false, true, true, true, false);
    assert_eq!(setup, 'b');
    assert!(in_progress);
    in_progress = false;
    undo_redo_step(&mut stack, &mut setup, &mut in_progress, false, false, false, true, true);
    assert_eq!(setup, 'b');
    assert!(!in_progress);
}

#[test]
fn recorder_pushes_previous_state_but_not_undo_itself() {
    let mut stack = UndoStack::new();
    let mut in_progress = false;
    let mut previous = None;
    record_setup_change(&mut stack, &mut in_progress, &mut previous, false, 1);
    assert_eq!(previous, Some(1));
    assert_eq!(stack.undo_len(), 0);
    record_setup_change(&mut stack, &mut in_progress, &mut previous, true, 2);
    assert_eq!(stack.peek_undo(), Some(&1));
    assert_eq!(previous, Some(2));
    let mut setup = 2;
    assert!(stack.undo(&mut setup));
    in_progress = true;
    record_setup_change(&mut stack, &mut in_progress, &mut previous, true, setup);
    assert!(!in_progress);
    assert_eq!(stack.undo_len(), 0);
    assert_eq!(stack.redo_len(), 1);
    assert_eq!(previous, Some(1));
}
