use vstd::prelude::*;

verus! {

/// Maximum number of undo states kept.
pub const MAX_UNDO_DEPTH: usize = 20;

/// Undo/redo history of a value (the analysis setup). Each user action pushes
/// the previous state before it is changed; undo swaps the current state with
/// the most recent one and keeps the displaced state for redo.
#[derive(Debug)]
pub struct UndoStack<T> {
    undo: Vec<T>,
    redo: Vec<T>,
}

/// The history after recording `state` on top of `undo`: the oldest entry is
/// dropped once the depth limit is exceeded.
pub open spec fn pushed_history<T>(undo: Seq<T>, state: T) -> Seq<T> {
    if undo.len() + 1 > MAX_UNDO_DEPTH {
        undo.push(state).drop_first()
    } else {
        undo.push(state)
    }
}

impl<T> UndoStack<T> {
    /// States that undo restores, oldest first.
    pub closed spec fn undo_states(&self) -> Seq<T> {
        self.undo@
    }

    /// States that redo restores, oldest first.
    pub closed spec fn redo_states(&self) -> Seq<T> {
        self.redo@
    }

    /// Both histories together never hold more than the depth limit.
    pub open spec fn wf(&self) -> bool {
        self.undo_states().len() + self.redo_states().len() <= MAX_UNDO_DEPTH
    }

    #[verifier::type_invariant]
    spec fn within_depth(&self) -> bool {
        self.undo@.len() + self.redo@.len() <= MAX_UNDO_DEPTH
    }

    pub fn new() -> (stack: Self)
        ensures
            stack.wf(),
            stack.undo_states() == Seq::<T>::empty(),
            stack.redo_states() == Seq::<T>::empty(),
    {
        UndoStack { undo: Vec::new(), redo: Vec::new() }
    }

    pub fn undo_len(&self) -> (n: usize)
        ensures
            n == self.undo_states().len(),
    {
        self.undo.len()
    }

    pub fn redo_len(&self) -> (n: usize)
        ensures
            n == self.redo_states().len(),
    {
        self.redo.len()
    }

    /// The state that the next undo restores.
    pub fn peek_undo(&self) -> (state: Option<&T>)
        ensures
            state == (if self.undo_states().len() == 0 {
                None
            } else {
                Some(&self.undo_states().last())
            }),
    {
        if self.undo.len() == 0 {
            None
        } else {
            Some(&self.undo[self.undo.len() - 1])
        }
    }

    /// Records `setup`, the state before a user change, and forgets the redo history.
    pub fn push(&mut self, setup: T)
        ensures
            final(self).wf(),
            final(self).undo_states() == pushed_history(old(self).undo_states(), setup),
            final(self).redo_states() == Seq::<T>::empty(),
    {
        proof {
            use_type_invariant(&*self);
        }
        let mut taken = UndoStack { undo: Vec::new(), redo: Vec::new() };
        std::mem::swap(self, &mut taken);
        let UndoStack { undo, redo: _ } = taken;
        let mut undo = undo;
        undo.push(setup);
        if undo.len() > MAX_UNDO_DEPTH {
            undo.remove(0);
        }
        *self = UndoStack { undo, redo: Vec::new() };
    }

    /// Restores the most recent recorded state into `setup`; the displaced
    /// state becomes the next redo. Returns whether anything was restored.
    pub fn undo(&mut self, setup: &mut T) -> (restored: bool)
        ensures
            final(self).wf(),
            restored == (old(self).undo_states().len() > 0),
            restored ==> {
                &&& *final(setup) == old(self).undo_states().last()
                &&& final(self).undo_states() == old(self).undo_states().drop_last()
                &&& final(self).redo_states() == old(self).redo_states().push(*old(setup))
            },
            !restored ==> {
                &&& *final(setup) == *old(setup)
                &&& final(self).undo_states() == old(self).undo_states()
                &&& final(self).redo_states() == old(self).redo_states()
            },
    {
        proof {
            use_type_invariant(&*self);
        }
        let mut taken = UndoStack { undo: Vec::new(), redo: Vec::new() };
        std::mem::swap(self, &mut taken);
        let UndoStack { undo, redo } = taken;
        let mut undo = undo;
        let mut redo = redo;
        let restored = match undo.pop() {
            Some(previous) => {
                let mut displaced = previous;
                std::mem::swap(setup, &mut displaced);
                redo.push(displaced);
                true
            },
            None => false,
        };
        *self = UndoStack { undo, redo };
        restored
    }

    /// Re-applies the most recently undone state; the displaced state goes
    /// back onto the undo history. Returns whether anything was re-applied.
    pub fn redo(&mut self, setup: &mut T) -> (restored: bool)
        ensures
            final(self).wf(),
            restored == (old(self).redo_states().len() > 0),
            restored ==> {
                &&& *final(setup) == old(self).redo_states().last()
                &&& final(self).redo_states() == old(self).redo_states().drop_last()
                &&& final(self).undo_states() == old(self).undo_states().push(*old(setup))
            },
            !restored ==> {
                &&& *final(setup) == *old(setup)
                &&& final(self).undo_states() == old(self).undo_states()
                &&& final(self).redo_states() == old(self).redo_states()
            },
    {
        proof {
            use_type_invariant(&*self);
        }
        let mut taken = UndoStack { undo: Vec::new(), redo: Vec::new() };
        std::mem::swap(self, &mut taken);
        let UndoStack { undo, redo } = taken;
        let mut undo = undo;
        let mut redo = redo;
        let restored = match redo.pop() {
            Some(next) => {
                let mut displaced = next;
                std::mem::swap(setup, &mut displaced);
                undo.push(displaced);
                true
            },
            None => false,
        };
        *self = UndoStack { undo, redo };
        restored
    }
}

/// Which history operations a frame's keyboard state asks for:
/// Ctrl+Z undoes; Ctrl+Y or Ctrl+Shift+Z redoes. Nothing happens while a
/// text field owns the keyboard.
pub open spec fn requested_operations(
    text_editing: bool,
    ctrl: bool,
    shift: bool,
    z_just_pressed: bool,
    y_just_pressed: bool,
) -> (bool, bool) {
    if text_editing {
        (false, false)
    } else {
        (ctrl && z_just_pressed && !shift, ctrl && (y_just_pressed || (shift && z_just_pressed)))
    }
}

/// Applies the undo/redo keys of one frame to `setup`. `in_progress` is set
/// when the setup was replaced, so the change recorder does not record the
/// undo itself as a new user action.
pub fn undo_redo_step<T>(
    stack: &mut UndoStack<T>,
    setup: &mut T,
    in_progress: &mut bool,
    text_editing: bool,
    ctrl: bool,
    shift: bool,
    z_just_pressed: bool,
    y_just_pressed: bool,
)
    requires
        old(stack).wf(),
    ensures
        final(stack).wf(),
        ({
            let (u, r) = requested_operations(
                text_editing,
                ctrl,
                shift,
                z_just_pressed,
                y_just_pressed,
            );
            let undone = u && old(stack).undo_states().len() > 0;
            let mid_setup = if undone { old(stack).undo_states().last() } else { *old(setup) };
            let mid_undo = if undone {
                old(stack).undo_states().drop_last()
            } else {
                old(stack).undo_states()
            };
            let mid_redo = if undone {
                old(stack).redo_states().push(*old(setup))
            } else {
                old(stack).redo_states()
            };
            let redone = r && mid_redo.len() > 0;
            &&& *final(setup) == (if redone { mid_redo.last() } else { mid_setup })
            &&& final(stack).undo_states() == (if redone { mid_undo.push(mid_setup) } else { mid_undo })
            &&& final(stack).redo_states() == (if redone { mid_redo.drop_last() } else { mid_redo })
            &&& *final(in_progress) == (*old(in_progress) || undone || redone)
        }),
{
    if text_editing {
        return ;
    }
    if ctrl && z_just_pressed && !shift {
        if stack.undo(setup) {
            *in_progress = true;
        }
    }
    if ctrl && (y_just_pressed || (shift && z_just_pressed)) {
        if stack.redo(setup) {
            *in_progress = true;
        }
    }
}

/// Records the state before each committed user change. `previous` is the
/// last observed state; when the setup changed, that snapshot is pushed unless
/// the change came from undo/redo itself (then the flag is cleared instead).
/// Either way `current` becomes the new snapshot; the first frame only
/// captures a snapshot.
pub fn record_setup_change<T>(
    stack: &mut UndoStack<T>,
    in_progress: &mut bool,
    previous: &mut Option<T>,
    changed: bool,
    current: T,
)
    requires
        old(stack).wf(),
    ensures
        final(stack).wf(),
        changed ==> {
            &&& *final(previous) == Some(current)
            &&& *final(in_progress) == false
            &&& final(stack).undo_states() == (if !*old(in_progress) && old(previous).is_some() {
                pushed_history(old(stack).undo_states(), old(previous).unwrap())
            } else {
                old(stack).undo_states()
            })
            &&& final(stack).redo_states() == (if !*old(in_progress) && old(previous).is_some() {
                Seq::<T>::empty()
            } else {
                old(stack).redo_states()
            })
        },
        !changed ==> {
            &&& *final(previous) == (if old(previous).is_none() { Some(current) } else { *old(previous) })
            &&& *final(in_progress) == *old(in_progress)
            &&& final(stack).undo_states() == old(stack).undo_states()
            &&& final(stack).redo_states() == old(stack).redo_states()
        },
{
    if changed {
        if *in_progress {
            *in_progress = false;
        } else {
            match previous.take() {
                Some(snapshot) => stack.push(snapshot),
                None => {},
            }
        }
        *previous = Some(current);
    } else if previous.is_none() {
        *previous = Some(current);
    }
}

/// Undo followed by redo gives back the state and the history that were there before.
pub proof fn lemma_undo_then_redo_restores<T>(
    stack0: UndoStack<T>,
    setup0: T,
    stack1: UndoStack<T>,
    setup1: T,
    stack2: UndoStack<T>,
    setup2: T,
)
    requires
        stack0.undo_states().len() > 0,
        setup1 == stack0.undo_states().last(),
        stack1.undo_states() == stack0.undo_states().drop_last(),
        stack1.redo_states() == stack0.redo_states().push(setup0),
        stack1.redo_states().len() > 0,
        setup2 == stack1.redo_states().last(),
        stack2.redo_states() == stack1.redo_states().drop_last(),
        stack2.undo_states() == stack1.undo_states().push(setup1),
    ensures
        setup2 == setup0,
        stack2.undo_states() == stack0.undo_states(),
        stack2.redo_states() == stack0.redo_states(),
{
    assert(stack2.undo_states() =~= stack0.undo_states());
    assert(stack2.redo_states() =~= stack0.redo_states());
}

} // verus!
