//! Which terminal modes have been entered, and the order in which they are undone.

use vstd::prelude::*;

verus! {

/// One step of giving the terminal back.
#[derive(Clone, Copy, Debug, PartialEq, Eq, Structural)]
pub enum CleanupStep {
    ShowCursor,
    DisableBracketedPaste,
    LeaveAlternateScreen,
    DisableRawMode,
}

/// The terminal modes that are in force and must be undone.
#[derive(Clone, Copy, Debug, Default, PartialEq, Eq, Structural)]
pub struct LifecycleState {
    pub cursor_hidden: bool,
    pub bracketed_paste: bool,
    pub alternate_screen: bool,
    pub raw_mode: bool,
}

/// Whether `step` undoes a mode that is in force.
pub open spec fn is_pending(state: LifecycleState, step: CleanupStep) -> bool {
    match step {
        CleanupStep::DisableBracketedPaste => state.bracketed_paste,
        CleanupStep::LeaveAlternateScreen => state.alternate_screen,
        CleanupStep::ShowCursor => state.cursor_hidden,
        CleanupStep::DisableRawMode => state.raw_mode,
    }
}

/// The order of the cleanup steps: bracketed paste, alternate screen, cursor, raw mode.
pub open spec fn cleanup_order() -> Seq<CleanupStep> {
    seq![
        CleanupStep::DisableBracketedPaste,
        CleanupStep::LeaveAlternateScreen,
        CleanupStep::ShowCursor,
        CleanupStep::DisableRawMode,
    ]
}

/// The steps still to take, in cleanup order.
pub open spec fn pending_steps_of(state: LifecycleState) -> Seq<CleanupStep> {
    cleanup_order().filter(|step: CleanupStep| is_pending(state, step))
}

/// The state with the mode that `step` undoes marked as undone.
pub open spec fn cleared(state: LifecycleState, step: CleanupStep) -> LifecycleState {
    match step {
        CleanupStep::DisableBracketedPaste => LifecycleState { bracketed_paste: false, ..state },
        CleanupStep::LeaveAlternateScreen => LifecycleState { alternate_screen: false, ..state },
        CleanupStep::ShowCursor => LifecycleState { cursor_hidden: false, ..state },
        CleanupStep::DisableRawMode => LifecycleState { raw_mode: false, ..state },
    }
}

/// The state after the pending `steps` were attempted with these outcomes: each step
/// that succeeded is undone, each that failed stays pending.
pub open spec fn after_attempts(state: LifecycleState, steps: Seq<CleanupStep>, succeeded: Seq<bool>) -> LifecycleState
    decreases steps.len(),
{
    if steps.len() == 0 || succeeded.len() == 0 {
        state
    } else {
        let rest = after_attempts(state, steps.drop_last(), succeeded.drop_last());
        if succeeded.last() {
            cleared(rest, steps.last())
        } else {
            rest
        }
    }
}

/// The position of the first outcome that failed, if any.
pub open spec fn first_failure(succeeded: Seq<bool>) -> Option<int>
    decreases succeeded.len(),
{
    if succeeded.len() == 0 {
        None
    } else {
        match first_failure(succeeded.drop_last()) {
            Some(i) => Some(i),
            None => if succeeded.last() {
                None
            } else {
                Some(succeeded.len() - 1)
            },
        }
    }
}

impl LifecycleState {
    /// The steps still to take, in cleanup order.
    pub fn pending_steps(&self) -> (steps: Vec<CleanupStep>)
        ensures
            steps@ == pending_steps_of(*self),
    {
        let mut steps: Vec<CleanupStep> = Vec::new();
        if self.bracketed_paste {
            steps.push(CleanupStep::DisableBracketedPaste);
        }
        if self.alternate_screen {
            steps.push(CleanupStep::LeaveAlternateScreen);
        }
        if self.cursor_hidden {
            steps.push(CleanupStep::ShowCursor);
        }
        if self.raw_mode {
            steps.push(CleanupStep::DisableRawMode);
        }
        proof {
            lemma_pending_listed(*self);
            assert(steps@ =~= listed_pending(*self));
        }
        steps
    }

    /// Records the outcomes of attempting every pending step in order (`true` for a step
    /// that succeeded): the steps that succeeded are undone, the failed ones stay pending
    /// for another attempt. Returns the position of the first failure, whose error is the
    /// one to report.
    pub fn restore_with(&mut self, succeeded: &Vec<bool>) -> (failure: Option<usize>)
        requires
            succeeded@.len() == pending_steps_of(*old(self)).len(),
        ensures
            *final(self) == after_attempts(*old(self), pending_steps_of(*old(self)), succeeded@),
            match failure {
                Some(i) => first_failure(succeeded@) == Some(i as int),
                None => first_failure(succeeded@) is None,
            },
    {
        let steps = self.pending_steps();
        let ghost start = *self;
        let mut failure: Option<usize> = None;
        let mut i: usize = 0;
        proof {
            assert(steps@.take(0) =~= Seq::<CleanupStep>::empty());
            assert(succeeded@.take(0) =~= Seq::<bool>::empty());
        }
        while i < steps.len()
            invariant
                steps@ == pending_steps_of(start),
                succeeded@.len() == steps@.len(),
                i <= steps.len(),
                *self == after_attempts(start, steps@.take(i as int), succeeded@.take(i as int)),
                match failure {
                    Some(k) => first_failure(succeeded@.take(i as int)) == Some(k as int),
                    None => first_failure(succeeded@.take(i as int)) is None,
                },
            decreases steps.len() - i,
        {
            proof {
                assert(steps@.take(i + 1).drop_last() =~= steps@.take(i as int));
                assert(succeeded@.take(i + 1).drop_last() =~= succeeded@.take(i as int));
                assert(steps@.take(i + 1).last() == steps@[i as int]);
                assert(succeeded@.take(i + 1).last() == succeeded@[i as int]);
            }
            if succeeded[i] {
                match steps[i] {
                    CleanupStep::DisableBracketedPaste => self.bracketed_paste = false,
                    CleanupStep::LeaveAlternateScreen => self.alternate_screen = false,
                    CleanupStep::ShowCursor => self.cursor_hidden = false,
                    CleanupStep::DisableRawMode => self.raw_mode = false,
                }
            } else if failure.is_none() {
                failure = Some(i);
            }
            i = i + 1;
        }
        proof {
            assert(steps@.take(steps.len() as int) =~= steps@);
            assert(succeeded@.take(steps.len() as int) =~= succeeded@);
        }
        failure
    }
}

/// The pending steps, listed directly.
pub open spec fn listed_pending(state: LifecycleState) -> Seq<CleanupStep> {
    (if state.bracketed_paste {
        seq![CleanupStep::DisableBracketedPaste]
    } else {
        Seq::empty()
    }) + (if state.alternate_screen {
        seq![CleanupStep::LeaveAlternateScreen]
    } else {
        Seq::empty()
    }) + (if state.cursor_hidden {
        seq![CleanupStep::ShowCursor]
    } else {
        Seq::empty()
    }) + (if state.raw_mode {
        seq![CleanupStep::DisableRawMode]
    } else {
        Seq::empty()
    })
}

/// The pending cleanup steps, taken in cleanup order, are those `listed_pending` names.
pub proof fn lemma_pending_listed(state: LifecycleState)
    ensures
        pending_steps_of(state) == listed_pending(state),
{
    let order = cleanup_order();
    let pred = |step: CleanupStep| is_pending(state, step);
    reveal_with_fuel(Seq::<CleanupStep>::filter, 5);
    assert(order.drop_last().drop_last().drop_last().drop_last() =~= Seq::<CleanupStep>::empty());
    assert(order.drop_last().drop_last().drop_last() =~= seq![CleanupStep::DisableBracketedPaste]);
    assert(order.drop_last().drop_last() =~= seq![
        CleanupStep::DisableBracketedPaste,
        CleanupStep::LeaveAlternateScreen,
    ]);
    assert(order.drop_last() =~= seq![
        CleanupStep::DisableBracketedPaste,
        CleanupStep::LeaveAlternateScreen,
        CleanupStep::ShowCursor,
    ]);
    assert(listed_pending(state) =~= order.filter(pred));
}

/// When every step succeeds there is no first failure.
pub proof fn lemma_no_failure_when_all_succeed(succeeded: Seq<bool>)
    requires
        forall|i: int| 0 <= i < succeeded.len() ==> succeeded[i],
    ensures
        first_failure(succeeded) is None,
    decreases succeeded.len(),
{
    if succeeded.len() > 0 {
        lemma_no_failure_when_all_succeed(succeeded.drop_last());
    }
}

/// Steps that all succeed undo every mode they name and nothing else.
pub proof fn lemma_all_succeed_clears(state: LifecycleState, steps: Seq<CleanupStep>, succeeded: Seq<bool>)
    requires
        succeeded.len() == steps.len(),
        forall|i: int| 0 <= i < succeeded.len() ==> succeeded[i],
    ensures
        ({
            let after = after_attempts(state, steps, succeeded);
            &&& after.bracketed_paste == (state.bracketed_paste && !steps.contains(CleanupStep::DisableBracketedPaste))
            &&& after.alternate_screen == (state.alternate_screen && !steps.contains(CleanupStep::LeaveAlternateScreen))
            &&& after.cursor_hidden == (state.cursor_hidden && !steps.contains(CleanupStep::ShowCursor))
            &&& after.raw_mode == (state.raw_mode && !steps.contains(CleanupStep::DisableRawMode))
        }),
    decreases steps.len(),
{
    if steps.len() > 0 {
        lemma_all_succeed_clears(state, steps.drop_last(), succeeded.drop_last());
        assert forall|step: CleanupStep| steps.contains(step) <==> (steps.drop_last().contains(step) || step == steps.last()) by {
            if steps.contains(step) {
                let k = choose|k: int| 0 <= k < steps.len() && steps[k] == step;
                if k < steps.len() - 1 {
                    assert(steps.drop_last()[k] == step);
                }
            }
            if steps.drop_last().contains(step) {
                let k = choose|k: int| 0 <= k < steps.len() - 1 && steps.drop_last()[k] == step;
                assert(steps[k] == step);
            }
            if step == steps.last() {
                assert(steps[steps.len() - 1] == step);
            }
        }
    }
}

/// A restoration in which every pending step succeeds leaves no mode in force and
/// reports no error.
pub proof fn lemma_successful_restore_clears_everything(state: LifecycleState, succeeded: Seq<bool>)
    requires
        succeeded.len() == pending_steps_of(state).len(),
        forall|i: int| 0 <= i < succeeded.len() ==> succeeded[i],
    ensures
        after_attempts(state, pending_steps_of(state), succeeded) == (LifecycleState {
            cursor_hidden: false,
            bracketed_paste: false,
            alternate_screen: false,
            raw_mode: false,
        }),
        first_failure(succeeded) is None,
{
    lemma_pending_listed(state);
    lemma_no_failure_when_all_succeed(succeeded);
    let steps = pending_steps_of(state);
    lemma_all_succeed_clears(state, steps, succeeded);
    if state.bracketed_paste {
        assert(listed_pending(state)[0] == CleanupStep::DisableBracketedPaste);
    }
    assert(state.alternate_screen ==> steps.contains(CleanupStep::LeaveAlternateScreen)) by {
        if state.alternate_screen {
            let k = if state.bracketed_paste { 1int } else { 0int };
            assert(steps[k] == CleanupStep::LeaveAlternateScreen);
        }
    }
    assert(state.cursor_hidden ==> steps.contains(CleanupStep::ShowCursor)) by {
        if state.cursor_hidden {
            let k = (if state.bracketed_paste { 1int } else { 0int }) + (if state.alternate_screen { 1int } else { 0int });
            assert(steps[k] == CleanupStep::ShowCursor);
        }
    }
    assert(state.raw_mode ==> steps.contains(CleanupStep::DisableRawMode)) by {
        if state.raw_mode {
            let k = (if state.bracketed_paste { 1int } else { 0int }) + (if state.alternate_screen { 1int } else { 0int })
                + (if state.cursor_hidden { 1int } else { 0int });
            assert(steps[k] == CleanupStep::DisableRawMode);
        }
    }
    assert(state.bracketed_paste ==> steps.contains(CleanupStep::DisableBracketedPaste)) by {
        if state.bracketed_paste {
            assert(steps[0] == CleanupStep::DisableBracketedPaste);
        }
    }
}

} // verus!
