//! The readiness coordinator: a one-shot state machine over two completion
//! flags, one for the frontend and one for the backend.

use vstd::prelude::*;

verus! {

/// One of the two startup subsystems.
#[derive(Clone, Copy, Debug, PartialEq, Eq, Structural)]
pub enum Subsystem {
    Frontend,
    Backend,
}

/// The coordinator's state as the two flags show it.
#[derive(Clone, Copy, Debug, PartialEq, Eq, Structural)]
pub enum Phase {
    Idle,
    OnePending,
    Revealed,
}

/// Completion flags of the two setup tasks, and whether the reveal has fired.
#[derive(Clone, Copy, Debug, PartialEq, Eq, Structural)]
pub struct SetupState {
    pub frontend_task: bool,
    pub backend_task: bool,
    pub revealed: bool,
}

/// The flag of `subsystem` in `state`.
pub open spec fn flag_of(state: SetupState, subsystem: Subsystem) -> bool {
    match subsystem {
        Subsystem::Frontend => state.frontend_task,
        Subsystem::Backend => state.backend_task,
    }
}

/// The state after `subsystem` has reported completion.
pub open spec fn marked(state: SetupState, subsystem: Subsystem) -> SetupState {
    let frontend = state.frontend_task || subsystem == Subsystem::Frontend;
    let backend = state.backend_task || subsystem == Subsystem::Backend;
    SetupState {
        frontend_task: frontend,
        backend_task: backend,
        revealed: state.revealed || (frontend && backend),
    }
}

/// Whether the report of `subsystem` in `state` fires the reveal.
pub open spec fn fires(state: SetupState, subsystem: Subsystem) -> bool {
    !state.revealed && marked(state, subsystem).revealed
}

/// The state after each report of `marks` in turn.
pub open spec fn marked_all(state: SetupState, marks: Seq<Subsystem>) -> SetupState
    decreases marks.len(),
{
    if marks.len() == 0 {
        state
    } else {
        marked(marked_all(state, marks.drop_last()), marks.last())
    }
}

/// How many of the reports of `marks`, made in turn from `state`, fire the reveal.
pub open spec fn reveal_count(state: SetupState, marks: Seq<Subsystem>) -> nat
    decreases marks.len(),
{
    if marks.len() == 0 {
        0
    } else {
        let before = marks.drop_last();
        let fired: nat = if fires(marked_all(state, before), marks.last()) {
            1
        } else {
            0
        };
        reveal_count(state, before) + fired
    }
}

/// The subsystem that `name` stands for, if any.
pub open spec fn subsystem_named(name: Seq<char>) -> Option<Subsystem> {
    if name == "frontend"@ {
        Some(Subsystem::Frontend)
    } else if name == "backend"@ {
        Some(Subsystem::Backend)
    } else {
        None
    }
}

impl SetupState {
    /// The reveal has fired exactly when both flags are set.
    pub open spec fn wf(self) -> bool {
        self.revealed == (self.frontend_task && self.backend_task)
    }

    /// The phase that the flags show.
    pub open spec fn spec_phase(self) -> Phase {
        if self.frontend_task && self.backend_task {
            Phase::Revealed
        } else if self.frontend_task || self.backend_task {
            Phase::OnePending
        } else {
            Phase::Idle
        }
    }

    /// The state at process start: nothing has completed.
    pub fn new() -> (state: SetupState)
        ensures
            !state.frontend_task,
            !state.backend_task,
            !state.revealed,
            state.wf(),
            state.spec_phase() == Phase::Idle,
    {
        SetupState { frontend_task: false, backend_task: false, revealed: false }
    }

    /// The phase that the flags show.
    pub fn phase(&self) -> (phase: Phase)
        ensures
            phase == self.spec_phase(),
    {
        if self.frontend_task && self.backend_task {
            Phase::Revealed
        } else if self.frontend_task || self.backend_task {
            Phase::OnePending
        } else {
            Phase::Idle
        }
    }

    /// Records that `subsystem` has completed. Returns `true` when this report
    /// is the one that completes the pair: the caller then hides the splash
    /// screen and shows the main window.
    pub fn mark(&mut self, subsystem: Subsystem) -> (reveal: bool)
        ensures
            *final(self) == marked(*old(self), subsystem),
            reveal == fires(*old(self), subsystem),
            old(self).wf() ==> final(self).wf(),
    {
        match subsystem {
            Subsystem::Frontend => {
                self.frontend_task = true;
            },
            Subsystem::Backend => {
                self.backend_task = true;
            },
        }
        if !self.revealed && self.frontend_task && self.backend_task {
            self.revealed = true;
            true
        } else {
            false
        }
    }
}

/// The subsystem that a task name stands for: `"frontend"` or `"backend"`.
pub fn subsystem_of_name(task: &str) -> (subsystem: Option<Subsystem>)
    ensures
        subsystem == subsystem_named(task@),
{
    let name = task.to_owned();
    if name == "frontend".to_owned() {
        Some(Subsystem::Frontend)
    } else if name == "backend".to_owned() {
        Some(Subsystem::Backend)
    } else {
        None
    }
}

/// Records the completion of the task named `task` and says whether the
/// reveal is due. A name other than `"frontend"` and `"backend"` is a
/// programming error and is left out.
pub fn set_complete(state: &mut SetupState, task: &str) -> (reveal: bool)
    requires
        subsystem_named(task@) is Some,
    ensures
        *final(state) == marked(*old(state), subsystem_named(task@).unwrap()),
        reveal == fires(*old(state), subsystem_named(task@).unwrap()),
        old(state).wf() ==> final(state).wf(),
{
    match subsystem_of_name(task) {
        Some(subsystem) => state.mark(subsystem),
        None => false,
    }
}

/// The two task names stand for the two subsystems.
pub proof fn lemma_task_names()
    ensures
        subsystem_named("frontend"@) == Some(Subsystem::Frontend),
        subsystem_named("backend"@) == Some(Subsystem::Backend),
{
    reveal_strlit("frontend");
    reveal_strlit("backend");
    assert("backend"@.len() != "frontend"@.len());
}

/// Reports keep the reveal flag in step with the two task flags, and never
/// take a reveal back.
pub proof fn lemma_marked_all_wf(state: SetupState, marks: Seq<Subsystem>)
    requires
        state.wf(),
    ensures
        marked_all(state, marks).wf(),
        state.revealed ==> marked_all(state, marks).revealed,
    decreases marks.len(),
{
    if marks.len() > 0 {
        lemma_marked_all_wf(state, marks.drop_last());
    }
}

/// After any run of reports a flag is set exactly when it was set before or
/// its subsystem is among the reports.
pub proof fn lemma_marked_all_flags(state: SetupState, marks: Seq<Subsystem>, subsystem: Subsystem)
    ensures
        flag_of(marked_all(state, marks), subsystem) == (flag_of(state, subsystem)
            || marks.contains(subsystem)),
    decreases marks.len(),
{
    if marks.len() > 0 {
        let before = marks.drop_last();
        lemma_marked_all_flags(state, before, subsystem);
        if marks.contains(subsystem) {
            let i = choose|i: int| 0 <= i < marks.len() && marks[i] == subsystem;
            if i < marks.len() - 1 {
                assert(before[i] == subsystem);
            }
        }
        if before.contains(subsystem) {
            let i = choose|i: int| 0 <= i < before.len() && before[i] == subsystem;
            assert(marks[i] == subsystem);
        }
        if marks.last() == subsystem {
            assert(marks[marks.len() - 1] == subsystem);
        }
    }
}

/// Whatever the order and number of reports, the reveal fires exactly once
/// if the state ends revealed without having started so, and never otherwise.
pub proof fn lemma_reveal_fires_once(state: SetupState, marks: Seq<Subsystem>)
    requires
        state.wf(),
    ensures
        reveal_count(state, marks) == (if !state.revealed && marked_all(state, marks).revealed {
            1nat
        } else {
            0nat
        }),
    decreases marks.len(),
{
    if marks.len() > 0 {
        let before = marks.drop_last();
        lemma_reveal_fires_once(state, before);
        lemma_marked_all_wf(state, before);
    }
}

/// From the start state the reveal fires exactly once when both subsystems
/// are among the reports, in either order and however often each is
/// repeated, and never before both have reported.
pub proof fn lemma_reveal_iff_both_reported(marks: Seq<Subsystem>)
    ensures
        reveal_count(
            SetupState { frontend_task: false, backend_task: false, revealed: false },
            marks,
        ) == (if marks.contains(Subsystem::Frontend) && marks.contains(Subsystem::Backend) {
            1nat
        } else {
            0nat
        }),
{
    let start = SetupState { frontend_task: false, backend_task: false, revealed: false };
    lemma_reveal_fires_once(start, marks);
    lemma_marked_all_wf(start, marks);
    lemma_marked_all_flags(start, marks, Subsystem::Frontend);
    lemma_marked_all_flags(start, marks, Subsystem::Backend);
}

/// Once the reveal has fired, a further report changes nothing and fires
/// nothing.
pub proof fn lemma_mark_after_reveal(state: SetupState, subsystem: Subsystem)
    requires
        state.wf(),
        state.revealed,
    ensures
        marked(state, subsystem) == state,
        !fires(state, subsystem),
{
}

/// A repeated report of the same subsystem changes nothing and fires nothing.
pub proof fn lemma_mark_idempotent(state: SetupState, subsystem: Subsystem)
    requires
        state.wf(),
    ensures
        marked(marked(state, subsystem), subsystem) == marked(state, subsystem),
        !fires(marked(state, subsystem), subsystem),
{
}

/// Two reports of different subsystems from the start state: the first
/// leaves one task pending and fires nothing, the second fires the reveal.
pub proof fn lemma_two_reports(first: Subsystem, second: Subsystem)
    requires
        first != second,
    ensures
        ({
            let start = SetupState { frontend_task: false, backend_task: false, revealed: false };
            let mid = marked(start, first);
            &&& !fires(start, first)
            &&& mid.spec_phase() == Phase::OnePending
            &&& flag_of(mid, first)
            &&& !flag_of(mid, second)
            &&& !mid.revealed
            &&& fires(mid, second)
            &&& marked(mid, second).spec_phase() == Phase::Revealed
        }),
{
}

} // verus!
