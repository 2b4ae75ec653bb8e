//! Gradient descent with a backtracking (Armijo) line search.

use vstd::prelude::*;

use super::{Failure, MinimizerMessage};

verus! {

/// From this exponent on, a step size `2^(−e)` is at most machine epsilon
/// (`2^(−52)`), and the line search has collapsed.
pub const COLLAPSED_EXPONENT: i64 = 52;

/// The exponent of the largest finite power of two, `2^1023`: the line search
/// grows the step no further.
pub const MIN_STEP_EXPONENT: i64 = -1023;

/// What the caller of a backtracking descent does next.
#[derive(Debug, Clone, Copy, PartialEq, Eq, Structural)]
pub enum DescentAction {
    /// If `step` holds an exponent `e`, move the working point to
    /// `x − 2^(−e)·∇E(x)`. Then answer whether the norm of the gradient at
    /// the working point is below the convergence threshold.
    CheckGradient { step: Option<i64> },
    /// Answer whether the step of size `2^(−exponent)` along the negative
    /// gradient meets the sufficient-decrease (Armijo) condition.
    CheckStep { exponent: i64 },
    /// If `step` holds an exponent, move as for `CheckGradient`; then stop with
    /// `message`.
    Finish { step: Option<i64>, message: MinimizerMessage },
}

/// Where a backtracking descent stands.
#[derive(Debug, Clone, Copy, PartialEq, Eq, Structural)]
pub enum BacktrackPhase {
    /// Waiting for the gradient test (after the move `step`, if any).
    Gradient { step: Option<i64> },
    /// Growing the step: the sizes from the last accepted one up to
    /// `2^(−exponent)`, not included, all passed the Armijo test.
    Grow { exponent: i64 },
    /// Shrinking the step: every size above `2^(−exponent)` failed.
    Shrink { exponent: i64 },
    /// Stopped, after the move `step`, if any.
    Done { step: Option<i64>, message: MinimizerMessage },
}

/// The state of a backtracking descent: its step budget, the steps taken, the
/// exponent of the last accepted step size, and the phase.
#[derive(Debug, Clone, Copy, PartialEq, Eq, Structural)]
pub struct BacktrackState {
    pub max_steps: usize,
    pub taken: usize,
    pub seed: i64,
    pub phase: BacktrackPhase,
}

impl BacktrackState {
    /// A fresh descent: the first trial step has size 1.
    pub open spec fn initial(max_steps: usize) -> BacktrackState {
        BacktrackState {
            max_steps,
            taken: 0,
            seed: 0,
            phase: if max_steps == 0 {
                BacktrackPhase::Done { step: None, message: MinimizerMessage::TimedOut }
            } else {
                BacktrackPhase::Gradient { step: None }
            },
        }
    }

    pub open spec fn is_done(self) -> bool {
        self.phase is Done
    }

    pub open spec fn wf(self) -> bool {
        &&& self.taken <= self.max_steps
        &&& MIN_STEP_EXPONENT <= self.seed < COLLAPSED_EXPONENT
        &&& match self.phase {
            BacktrackPhase::Gradient { step } => {
                &&& self.taken < self.max_steps
                &&& step == if self.taken == 0 { None } else { Some(self.seed) }
            },
            BacktrackPhase::Grow { exponent } => {
                &&& self.taken < self.max_steps
                &&& MIN_STEP_EXPONENT <= exponent <= self.seed
            },
            BacktrackPhase::Shrink { exponent } => {
                &&& self.taken < self.max_steps
                &&& self.seed < exponent < COLLAPSED_EXPONENT
            },
            BacktrackPhase::Done { step, .. } => step matches Some(e) ==> e == self.seed
                && self.taken > 0,
        }
    }

    /// What the caller is asked to do.
    pub open spec fn action(self) -> DescentAction {
        match self.phase {
            BacktrackPhase::Gradient { step } => DescentAction::CheckGradient { step },
            BacktrackPhase::Grow { exponent } => DescentAction::CheckStep { exponent },
            BacktrackPhase::Shrink { exponent } => DescentAction::CheckStep { exponent },
            BacktrackPhase::Done { step, message } => DescentAction::Finish { step, message },
        }
    }

    /// Accepts the step of exponent `exponent`: it becomes the next search's
    /// first trial, and the descent times out once the budget is spent.
    pub open spec fn take(self, exponent: i64) -> BacktrackState {
        BacktrackState {
            taken: (self.taken + 1) as usize,
            seed: exponent,
            phase: if self.taken + 1 == self.max_steps {
                BacktrackPhase::Done { step: Some(exponent), message: MinimizerMessage::TimedOut }
            } else {
                BacktrackPhase::Gradient { step: Some(exponent) }
            },
            ..self
        }
    }

    /// Shrinks on to exponent `exponent`, or collapses there.
    pub open spec fn shrink_to(self, exponent: int) -> BacktrackState {
        BacktrackState {
            phase: if exponent >= COLLAPSED_EXPONENT {
                BacktrackPhase::Done {
                    step: None,
                    message: MinimizerMessage::Error(Failure::StepCollapsed),
                }
            } else {
                BacktrackPhase::Shrink { exponent: exponent as i64 }
            },
            ..self
        }
    }

    /// The state after the answer `yes` to the current question.
    pub open spec fn after(self, yes: bool) -> BacktrackState {
        match self.phase {
            BacktrackPhase::Gradient { .. } => if yes {
                BacktrackState {
                    phase: BacktrackPhase::Done { step: None, message: MinimizerMessage::Success },
                    ..self
                }
            } else {
                BacktrackState { phase: BacktrackPhase::Grow { exponent: self.seed }, ..self }
            },
            BacktrackPhase::Grow { exponent } => if yes {
                if exponent > MIN_STEP_EXPONENT {
                    BacktrackState {
                        phase: BacktrackPhase::Grow { exponent: (exponent - 1) as i64 },
                        ..self
                    }
                } else {
                    self.take(exponent)
                }
            } else if exponent < self.seed {
                self.take((exponent + 1) as i64)
            } else {
                self.shrink_to(exponent + 1)
            },
            BacktrackPhase::Shrink { exponent } => if yes {
                self.take(exponent)
            } else {
                self.shrink_to(exponent + 1)
            },
            BacktrackPhase::Done { .. } => self,
        }
    }

    /// A bound on the answers still to come before the descent stops.
    pub open spec fn remaining(self) -> nat {
        let rounds = self.max_steps - self.taken;
        let per_round: int = 1100;
        match self.phase {
            BacktrackPhase::Gradient { .. } => (rounds * per_round) as nat,
            BacktrackPhase::Grow { exponent } => ((rounds - 1) * per_round + (exponent
                - MIN_STEP_EXPONENT) + (COLLAPSED_EXPONENT - self.seed) + 1) as nat,
            BacktrackPhase::Shrink { exponent } => ((rounds - 1) * per_round + (
            COLLAPSED_EXPONENT - exponent) + 1) as nat,
            BacktrackPhase::Done { .. } => 0,
        }
    }

    fn next(self, yes: bool) -> (r: BacktrackState)
        requires
            self.wf(),
        ensures
            r == self.after(yes),
    {
        match self.phase {
            BacktrackPhase::Gradient { .. } => if yes {
                BacktrackState {
                    phase: BacktrackPhase::Done { step: None, message: MinimizerMessage::Success },
                    ..self
                }
            } else {
                BacktrackState { phase: BacktrackPhase::Grow { exponent: self.seed }, ..self }
            },
            BacktrackPhase::Grow { exponent } => if yes {
                if exponent > MIN_STEP_EXPONENT {
                    BacktrackState { phase: BacktrackPhase::Grow { exponent: exponent - 1 }, ..self }
                } else {
                    self.take_exec(exponent)
                }
            } else if exponent < self.seed {
                self.take_exec(exponent + 1)
            } else {
                self.shrink_exec(exponent)
            },
            BacktrackPhase::Shrink { exponent } => if yes {
                self.take_exec(exponent)
            } else {
                self.shrink_exec(exponent)
            },
            BacktrackPhase::Done { .. } => self,
        }
    }

    fn take_exec(self, exponent: i64) -> (r: BacktrackState)
        requires
            self.taken < self.max_steps,
        ensures
            r == self.take(exponent),
    {
        let taken = self.taken + 1;
        let phase = if taken == self.max_steps {
            BacktrackPhase::Done { step: Some(exponent), message: MinimizerMessage::TimedOut }
        } else {
            BacktrackPhase::Gradient { step: Some(exponent) }
        };
        BacktrackState { taken, seed: exponent, phase, ..self }
    }

    /// Shrinks on from `exponent`, which just failed, to the next exponent.
    fn shrink_exec(self, exponent: i64) -> (r: BacktrackState)
        requires
            exponent < COLLAPSED_EXPONENT,
        ensures
            r == self.shrink_to(exponent + 1),
    {
        if exponent + 1 >= COLLAPSED_EXPONENT {
            BacktrackState {
                phase: BacktrackPhase::Done {
                    step: None,
                    message: MinimizerMessage::Error(Failure::StepCollapsed),
                },
                ..self
            }
        } else {
            BacktrackState { phase: BacktrackPhase::Shrink { exponent: exponent + 1 }, ..self }
        }
    }

    fn action_exec(&self) -> (r: DescentAction)
        ensures
            r == self.action(),
    {
        match self.phase {
            BacktrackPhase::Gradient { step } => DescentAction::CheckGradient { step },
            BacktrackPhase::Grow { exponent } => DescentAction::CheckStep { exponent },
            BacktrackPhase::Shrink { exponent } => DescentAction::CheckStep { exponent },
            BacktrackPhase::Done { step, message } => DescentAction::Finish { step, message },
        }
    }
}

/// An answer keeps a backtracking descent well formed.
pub proof fn lemma_backtrack_after_wf(s: BacktrackState, yes: bool)
    requires
        s.wf(),
    ensures
        s.after(yes).wf(),
{
}

/// Every answer brings a running backtracking descent closer to its end: it
/// stops after at most `remaining()` answers.
pub proof fn lemma_backtrack_terminates(s: BacktrackState, yes: bool)
    requires
        s.wf(),
        !s.is_done(),
    ensures
        s.after(yes).remaining() < s.remaining(),
{
}

/// Gradient descent with a backtracking line search that first tries to grow
/// the step accepted last time, then shrinks it until the Armijo condition
/// holds.
pub struct BacktrackDescent {
    state: BacktrackState,
}

impl View for BacktrackDescent {
    type V = BacktrackState;

    closed spec fn view(&self) -> BacktrackState {
        self.state
    }
}

impl BacktrackDescent {
    #[verifier::type_invariant]
    spec fn inv(self) -> bool {
        self.state.wf()
    }

    /// A descent that may take up to `max_steps` steps.
    pub fn new(max_steps: usize) -> (r: BacktrackDescent)
        ensures
            r@ == BacktrackState::initial(max_steps),
            r@.wf(),
    {
        let phase = if max_steps == 0 {
            BacktrackPhase::Done { step: None, message: MinimizerMessage::TimedOut }
        } else {
            BacktrackPhase::Gradient { step: None }
        };
        BacktrackDescent { state: BacktrackState { max_steps, taken: 0, seed: 0, phase } }
    }

    /// What the caller is asked to do now.
    pub fn pending(&self) -> (r: DescentAction)
        ensures
            r == self@.action(),
    {
        self.state.action_exec()
    }

    /// Takes the answer to the pending question and returns the next action.
    /// Once the descent has stopped, answers change nothing.
    pub fn answer(&mut self, yes: bool) -> (r: DescentAction)
        ensures
            final(self)@ == old(self)@.after(yes),
            final(self)@.wf(),
            r == final(self)@.action(),
    {
        proof {
            use_type_invariant(&*self);
            lemma_backtrack_after_wf(self.state, yes);
        }
        let next = self.state.next(yes);
        self.state = next;
        self.state.action_exec()
    }
}

/// With a fixed acceptance test `accepts`, the exponents above the one being
/// grown to, up to the search's first trial, all passed it.
pub open spec fn growth_passed(s: BacktrackState, accepts: spec_fn(int) -> bool) -> bool {
    s.phase matches BacktrackPhase::Grow { exponent } ==> forall|k: int|
        exponent < k <= s.seed ==> #[trigger] accepts(k)
}

/// Every step that the line search takes passes the sufficient-decrease test:
/// answering its questions with a fixed test `accepts`, the step size is grown
/// only while it passes, and the step taken is one that passed.
pub proof fn lemma_taken_step_passes(s: BacktrackState, accepts: spec_fn(int) -> bool)
    requires
        s.wf(),
        growth_passed(s, accepts),
        s.action() is CheckStep,
    ensures
        growth_passed(s.after(accepts(s.action()->exponent as int)), accepts),
        s.after(accepts(s.action()->exponent as int)).taken > s.taken ==> accepts(
            s.after(accepts(s.action()->exponent as int)).seed as int,
        ),
{
}

/// The step that an action of a backtracking descent asks to apply, if any.
pub open spec fn descent_move(a: DescentAction) -> Option<i64> {
    match a {
        DescentAction::CheckGradient { step } => step,
        DescentAction::CheckStep { .. } => None,
        DescentAction::Finish { step, .. } => step,
    }
}

/// Each move that a backtracking descent asks for spends one step of its
/// budget, and every move has a size between `2^1023` and machine epsilon,
/// exclusive: over a whole run the caller moves at most `max_steps` times.
pub proof fn lemma_backtrack_moves_are_budgeted(s: BacktrackState, yes: bool)
    requires
        s.wf(),
        !s.is_done(),
    ensures
        s.after(yes).taken <= s.after(yes).max_steps == s.max_steps,
        match descent_move(s.after(yes).action()) {
            Some(e) => {
                &&& s.after(yes).taken == s.taken + 1
                &&& MIN_STEP_EXPONENT <= e < COLLAPSED_EXPONENT
            },
            None => s.after(yes).taken == s.taken,
        },
{
}

/// Growing from exponent `e`, whose size passed the test `accepts`: the
/// exponent where growth stops, either at the first size that fails (keeping
/// the one before it) or at the largest finite size.
pub open spec fn grown_to(accepts: spec_fn(int) -> bool, e: int) -> int
    decreases e - MIN_STEP_EXPONENT,
{
    if e <= MIN_STEP_EXPONENT {
        MIN_STEP_EXPONENT as int
    } else if accepts(e - 1) {
        grown_to(accepts, e - 1)
    } else {
        e
    }
}

/// Shrinking from exponent `e`: the first exponent from `e` on whose size
/// passes the test `accepts`, or none before the sizes collapse.
pub open spec fn shrunk_to(accepts: spec_fn(int) -> bool, e: int) -> Option<int>
    decreases COLLAPSED_EXPONENT - e,
{
    if e >= COLLAPSED_EXPONENT {
        None
    } else if accepts(e) {
        Some(e)
    } else {
        shrunk_to(accepts, e + 1)
    }
}

/// The exponent that one line search settles on, starting from the size
/// accepted last time (`seed`): grown for as long as the sizes pass, or, if
/// the first one fails, shrunk to the first that passes; none when every size
/// above machine epsilon fails.
pub open spec fn search_result(accepts: spec_fn(int) -> bool, seed: int) -> Option<int> {
    if accepts(seed) {
        Some(grown_to(accepts, seed))
    } else {
        shrunk_to(accepts, seed + 1)
    }
}

/// The state once the line search under way in `s` has ended, each question
/// answered by the test `accepts`.
pub open spec fn run_search(s: BacktrackState, accepts: spec_fn(int) -> bool) -> BacktrackState
    decreases s.remaining(),
{
    if s.wf() && (s.phase is Grow || s.phase is Shrink) {
        run_search(s.after(accepts(s.action()->exponent as int)), accepts)
    } else {
        s
    }
}

proof fn lemma_growth_run(s: BacktrackState, accepts: spec_fn(int) -> bool)
    requires
        s.wf(),
        s.phase matches BacktrackPhase::Grow { exponent } && exponent < s.seed && accepts(
            exponent + 1,
        ),
    ensures
        run_search(s, accepts) == s.take(grown_to(accepts, s.phase->Grow_exponent + 1) as i64),
    decreases s.remaining(),
{
    let e = s.phase->Grow_exponent as int;
    let t = s.after(accepts(e));
    assert(run_search(s, accepts) == run_search(t, accepts));
    if accepts(e) {
        if e > MIN_STEP_EXPONENT {
            lemma_growth_run(t, accepts);
            let c = grown_to(accepts, e) as i64;
            assert(t.take(c) == s.take(c));
        } else {
            assert(grown_to(accepts, e) == e);
        }
    }
}

proof fn lemma_shrink_run(s: BacktrackState, accepts: spec_fn(int) -> bool)
    requires
        s.wf(),
        s.phase is Shrink,
    ensures
        run_search(s, accepts) == match shrunk_to(accepts, s.phase->Shrink_exponent as int) {
            Some(c) => s.take(c as i64),
            None => s.shrink_to(COLLAPSED_EXPONENT as int),
        },
    decreases s.remaining(),
{
    let e = s.phase->Shrink_exponent as int;
    let t = s.after(accepts(e));
    assert(run_search(s, accepts) == run_search(t, accepts));
    if !accepts(e) {
        if e + 1 < COLLAPSED_EXPONENT {
            lemma_shrink_run(t, accepts);
            match shrunk_to(accepts, e + 1) {
                Some(c) => {
                    assert(t.take(c as i64) == s.take(c as i64));
                },
                None => {
                    assert(t.shrink_to(COLLAPSED_EXPONENT as int) == s.shrink_to(
                        COLLAPSED_EXPONENT as int,
                    ));
                },
            }
        }
    }
}

/// One line search, its questions answered by a fixed test `accepts`, takes
/// the step that `search_result` describes, or collapses when there is none.
pub proof fn lemma_search_takes_described_step(s: BacktrackState, accepts: spec_fn(int) -> bool)
    requires
        s.wf(),
        s.phase == (BacktrackPhase::Grow { exponent: s.seed }),
    ensures
        run_search(s, accepts) == match search_result(accepts, s.seed as int) {
            Some(c) => s.take(c as i64),
            None => s.shrink_to(COLLAPSED_EXPONENT as int),
        },
{
    let t = s.after(accepts(s.seed as int));
    assert(run_search(s, accepts) == run_search(t, accepts));
    if accepts(s.seed as int) {
        if s.seed > MIN_STEP_EXPONENT {
            lemma_growth_run(t, accepts);
            let c = grown_to(accepts, s.seed as int) as i64;
            assert(t.take(c) == s.take(c));
        } else {
            assert(grown_to(accepts, s.seed as int) == s.seed);
        }
    } else if s.seed + 1 < COLLAPSED_EXPONENT {
        lemma_shrink_run(t, accepts);
        match shrunk_to(accepts, s.seed + 1) {
            Some(c) => {
                assert(t.take(c as i64) == s.take(c as i64));
            },
            None => {
                assert(t.shrink_to(COLLAPSED_EXPONENT as int) == s.shrink_to(
                    COLLAPSED_EXPONENT as int,
                ));
            },
        }
    }
}

} // verus!
