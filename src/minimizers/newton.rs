//! Newton's method with a damped step.

use vstd::prelude::*;

use super::{Failure, MinimizerMessage};

verus! {

/// After this many halvings the Newton damping `2^(−h)` is below machine
/// epsilon.
pub const DAMPING_HALVINGS: u32 = 53;

/// What the caller of a damped Newton descent does next.
#[derive(Debug, Clone, Copy, PartialEq, Eq, Structural)]
pub enum NewtonAction {
    /// Answer whether the Hessian at the starting point is positive definite
    /// (has a Cholesky factor).
    CheckPositiveDefinite,
    /// If `step` holds `h`, move the working point to the Newton step damped
    /// by `2^(−h)` and take its error as the new baseline. Then answer whether
    /// the norm of the gradient at the working point is below the threshold.
    CheckGradient { step: Option<u32> },
    /// Answer whether the Hessian at the working point is invertible.
    InvertHessian,
    /// Answer whether the Newton step damped by `2^(−halvings)` lowers the
    /// error strictly below the baseline (at first, +∞).
    CheckDecrease { halvings: u32 },
    /// If `step` holds a damping, move as for `CheckGradient`; then stop with
    /// `message`.
    Finish { step: Option<u32>, message: MinimizerMessage },
}

/// Where a damped Newton descent stands.
#[derive(Debug, Clone, Copy, PartialEq, Eq, Structural)]
pub enum NewtonPhase {
    /// Waiting for the one test of positive definiteness, at the start.
    Definite,
    /// Waiting for the gradient test (after the move `step`, if any).
    Gradient { step: Option<u32> },
    /// Waiting for the inversion of the Hessian.
    Invert,
    /// Trying the Newton step damped by `2^(−halvings)`.
    Damped { halvings: u32 },
    /// Stopped, after the move `step`, if any.
    Done { step: Option<u32>, message: MinimizerMessage },
}

/// The state of a damped Newton descent: its step budget, the steps taken,
/// and the phase.
#[derive(Debug, Clone, Copy, PartialEq, Eq, Structural)]
pub struct NewtonState {
    pub max_steps: usize,
    pub taken: usize,
    pub phase: NewtonPhase,
}

impl NewtonState {
    pub open spec fn initial(max_steps: usize) -> NewtonState {
        NewtonState { max_steps, taken: 0, phase: NewtonPhase::Definite }
    }

    pub open spec fn is_done(self) -> bool {
        self.phase is Done
    }

    pub open spec fn wf(self) -> bool {
        &&& self.taken <= self.max_steps
        &&& match self.phase {
            NewtonPhase::Definite => self.taken == 0,
            NewtonPhase::Gradient { step } => {
                &&& self.taken < self.max_steps
                &&& (step is None <==> self.taken == 0)
                &&& step matches Some(h) ==> h < DAMPING_HALVINGS
            },
            NewtonPhase::Invert => self.taken < self.max_steps,
            NewtonPhase::Damped { halvings } => {
                &&& self.taken < self.max_steps
                &&& halvings < DAMPING_HALVINGS
            },
            NewtonPhase::Done { step, .. } => step matches Some(h) ==> h < DAMPING_HALVINGS
                && self.taken > 0,
        }
    }

    pub open spec fn action(self) -> NewtonAction {
        match self.phase {
            NewtonPhase::Definite => NewtonAction::CheckPositiveDefinite,
            NewtonPhase::Gradient { step } => NewtonAction::CheckGradient { step },
            NewtonPhase::Invert => NewtonAction::InvertHessian,
            NewtonPhase::Damped { halvings } => NewtonAction::CheckDecrease { halvings },
            NewtonPhase::Done { step, message } => NewtonAction::Finish { step, message },
        }
    }

    pub open spec fn stop(self, message: MinimizerMessage) -> NewtonState {
        NewtonState { phase: NewtonPhase::Done { step: None, message }, ..self }
    }

    /// Accepts the step damped by `2^(−halvings)`; the descent times out once
    /// the budget is spent.
    pub open spec fn take(self, halvings: u32) -> NewtonState {
        NewtonState {
            taken: (self.taken + 1) as usize,
            phase: if self.taken + 1 == self.max_steps {
                NewtonPhase::Done { step: Some(halvings), message: MinimizerMessage::TimedOut }
            } else {
                NewtonPhase::Gradient { step: Some(halvings) }
            },
            ..self
        }
    }

    /// The state after the answer `yes` to the current question. A damping
    /// that falls below machine epsilon ends the descent with success: no
    /// safe progress is left.
    pub open spec fn after(self, yes: bool) -> NewtonState {
        match self.phase {
            NewtonPhase::Definite => if !yes {
                self.stop(MinimizerMessage::Error(Failure::NotPositiveDefinite))
            } else if self.max_steps == 0 {
                self.stop(MinimizerMessage::TimedOut)
            } else {
                NewtonState { phase: NewtonPhase::Gradient { step: None }, ..self }
            },
            NewtonPhase::Gradient { .. } => if yes {
                self.stop(MinimizerMessage::Success)
            } else {
                NewtonState { phase: NewtonPhase::Invert, ..self }
            },
            NewtonPhase::Invert => if yes {
                NewtonState { phase: NewtonPhase::Damped { halvings: 0 }, ..self }
            } else {
                self.stop(MinimizerMessage::Error(Failure::Singular))
            },
            NewtonPhase::Damped { halvings } => if yes {
                self.take(halvings)
            } else if halvings + 1 >= DAMPING_HALVINGS {
                self.stop(MinimizerMessage::Success)
            } else {
                NewtonState { phase: NewtonPhase::Damped { halvings: (halvings + 1) as u32 }, ..self }
            },
            NewtonPhase::Done { .. } => self,
        }
    }

    /// A bound on the answers still to come before the descent stops.
    pub open spec fn remaining(self) -> nat {
        let rounds = self.max_steps - self.taken;
        let per_round: int = 60;
        match self.phase {
            NewtonPhase::Definite => (rounds * per_round + 1) as nat,
            NewtonPhase::Gradient { .. } => (rounds * per_round) as nat,
            NewtonPhase::Invert => ((rounds - 1) * per_round + 55) as nat,
            NewtonPhase::Damped { halvings } => ((rounds - 1) * per_round + DAMPING_HALVINGS
                - halvings) as nat,
            NewtonPhase::Done { .. } => 0,
        }
    }

    fn next(self, yes: bool) -> (r: NewtonState)
        requires
            self.wf(),
        ensures
            r == self.after(yes),
    {
        match self.phase {
            NewtonPhase::Definite => if !yes {
                self.stop_exec(MinimizerMessage::Error(Failure::NotPositiveDefinite))
            } else if self.max_steps == 0 {
                self.stop_exec(MinimizerMessage::TimedOut)
            } else {
                NewtonState { phase: NewtonPhase::Gradient { step: None }, ..self }
            },
            NewtonPhase::Gradient { .. } => if yes {
                self.stop_exec(MinimizerMessage::Success)
            } else {
                NewtonState { phase: NewtonPhase::Invert, ..self }
            },
            NewtonPhase::Invert => if yes {
                NewtonState { phase: NewtonPhase::Damped { halvings: 0 }, ..self }
            } else {
                self.stop_exec(MinimizerMessage::Error(Failure::Singular))
            },
            NewtonPhase::Damped { halvings } => if yes {
                let taken = self.taken + 1;
                let phase = if taken == self.max_steps {
                    NewtonPhase::Done { step: Some(halvings), message: MinimizerMessage::TimedOut }
                } else {
                    NewtonPhase::Gradient { step: Some(halvings) }
                };
                NewtonState { taken, phase, ..self }
            } else if halvings + 1 >= DAMPING_HALVINGS {
                self.stop_exec(MinimizerMessage::Success)
            } else {
                NewtonState { phase: NewtonPhase::Damped { halvings: halvings + 1 }, ..self }
            },
            NewtonPhase::Done { .. } => self,
        }
    }

    fn stop_exec(self, message: MinimizerMessage) -> (r: NewtonState)
        ensures
            r == self.stop(message),
    {
        NewtonState { phase: NewtonPhase::Done { step: None, message }, ..self }
    }

    fn action_exec(&self) -> (r: NewtonAction)
        ensures
            r == self.action(),
    {
        match self.phase {
            NewtonPhase::Definite => NewtonAction::CheckPositiveDefinite,
            NewtonPhase::Gradient { step } => NewtonAction::CheckGradient { step },
            NewtonPhase::Invert => NewtonAction::InvertHessian,
            NewtonPhase::Damped { halvings } => NewtonAction::CheckDecrease { halvings },
            NewtonPhase::Done { step, message } => NewtonAction::Finish { step, message },
        }
    }
}

/// An answer keeps a Newton descent well formed.
pub proof fn lemma_newton_after_wf(s: NewtonState, yes: bool)
    requires
        s.wf(),
    ensures
        s.after(yes).wf(),
{
}

/// Every answer brings a running Newton descent closer to its end: it stops
/// after at most `remaining()` answers.
pub proof fn lemma_newton_terminates(s: NewtonState, yes: bool)
    requires
        s.wf(),
        !s.is_done(),
    ensures
        s.after(yes).remaining() < s.remaining(),
{
}

/// Newton's method with a damped step: positive definiteness is checked once,
/// at the start; each step is halved until it lowers the error.
pub struct NewtonDescent {
    state: NewtonState,
}

impl View for NewtonDescent {
    type V = NewtonState;

    closed spec fn view(&self) -> NewtonState {
        self.state
    }
}

impl NewtonDescent {
    #[verifier::type_invariant]
    spec fn inv(self) -> bool {
        self.state.wf()
    }

    /// A descent that may take up to `max_steps` steps.
    pub fn new(max_steps: usize) -> (r: NewtonDescent)
        ensures
            r@ == NewtonState::initial(max_steps),
            r@.wf(),
    {
        NewtonDescent { state: NewtonState { max_steps, taken: 0, phase: NewtonPhase::Definite } }
    }

    /// What the caller is asked to do now.
    pub fn pending(&self) -> (r: NewtonAction)
        ensures
            r == self@.action(),
    {
        self.state.action_exec()
    }

    /// Takes the answer to the pending question and returns the next action.
    /// Once the descent has stopped, answers change nothing.
    pub fn answer(&mut self, yes: bool) -> (r: NewtonAction)
        ensures
            final(self)@ == old(self)@.after(yes),
            final(self)@.wf(),
            r == final(self)@.action(),
    {
        proof {
            use_type_invariant(&*self);
            lemma_newton_after_wf(self.state, yes);
        }
        let next = self.state.next(yes);
        self.state = next;
        self.state.action_exec()
    }
}

/// The damped step that an action of a Newton descent asks to apply, if any.
pub open spec fn newton_move(a: NewtonAction) -> Option<u32> {
    match a {
        NewtonAction::CheckGradient { step } => step,
        NewtonAction::Finish { step, .. } => step,
        _ => None,
    }
}

/// Each move that a Newton descent asks for spends one step of its budget,
/// with a damping of at least machine epsilon, and is the damped step that
/// was just reported to lower the error: over a whole run the caller moves at
/// most `max_steps` times.
pub proof fn lemma_newton_moves_are_budgeted(s: NewtonState, yes: bool)
    requires
        s.wf(),
        !s.is_done(),
    ensures
        s.after(yes).taken <= s.after(yes).max_steps == s.max_steps,
        match newton_move(s.after(yes).action()) {
            Some(h) => {
                &&& s.after(yes).taken == s.taken + 1
                &&& h < DAMPING_HALVINGS
                &&& s.action() == (NewtonAction::CheckDecrease { halvings: h })
                &&& yes
            },
            None => s.after(yes).taken == s.taken,
        },
{
}

/// Positive definiteness is asked about once, at the start, and never again.
pub proof fn lemma_definiteness_checked_once(s: NewtonState, yes: bool)
    requires
        s.wf(),
    ensures
        s.after(yes).action() != NewtonAction::CheckPositiveDefinite,
        s.action() == NewtonAction::CheckPositiveDefinite <==> s.phase is Definite,
{
}

} // verus!
