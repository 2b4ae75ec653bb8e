//! The combined schedule of backtracking descent and Newton refinement.

use vstd::prelude::*;

use super::backtrack::{BacktrackState, DescentAction};
use super::newton::{NewtonAction, NewtonState};
use super::{Failure, MinimizerMessage};

verus! {

/// The step budgets of the combined schedule, by level.
pub open spec fn step_budget(level: int) -> usize {
    if level == 0 {
        10
    } else if level == 1 {
        100
    } else if level == 2 {
        1000
    } else {
        10_000
    }
}

/// The step budget of level `level`.
pub fn budget(level: usize) -> (r: usize)
    ensures
        r == step_budget(level as int),
{
    if level == 0 {
        10
    } else if level == 1 {
        100
    } else if level == 2 {
        1000
    } else {
        10_000
    }
}

/// The number of budget levels of the combined schedule.
pub const LEVELS: usize = 4;

/// The budget of every Newton refinement: the smallest level's.
pub const MIN_STEPS: usize = 10;

/// The budget of the last Newton run, once Newton is known to make progress:
/// the largest level's.
pub const MAX_STEPS: usize = 10_000;

/// The three points that the caller of the combined schedule keeps.
#[derive(Debug, Clone, Copy, PartialEq, Eq, Structural)]
pub enum Point {
    /// The best point so far: at first, the starting point.
    Best,
    /// The result of the last backtracking run.
    Trial,
    /// The result of the last Newton run.
    Refined,
}

/// What the caller of the combined schedule does next.
#[derive(Debug, Clone, Copy, PartialEq, Eq, Structural)]
pub enum ScheduleAction {
    /// If `adopt` names a point, make it the best point. Then run a
    /// backtracking descent of `max_steps` steps from the best point; its
    /// result is the trial point. Report its message, and as `better` whether
    /// the trial point's error is not above the best point's.
    Backtrack { adopt: Option<Point>, max_steps: usize },
    /// Run a Newton descent of `max_steps` steps from the trial point; its
    /// result is the refined point. Report its message, and as `better`
    /// whether the refined point's error is strictly below the trial point's.
    Newton { max_steps: usize },
    /// Run a Newton descent of `max_steps` steps from the refined point and
    /// return its result and message: the schedule ends there.
    FinishWithNewton { max_steps: usize },
    /// Return `point` with `message`: the schedule ends there.
    Finish { point: Point, message: MinimizerMessage },
}

/// The state of the combined schedule: the budget level and the pending
/// action.
#[derive(Debug, Clone, Copy, PartialEq, Eq, Structural)]
pub struct ScheduleState {
    pub level: usize,
    pub pending: ScheduleAction,
}

impl ScheduleState {
    /// A fresh schedule: backtracking from the starting point with the
    /// smallest budget.
    pub open spec fn initial() -> ScheduleState {
        ScheduleState {
            level: 0,
            pending: ScheduleAction::Backtrack { adopt: None, max_steps: step_budget(0) },
        }
    }

    pub open spec fn is_done(self) -> bool {
        self.pending is Finish || self.pending is FinishWithNewton
    }

    pub open spec fn wf(self) -> bool {
        &&& self.level < LEVELS
        &&& match self.pending {
            ScheduleAction::Backtrack { adopt, max_steps } => {
                &&& max_steps == step_budget(self.level as int)
                &&& (adopt is None <==> self.level == 0)
            },
            ScheduleAction::Newton { max_steps } => max_steps == MIN_STEPS,
            ScheduleAction::FinishWithNewton { max_steps } => max_steps == MAX_STEPS,
            ScheduleAction::Finish { .. } => true,
        }
    }

    /// Moves to the next budget level with `adopt` as the best point, or
    /// gives up when every level has been tried.
    pub open spec fn next_level(self, adopt: Point) -> ScheduleState {
        if self.level + 1 < LEVELS {
            ScheduleState {
                level: (self.level + 1) as usize,
                pending: ScheduleAction::Backtrack {
                    adopt: Some(adopt),
                    max_steps: step_budget(self.level + 1),
                },
            }
        } else {
            ScheduleState {
                pending: ScheduleAction::Finish {
                    point: adopt,
                    message: MinimizerMessage::Error(Failure::DidNotConverge),
                },
                ..self
            }
        }
    }

    pub open spec fn finish(self, point: Point, message: MinimizerMessage) -> ScheduleState {
        ScheduleState { pending: ScheduleAction::Finish { point, message }, ..self }
    }

    /// The state after the report of the run that was asked for.
    pub open spec fn after(self, message: MinimizerMessage, better: bool) -> ScheduleState {
        match self.pending {
            ScheduleAction::Backtrack { .. } => match message {
                MinimizerMessage::Success => self.finish(Point::Trial, MinimizerMessage::Success),
                MinimizerMessage::TimedOut => if better {
                    ScheduleState { pending: ScheduleAction::Newton { max_steps: MIN_STEPS }, ..self }
                } else {
                    self.finish(
                        Point::Best,
                        MinimizerMessage::Error(Failure::BacktrackIncreasedError),
                    )
                },
                MinimizerMessage::Error(_) => self.finish(
                    Point::Best,
                    MinimizerMessage::Error(Failure::BacktrackCannotImprove),
                ),
            },
            ScheduleAction::Newton { .. } => if better {
                match message {
                    MinimizerMessage::Success => self.finish(
                        Point::Refined,
                        MinimizerMessage::Success,
                    ),
                    MinimizerMessage::TimedOut => ScheduleState {
                        pending: ScheduleAction::FinishWithNewton { max_steps: MAX_STEPS },
                        ..self
                    },
                    MinimizerMessage::Error(_) => self.next_level(Point::Refined),
                }
            } else {
                self.next_level(Point::Trial)
            },
            _ => self,
        }
    }

    /// A bound on the reports still to come before the schedule ends.
    pub open spec fn remaining(self) -> nat {
        match self.pending {
            ScheduleAction::Backtrack { .. } => (2 * (LEVELS - self.level)) as nat,
            ScheduleAction::Newton { .. } => (2 * (LEVELS - self.level) - 1) as nat,
            _ => 0,
        }
    }

    fn next(self, message: MinimizerMessage, better: bool) -> (r: ScheduleState)
        requires
            self.wf(),
        ensures
            r == self.after(message, better),
    {
        match self.pending {
            ScheduleAction::Backtrack { .. } => match message {
                MinimizerMessage::Success => self.finish_exec(Point::Trial, MinimizerMessage::Success),
                MinimizerMessage::TimedOut => if better {
                    ScheduleState { pending: ScheduleAction::Newton { max_steps: MIN_STEPS }, ..self }
                } else {
                    self.finish_exec(
                        Point::Best,
                        MinimizerMessage::Error(Failure::BacktrackIncreasedError),
                    )
                },
                MinimizerMessage::Error(_) => self.finish_exec(
                    Point::Best,
                    MinimizerMessage::Error(Failure::BacktrackCannotImprove),
                ),
            },
            ScheduleAction::Newton { .. } => if better {
                match message {
                    MinimizerMessage::Success => self.finish_exec(
                        Point::Refined,
                        MinimizerMessage::Success,
                    ),
                    MinimizerMessage::TimedOut => ScheduleState {
                        pending: ScheduleAction::FinishWithNewton { max_steps: MAX_STEPS },
                        ..self
                    },
                    MinimizerMessage::Error(_) => self.next_level_exec(Point::Refined),
                }
            } else {
                self.next_level_exec(Point::Trial)
            },
            _ => self,
        }
    }

    fn finish_exec(self, point: Point, message: MinimizerMessage) -> (r: ScheduleState)
        ensures
            r == self.finish(point, message),
    {
        ScheduleState { pending: ScheduleAction::Finish { point, message }, ..self }
    }

    fn next_level_exec(self, adopt: Point) -> (r: ScheduleState)
        requires
            self.wf(),
        ensures
            r == self.next_level(adopt),
    {
        if self.level + 1 < LEVELS {
            let level = self.level + 1;
            ScheduleState {
                level,
                pending: ScheduleAction::Backtrack { adopt: Some(adopt), max_steps: budget(level) },
            }
        } else {
            ScheduleState {
                pending: ScheduleAction::Finish {
                    point: adopt,
                    message: MinimizerMessage::Error(Failure::DidNotConverge),
                },
                ..self
            }
        }
    }
}

/// A report keeps the combined schedule well formed.
pub proof fn lemma_schedule_after_wf(s: ScheduleState, message: MinimizerMessage, better: bool)
    requires
        s.wf(),
    ensures
        s.after(message, better).wf(),
{
}

/// Every report brings a running schedule closer to its end: it ends after
/// at most `remaining()` reports.
pub proof fn lemma_schedule_terminates(s: ScheduleState, message: MinimizerMessage, better: bool)
    requires
        s.wf(),
        !s.is_done(),
    ensures
        s.after(message, better).remaining() < s.remaining(),
{
}

/// The combined schedule: cheap, safe backtracking descent over increasing
/// step budgets, each result refined by Newton's method, falling back to the
/// backtracking result whenever Newton misbehaves.
pub struct CombinedDescent {
    state: ScheduleState,
}

impl View for CombinedDescent {
    type V = ScheduleState;

    closed spec fn view(&self) -> ScheduleState {
        self.state
    }
}

impl CombinedDescent {
    #[verifier::type_invariant]
    spec fn inv(self) -> bool {
        self.state.wf()
    }

    pub fn new() -> (r: CombinedDescent)
        ensures
            r@ == ScheduleState::initial(),
            r@.wf(),
    {
        CombinedDescent {
            state: ScheduleState {
                level: 0,
                pending: ScheduleAction::Backtrack { adopt: None, max_steps: budget(0) },
            },
        }
    }

    /// What the caller is asked to do now.
    pub fn pending(&self) -> (r: ScheduleAction)
        ensures
            r == self@.pending,
    {
        self.state.pending
    }

    /// Takes the report of the run that was asked for and returns the next
    /// action. Once the schedule has ended, reports change nothing.
    pub fn report(&mut self, message: MinimizerMessage, better: bool) -> (r: ScheduleAction)
        ensures
            final(self)@ == old(self)@.after(message, better),
            final(self)@.wf(),
            r == final(self)@.pending,
    {
        proof {
            use_type_invariant(&*self);
            lemma_schedule_after_wf(self.state, message, better);
        }
        let next = self.state.next(message, better);
        self.state = next;
        self.state.pending
    }
}

/// A start whose gradient already vanishes is kept, with success: each
/// descent stops at its first question without a move, and the combined
/// schedule returns the point of its first backtracking run, which did not
/// move.
pub proof fn lemma_converged_start_is_kept(max_steps: usize, better: bool)
    requires
        max_steps > 0,
    ensures
        BacktrackState::initial(max_steps).action() == (DescentAction::CheckGradient {
            step: None,
        }),
        BacktrackState::initial(max_steps).after(true).action() == (DescentAction::Finish {
            step: None,
            message: MinimizerMessage::Success,
        }),
        NewtonState::initial(max_steps).after(true).action() == (NewtonAction::CheckGradient {
            step: None,
        }),
        NewtonState::initial(max_steps).after(true).after(true).action() == (NewtonAction::Finish {
            step: None,
            message: MinimizerMessage::Success,
        }),
        ScheduleState::initial().pending == (ScheduleAction::Backtrack {
            adopt: None,
            max_steps: MIN_STEPS,
        }),
        ScheduleState::initial().after(MinimizerMessage::Success, better).pending == (
        ScheduleAction::Finish { point: Point::Trial, message: MinimizerMessage::Success }),
{
}

/// A Hessian that is not positive definite at Newton's start stops Newton at
/// its first question, without a step. The combined schedule then does not
/// abort: it goes on with backtracking at the next budget level, or, after the
/// last level, reports that it did not converge.
pub proof fn lemma_indefinite_start_falls_back(
    s: ScheduleState,
    max_steps: usize,
    better: bool,
)
    requires
        s.wf(),
        s.pending is Newton,
    ensures
        NewtonState::initial(max_steps).action() == NewtonAction::CheckPositiveDefinite,
        NewtonState::initial(max_steps).after(false).action() == (NewtonAction::Finish {
            step: None,
            message: MinimizerMessage::Error(Failure::NotPositiveDefinite),
        }),
        ({
            let adopt = if better { Point::Refined } else { Point::Trial };
            s.after(MinimizerMessage::Error(Failure::NotPositiveDefinite), better).pending == if s.level
                + 1 < LEVELS {
                ScheduleAction::Backtrack { adopt: Some(adopt), max_steps: step_budget(s.level + 1) }
            } else {
                ScheduleAction::Finish {
                    point: adopt,
                    message: MinimizerMessage::Error(Failure::DidNotConverge),
                }
            }
        }),
{
}

/// The combined schedule resolves the failures of its runs itself. When it
/// returns a point, the message is success (of the run that produced that
/// point) or one of its own failures; a Newton failure, a collapsed step or a
/// spent budget of a single run never ends it.
pub proof fn lemma_schedule_surfaces_own_outcomes(
    s: ScheduleState,
    message: MinimizerMessage,
    better: bool,
)
    requires
        s.wf(),
        !s.is_done(),
    ensures
        s.after(message, better).pending matches ScheduleAction::Finish { point, message: m } ==> {
            ||| m == MinimizerMessage::Success && message == MinimizerMessage::Success && (
            point == Point::Trial && s.pending is Backtrack || point == Point::Refined && better
                && s.pending is Newton)
            ||| m == MinimizerMessage::Error(Failure::BacktrackIncreasedError) && point == Point::Best
            ||| m == MinimizerMessage::Error(Failure::BacktrackCannotImprove) && point == Point::Best
            ||| m == MinimizerMessage::Error(Failure::DidNotConverge) && point != Point::Best
        },
{
}

} // verus!
