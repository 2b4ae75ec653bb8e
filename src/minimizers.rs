//! The decisions of the descent methods, as state machines.
//!
//! A machine never sees a number of the fit. It hands out an action: a
//! question about the objective at the working point, or a move of that
//! point. The caller does the floating-point work and answers with a `bool`.
//! Step sizes are powers of two: a step of exponent `e` has size `2^(−e)`,
//! and a damping of `h` halvings is `2^(−h)`.

use vstd::prelude::*;

pub mod backtrack;
pub mod newton;
pub mod schedule;

pub use backtrack::{BacktrackDescent, BacktrackPhase, BacktrackState, DescentAction};
pub use newton::{NewtonAction, NewtonDescent, NewtonPhase, NewtonState};
pub use schedule::{CombinedDescent, Point, ScheduleAction, ScheduleState};

verus! {

/// Why a descent stopped without converging.
#[derive(Debug, Clone, Copy, PartialEq, Eq, Structural)]
pub enum Failure {
    /// The Hessian at Newton's starting point has no Cholesky factor.
    NotPositiveDefinite,
    /// The Hessian at Newton's working point has no inverse.
    Singular,
    /// No step size above machine epsilon gave a sufficient decrease.
    StepCollapsed,
    /// Backtracking stopped for a reason other than success or its budget.
    BacktrackCannotImprove,
    /// Backtracking ended at a higher error than it started from.
    BacktrackIncreasedError,
    /// Every step budget of the combined schedule was spent.
    DidNotConverge,
}

/// How a descent ended.
#[derive(Debug, Clone, Copy, PartialEq, Eq, Structural)]
pub enum MinimizerMessage {
    Success,
    TimedOut,
    Error(Failure),
}

impl Failure {
    /// The text that explains the failure.
    pub open spec fn reason_view(self) -> Seq<char> {
        match self {
            Failure::NotPositiveDefinite => "Hessian is not positive-definite!"@,
            Failure::Singular => "Hessian is singular!"@,
            Failure::StepCollapsed => "Backtrack step size collapsed"@,
            Failure::BacktrackCannotImprove => "Backtrack can't improve"@,
            Failure::BacktrackIncreasedError => "Backtrack increased error?!"@,
            Failure::DidNotConverge => "Combined descent never converged"@,
        }
    }

    pub fn reason(&self) -> (r: &'static str)
        ensures
            r@ == self.reason_view(),
    {
        match self {
            Failure::NotPositiveDefinite => "Hessian is not positive-definite!",
            Failure::Singular => "Hessian is singular!",
            Failure::StepCollapsed => "Backtrack step size collapsed",
            Failure::BacktrackCannotImprove => "Backtrack can't improve",
            Failure::BacktrackIncreasedError => "Backtrack increased error?!",
            Failure::DidNotConverge => "Combined descent never converged",
        }
    }
}

} // verus!
