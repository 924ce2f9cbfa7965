//! The limited-memory BFGS driver as a state machine.
//!
//! A run alternates between work on real vectors, which the caller does, and
//! decisions, which are made here. In each iteration the caller evaluates the
//! objective and reports what it found ([`LbfgsRun::observe`]); unless that
//! ends the run it computes a direction by the two-loop recursion over
//! [`LbfgsRun::history`], searches along it, and reports the step
//! ([`LbfgsRun::advance`]).

use vstd::prelude::*;
use crate::history::{History, retained};
use crate::line_search::{LineSearch, DEFAULT_MAX_ADJUSTMENTS};
use crate::Status;

verus! {

/// The number of curvature pairs a run remembers unless told otherwise.
pub const DEFAULT_MEMORY: usize = 8;

/// The settings of a limited-memory BFGS run.
#[derive(Clone, Copy, Debug, PartialEq, Eq, Structural)]
pub struct Lbfgs {
    memory: usize,
    max_iter: usize,
    line_search: LineSearch,
}

/// The curvature pair that an iteration offers to the history.
#[derive(Clone, Debug)]
pub enum Curvature<P> {
    /// `y . s` is zero, or its inverse is not finite: the pair carries no
    /// information.
    Degenerate,
    /// The pair `(s, y, rho)`.
    Pair(P),
}

/// What the caller found when it evaluated the objective at the current
/// point.
#[derive(Clone, Debug)]
pub struct Evaluation<P> {
    /// The value and every component of the gradient are finite. This is
    /// looked at only where neither of the two convergence tests ends the
    /// run.
    pub finite: bool,
    /// The relative change of the value since the last iteration is below the
    /// delta threshold.
    pub delta: bool,
    /// The norm of the gradient is below the epsilon threshold.
    pub epsilon: bool,
    /// The pair built from the last step. It is not looked at in the first
    /// iteration, before which no step was taken.
    pub curvature: Curvature<P>,
}

impl Default for Lbfgs {
    fn default() -> (settings: Self)
        ensures
            settings.memory_depth() == DEFAULT_MEMORY,
            settings.iteration_limit() == 0,
            settings.search().adjustment_limit() == DEFAULT_MAX_ADJUSTMENTS,
    {
        Lbfgs { memory: DEFAULT_MEMORY, max_iter: 0, line_search: LineSearch::default() }
    }
}

impl Lbfgs {
    /// The number of curvature pairs a run remembers.
    pub closed spec fn memory_depth(&self) -> nat {
        self.memory as nat
    }

    /// The iteration at which a run stops; 0 for none.
    pub closed spec fn iteration_limit(&self) -> nat {
        self.max_iter as nat
    }

    /// The settings of the line search.
    pub closed spec fn search(&self) -> LineSearch {
        self.line_search
    }

    /// The same settings, but remembering `memory` curvature pairs.
    pub fn with_memory(self, memory: usize) -> (settings: Self)
        ensures
            settings.memory_depth() == memory,
            settings.iteration_limit() == self.iteration_limit(),
            settings.search() == self.search(),
    {
        Lbfgs { memory, max_iter: self.max_iter, line_search: self.line_search }
    }

    /// The same settings, but stopping at iteration `max_iter`; 0 lifts the
    /// limit.
    pub fn with_max_iter(self, max_iter: usize) -> (settings: Self)
        ensures
            settings.memory_depth() == self.memory_depth(),
            settings.iteration_limit() == max_iter,
            settings.search() == self.search(),
    {
        Lbfgs { memory: self.memory, max_iter, line_search: self.line_search }
    }

    /// The same settings, but searching as `line_search` says.
    pub fn with_line_search(self, line_search: LineSearch) -> (settings: Self)
        ensures
            settings.memory_depth() == self.memory_depth(),
            settings.iteration_limit() == self.iteration_limit(),
            settings.search() == line_search,
    {
        Lbfgs { memory: self.memory, max_iter: self.max_iter, line_search }
    }

    /// The number of curvature pairs a run remembers.
    pub fn memory(&self) -> (memory: usize)
        ensures
            memory == self.memory_depth(),
    {
        self.memory
    }

    /// The iteration at which a run stops; 0 for none.
    pub fn max_iter(&self) -> (max_iter: usize)
        ensures
            max_iter == self.iteration_limit(),
    {
        self.max_iter
    }

    /// The settings of the line search.
    pub fn line_search(&self) -> (line_search: LineSearch)
        ensures
            line_search == self.search(),
    {
        self.line_search
    }

    /// Whether an evaluation in iteration `iteration` ends the run, and how.
    /// The tests are made in this order: the iteration limit, the change of
    /// the value, the norm of the gradient, the finiteness of what was
    /// evaluated, and, from the second iteration on, the curvature offered.
    pub open spec fn stops(
        &self,
        iteration: nat,
        finite: bool,
        delta: bool,
        epsilon: bool,
        degenerate: bool,
    ) -> Option<Status> {
        if self.iteration_limit() != 0 && iteration >= self.iteration_limit() {
            Some(Status::MaxIter)
        } else if delta {
            Some(Status::Delta)
        } else if epsilon {
            Some(Status::Epsilon)
        } else if !finite {
            Some(Status::NaN)
        } else if iteration > 1 && degenerate {
            Some(Status::Delta)
        } else {
            None
        }
    }

    /// A run at its first iteration, with an empty history.
    pub fn start<P>(&self) -> (run: LbfgsRun<P>)
        ensures
            run.settings() == *self,
            run.iteration_count() == 1,
            run.pairs() == Seq::<P>::empty(),
            run.outcome() is None,
    {
        LbfgsRun { settings: *self, iteration: 1, history: History::new(self.memory), status: None }
    }
}

/// A degenerate pair ends the run, and not as a failure: once a step has been
/// taken, an evaluation that offers a degenerate pair always ends the run
/// with a status, and where no other test stops it, with the status of a
/// value that has stopped changing.
pub proof fn lemma_degenerate_pair_ends_run(
    settings: Lbfgs,
    iteration: nat,
    finite: bool,
    delta: bool,
    epsilon: bool,
)
    requires
        iteration > 1,
    ensures
        settings.stops(iteration, finite, delta, epsilon, true) is Some,
        (settings.iteration_limit() == 0 || iteration < settings.iteration_limit()) && finite
            && !delta && !epsilon ==> settings.stops(iteration, finite, delta, epsilon, true)
            == Some(Status::Delta),
{
}

/// Short of the iteration limit, an evaluation that is not finite, and on
/// which neither convergence test ends the run, ends it with the status for
/// what is not finite, whatever curvature is offered.
pub proof fn lemma_non_finite_evaluation_ends_run(
    settings: Lbfgs,
    iteration: nat,
    degenerate: bool,
)
    requires
        settings.iteration_limit() == 0 || iteration < settings.iteration_limit(),
    ensures
        settings.stops(iteration, false, false, false, degenerate) == Some(Status::NaN),
{
}

/// What is not finite is never stepped from: an evaluation that is not
/// finite ends the run, whatever the other tests say.
pub proof fn lemma_non_finite_evaluation_takes_no_step(
    settings: Lbfgs,
    iteration: nat,
    delta: bool,
    epsilon: bool,
    degenerate: bool,
)
    ensures
        settings.stops(iteration, false, delta, epsilon, degenerate) is Some,
{
}

/// The change of the value and the norm of the gradient are looked at before
/// anything else but the iteration limit: short of the limit, a value that
/// has stopped changing ends the run as such, and a small gradient under a
/// value that still changes ends it as such, finite or not.
pub proof fn lemma_convergence_tests_come_first(
    settings: Lbfgs,
    iteration: nat,
    finite: bool,
    epsilon: bool,
    degenerate: bool,
)
    requires
        settings.iteration_limit() == 0 || iteration < settings.iteration_limit(),
    ensures
        settings.stops(iteration, finite, true, epsilon, degenerate) == Some(Status::Delta),
        settings.stops(iteration, finite, false, true, degenerate) == Some(Status::Epsilon),
{
}

/// A run stops at its iteration limit, if it has one, whatever was
/// evaluated.
pub proof fn lemma_iteration_limit_ends_run(
    settings: Lbfgs,
    iteration: nat,
    finite: bool,
    delta: bool,
    epsilon: bool,
    degenerate: bool,
)
    requires
        settings.iteration_limit() != 0,
        iteration >= settings.iteration_limit(),
    ensures
        settings.stops(iteration, finite, delta, epsilon, degenerate) == Some(Status::MaxIter),
{
}

/// A limited-memory BFGS run: its iteration counter, its curvature history,
/// and, once it has ended, why.
pub struct LbfgsRun<P> {
    settings: Lbfgs,
    iteration: usize,
    history: History<P>,
    status: Option<Status>,
}

impl<P> LbfgsRun<P> {
    #[verifier::type_invariant]
    spec fn well_formed(&self) -> bool {
        &&& self.iteration >= 1
        &&& self.history.limit() == self.settings.memory_depth()
        &&& self.history@.len() <= self.settings.memory_depth()
    }

    /// The settings the run was started with.
    pub closed spec fn settings(&self) -> Lbfgs {
        self.settings
    }

    /// The number of the current iteration, counted from 1.
    pub closed spec fn iteration_count(&self) -> nat {
        self.iteration as nat
    }

    /// The curvature pairs remembered, oldest first.
    pub closed spec fn pairs(&self) -> Seq<P> {
        self.history@
    }

    /// Why the run ended, if it has.
    pub closed spec fn outcome(&self) -> Option<Status> {
        self.status
    }

    /// The number of the current iteration, counted from 1.
    pub fn iteration(&self) -> (iteration: usize)
        ensures
            iteration == self.iteration_count(),
            iteration >= 1,
    {
        proof {
            use_type_invariant(self);
        }
        self.iteration
    }

    /// The curvature pairs remembered, oldest first.
    pub fn history(&self) -> (history: &History<P>)
        ensures
            history@ == self.pairs(),
            history.limit() == self.settings().memory_depth(),
            history@.len() <= self.settings().memory_depth(),
    {
        proof {
            use_type_invariant(self);
        }
        &self.history
    }

    /// Why the run ended, if it has.
    pub fn status(&self) -> (status: Option<Status>)
        ensures
            status == self.outcome(),
    {
        self.status
    }

    /// Whether the next evaluation is to offer a curvature pair: every one
    /// but the first, before which no step was taken.
    pub fn wants_curvature(&self) -> (wanted: bool)
        ensures
            wanted <==> self.iteration_count() > 1,
    {
        self.iteration > 1
    }

    /// Takes in the evaluation of the objective at the current point and
    /// says whether it ends the run. If it does not, the pair offered joins
    /// the history, which gives up its oldest pair when it is full.
    pub fn observe(&mut self, evaluation: Evaluation<P>) -> (status: Option<Status>)
        ensures
            status == match old(self).outcome() {
                Some(ended) => Some(ended),
                None => old(self).settings().stops(
                    old(self).iteration_count(),
                    evaluation.finite,
                    evaluation.delta,
                    evaluation.epsilon,
                    evaluation.curvature is Degenerate,
                ),
            },
            final(self).outcome() == status,
            final(self).settings() == old(self).settings(),
            final(self).iteration_count() == old(self).iteration_count(),
            final(self).pairs() == match evaluation.curvature {
                Curvature::Pair(pair) if status is None && old(self).iteration_count() > 1 => retained(
                    old(self).pairs(),
                    old(self).settings().memory_depth(),
                    pair,
                ),
                _ => old(self).pairs(),
            },
            final(self).pairs().len() <= old(self).settings().memory_depth(),
    {
        proof {
            use_type_invariant(&*self);
        }
        if let Some(ended) = self.status {
            return Some(ended);
        }
        let max_iter = self.settings.max_iter;
        let status = if max_iter != 0 && self.iteration >= max_iter {
            Some(Status::MaxIter)
        } else if evaluation.delta {
            Some(Status::Delta)
        } else if evaluation.epsilon {
            Some(Status::Epsilon)
        } else if !evaluation.finite {
            Some(Status::NaN)
        } else if self.iteration > 1 {
            match evaluation.curvature {
                Curvature::Degenerate => Some(Status::Delta),
                Curvature::Pair(pair) => {
                    let mut history: History<P> = History::new(self.settings.memory);
                    core::mem::swap(&mut self.history, &mut history);
                    history.push(pair);
                    core::mem::swap(&mut self.history, &mut history);
                    None
                },
            }
        } else {
            None
        };
        self.status = status;
        status
    }

    /// Takes in the step that the line search led to. A step that is not
    /// finite ends the run; any other step is taken, and the next iteration
    /// begins. A run whose counter cannot go further ends as a success.
    pub fn advance(&mut self, finite: bool) -> (status: Option<Status>)
        ensures
            status == match old(self).outcome() {
                Some(ended) => Some(ended),
                None => if !finite {
                    Some(Status::NaN)
                } else if old(self).iteration_count() == usize::MAX {
                    Some(Status::Success)
                } else {
                    None
                },
            },
            final(self).outcome() == status,
            final(self).settings() == old(self).settings(),
            final(self).pairs() == old(self).pairs(),
            final(self).iteration_count() == if status is None {
                old(self).iteration_count() + 1
            } else {
                old(self).iteration_count()
            },
    {
        proof {
            use_type_invariant(&*self);
        }
        if let Some(ended) = self.status {
            return Some(ended);
        }
        let status = if !finite {
            Some(Status::NaN)
        } else if self.iteration == usize::MAX {
            Some(Status::Success)
        } else {
            self.iteration = self.iteration + 1;
            None
        };
        self.status = status;
        status
    }
}

} // verus!
