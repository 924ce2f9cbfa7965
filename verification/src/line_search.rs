//! The decisions of the Wolfe line search.
//!
//! The search tries a step size, asks whether the sufficient-decrease (Armijo)
//! and the curvature condition hold there, and shortens or lengthens the step
//! by a fixed rate until both do. Nothing guarantees that they ever will, so
//! the number of adjustments is bounded and the search can give up.

use vstd::prelude::*;

verus! {

/// Which of the two Wolfe conditions hold at a trial step `alpha` along a
/// direction `d` from `x`.
#[derive(Clone, Copy, Debug, PartialEq, Eq, Structural)]
pub struct Wolfe {
    /// `f(x + alpha d) <= f(x) + c1 alpha (g(x) . d)`.
    pub armijo: bool,
    /// `c2 (g(x) . d) <= g(x + alpha d) . d`.
    pub curvature: bool,
}

/// What the search does after a trial.
#[derive(Clone, Copy, Debug, PartialEq, Eq, Structural)]
pub enum Verdict {
    /// Both conditions hold: the trial step is the result.
    Accept,
    /// The decrease is insufficient: shorten the step and try again.
    Shrink,
    /// The decrease suffices but the step is too short: lengthen it and try
    /// again.
    Grow,
    /// A condition fails and no adjustment is left: the search has failed.
    GiveUp,
}

/// The number of adjustments a search makes unless told otherwise.
pub const DEFAULT_MAX_ADJUSTMENTS: usize = 1000;

/// The settings of a line search.
#[derive(Clone, Copy, Debug, PartialEq, Eq, Structural)]
pub struct LineSearch {
    max_adjustments: usize,
}

impl Default for LineSearch {
    fn default() -> (search: Self)
        ensures
            search.adjustment_limit() == DEFAULT_MAX_ADJUSTMENTS,
    {
        LineSearch { max_adjustments: DEFAULT_MAX_ADJUSTMENTS }
    }
}

impl LineSearch {
    /// The number of times one search may shorten or lengthen its step.
    pub closed spec fn adjustment_limit(&self) -> nat {
        self.max_adjustments as nat
    }

    /// The verdict on a trial that `adjustments` adjustments led to. The
    /// Armijo condition is looked at first: a step that fails both conditions
    /// is shortened.
    pub open spec fn verdict(&self, adjustments: nat, wolfe: Wolfe) -> Verdict {
        if wolfe.armijo && wolfe.curvature {
            Verdict::Accept
        } else if adjustments >= self.adjustment_limit() {
            Verdict::GiveUp
        } else if !wolfe.armijo {
            Verdict::Shrink
        } else {
            Verdict::Grow
        }
    }

    /// The same settings, but with at most `max_adjustments` adjustments in
    /// one search.
    pub fn with_max_adjustments(self, max_adjustments: usize) -> (search: Self)
        ensures
            search.adjustment_limit() == max_adjustments,
    {
        LineSearch { max_adjustments }
    }

    /// The number of times one search may shorten or lengthen its step.
    pub fn max_adjustments(&self) -> (limit: usize)
        ensures
            limit == self.adjustment_limit(),
    {
        self.max_adjustments
    }

    /// A search before its first trial.
    pub fn begin(&self) -> (search: Search)
        ensures
            search.settings() == *self,
            search.adjustments() == 0,
    {
        Search { settings: *self, adjustments: 0 }
    }
}

/// One line search under way: its settings and the number of times it has
/// adjusted its step.
pub struct Search {
    settings: LineSearch,
    adjustments: usize,
}

impl Search {
    #[verifier::type_invariant]
    spec fn well_formed(&self) -> bool {
        self.adjustments <= self.settings.adjustment_limit()
    }

    /// The settings the search was begun with.
    pub closed spec fn settings(&self) -> LineSearch {
        self.settings
    }

    /// The number of times the step was shortened or lengthened so far.
    pub closed spec fn adjustments(&self) -> nat {
        self.adjustments as nat
    }

    /// The number of times the step was shortened or lengthened so far.
    pub fn adjustments_made(&self) -> (adjustments: usize)
        ensures
            adjustments == self.adjustments(),
            adjustments <= self.settings().adjustment_limit(),
    {
        proof {
            use_type_invariant(self);
        }
        self.adjustments
    }

    /// Decides what follows a trial, given which conditions hold at it. A
    /// verdict to shorten or lengthen the step counts as an adjustment.
    pub fn judge(&mut self, wolfe: Wolfe) -> (verdict: Verdict)
        ensures
            verdict == old(self).settings().verdict(old(self).adjustments(), wolfe),
            verdict == Verdict::Accept <==> wolfe.armijo && wolfe.curvature,
            final(self).settings() == old(self).settings(),
            final(self).adjustments() == if verdict == Verdict::Shrink || verdict
                == Verdict::Grow {
                old(self).adjustments() + 1
            } else {
                old(self).adjustments()
            },
            final(self).adjustments() <= old(self).settings().adjustment_limit(),
    {
        proof {
            use_type_invariant(&*self);
        }
        if wolfe.armijo && wolfe.curvature {
            Verdict::Accept
        } else if self.adjustments >= self.settings.max_adjustments {
            Verdict::GiveUp
        } else {
            self.adjustments = self.adjustments + 1;
            if !wolfe.armijo {
                Verdict::Shrink
            } else {
                Verdict::Grow
            }
        }
    }
}

/// A search accepts a step exactly when both Wolfe conditions hold at it,
/// whatever its settings and however many adjustments came before.
pub proof fn lemma_accepted_step_meets_wolfe(search: LineSearch, adjustments: nat, wolfe: Wolfe)
    ensures
        search.verdict(adjustments, wolfe) == Verdict::Accept <==> wolfe.armijo && wolfe.curvature,
{
}

/// A search asks for another trial only while adjustments are left, so it
/// ends after at most `adjustment_limit() + 1` trials.
pub proof fn lemma_search_is_bounded(search: LineSearch, adjustments: nat, wolfe: Wolfe)
    requires
        adjustments >= search.adjustment_limit(),
    ensures
        search.verdict(adjustments, wolfe) == Verdict::Accept || search.verdict(adjustments, wolfe)
            == Verdict::GiveUp,
{
}

} // verus!
