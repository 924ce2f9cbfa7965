//! The control logic of two iterative minimizers: limited-memory BFGS with a
//! Wolfe line search, and minibatch gradient descent with Adam moments.
//!
//! The crate decides; it does not compute. It keeps the bounded history of
//! curvature pairs, lays out the steps of the two-loop recursion, judges the
//! trial steps of the line search, orders and batches the samples, counts
//! iterations and says when and why a run ends. The real vectors, the
//! objective and every comparison of real numbers stay with the caller, who
//! reports each outcome as a truth value.

use vstd::prelude::*;

pub mod batching;
pub mod history;
pub mod lbfgs;
pub mod line_search;
pub mod sampling;
pub mod sgd_adam;
pub mod two_loop;

pub use crate::history::History;
pub use crate::lbfgs::{Curvature, Evaluation, Lbfgs, LbfgsRun};
pub use crate::line_search::{LineSearch, Search, Verdict, Wolfe};
pub use crate::sampling::SampleOrder;
pub use crate::sgd_adam::{Epoch, InvalidConfiguration, SgdAdam, SgdRun};
pub use crate::two_loop::{two_loop_schedule, Op};

verus! {

/// Why a run ended.
#[derive(Clone, Copy, Debug, PartialEq, Eq, Structural)]
pub enum Status {
    /// The run went on for as long as its counter could count.
    Success,
    /// The value of the objective has stopped changing.
    Delta,
    /// The gradient has become small.
    Epsilon,
    /// The iteration limit was reached.
    MaxIter,
    /// A value, a gradient, a step or a point was not finite.
    NaN,
}

} // verus!
