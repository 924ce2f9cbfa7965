//! The order of work of the two-loop recursion.
//!
//! The recursion turns a gradient into a descent direction by walking the
//! curvature history twice: from the newest pair back to the oldest, then,
//! after a scaling taken from the newest pair, from the oldest forward to the
//! newest. What is fixed here is which pair each step reads and in what order
//! the steps run; the arithmetic of a step belongs to whoever holds the
//! vectors.

use vstd::prelude::*;

verus! {

/// One step of the recursion. A pair is named by its position in the
/// history, counted from the oldest.
#[derive(Clone, Copy, Debug, PartialEq, Eq, Structural)]
pub enum Op {
    /// `alpha_i = rho_i * (s_i . q)`, kept for the forward pass, then
    /// `q = q - alpha_i * y_i`.
    Backward(usize),
    /// `z = gamma * q` with `gamma = (s_i . y_i) / (y_i . y_i)`.
    Scale(usize),
    /// `beta_i = rho_i * (y_i . z)`, then `z = z + (alpha_i - beta_i) * s_i`.
    Forward(usize),
    /// `d = -z`.
    Negate,
}

/// The backward pass over `len` pairs: from the newest, pair `len - 1`, down
/// to the oldest, pair 0.
pub open spec fn backward_pass(len: nat) -> Seq<Op> {
    Seq::new(len, |k: int| Op::Backward((len - 1 - k) as usize))
}

/// The forward pass over `len` pairs: from the oldest, pair 0, up to the
/// newest, pair `len - 1`.
pub open spec fn forward_pass(len: nat) -> Seq<Op> {
    Seq::new(len, |k: int| Op::Forward(k as usize))
}

/// The recursion over a history of `len` pairs: the backward pass, the
/// scaling by the newest pair, the forward pass, and the negation. Over an
/// empty history there is no pair to scale by, and only the negation is left.
pub open spec fn schedule(len: nat) -> Seq<Op> {
    if len == 0 {
        seq![Op::Negate]
    } else {
        backward_pass(len).push(Op::Scale((len - 1) as usize)) + forward_pass(len).push(Op::Negate)
    }
}

/// Over an empty history the recursion is the negation alone, so the
/// direction is the negated gradient: steepest descent.
pub proof fn lemma_empty_history_negates()
    ensures
        schedule(0) == seq![Op::Negate],
{
}

/// Every pair is read once on the way back and once on the way forward, the
/// backward pass is over before the scaling, and the scaling is over before
/// the forward pass.
pub proof fn lemma_schedule_shape(len: nat, i: nat)
    requires
        i < len,
        len <= usize::MAX,
    ensures
        schedule(len).len() == 2 * len + 2,
        schedule(len)[len - 1 - i] == Op::Backward(i as usize),
        schedule(len)[len as int] == Op::Scale((len - 1) as usize),
        schedule(len)[(len + 1 + i) as int] == Op::Forward(i as usize),
        schedule(len).last() == Op::Negate,
{
}

/// The steps of the recursion over a history of `len` pairs, in the order
/// in which they run.
pub fn two_loop_schedule(len: usize) -> (ops: Vec<Op>)
    requires
        2 * len + 2 <= usize::MAX,
    ensures
        ops@ == schedule(len as nat),
{
    let mut ops: Vec<Op> = Vec::new();
    if len == 0 {
        ops.push(Op::Negate);
        return ops;
    }
    let mut i: usize = len;
    while i > 0
        invariant
            i <= len,
            ops@ == backward_pass(len as nat).subrange(0, len - i),
        decreases i,
    {
        i -= 1;
        ops.push(Op::Backward(i));
        assert(ops@ =~= backward_pass(len as nat).subrange(0, len - i));
    }
    ops.push(Op::Scale(len - 1));
    let ghost head = ops@;
    let mut j: usize = 0;
    while j < len
        invariant
            j <= len,
            ops@ == head + forward_pass(len as nat).subrange(0, j as int),
        decreases len - j,
    {
        ops.push(Op::Forward(j));
        j += 1;
        assert(ops@ =~= head + forward_pass(len as nat).subrange(0, j as int));
    }
    ops.push(Op::Negate);
    assert(ops@ =~= schedule(len as nat));
    ops
}

} // verus!
