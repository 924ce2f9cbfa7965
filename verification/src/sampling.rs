//! The order in which the samples are visited.
//!
//! An order over `n` samples is an arrangement of the indices `0..n`. It
//! starts out ascending and is reshuffled, by a seeded generator that the
//! order owns, before each pass over the samples.
//!
//! The generator is deterministic: what a shuffle gives depends on the items
//! and on the state of the generator alone, and that state on the seed and on
//! what was drawn before. Which order a given seed leads to is not said
//! here, and may differ from one release of the generator to the next; that
//! one seed leads to one sequence of orders is.

use rand::rngs::StdRng;
use rand::seq::SliceRandom;
use rand::SeedableRng;
use vstd::prelude::*;

verus! {

/// `StdRng` of rand, the seeded generator. Nothing is read from it; its
/// state goes by the name [`generator_state`].
#[verifier::external_type_specification]
#[verifier::external_body]
pub struct ExStdRng(rand::rngs::StdRng);

/// The state of a generator: the seed it was made from, and how far it has
/// drawn since.
pub uninterp spec fn generator_state(generator: StdRng) -> (u64, nat);

/// What `SliceRandom::shuffle` of rand gives for `items` under a generator
/// made from `seed` that has drawn as far as `drawn`: the new order, and how
/// far the generator has drawn after it.
pub uninterp spec fn shuffled(items: Seq<usize>, seed: u64, drawn: nat) -> (Seq<usize>, nat);

/// `StdRng::seed_from_u64` of rand: a generator made from `seed`, which has
/// drawn nothing yet. The seed alone decides the generator.
#[verifier::external_body]
fn seeded_generator(seed: u64) -> (generator: StdRng)
    ensures
        generator_state(generator) == (seed, 0nat),
{
    StdRng::seed_from_u64(seed)
}

/// `SliceRandom::shuffle` of rand on the items of a vector. It exchanges
/// items in place and does nothing else, so the items are the same before and
/// after, each as often as before. Which exchanges it makes depends on the
/// items and on the state of the generator alone; the generator keeps its
/// seed and draws on.
#[verifier::external_body]
fn shuffle(items: &mut Vec<usize>, generator: &mut StdRng)
    ensures
        final(items)@.len() == old(items)@.len(),
        final(items)@.to_multiset() == old(items)@.to_multiset(),
        final(items)@ == shuffled(
            old(items)@,
            generator_state(*old(generator)).0,
            generator_state(*old(generator)).1,
        ).0,
        generator_state(*final(generator)) == (
            generator_state(*old(generator)).0,
            shuffled(
                old(items)@,
                generator_state(*old(generator)).0,
                generator_state(*old(generator)).1,
            ).1,
        ),
{
    items.shuffle(generator);
}

/// The order that a shuffle of `order` gives under a generator in the state
/// `state`.
pub open spec fn next_order(order: Seq<usize>, state: (u64, nat)) -> Seq<usize> {
    shuffled(order, state.0, state.1).0
}

/// The state of a generator that was in the state `state` before it shuffled
/// `order`.
pub open spec fn next_state(order: Seq<usize>, state: (u64, nat)) -> (u64, nat) {
    (state.0, shuffled(order, state.0, state.1).1)
}

/// Where `rounds` shuffles lead from the ascending order over `total` samples
/// under a generator made from `seed`: the order, and the state of the
/// generator.
pub open spec fn after_shuffles(total: nat, seed: u64, rounds: nat) -> (Seq<usize>, (u64, nat))
    decreases rounds,
{
    if rounds == 0 {
        (ascending(total), (seed, 0nat))
    } else {
        let before = after_shuffles(total, seed, (rounds - 1) as nat);
        (next_order(before.0, before.1), next_state(before.0, before.1))
    }
}

/// One seed, one sequence of orders: an order that stands where `rounds`
/// shuffles from its start lead stands, after one more shuffle, where
/// `rounds + 1` lead. Two orders over as many samples, made from one seed,
/// so agree after any number of shuffles.
pub proof fn lemma_shuffles_follow_the_seed(
    total: nat,
    seed: u64,
    rounds: nat,
    order: Seq<usize>,
    state: (u64, nat),
)
    requires
        (order, state) == after_shuffles(total, seed, rounds),
    ensures
        (next_order(order, state), next_state(order, state)) == after_shuffles(
            total,
            seed,
            rounds + 1,
        ),
        after_shuffles(total, seed, rounds + 1).1.0 == seed,
{
    lemma_seed_is_kept(total, seed, rounds + 1);
}

/// A generator keeps its seed, however often it shuffles.
pub proof fn lemma_seed_is_kept(total: nat, seed: u64, rounds: nat)
    ensures
        after_shuffles(total, seed, rounds).1.0 == seed,
    decreases rounds,
{
    if rounds > 0 {
        lemma_seed_is_kept(total, seed, (rounds - 1) as nat);
    }
}

/// The indices `0..n` in ascending order.
pub open spec fn ascending(n: nat) -> Seq<usize> {
    Seq::new(n, |i: int| i as usize)
}

/// Whether `order` holds each of the indices `0..order.len()`, in some
/// arrangement.
pub open spec fn is_arrangement(order: Seq<usize>) -> bool {
    order.to_multiset() == ascending(order.len()).to_multiset()
}

/// Whether `a` and `b` hold the same items, each as often in one as in the
/// other.
pub open spec fn is_rearranged(a: Seq<usize>, b: Seq<usize>) -> bool {
    a.to_multiset() == b.to_multiset()
}

/// The ascending order is an arrangement.
pub proof fn lemma_ascending_is_arrangement(n: nat)
    ensures
        is_arrangement(ascending(n)),
{
}

/// An arrangement visits every sample exactly once: each index below its
/// length occurs in it, nothing else does, and nothing occurs twice.
pub proof fn lemma_arrangement_visits_each_once(order: Seq<usize>)
    requires
        is_arrangement(order),
        order.len() <= usize::MAX,
    ensures
        order.no_duplicates(),
        forall|i: usize| i < order.len() ==> order.contains(i),
        forall|k: int| 0 <= k < order.len() ==> order[k] < order.len(),
{
    let base = ascending(order.len());
    order.to_multiset_ensures();
    base.to_multiset_ensures();
    base.lemma_multiset_has_no_duplicates();
    order.lemma_multiset_has_no_duplicates_conv();
    assert forall|i: usize| i < order.len() implies order.contains(i) by {
        assert(base[i as int] == i);
        assert(base.to_multiset().count(i) > 0);
        assert(order.to_multiset().count(i) > 0);
    }
    assert forall|k: int| 0 <= k < order.len() implies order[k] < order.len() by {
        assert(order.to_multiset().count(order[k]) > 0);
        assert(base.to_multiset().count(order[k]) > 0);
        assert(base.contains(order[k]));
    }
}

/// A rearrangement of an arrangement is an arrangement.
pub proof fn lemma_rearranged_arrangement(before: Seq<usize>, after: Seq<usize>)
    requires
        is_arrangement(before),
        is_rearranged(after, before),
    ensures
        is_arrangement(after),
{
    before.to_multiset_ensures();
    after.to_multiset_ensures();
}

/// An arrangement of sample indices.
struct Arrangement {
    items: Vec<usize>,
}

impl Arrangement {
    #[verifier::type_invariant]
    spec fn well_formed(&self) -> bool {
        is_arrangement(self.items@)
    }
}

/// The order in which the samples are visited, with the generator that
/// reshuffles it.
pub struct SampleOrder {
    order: Arrangement,
    generator: StdRng,
}

impl View for SampleOrder {
    type V = Seq<usize>;

    /// The sample indices, in the order of the visit.
    closed spec fn view(&self) -> Seq<usize> {
        self.order.items@
    }
}

impl SampleOrder {
    /// The state of the generator: the seed it was made from, and how far it
    /// has drawn since.
    pub closed spec fn drawn(&self) -> (u64, nat) {
        generator_state(self.generator)
    }

    /// The ascending order over `total` samples, with a generator made from
    /// `seed` that has drawn nothing yet.
    pub fn new(total: usize, seed: u64) -> (samples: Self)
        ensures
            samples@ == ascending(total as nat),
            samples.drawn() == (seed, 0nat),
            (samples@, samples.drawn()) == after_shuffles(total as nat, seed, 0),
    {
        let mut items: Vec<usize> = Vec::new();
        let mut i: usize = 0;
        while i < total
            invariant
                i <= total,
                items@ == ascending(i as nat),
            decreases total - i,
        {
            items.push(i);
            i += 1;
            assert(items@ =~= ascending(i as nat));
        }
        SampleOrder { order: Arrangement { items }, generator: seeded_generator(seed) }
    }

    /// The number of samples.
    pub fn len(&self) -> (len: usize)
        ensures
            len == self@.len(),
    {
        self.order.items.len()
    }

    /// The sample indices, in the order of the visit.
    pub fn as_vec(&self) -> (order: &Vec<usize>)
        ensures
            order@ == self@,
            is_arrangement(order@),
    {
        proof {
            use_type_invariant(&self.order);
        }
        &self.order.items
    }

    /// Puts the samples into a new order, the one that the generator gives
    /// for the old order in the state it is in. Every sample is still there
    /// once.
    pub fn reshuffle(&mut self)
        ensures
            final(self)@ == next_order(old(self)@, old(self).drawn()),
            final(self).drawn() == next_state(old(self)@, old(self).drawn()),
            is_rearranged(final(self)@, old(self)@),
            is_arrangement(final(self)@),
            final(self)@.len() == old(self)@.len(),
    {
        proof {
            use_type_invariant(&self.order);
        }
        let mut items: Vec<usize> = Vec::new();
        assert(items@ =~= ascending(0));
        core::mem::swap(&mut self.order.items, &mut items);
        shuffle(&mut items, &mut self.generator);
        proof {
            lemma_rearranged_arrangement(old(self)@, items@);
        }
        core::mem::swap(&mut self.order.items, &mut items);
    }
}

} // verus!
