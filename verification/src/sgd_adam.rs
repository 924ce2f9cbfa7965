//! The minibatch Adam driver as a state machine.
//!
//! A run is a sequence of epochs. Before an epoch the caller reports whether
//! the full gradient is small enough ([`SgdRun::begin_epoch`]); unless that
//! ends the run it is handed the minibatches of the epoch, a fresh shuffle of
//! all samples cut into pieces. It makes one Adam update for each and
//! reports the outcome ([`SgdRun::finish_batch`]), and closes the epoch
//! ([`SgdRun::finish_epoch`]).

use vstd::prelude::*;
use crate::batching::{batch_views, chunks, lemma_chunks_cover, split_batches};
use crate::sampling::{
    after_shuffles, ascending, is_arrangement, is_rearranged, lemma_shuffles_follow_the_seed,
    next_order, next_state, SampleOrder,
};
use crate::Status;

verus! {

/// The seed of the shuffles unless told otherwise.
pub const DEFAULT_SEED: u64 = 1;

/// The settings of a minibatch Adam run.
#[derive(Clone, Copy, Debug, PartialEq, Eq, Structural)]
pub struct SgdAdam {
    max_iter: usize,
    seed: u64,
}

/// A setting that no run can be started with.
#[derive(Clone, Copy, Debug, PartialEq, Eq, Structural)]
pub enum InvalidConfiguration {
    /// The batch size is zero.
    ZeroBatch,
}

/// How an epoch begins.
#[derive(Clone, Debug)]
pub enum Epoch {
    /// It does not: the run has ended.
    Stop(Status),
    /// With these minibatches of sample indices, to be worked through in
    /// order.
    Batches(Vec<Vec<usize>>),
}

impl Default for SgdAdam {
    fn default() -> (settings: Self)
        ensures
            settings.epoch_limit() == 0,
            settings.shuffle_seed() == DEFAULT_SEED,
    {
        SgdAdam { max_iter: 0, seed: DEFAULT_SEED }
    }
}

impl SgdAdam {
    /// Settings that stop a run after `max_iter` epochs, or never if that is
    /// 0, and shuffle from `seed`.
    pub fn new(max_iter: usize, seed: u64) -> (settings: Self)
        ensures
            settings.epoch_limit() == max_iter,
            settings.shuffle_seed() == seed,
    {
        SgdAdam { max_iter, seed }
    }

    /// The number of epochs after which a run stops; 0 for none.
    pub closed spec fn epoch_limit(&self) -> nat {
        self.max_iter as nat
    }

    /// The seed of the generator that shuffles the samples.
    pub closed spec fn shuffle_seed(&self) -> u64 {
        self.seed
    }

    /// The same settings, but stopping after `max_iter` epochs; 0 lifts the
    /// limit.
    pub fn with_max_iter(self, max_iter: usize) -> (settings: Self)
        ensures
            settings.epoch_limit() == max_iter,
            settings.shuffle_seed() == self.shuffle_seed(),
    {
        SgdAdam { max_iter, seed: self.seed }
    }

    /// The same settings, but shuffling from `seed`.
    pub fn with_seed(self, seed: u64) -> (settings: Self)
        ensures
            settings.epoch_limit() == self.epoch_limit(),
            settings.shuffle_seed() == seed,
    {
        SgdAdam { max_iter: self.max_iter, seed }
    }

    /// The number of epochs after which a run stops; 0 for none.
    pub fn max_iter(&self) -> (max_iter: usize)
        ensures
            max_iter == self.epoch_limit(),
    {
        self.max_iter
    }

    /// The seed of the generator that shuffles the samples.
    pub fn seed(&self) -> (seed: u64)
        ensures
            seed == self.shuffle_seed(),
    {
        self.seed
    }

    /// Whether a run that has completed `epochs` epochs ends before the next
    /// one, and how. Convergence is looked at before the epoch limit.
    pub open spec fn stops(&self, epochs: nat, converged: bool) -> Option<Status> {
        if converged {
            Some(Status::Epsilon)
        } else if self.epoch_limit() != 0 && epochs >= self.epoch_limit() {
            Some(Status::MaxIter)
        } else {
            None
        }
    }

    /// A run over `total` samples in minibatches of `batch`, before its first
    /// epoch, with the samples in ascending order. A batch size of zero is
    /// refused.
    pub fn start(&self, total: usize, batch: usize) -> (run: Result<SgdRun, InvalidConfiguration>)
        ensures
            batch == 0 <==> run is Err,
            run matches Err(error) ==> error == InvalidConfiguration::ZeroBatch,
            run matches Ok(run) ==> {
                &&& run.settings() == *self
                &&& run.batch_size() == batch
                &&& run.order() == ascending(total as nat)
                &&& run.drawn() == (self.shuffle_seed(), 0nat)
                &&& run.epochs() == 0
                &&& run.outcome() is None
            },
    {
        if batch == 0 {
            Err(InvalidConfiguration::ZeroBatch)
        } else {
            Ok(
                SgdRun {
                    settings: *self,
                    batch: BatchSize { size: batch },
                    samples: SampleOrder::new(total, self.seed),
                    epoch: 0,
                    status: None,
                },
            )
        }
    }
}

/// The minibatches of an epoch, taken together, hold every sample exactly
/// once: put one after the other they are an arrangement of all samples.
pub proof fn lemma_epoch_visits_each_sample_once(order: Seq<usize>, batch: nat)
    requires
        is_arrangement(order),
        batch > 0,
    ensures
        chunks(order, batch).flatten() == order,
        is_arrangement(chunks(order, batch).flatten()),
{
    lemma_chunks_cover(order, batch);
}

/// The minibatches of the epoch that is begun after `epoch` others, in a
/// run over `total` samples in minibatches of `batch` that shuffles from
/// `seed`.
pub open spec fn epoch_batches(total: nat, seed: u64, batch: nat, epoch: nat) -> Seq<Seq<usize>> {
    chunks(after_shuffles(total, seed, epoch + 1).0, batch)
}

/// Two runs that stand alike go on alike: if they agree in the order of
/// their samples, in the state of their generators and in their batch size,
/// their next epochs hand out the same minibatches, sample for sample, and
/// leave them agreeing again. Runs started with one seed, one batch size and
/// as many samples stand alike at the start.
pub proof fn lemma_runs_that_agree_stay_agreed(a: SgdRun, b: SgdRun)
    requires
        a.order() == b.order(),
        a.drawn() == b.drawn(),
        a.batch_size() == b.batch_size(),
    ensures
        a.next_batches() == b.next_batches(),
        next_order(a.order(), a.drawn()) == next_order(b.order(), b.drawn()),
        next_state(a.order(), a.drawn()) == next_state(b.order(), b.drawn()),
{
}

/// The seed decides every epoch: a run that has begun `epoch` epochs since
/// its start over `total` samples from `seed`, and stands where they lead,
/// hands out in its next epoch the minibatches that `total`, `seed`, the
/// batch size and `epoch` give, and stands where `epoch + 1` epochs lead.
pub proof fn lemma_epochs_follow_the_seed(run: SgdRun, total: nat, seed: u64, epoch: nat)
    requires
        (run.order(), run.drawn()) == after_shuffles(total, seed, epoch),
    ensures
        run.next_batches() == epoch_batches(total, seed, run.batch_size(), epoch),
        (next_order(run.order(), run.drawn()), next_state(run.order(), run.drawn()))
            == after_shuffles(total, seed, epoch + 1),
{
    lemma_shuffles_follow_the_seed(total, seed, epoch, run.order(), run.drawn());
}

/// A run whose full gradient is small ends as converged, at its epoch limit
/// too; one that is at its epoch limit and has not converged ends there.
pub proof fn lemma_convergence_comes_before_the_limit(settings: SgdAdam, epochs: nat)
    ensures
        settings.stops(epochs, true) == Some(Status::Epsilon),
        settings.epoch_limit() != 0 && epochs >= settings.epoch_limit() ==> settings.stops(
            epochs,
            false,
        ) == Some(Status::MaxIter),
{
}

/// A batch size, which is never zero.
struct BatchSize {
    size: usize,
}

impl BatchSize {
    #[verifier::type_invariant]
    spec fn well_formed(&self) -> bool {
        self.size > 0
    }
}

/// A minibatch Adam run: the epochs completed, the order of the samples,
/// and, once it has ended, why.
pub struct SgdRun {
    settings: SgdAdam,
    batch: BatchSize,
    samples: SampleOrder,
    epoch: usize,
    status: Option<Status>,
}

impl SgdRun {
    /// The settings the run was started with.
    pub closed spec fn settings(&self) -> SgdAdam {
        self.settings
    }

    /// The number of samples in a minibatch.
    pub closed spec fn batch_size(&self) -> nat {
        self.batch.size as nat
    }

    /// The samples in the order of the last shuffle.
    pub closed spec fn order(&self) -> Seq<usize> {
        self.samples@
    }

    /// The state of the generator that shuffles the samples: the seed it was
    /// made from, and how far it has drawn since.
    pub closed spec fn drawn(&self) -> (u64, nat) {
        self.samples.drawn()
    }

    /// The minibatches that the next epoch hands out, if the run goes on: the
    /// next shuffle of the samples, cut into pieces.
    pub open spec fn next_batches(&self) -> Seq<Seq<usize>> {
        chunks(next_order(self.order(), self.drawn()), self.batch_size())
    }

    /// The number of epochs completed.
    pub closed spec fn epochs(&self) -> nat {
        self.epoch as nat
    }

    /// Why the run ended, if it has.
    pub closed spec fn outcome(&self) -> Option<Status> {
        self.status
    }

    /// The time step `t` of the bias correction in the current epoch, as a
    /// power's exponent: the number of the epoch, counted from 1 and held at
    /// the largest exponent there is.
    pub open spec fn time_step(&self) -> int {
        if self.epochs() + 1 <= i32::MAX {
            (self.epochs() + 1) as int
        } else {
            i32::MAX as int
        }
    }

    /// The number of epochs completed.
    pub fn epoch(&self) -> (epoch: usize)
        ensures
            epoch == self.epochs(),
    {
        self.epoch
    }

    /// Why the run ended, if it has.
    pub fn status(&self) -> (status: Option<Status>)
        ensures
            status == self.outcome(),
    {
        self.status
    }

    /// The exponent of the bias correction in the current epoch. It is the
    /// same for every minibatch of the epoch.
    pub fn bias_exponent(&self) -> (exponent: i32)
        ensures
            exponent == self.time_step(),
            exponent >= 1,
    {
        if self.epoch < 0x7fff_ffff {
            (self.epoch + 1) as i32
        } else {
            0x7fff_ffff
        }
    }

    /// Opens the next epoch, given whether the full gradient is below the
    /// threshold. Unless the run ends here, the samples are shuffled and cut
    /// into minibatches: every sample is in exactly one of them.
    pub fn begin_epoch(&mut self, converged: bool) -> (epoch: Epoch)
        ensures
            old(self).batch_size() >= 1,
            final(self).settings() == old(self).settings(),
            final(self).batch_size() == old(self).batch_size(),
            final(self).epochs() == old(self).epochs(),
            match old(self).outcome() {
                Some(ended) => epoch == Epoch::Stop(ended),
                None => match old(self).settings().stops(old(self).epochs(), converged) {
                    Some(status) => epoch == Epoch::Stop(status),
                    None => epoch is Batches,
                },
            },
            match epoch {
                Epoch::Stop(status) => {
                    &&& final(self).outcome() == Some(status)
                    &&& final(self).order() == old(self).order()
                    &&& final(self).drawn() == old(self).drawn()
                },
                Epoch::Batches(batches) => {
                    &&& final(self).outcome() is None
                    &&& final(self).order() == next_order(old(self).order(), old(self).drawn())
                    &&& final(self).drawn() == next_state(old(self).order(), old(self).drawn())
                    &&& is_rearranged(final(self).order(), old(self).order())
                    &&& is_arrangement(final(self).order())
                    &&& batch_views(batches@) == old(self).next_batches()
                },
            },
    {
        proof {
            use_type_invariant(&self.batch);
        }
        if let Some(ended) = self.status {
            return Epoch::Stop(ended);
        }
        let max_iter = self.settings.max_iter;
        if converged {
            self.status = Some(Status::Epsilon);
            Epoch::Stop(Status::Epsilon)
        } else if max_iter != 0 && self.epoch >= max_iter {
            self.status = Some(Status::MaxIter);
            Epoch::Stop(Status::MaxIter)
        } else {
            self.samples.reshuffle();
            Epoch::Batches(split_batches(self.samples.as_vec(), self.batch.size))
        }
    }

    /// Takes in whether the point is still finite after the update for one
    /// minibatch. A point that is not ends the run.
    pub fn finish_batch(&mut self, finite: bool) -> (status: Option<Status>)
        ensures
            status == match old(self).outcome() {
                Some(ended) => Some(ended),
                None => if finite {
                    None
                } else {
                    Some(Status::NaN)
                },
            },
            final(self).outcome() == status,
            final(self).settings() == old(self).settings(),
            final(self).batch_size() == old(self).batch_size(),
            final(self).order() == old(self).order(),
            final(self).drawn() == old(self).drawn(),
            final(self).epochs() == old(self).epochs(),
    {
        if self.status.is_none() && !finite {
            self.status = Some(Status::NaN);
        }
        self.status
    }

    /// Closes the epoch: the time step moves on. A run whose counter cannot
    /// go further ends as a success.
    pub fn finish_epoch(&mut self) -> (status: Option<Status>)
        ensures
            status == match old(self).outcome() {
                Some(ended) => Some(ended),
                None => if old(self).epochs() == usize::MAX {
                    Some(Status::Success)
                } else {
                    None
                },
            },
            final(self).outcome() == status,
            final(self).settings() == old(self).settings(),
            final(self).batch_size() == old(self).batch_size(),
            final(self).order() == old(self).order(),
            final(self).drawn() == old(self).drawn(),
            final(self).epochs() == if status is None {
                old(self).epochs() + 1
            } else {
                old(self).epochs()
            },
    {
        if self.status.is_none() {
            if self.epoch == usize::MAX {
                self.status = Some(Status::Success);
            } else {
                self.epoch = self.epoch + 1;
            }
        }
        self.status
    }
}

} // verus!
