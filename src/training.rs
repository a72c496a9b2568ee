use vstd::prelude::*;

use rand::rngs::StdRng;

verus! {

/// Every epoch whose number is a multiple of this ends with an error report.
pub const REPORT_INTERVAL: usize = 100;

#[verifier::external_type_specification]
#[verifier::external_body]
pub struct ExStdRng(StdRng);

/// Relies on `rand::Rng::gen_range`, which draws a value from the half-open
/// range `low..high` and panics where that range is empty.
#[verifier::external_body]
fn draw_index(rng: &mut StdRng, n: usize) -> (r: usize)
    requires
        n > 0,
    ensures
        r < n,
{
    rand::Rng::gen_range::<usize, usize, usize>(rng, 0, n)
}

/// Whether the error over the whole training set is reported after `epoch`.
pub open spec fn is_report_epoch(epoch: usize) -> bool {
    epoch % REPORT_INTERVAL == 0
}

/// What the training loop does next.
#[derive(Clone, Copy, Debug, PartialEq, Eq, Structural)]
pub enum TrainingStep {
    /// One step of gradient descent on the sample at `index`.
    Sample { index: usize },
    /// The end of `epoch`; where `report` holds, the mean error over the
    /// whole training set is computed and reported.
    EndOfEpoch { epoch: usize, report: bool },
    /// All epochs are done.
    Finished,
}

/// The order of training: each epoch takes as many steps as there are
/// samples, each on a sample drawn uniformly at random with replacement (so
/// an epoch need not visit every sample), then ends, with a report after
/// every epoch whose number is a multiple of `REPORT_INTERVAL`.
pub struct TrainingSchedule {
    epochs: usize,
    samples: usize,
    epoch: usize,
    step: usize,
    rng: StdRng,
}

impl TrainingSchedule {
    pub closed spec fn spec_epochs(&self) -> usize {
        self.epochs
    }

    pub closed spec fn spec_samples(&self) -> usize {
        self.samples
    }

    /// The epoch under way, or `spec_epochs()` once all are done.
    pub closed spec fn spec_epoch(&self) -> usize {
        self.epoch
    }

    /// The steps taken so far in the epoch under way.
    pub closed spec fn spec_step(&self) -> usize {
        self.step
    }

    pub open spec fn wf(&self) -> bool {
        &&& self.spec_epoch() <= self.spec_epochs()
        &&& self.spec_step() <= self.spec_samples()
        &&& self.spec_epoch() == self.spec_epochs() ==> self.spec_step() == 0
    }

    /// A schedule of `epochs` epochs over `samples` samples, drawing sample
    /// indices from `rng`.
    pub fn new(epochs: usize, samples: usize, rng: StdRng) -> (r: TrainingSchedule)
        ensures
            r.wf(),
            r.spec_epochs() == epochs,
            r.spec_samples() == samples,
            r.spec_epoch() == 0,
            r.spec_step() == 0,
    {
        TrainingSchedule { epochs, samples, epoch: 0, step: 0, rng }
    }

    pub fn epoch(&self) -> (r: usize)
        ensures
            r == self.spec_epoch(),
    {
        self.epoch
    }

    pub fn is_finished(&self) -> (r: bool)
        ensures
            r == (self.spec_epoch() == self.spec_epochs()),
    {
        self.epoch == self.epochs
    }

    /// Says what to do next and moves past it.
    pub fn next_step(&mut self) -> (r: TrainingStep)
        requires
            old(self).wf(),
        ensures
            final(self).wf(),
            final(self).spec_epochs() == old(self).spec_epochs(),
            final(self).spec_samples() == old(self).spec_samples(),
            old(self).spec_epoch() == old(self).spec_epochs() ==> {
                &&& r == TrainingStep::Finished
                &&& final(self).spec_epoch() == old(self).spec_epoch()
                &&& final(self).spec_step() == old(self).spec_step()
            },
            old(self).spec_epoch() < old(self).spec_epochs() && old(self).spec_step() < old(self).spec_samples() ==> {
                &&& r matches TrainingStep::Sample { index }
                &&& r->index < old(self).spec_samples()
                &&& final(self).spec_epoch() == old(self).spec_epoch()
                &&& final(self).spec_step() == old(self).spec_step() + 1
            },
            old(self).spec_epoch() < old(self).spec_epochs() && old(self).spec_step() == old(self).spec_samples() ==> {
                &&& r == (TrainingStep::EndOfEpoch {
                    epoch: old(self).spec_epoch(),
                    report: is_report_epoch(old(self).spec_epoch()),
                })
                &&& final(self).spec_epoch() == old(self).spec_epoch() + 1
                &&& final(self).spec_step() == 0
            },
    {
        if self.epoch == self.epochs {
            return TrainingStep::Finished;
        }
        if self.step < self.samples {
            let index = draw_index(&mut self.rng, self.samples);
            self.step = self.step + 1;
            return TrainingStep::Sample { index };
        }
        let epoch = self.epoch;
        self.epoch = self.epoch + 1;
        self.step = 0;
        TrainingStep::EndOfEpoch { epoch, report: epoch % REPORT_INTERVAL == 0 }
    }
}

} // verus!
