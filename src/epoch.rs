use vstd::prelude::*;

use crate::accumulation::{effective_window, flushes_at, lemma_window_step, Accumulation};

verus! {

/// What to do with the gradients of one processed training item.
#[derive(PartialEq, Eq, Structural, Clone, Copy, Debug)]
pub enum GradientAction {
    /// No window: update the optimizer with this item's gradients alone.
    ApplyNow,
    /// Merge the gradients into the accumulator; no update for this item.
    Accumulate,
    /// Merge the gradients, then update the optimizer with the accumulated
    /// sum, which is cleared.
    AccumulateAndApply,
}

/// Positional data and gradient decision for one processed training item.
#[derive(PartialEq, Eq, Structural, Clone, Copy, Debug)]
pub struct ItemPlan {
    pub epoch: usize,
    pub epoch_total: usize,
    /// Iteration number of the item within its epoch, counting from 1.
    pub iteration: usize,
    pub action: GradientAction,
}

/// Configuration that no epoch can start with.
#[derive(PartialEq, Eq, Structural, Clone, Copy, Debug)]
pub enum EpochError {
    /// A multi-device run was asked for with no device.
    NoDevice,
}

/// The action for the item numbered `iteration` under an accumulation
/// window (`None`: no window).
pub open spec fn action_for(window: Option<nat>, iteration: nat) -> GradientAction {
    match window {
        None => GradientAction::ApplyNow,
        Some(w) => if flushes_at(w, iteration) {
            GradientAction::AccumulateAndApply
        } else {
            GradientAction::Accumulate
        },
    }
}

/// Whether an action ends in an optimizer update.
pub open spec fn updates(a: GradientAction) -> bool {
    a != GradientAction::Accumulate
}

/// The accumulation window of a multi-device run: the configured window, or
/// one, times the number of devices.
pub open spec fn multi_device_window(grad_accumulation: Option<usize>, devices: nat) -> nat {
    match grad_accumulation {
        None => devices,
        Some(w) => (w as nat) * devices,
    }
}

/// A validation epoch.
pub struct ValidEpoch {
    epoch: usize,
    epoch_total: usize,
}

/// State of one validation pass.
pub struct ValidRun {
    epoch: usize,
    epoch_total: usize,
    iteration: usize,
    stopped: bool,
}

impl ValidEpoch {
    pub closed spec fn epoch_index(&self) -> nat {
        self.epoch as nat
    }

    pub closed spec fn total(&self) -> nat {
        self.epoch_total as nat
    }

    pub fn new(epoch: usize, epoch_total: usize) -> (r: ValidEpoch)
        ensures
            r.epoch_index() == epoch,
            r.total() == epoch_total,
    {
        ValidEpoch { epoch, epoch_total }
    }

    pub fn epoch(&self) -> (r: usize)
        ensures
            r == self.epoch_index(),
    {
        self.epoch
    }

    pub fn epoch_total(&self) -> (r: usize)
        ensures
            r == self.total(),
    {
        self.epoch_total
    }

    /// Starts the pass: no item processed yet.
    pub fn start(&self) -> (r: ValidRun)
        ensures
            r.epoch_index() == self.epoch_index(),
            r.total() == self.total(),
            r.iteration() == 0,
            !r.stopped(),
    {
        ValidRun { epoch: self.epoch, epoch_total: self.epoch_total, iteration: 0, stopped: false }
    }

    /// Ends the pass, whether the data ran out or it was cancelled, and gives
    /// the epoch index that the end-of-epoch event carries. The run is
    /// consumed: no item can follow the end.
    pub fn finish(&self, run: ValidRun) -> (ended: usize)
        ensures
            ended == self.epoch_index(),
    {
        self.epoch
    }
}

impl ValidRun {
    pub closed spec fn epoch_index(&self) -> nat {
        self.epoch as nat
    }

    pub closed spec fn total(&self) -> nat {
        self.epoch_total as nat
    }

    /// Items processed so far in this pass.
    pub closed spec fn iteration(&self) -> nat {
        self.iteration as nat
    }

    /// Whether cancellation was observed.
    pub closed spec fn stopped(&self) -> bool {
        self.stopped
    }

    pub fn current_iteration(&self) -> (r: usize)
        ensures
            r == self.iteration(),
    {
        self.iteration
    }

    /// Numbers the item just fetched: one more than the previous one.
    pub fn begin_item(&mut self) -> (iteration: usize)
        requires
            !old(self).stopped(),
            old(self).iteration() < usize::MAX,
        ensures
            iteration == old(self).iteration() + 1,
            final(self).iteration() == iteration,
            final(self).epoch_index() == old(self).epoch_index(),
            final(self).total() == old(self).total(),
            !final(self).stopped(),
    {
        self.iteration = self.iteration + 1;
        self.iteration
    }

    /// Takes the cancellation flag read after the item's event was emitted;
    /// returns whether to fetch another item.
    pub fn after_item(&mut self, should_stop: bool) -> (go_on: bool)
        requires
            !old(self).stopped(),
        ensures
            go_on == !should_stop,
            final(self).stopped() == should_stop,
            final(self).iteration() == old(self).iteration(),
            final(self).epoch_index() == old(self).epoch_index(),
            final(self).total() == old(self).total(),
    {
        self.stopped = should_stop;
        !should_stop
    }
}

/// A training epoch.
pub struct TrainEpoch {
    epoch: usize,
    epoch_total: usize,
    grad_accumulation: Option<usize>,
}

/// State of one training pass, on one device or on several in lock-step.
pub struct TrainRun {
    epoch: usize,
    epoch_total: usize,
    iteration: usize,
    accumulation: Option<Accumulation>,
    devices: usize,
    multi: bool,
    batch_left: usize,
    stopped: bool,
}

impl TrainEpoch {
    pub closed spec fn epoch_index(&self) -> nat {
        self.epoch as nat
    }

    pub closed spec fn total(&self) -> nat {
        self.epoch_total as nat
    }

    pub closed spec fn accumulation(&self) -> Option<usize> {
        self.grad_accumulation
    }

    pub fn new(epoch: usize, epoch_total: usize, grad_accumulation: Option<usize>) -> (r: TrainEpoch)
        ensures
            r.epoch_index() == epoch,
            r.total() == epoch_total,
            r.accumulation() == grad_accumulation,
    {
        TrainEpoch { epoch, epoch_total, grad_accumulation }
    }

    pub fn epoch(&self) -> (r: usize)
        ensures
            r == self.epoch_index(),
    {
        self.epoch
    }

    pub fn epoch_total(&self) -> (r: usize)
        ensures
            r == self.total(),
    {
        self.epoch_total
    }

    pub fn grad_accumulation(&self) -> (r: Option<usize>)
        ensures
            r == self.accumulation(),
    {
        self.grad_accumulation
    }

    /// Starts a single-device pass: iteration 0, nothing accumulated, and the
    /// configured window (if any) as the accumulation window.
    pub fn start(&self) -> (r: TrainRun)
        ensures
            r.wf(),
            r.epoch_index() == self.epoch_index(),
            r.total() == self.total(),
            r.iteration() == 0,
            !r.stopped(),
            !r.is_multi(),
            r.devices() == 1,
            r.window() == (match self.accumulation() {
                None => None::<nat>,
                Some(w) => Some(effective_window(w as nat)),
            }),
    {
        let accumulation = match self.grad_accumulation {
            None => None,
            Some(w) => Some(Accumulation::new(w)),
        };
        TrainRun {
            epoch: self.epoch,
            epoch_total: self.epoch_total,
            iteration: 0,
            accumulation,
            devices: 1,
            multi: false,
            batch_left: 0,
            stopped: false,
        }
    }

    /// Starts a pass over `devices` devices in lock-step. Every item's
    /// gradients go through the accumulator, whose window is the configured
    /// window (or one) times the number of devices. Refused with no device.
    pub fn start_multi_device(&self, devices: usize) -> (r: Result<TrainRun, EpochError>)
        requires
            multi_device_window(self.accumulation(), devices as nat) <= usize::MAX,
        ensures
            devices == 0 <==> r is Err,
            r is Err ==> r == Err::<TrainRun, EpochError>(EpochError::NoDevice),
            r matches Ok(run) ==> {
                &&& run.wf()
                &&& run.epoch_index() == self.epoch_index()
                &&& run.total() == self.total()
                &&& run.iteration() == 0
                &&& !run.stopped()
                &&& run.is_multi()
                &&& run.devices() == devices
                &&& run.batch_left() == 0
                &&& run.window() == Some(
                    effective_window(multi_device_window(self.accumulation(), devices as nat)),
                )
            },
    {
        if devices == 0 {
            return Err(EpochError::NoDevice);
        }
        let per_device: usize = match self.grad_accumulation {
            None => 1,
            Some(w) => w,
        };
        assert(per_device as nat * devices as nat == multi_device_window(
            self.grad_accumulation,
            devices as nat,
        ));
        let window: usize = per_device * devices;
        Ok(
            TrainRun {
                epoch: self.epoch,
                epoch_total: self.epoch_total,
                iteration: 0,
                accumulation: Some(Accumulation::new(window)),
                devices,
                multi: true,
                batch_left: 0,
                stopped: false,
            },
        )
    }

    /// Ends the pass, whether the data ran out or it was cancelled: gives the
    /// epoch index that the end-of-epoch event carries and moves on to the
    /// next epoch. The run is consumed: no item can follow the end.
    pub fn finish(&mut self, run: TrainRun) -> (ended: usize)
        requires
            old(self).epoch_index() < usize::MAX,
        ensures
            ended == old(self).epoch_index(),
            final(self).epoch_index() == old(self).epoch_index() + 1,
            final(self).total() == old(self).total(),
            final(self).accumulation() == old(self).accumulation(),
    {
        let ended = self.epoch;
        self.epoch = self.epoch + 1;
        ended
    }
}

impl TrainRun {
    pub closed spec fn epoch_index(&self) -> nat {
        self.epoch as nat
    }

    pub closed spec fn total(&self) -> nat {
        self.epoch_total as nat
    }

    /// Items processed so far in this pass, over all devices.
    pub closed spec fn iteration(&self) -> nat {
        self.iteration as nat
    }

    /// Accumulation window, if gradients are accumulated.
    pub closed spec fn window(&self) -> Option<nat> {
        match self.accumulation {
            None => None,
            Some(a) => Some(a.window()),
        }
    }

    /// Contributions merged since the last optimizer update.
    pub closed spec fn pending(&self) -> nat {
        match self.accumulation {
            None => 0,
            Some(a) => a.pending(),
        }
    }

    pub closed spec fn devices(&self) -> nat {
        self.devices as nat
    }

    pub closed spec fn is_multi(&self) -> bool {
        self.multi
    }

    /// Items of the current lock-step iteration not yet processed.
    pub closed spec fn batch_left(&self) -> nat {
        self.batch_left as nat
    }

    /// Whether cancellation was observed, or a lock-step iteration could not
    /// be filled.
    pub closed spec fn stopped(&self) -> bool {
        self.stopped
    }

    pub closed spec fn wf(&self) -> bool {
        &&& 1 <= self.devices
        &&& self.batch_left <= self.devices
        &&& (!self.multi ==> self.devices == 1 && self.batch_left == 0)
        &&& (self.multi ==> self.accumulation is Some)
        &&& match self.accumulation {
            None => true,
            Some(a) => a.wf() && a.pending() == (self.iteration as nat) % a.window(),
        }
    }

    pub fn current_iteration(&self) -> (r: usize)
        ensures
            r == self.iteration(),
    {
        self.iteration
    }

    pub proof fn lemma_wf_pending(&self)
        requires
            self.wf(),
        ensures
            self.window() matches Some(w) ==> w >= 1 && self.pending() == self.iteration() % w,
            self.window() is None ==> self.pending() == 0,
    {
    }

    /// Takes the number of items fetched for a new lock-step iteration, one
    /// per device at most. The iteration is processed only when every device
    /// gave an item; otherwise the pass ends here and a ragged last
    /// iteration is dropped.
    pub fn begin_iteration(&mut self, fetched: usize) -> (proceed: bool)
        requires
            old(self).wf(),
            old(self).is_multi(),
            !old(self).stopped(),
            old(self).batch_left() == 0,
        ensures
            final(self).wf(),
            proceed == (fetched == old(self).devices()),
            final(self).batch_left() == (if proceed {
                old(self).devices()
            } else {
                0
            }),
            final(self).stopped() == !proceed,
            final(self).iteration() == old(self).iteration(),
            final(self).window() == old(self).window(),
            final(self).pending() == old(self).pending(),
            final(self).devices() == old(self).devices(),
            final(self).is_multi(),
            final(self).epoch_index() == old(self).epoch_index(),
            final(self).total() == old(self).total(),
    {
        if fetched == self.devices {
            self.batch_left = self.devices;
            true
        } else {
            self.stopped = true;
            false
        }
    }

    /// Numbers the next item (one more than the previous one, over all
    /// devices) and decides what becomes of its gradients.
    pub fn begin_item(&mut self) -> (plan: ItemPlan)
        requires
            old(self).wf(),
            !old(self).stopped(),
            old(self).iteration() < usize::MAX,
            old(self).is_multi() ==> old(self).batch_left() > 0,
        ensures
            final(self).wf(),
            plan.iteration == old(self).iteration() + 1,
            plan.epoch == old(self).epoch_index(),
            plan.epoch_total == old(self).total(),
            plan.action == action_for(old(self).window(), plan.iteration as nat),
            final(self).iteration() == plan.iteration,
            final(self).pending() == (if updates(plan.action) {
                0
            } else {
                old(self).pending() + 1
            }),
            final(self).batch_left() == (if old(self).is_multi() {
                old(self).batch_left() - 1
            } else {
                0
            }),
            !final(self).stopped(),
            final(self).window() == old(self).window(),
            final(self).devices() == old(self).devices(),
            final(self).is_multi() == old(self).is_multi(),
            final(self).epoch_index() == old(self).epoch_index(),
            final(self).total() == old(self).total(),
    {
        let iteration = self.iteration + 1;
        self.iteration = iteration;
        if self.multi {
            self.batch_left = self.batch_left - 1;
        }
        let action = match self.accumulation {
            None => GradientAction::ApplyNow,
            Some(a) => {
                let mut acc = a;
                let ghost w = acc.window();
                let ghost p = acc.pending();
                let flush = acc.record();
                self.accumulation = Some(acc);
                proof {
                    lemma_window_step(w, (iteration - 1) as nat);
                }
                if flush {
                    GradientAction::AccumulateAndApply
                } else {
                    GradientAction::Accumulate
                }
            },
        };
        ItemPlan { epoch: self.epoch, epoch_total: self.epoch_total, iteration, action }
    }

    /// Takes the cancellation flag read after the item's event was emitted;
    /// returns whether to go on with another item.
    pub fn after_item(&mut self, should_stop: bool) -> (go_on: bool)
        requires
            old(self).wf(),
            !old(self).stopped(),
        ensures
            final(self).wf(),
            go_on == !should_stop,
            final(self).stopped() == should_stop,
            final(self).iteration() == old(self).iteration(),
            final(self).window() == old(self).window(),
            final(self).pending() == old(self).pending(),
            final(self).batch_left() == old(self).batch_left(),
            final(self).devices() == old(self).devices(),
            final(self).is_multi() == old(self).is_multi(),
            final(self).epoch_index() == old(self).epoch_index(),
            final(self).total() == old(self).total(),
    {
        self.stopped = should_stop;
        !should_stop
    }
}

} // verus!
