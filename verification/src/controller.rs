//! The pipeline in one piece: a scheduler, a multiplexer, and the store and
//! the analyzer that the multiplexer feeds.
//!
//! A caller that keeps store and analyzer on threads of their own uses the
//! parts, and acts on the `reset` that the scheduler hands out; this type is
//! for one that runs the pipeline in one place.

use crate::multiplexer::Multiplexer;
use crate::samples::{keep_last, Samples};
use crate::scheduler::{CycleStart, Scheduler};
use crate::simulation_options::TimeScale;
use crate::spectrum::SpectrumAnalyzer;
use vstd::prelude::*;

verus! {

/// One pipeline: the pacing of virtual time, the way of the samples, and
/// where they end up.
#[derive(Clone, Debug)]
pub struct Controller<T, F> {
    pub scheduler: Scheduler,
    pub multiplexer: Multiplexer,
    pub samples: Samples<T>,
    pub spectrum: SpectrumAnalyzer<T, F>,
}

impl<T, F> Controller<T, F> {
    /// The store and the analyzer are within their bounds.
    pub open spec fn wf(&self) -> bool {
        self.samples.wf() && self.spectrum@.wf()
    }

    /// A pipeline of these four parts.
    pub fn new(
        scheduler: Scheduler,
        multiplexer: Multiplexer,
        samples: Samples<T>,
        spectrum: SpectrumAnalyzer<T, F>,
    ) -> (controller: Controller<T, F>)
        ensures
            controller.scheduler == scheduler,
            controller.multiplexer == multiplexer,
            controller.samples == samples,
            controller.spectrum == spectrum,
    {
        Controller { scheduler, multiplexer, samples, spectrum }
    }

    /// Starts a cycle as the scheduler does. A time scale other than the one
    /// in use restarts virtual time at zero and empties the sample store and
    /// the spectrum analyzer; otherwise both are left as they were.
    pub fn begin_cycle(&mut self, slowdown_factor: Option<TimeScale>, paused: Option<bool>) -> (start:
        CycleStart)
        ensures
            final(self).scheduler@ == old(self).scheduler@.begin_cycle(
                match slowdown_factor {
                    Some(s) => Some(s@),
                    None => None,
                },
                paused,
            ),
            final(self).scheduler@.wf(),
            final(self).multiplexer == old(self).multiplexer,
            start.reset == (slowdown_factor matches Some(s) && s@ != old(self).scheduler@.thousandths),
            start.elapsed_ticks == final(self).scheduler@.ticks,
            start.action == final(self).scheduler@.action(old(self).scheduler@.paused),
            start.reset ==> {
                &&& final(self).scheduler@.ticks == 0
                &&& final(self).samples@ == Seq::<T>::empty()
                &&& final(self).spectrum@ == old(self).spectrum@.clear()
            },
            !start.reset ==> {
                &&& final(self).samples == old(self).samples
                &&& final(self).spectrum == old(self).spectrum
            },
            final(self).samples.spec_capacity() == old(self).samples.spec_capacity(),
            old(self).wf() ==> final(self).wf(),
    {
        let start = self.scheduler.begin_cycle(slowdown_factor, paused);
        if start.reset {
            self.samples.clear();
            self.spectrum.clear();
        }
        start
    }

    /// Empties the sample store and the spectrum analyzer. Virtual time,
    /// time scale and the multiplexer's counts stay.
    pub fn clear(&mut self)
        ensures
            final(self).scheduler == old(self).scheduler,
            final(self).multiplexer == old(self).multiplexer,
            final(self).samples@ == Seq::<T>::empty(),
            final(self).samples.spec_capacity() == old(self).samples.spec_capacity(),
            final(self).spectrum@ == old(self).spectrum@.clear(),
            old(self).wf() ==> final(self).wf(),
    {
        self.samples.clear();
        self.spectrum.clear();
    }
}

impl<T: Copy, F> Controller<T, F> {
    /// Takes one composite sample: the store gets it if the multiplexer
    /// sends it there, and so does the analyzer. A sample that completes a
    /// spectral window gets the window back, oldest sample first.
    pub fn put_sample(&mut self, sample: T) -> (window: Option<Vec<T>>)
        requires
            old(self).wf(),
        ensures
            final(self).wf(),
            final(self).scheduler == old(self).scheduler,
            final(self).multiplexer@ == old(self).multiplexer@.put_sample(),
            final(self).samples.spec_capacity() == old(self).samples.spec_capacity(),
            final(self).samples@ == (if old(self).multiplexer@.routing().samples {
                keep_last(old(self).samples@.push(sample), old(self).samples.spec_capacity() as nat)
            } else {
                old(self).samples@
            }),
            final(self).spectrum@ == (if old(self).multiplexer@.routing().spectrum {
                old(self).spectrum@.insert(sample)
            } else {
                old(self).spectrum@
            }),
            match window {
                Some(w) => {
                    &&& old(self).multiplexer@.routing().spectrum
                    &&& old(self).spectrum@.completes()
                    &&& w@ == old(self).spectrum@.pending.push(sample)
                },
                None => !(old(self).multiplexer@.routing().spectrum
                    && old(self).spectrum@.completes()),
            },
    {
        let routing = self.multiplexer.put_sample();
        if routing.samples {
            self.samples.insert(sample);
        }
        if routing.spectrum {
            self.spectrum.sample_insert(sample)
        } else {
            None
        }
    }
}

} // verus!
