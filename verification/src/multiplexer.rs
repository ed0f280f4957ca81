//! The way of the composite signal to the sample store and to the spectrum
//! analyzer.
//!
//! The composite sample is the sum of the channels' samples; summing is the
//! caller's. The multiplexer says where each composite sample goes: each of
//! the two consumers sits behind a decimator of its own.

use crate::decimator::{fresh, Decimator, DecimatorView};
use crate::error::ConfigError;
use vstd::prelude::*;

verus! {

/// Where one composite sample goes.
#[derive(Clone, Copy, Debug, PartialEq, Eq, Structural)]
pub struct Routing {
    /// To the sample store.
    pub samples: bool,
    /// To the spectrum analyzer.
    pub spectrum: bool,
}

/// A multiplexer as a mathematical value.
pub struct MultiplexerView {
    /// Decides which samples reach the store.
    pub samples_gate: DecimatorView,
    /// Decides which samples reach the analyzer.
    pub spectrum_gate: DecimatorView,
}

impl MultiplexerView {
    pub open spec fn wf(self) -> bool {
        self.samples_gate.wf() && self.spectrum_gate.wf()
    }

    /// Where the sample put in in this state goes.
    pub open spec fn routing(self) -> Routing {
        Routing { samples: self.samples_gate.forwards(), spectrum: self.spectrum_gate.forwards() }
    }

    /// The state after one sample was put in: both decimators have counted it.
    pub open spec fn put_sample(self) -> MultiplexerView {
        MultiplexerView {
            samples_gate: self.samples_gate.offer(),
            spectrum_gate: self.spectrum_gate.offer(),
        }
    }

    /// The state after `count` samples were put in.
    pub open spec fn put_samples(self, count: nat) -> MultiplexerView
        decreases count,
    {
        if count == 0 {
            self
        } else {
            self.put_samples((count - 1) as nat).put_sample()
        }
    }
}

/// The two consumers are fed independently, each at its own rate: of the
/// samples put into a fresh multiplexer, numbered from one, the store gets
/// those whose number is a multiple of its rate, and the analyzer those
/// whose number is a multiple of its own. `seen` is the number of samples
/// put in before the one in question.
pub proof fn lemma_each_consumer_at_its_rate(
    draw_every_n_samples: nat,
    analyze_every_n_samples: nat,
    seen: nat,
)
    requires
        draw_every_n_samples > 0,
        analyze_every_n_samples > 0,
    ensures
        ({
            let start = MultiplexerView {
                samples_gate: fresh(draw_every_n_samples),
                spectrum_gate: fresh(analyze_every_n_samples),
            };
            let routing = start.put_samples(seen).routing();
            &&& routing.samples <==> (seen + 1) % draw_every_n_samples == 0
            &&& routing.spectrum <==> (seen + 1) % analyze_every_n_samples == 0
        }),
{
    let start = MultiplexerView {
        samples_gate: fresh(draw_every_n_samples),
        spectrum_gate: fresh(analyze_every_n_samples),
    };
    lemma_put_samples_counts_both(start, seen);
    crate::decimator::lemma_forwards_every_nth(draw_every_n_samples, seen);
    crate::decimator::lemma_forwards_every_nth(analyze_every_n_samples, seen);
}

proof fn lemma_put_samples_counts_both(start: MultiplexerView, count: nat)
    ensures
        start.put_samples(count).samples_gate == start.samples_gate.offer_many(count),
        start.put_samples(count).spectrum_gate == start.spectrum_gate.offer_many(count),
    decreases count,
{
    if count > 0 {
        lemma_put_samples_counts_both(start, (count - 1) as nat);
    }
}

/// Says of each composite sample whether it goes to the sample store and
/// whether it goes to the spectrum analyzer.
#[derive(Clone, Copy, Debug)]
pub struct Multiplexer {
    samples_gate: Decimator,
    spectrum_gate: Decimator,
}

impl View for Multiplexer {
    type V = MultiplexerView;

    closed spec fn view(&self) -> MultiplexerView {
        MultiplexerView { samples_gate: self.samples_gate@, spectrum_gate: self.spectrum_gate@ }
    }
}

impl Multiplexer {
    /// A multiplexer that sends one sample in `draw_every_n_samples` to the
    /// store and one in `analyze_every_n_samples` to the analyzer. A rate of
    /// zero is refused.
    pub fn new(draw_every_n_samples: u32, analyze_every_n_samples: u32) -> (multiplexer: Result<
        Multiplexer,
        ConfigError,
    >)
        ensures
            match multiplexer {
                Ok(m) => {
                    &&& draw_every_n_samples > 0
                    &&& analyze_every_n_samples > 0
                    &&& m@.wf()
                    &&& m@ == (MultiplexerView {
                        samples_gate: fresh(draw_every_n_samples as nat),
                        spectrum_gate: fresh(analyze_every_n_samples as nat),
                    })
                },
                Err(e) => {
                    &&& draw_every_n_samples == 0 || analyze_every_n_samples == 0
                    &&& e == ConfigError::ZeroDecimation
                },
            },
    {
        let samples_gate = match Decimator::new(draw_every_n_samples) {
            Ok(gate) => gate,
            Err(e) => {
                return Err(e);
            },
        };
        let spectrum_gate = match Decimator::new(analyze_every_n_samples) {
            Ok(gate) => gate,
            Err(e) => {
                return Err(e);
            },
        };
        Ok(Multiplexer { samples_gate, spectrum_gate })
    }

    /// Counts one composite sample and says where it goes.
    pub fn put_sample(&mut self) -> (routing: Routing)
        ensures
            routing == old(self)@.routing(),
            final(self)@ == old(self)@.put_sample(),
            final(self)@.wf(),
    {
        let samples = self.samples_gate.sample_insert();
        let spectrum = self.spectrum_gate.sample_insert();
        proof {
            use_type_invariant(&self.samples_gate);
            use_type_invariant(&self.spectrum_gate);
        }
        Routing { samples, spectrum }
    }
}

} // verus!
