//! Forwarding one sample in every so many.

use crate::error::ConfigError;
use vstd::prelude::*;

verus! {

/// A decimator as a mathematical value.
pub struct DecimatorView {
    /// One sample in `every` is forwarded.
    pub every: nat,
    /// Samples held back since the last one forwarded.
    pub counter: nat,
}

impl DecimatorView {
    pub open spec fn wf(self) -> bool {
        0 < self.every <= u32::MAX && self.counter < self.every
    }

    /// Whether the sample offered in this state is forwarded.
    pub open spec fn forwards(self) -> bool {
        self.counter + 1 == self.every
    }

    /// The state after one sample was offered.
    pub open spec fn offer(self) -> DecimatorView {
        DecimatorView {
            counter: if self.forwards() {
                0
            } else {
                self.counter + 1
            },
            ..self
        }
    }

    /// The state after `count` samples were offered.
    pub open spec fn offer_many(self, count: nat) -> DecimatorView
        decreases count,
    {
        if count == 0 {
            self
        } else {
            self.offer_many((count - 1) as nat).offer()
        }
    }
}

/// A fresh decimator of rate `every`.
pub open spec fn fresh(every: nat) -> DecimatorView {
    DecimatorView { every, counter: 0 }
}

/// A fresh decimator forwards every `every`-th sample and no other: of the
/// samples numbered from one, those whose number is a multiple of `every`.
/// At a rate of one that is every sample.
pub proof fn lemma_forwards_every_nth(every: nat, seen: nat)
    requires
        every > 0,
    ensures
        fresh(every).offer_many(seen).every == every,
        fresh(every).offer_many(seen).counter == seen % every,
        fresh(every).offer_many(seen).forwards() <==> (seen + 1) % every == 0,
    decreases seen,
{
    let e = every as int;
    let n = seen as int;
    if seen > 0 {
        lemma_forwards_every_nth(every, (seen - 1) as nat);
        assert((n - 1) % e + 1 < e ==> n % e == (n - 1) % e + 1) by (nonlinear_arith)
            requires
                e > 0,
                n >= 1,
        ;
    } else {
        assert(0int % e == 0) by (nonlinear_arith)
            requires
                e > 0,
        ;
    }
    assert(n % e + 1 == e <==> (n + 1) % e == 0) by (nonlinear_arith)
        requires
            e > 0,
            n >= 0,
    ;
}

/// Counts the samples offered and says which of them go on.
#[derive(Clone, Copy, Debug)]
pub struct Decimator {
    draw_every_n_samples: u32,
    draw_counter: u32,
}

impl View for Decimator {
    type V = DecimatorView;

    closed spec fn view(&self) -> DecimatorView {
        DecimatorView {
            every: self.draw_every_n_samples as nat,
            counter: self.draw_counter as nat,
        }
    }
}

impl Decimator {
    /// Every decimator has a positive rate and a counter below it.
    #[verifier::type_invariant]
    pub open spec fn well_formed(&self) -> bool {
        self@.wf()
    }

    /// A decimator that forwards one sample in `draw_every_n_samples`; a rate
    /// of zero is refused.
    pub fn new(draw_every_n_samples: u32) -> (decimator: Result<Decimator, ConfigError>)
        ensures
            match decimator {
                Ok(d) => draw_every_n_samples > 0 && d@ == fresh(draw_every_n_samples as nat),
                Err(e) => draw_every_n_samples == 0 && e == ConfigError::ZeroDecimation,
            },
    {
        if draw_every_n_samples == 0 {
            Err(ConfigError::ZeroDecimation)
        } else {
            Ok(Decimator { draw_every_n_samples, draw_counter: 0 })
        }
    }

    /// The rate: one sample in this many is forwarded.
    pub fn every(&self) -> (every: u32)
        ensures
            every == self@.every,
            every > 0,
    {
        proof {
            use_type_invariant(self);
        }
        self.draw_every_n_samples
    }

    /// Counts one sample and says whether it is to be forwarded.
    pub fn sample_insert(&mut self) -> (forward: bool)
        ensures
            forward == old(self)@.forwards(),
            final(self)@ == old(self)@.offer(),
    {
        proof {
            use_type_invariant(&*self);
        }
        let forward = self.draw_counter + 1 == self.draw_every_n_samples;
        if forward {
            self.draw_counter = 0;
        } else {
            self.draw_counter = self.draw_counter + 1;
        }
        forward
    }
}

} // verus!
