//! The windowing of samples ahead of a spectral transform, and the frame
//! that the transform last gave.
//!
//! The transform itself is the caller's: the analyzer hands out each window
//! as it fills and takes the frame back.

use crate::error::ConfigError;
use vstd::prelude::*;

verus! {

/// An analyzer as a mathematical value.
pub struct SpectrumView<T, F> {
    /// The number of samples in one window.
    pub window_size: nat,
    /// The samples of the window being filled, oldest first.
    pub pending: Seq<T>,
    /// The frame last published; empty before the first.
    pub frame: Seq<F>,
}

impl<T, F> SpectrumView<T, F> {
    pub open spec fn wf(self) -> bool {
        0 < self.window_size <= usize::MAX && self.pending.len() < self.window_size
    }

    /// Whether one more sample completes the window.
    pub open spec fn completes(self) -> bool {
        self.pending.len() + 1 == self.window_size
    }

    /// The state after `sample` came in: a window that is complete is handed
    /// out, and the next one starts empty.
    pub open spec fn insert(self, sample: T) -> SpectrumView<T, F> {
        SpectrumView {
            pending: if self.completes() {
                Seq::empty()
            } else {
                self.pending.push(sample)
            },
            ..self
        }
    }

    /// The state after `samples` came in, first to last.
    pub open spec fn insert_all(self, samples: Seq<T>) -> SpectrumView<T, F>
        decreases samples.len(),
    {
        if samples.len() == 0 {
            self
        } else {
            self.insert_all(samples.drop_last()).insert(samples.last())
        }
    }

    /// The state after `frame` was published.
    pub open spec fn publish(self, frame: Seq<F>) -> SpectrumView<T, F> {
        SpectrumView { frame, ..self }
    }

    /// The state after a clear: no pending sample, no frame.
    pub open spec fn clear(self) -> SpectrumView<T, F> {
        SpectrumView { pending: Seq::empty(), frame: Seq::empty(), ..self }
    }
}

/// An analyzer that has seen nothing yet.
pub open spec fn fresh<T, F>(window_size: nat) -> SpectrumView<T, F> {
    SpectrumView { window_size, pending: Seq::empty(), frame: Seq::empty() }
}

/// Windows are consecutive runs of the samples that came in: after `samples`
/// went into a fresh analyzer, the window being filled holds those that
/// follow the last full window, in their order, and no frame was touched.
pub proof fn lemma_windows_are_consecutive<T, F>(window_size: nat, samples: Seq<T>)
    requires
        window_size > 0,
    ensures
        fresh::<T, F>(window_size).insert_all(samples).pending == samples.subrange(
            samples.len() - samples.len() % window_size,
            samples.len() as int,
        ),
        fresh::<T, F>(window_size).insert_all(samples).window_size == window_size,
        fresh::<T, F>(window_size).insert_all(samples).frame == Seq::<F>::empty(),
    decreases samples.len(),
{
    let n = samples.len() as int;
    let w = window_size as int;
    if n > 0 {
        lemma_windows_are_consecutive::<T, F>(window_size, samples.drop_last());
        assert((n - 1) % w + 1 == w ==> n % w == 0) by (nonlinear_arith)
            requires
                w > 0,
                n >= 1,
        ;
        assert((n - 1) % w + 1 < w ==> n % w == (n - 1) % w + 1) by (nonlinear_arith)
            requires
                w > 0,
                n >= 1,
        ;
        assert((n - 1) % w <= n - 1 && 0 <= n % w <= n) by (nonlinear_arith)
            requires
                w > 0,
                n >= 1,
        ;
    }
}

/// Collects samples into windows of a fixed size and keeps the frame that
/// was last computed from one.
#[derive(Clone, Debug)]
pub struct SpectrumAnalyzer<T, F> {
    window_size: usize,
    pending: Vec<T>,
    frame: Vec<F>,
}

impl<T, F> View for SpectrumAnalyzer<T, F> {
    type V = SpectrumView<T, F>;

    closed spec fn view(&self) -> SpectrumView<T, F> {
        SpectrumView {
            window_size: self.window_size as nat,
            pending: self.pending@,
            frame: self.frame@,
        }
    }
}

impl<T, F> SpectrumAnalyzer<T, F> {
    /// An analyzer with windows of `window_size` samples; a size of zero is
    /// refused.
    pub fn new(window_size: usize) -> (analyzer: Result<SpectrumAnalyzer<T, F>, ConfigError>)
        ensures
            match analyzer {
                Ok(a) => window_size > 0 && a@ == fresh::<T, F>(window_size as nat) && a@.wf(),
                Err(e) => window_size == 0 && e == ConfigError::ZeroWindowSize,
            },
    {
        if window_size == 0 {
            Err(ConfigError::ZeroWindowSize)
        } else {
            Ok(SpectrumAnalyzer { window_size, pending: Vec::new(), frame: Vec::new() })
        }
    }

    /// The number of samples in one window.
    pub fn window_size(&self) -> (size: usize)
        ensures
            size == self@.window_size,
    {
        self.window_size
    }

    /// The number of samples in the window being filled.
    pub fn pending_len(&self) -> (len: usize)
        ensures
            len == self@.pending.len(),
    {
        self.pending.len()
    }

    /// Adds `sample` to the window being filled. The sample that completes
    /// the window gets the whole window back, oldest sample first, and the
    /// next window starts empty. The frame stays.
    pub fn sample_insert(&mut self, sample: T) -> (window: Option<Vec<T>>)
        requires
            old(self)@.wf(),
        ensures
            final(self)@ == old(self)@.insert(sample),
            final(self)@.wf(),
            match window {
                Some(w) => old(self)@.completes() && w@ == old(self)@.pending.push(sample),
                None => !old(self)@.completes(),
            },
    {
        self.pending.push(sample);
        if self.pending.len() == self.window_size {
            let mut window: Vec<T> = Vec::new();
            std::mem::swap(&mut self.pending, &mut window);
            Some(window)
        } else {
            None
        }
    }

    /// Replaces the frame with `frame`, whole.
    pub fn publish(&mut self, frame: Vec<F>)
        ensures
            final(self)@ == old(self)@.publish(frame@),
    {
        self.frame = frame;
    }

    /// The frame last published; empty before the first and after a clear.
    pub fn frame(&self) -> (frame: &Vec<F>)
        ensures
            frame@ == self@.frame,
    {
        &self.frame
    }

    /// Discards the window being filled and the frame.
    pub fn clear(&mut self)
        ensures
            final(self)@ == old(self)@.clear(),
            old(self)@.window_size > 0 ==> final(self)@.wf(),
    {
        self.pending.clear();
        self.frame.clear();
    }
}

} // verus!
