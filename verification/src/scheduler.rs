//! The pacing of virtual time against the wall clock.
//!
//! A [`Scheduler`] decides; its caller acts. At the start of a cycle the
//! caller hands over what it could read of the shared options and is told
//! whether to reset, what to publish, and whether to wait or to generate.
//! It then takes one virtual time per sample from `step`, which moves time
//! on by one period and hands out the time reached, reports the time spent
//! to `end_cycle`, and sleeps or logs as told.

use crate::simulation_options::TimeScale;
use vstd::prelude::*;

verus! {

/// How long a paused scheduler has its caller sleep between two looks at the
/// pause flag, in milliseconds.
pub const PAUSE_POLL_MILLIS: u64 = 10;

/// What the caller does next.
#[derive(Clone, Copy, Debug, PartialEq, Eq, Structural)]
pub enum Action {
    /// Paused: sleep for `millis`, read the pause flag, report it to `poll_pause`.
    Wait { millis: u64 },
    /// Take `batch` virtual times from `step`, one sample each, then report
    /// the time spent to `end_cycle`. With `restart_clock`, first set the
    /// wall-clock reference to now.
    Generate { batch: u64, budget_ns: u128, restart_clock: bool },
}

/// The start of a cycle.
#[derive(Clone, Copy, Debug, PartialEq, Eq, Structural)]
pub struct CycleStart {
    /// A new time scale was adopted: clear every generator, store and analyzer.
    pub reset: bool,
    /// Virtual time to publish as the elapsed readback, in sample periods.
    pub elapsed_ticks: u64,
    pub action: Action,
}

/// How a cycle ends once its samples are generated.
#[derive(Clone, Copy, Debug, PartialEq, Eq, Structural)]
pub enum Pacing {
    /// The batch came in under budget: sleep for what is left of it.
    Sleep { nanos: u128 },
    /// The batch took `micros` longer than budgeted: say so and go on.
    Overrun { micros: u128 },
}

/// The end of a cycle.
#[derive(Clone, Copy, Debug, PartialEq, Eq, Structural)]
pub struct CycleEnd {
    pub pacing: Pacing,
    /// By how much the wall-clock reference moves: the budget, whatever the
    /// time spent was.
    pub advance_ns: u128,
}

/// The least `q` with `q * b >= a`, for positive `b`.
pub open spec fn ceil_div(a: nat, b: nat) -> nat {
    ((a + b - 1) / b as int) as nat
}

/// A scheduler as a mathematical value.
pub struct SchedulerView {
    /// The base count of samples per cycle, before the time scale divides it.
    pub samples_per_cycle: nat,
    /// The length of one sample period in nanoseconds.
    pub sample_period_ns: nat,
    /// The time scale last adopted, in thousandths.
    pub thousandths: nat,
    /// Virtual time, in sample periods.
    pub ticks: nat,
    pub paused: bool,
}

impl SchedulerView {
    pub open spec fn wf(self) -> bool {
        &&& self.samples_per_cycle <= u32::MAX
        &&& self.sample_period_ns <= u32::MAX
        &&& 0 < self.thousandths <= u32::MAX
        &&& self.ticks <= u64::MAX
    }

    /// Samples per cycle: twice the base count divided by the time scale,
    /// rounded up.
    pub open spec fn batch(self) -> nat {
        2 * ceil_div(self.samples_per_cycle * 1000, self.thousandths)
    }

    /// Wall-clock nanoseconds that one cycle is meant to take: the sample
    /// period times the time scale times the batch, in whole nanoseconds.
    pub open spec fn budget_ns(self) -> nat {
        self.sample_period_ns * self.thousandths * self.batch() / 1000
    }

    /// Virtual time in nanoseconds.
    pub open spec fn elapsed_ns(self) -> nat {
        self.ticks * self.sample_period_ns
    }

    /// Whether `polled` is a time scale other than the one in use.
    pub open spec fn rescales(self, polled: Option<nat>) -> bool {
        polled matches Some(s) && s != self.thousandths
    }

    /// Takes up the time scale that was read, if one was; a different one
    /// restarts virtual time.
    pub open spec fn adopt(self, polled: Option<nat>) -> SchedulerView {
        match polled {
            Some(s) => SchedulerView {
                thousandths: s,
                ticks: if s != self.thousandths {
                    0
                } else {
                    self.ticks
                },
                ..self
            },
            None => self,
        }
    }

    /// Takes up the pause flag; nothing else changes.
    pub open spec fn poll_pause(self, paused: bool) -> SchedulerView {
        SchedulerView { paused, ..self }
    }

    /// What could not be read stays as it was last known, the time scale
    /// and the pause flag alike.
    pub open spec fn begin_cycle(self, polled: Option<nat>, paused: Option<bool>) -> SchedulerView {
        self.adopt(polled).poll_pause(paused.unwrap_or(self.paused))
    }

    /// Whether a sample can be generated now.
    pub open spec fn can_step(self) -> bool {
        !self.paused && self.ticks < u64::MAX
    }

    /// The virtual time of the next sample: one period after the last.
    pub open spec fn next_time(self) -> nat {
        self.ticks + 1
    }

    /// Moves virtual time on by one sample period, where that can be done.
    pub open spec fn step(self) -> SchedulerView {
        if self.can_step() {
            SchedulerView { ticks: self.ticks + 1, ..self }
        } else {
            self
        }
    }

    /// What the caller does in this state; `resumed` says that the state
    /// before was paused.
    pub open spec fn action(self, resumed: bool) -> Action {
        if self.paused {
            Action::Wait { millis: PAUSE_POLL_MILLIS }
        } else {
            Action::Generate {
                batch: self.batch() as u64,
                budget_ns: self.budget_ns() as u128,
                restart_clock: resumed,
            }
        }
    }

    /// Sleep for the rest of the budget, or report by how much it was missed.
    pub open spec fn pacing(self, took_ns: nat) -> Pacing {
        if took_ns < self.budget_ns() {
            Pacing::Sleep { nanos: (self.budget_ns() - took_ns) as u128 }
        } else {
            Pacing::Overrun { micros: ((took_ns - self.budget_ns()) / 1000) as u128 }
        }
    }
}

/// One step of a scheduler's life, for reasoning about runs.
pub enum Event {
    /// A cycle began with these readings of time scale and pause flag.
    BeginCycle(Option<nat>, Option<bool>),
    /// The pause flag was read while waiting.
    PollPause(bool),
    /// A sample was asked for.
    Step,
}

impl SchedulerView {
    pub open spec fn apply(self, event: Event) -> SchedulerView {
        match event {
            Event::BeginCycle(polled, paused) => self.begin_cycle(polled, paused),
            Event::PollPause(paused) => self.poll_pause(paused),
            Event::Step => self.step(),
        }
    }

    /// The state after `count` samples were asked for.
    pub open spec fn steps(self, count: nat) -> SchedulerView
        decreases count,
    {
        if count == 0 {
            self
        } else {
            self.steps((count - 1) as nat).step()
        }
    }

    /// The state after `events`, first to last.
    pub open spec fn run(self, events: Seq<Event>) -> SchedulerView
        decreases events.len(),
    {
        if events.len() == 0 {
            self
        } else {
            self.run(events.drop_last()).apply(events.last())
        }
    }
}

/// Whether `event` leaves a pause flag that is set as it is.
pub open spec fn stays_paused(event: Event) -> bool {
    match event {
        Event::BeginCycle(_, paused) => paused != Some(false),
        Event::PollPause(paused) => paused,
        Event::Step => true,
    }
}

/// Whether `event` brings a time scale other than `thousandths`.
pub open spec fn brings_other_scale(event: Event, thousandths: nat) -> bool {
    event matches Event::BeginCycle(Some(polled), _) && polled != thousandths
}

/// The batch and the budget of a well-formed scheduler fit their machine types.
pub proof fn lemma_plan_fits(s: SchedulerView)
    requires
        s.wf(),
    ensures
        s.batch() <= u64::MAX,
        s.sample_period_ns * s.thousandths <= u64::MAX,
        s.sample_period_ns * s.thousandths * s.batch() <= u128::MAX,
        s.budget_ns() <= u128::MAX,
        s.elapsed_ns() <= u128::MAX,
{
    assert(s.sample_period_ns * s.thousandths <= 0xFFFF_FFFF * 0xFFFF_FFFF) by (nonlinear_arith)
        requires
            s.sample_period_ns <= 0xFFFF_FFFF,
            s.thousandths <= 0xFFFF_FFFF,
    ;
    let scaled = s.sample_period_ns * s.thousandths;
    assert(scaled * s.batch() <= 0xFFFF_FFFF_FFFF_FFFF * 0xFFFF_FFFF_FFFF_FFFF) by (nonlinear_arith)
        requires
            scaled <= 0xFFFF_FFFF_FFFF_FFFF,
            s.batch() <= 0xFFFF_FFFF_FFFF_FFFF,
    ;
    assert(s.ticks * s.sample_period_ns <= 0xFFFF_FFFF_FFFF_FFFF * 0xFFFF_FFFF) by (nonlinear_arith)
        requires
            s.ticks <= 0xFFFF_FFFF_FFFF_FFFF,
            s.sample_period_ns <= 0xFFFF_FFFF,
    ;
}

/// `ceil_div` rounds up: it is the least count of `b` that covers `a`.
pub proof fn lemma_ceil_div_is_least_cover(a: nat, b: nat)
    requires
        b > 0,
    ensures
        ceil_div(a, b) * b >= a,
        a > 0 ==> (ceil_div(a, b) - 1) * b < a,
        a == 0 ==> ceil_div(a, b) == 0,
{
    let q = ceil_div(a, b) as int;
    let n = a + b - 1;
    assert(n == q * b + n % (b as int) && 0 <= n % (b as int) < b) by (nonlinear_arith)
        requires
            b > 0,
            q == n / (b as int),
    ;
    assert((q - 1) * b == q * b - b) by (nonlinear_arith);
}

/// Adopting a time scale other than the one in use restarts virtual time
/// at zero; any other start of a cycle leaves virtual time where it was.
pub proof fn lemma_rescale_restarts_time(s: SchedulerView, polled: Option<nat>, paused: Option<bool>)
    ensures
        s.rescales(polled) ==> s.begin_cycle(polled, paused).ticks == 0,
        !s.rescales(polled) ==> s.begin_cycle(polled, paused).ticks == s.ticks,
        polled matches Some(t) ==> s.begin_cycle(polled, paused).thousandths == t,
        polled is None ==> s.begin_cycle(polled, paused).thousandths == s.thousandths,
{
}

/// While the pause lasts, virtual time does not advance: whatever is asked
/// of a paused scheduler that leaves the pause flag set, it stays paused and
/// its virtual time is no later than before.
pub proof fn lemma_paused_time_does_not_advance(s: SchedulerView, events: Seq<Event>)
    requires
        s.paused,
        forall|i: int| 0 <= i < events.len() ==> stays_paused(#[trigger] events[i]),
    ensures
        s.run(events).paused,
        s.run(events).ticks <= s.ticks,
    decreases events.len(),
{
    if events.len() > 0 {
        lemma_paused_time_does_not_advance(s, events.drop_last());
    }
}

/// While the pause lasts and the time scale stays, nothing moves: the
/// scheduler is left exactly as it was.
pub proof fn lemma_paused_time_stands_still(s: SchedulerView, events: Seq<Event>)
    requires
        s.paused,
        forall|i: int|
            0 <= i < events.len() ==> stays_paused(#[trigger] events[i]) && !brings_other_scale(
                events[i],
                s.thousandths,
            ),
    ensures
        s.run(events) == s,
    decreases events.len(),
{
    if events.len() > 0 {
        lemma_paused_time_stands_still(s, events.drop_last());
    }
}

/// Resuming continues without a jump: virtual time is where it was when
/// the pause began, and the first sample after the pause comes one period
/// after the last one before it.
pub proof fn lemma_resume_continues(s: SchedulerView, events: Seq<Event>)
    requires
        s.paused,
        s.ticks < u64::MAX,
        forall|i: int|
            0 <= i < events.len() ==> stays_paused(#[trigger] events[i]) && !brings_other_scale(
                events[i],
                s.thousandths,
            ),
    ensures
        s.run(events).poll_pause(false).ticks == s.ticks,
        s.run(events).poll_pause(false).can_step(),
        s.run(events).poll_pause(false).next_time() == s.ticks + 1,
        s.run(events).poll_pause(false).step().ticks == s.ticks + 1,
{
    lemma_paused_time_stands_still(s, events);
}

/// Time moves on, then the sample is taken: in a running scheduler the
/// sample number `taken` of a batch, counted from one, has the virtual time
/// `taken` periods after the start of the batch, and that is where virtual
/// time stands after it.
pub proof fn lemma_batch_times(s: SchedulerView, taken: nat)
    requires
        !s.paused,
        s.ticks + taken <= u64::MAX,
    ensures
        s.steps(taken) == (SchedulerView { ticks: s.ticks + taken, ..s }),
        taken > 0 ==> s.steps((taken - 1) as nat).can_step(),
        taken > 0 ==> s.steps((taken - 1) as nat).next_time() == s.ticks + taken,
    decreases taken,
{
    if taken > 0 {
        lemma_batch_times(s, (taken - 1) as nat);
    }
}

/// Virtual time only runs back when a new time scale restarts it.
pub proof fn lemma_time_runs_forward(s: SchedulerView, event: Event)
    requires
        !(event matches Event::BeginCycle(polled, _) && s.rescales(polled)),
    ensures
        s.apply(event).ticks >= s.ticks,
        s.apply(event).ticks <= s.ticks + 1,
        s.paused && event is Step ==> s.apply(event).ticks == s.ticks,
{
}

/// The real-time pacing state of one pipeline.
#[derive(Clone, Copy, Debug)]
pub struct Scheduler {
    samples_per_cycle: u32,
    sample_period_ns: u32,
    slowdown_factor: TimeScale,
    ticks: u64,
    paused: bool,
}

impl View for Scheduler {
    type V = SchedulerView;

    closed spec fn view(&self) -> SchedulerView {
        SchedulerView {
            samples_per_cycle: self.samples_per_cycle as nat,
            sample_period_ns: self.sample_period_ns as nat,
            thousandths: self.slowdown_factor@,
            ticks: self.ticks as nat,
            paused: self.paused,
        }
    }
}

impl Scheduler {
    /// A running scheduler at virtual time zero. `samples_per_cycle` is the
    /// base count of samples per cycle, which the time scale divides;
    /// `sample_period_ns` is the length of one sample period.
    pub fn new(samples_per_cycle: u32, sample_period_ns: u32, slowdown_factor: TimeScale) -> (s:
        Scheduler)
        ensures
            s@ == (SchedulerView {
                samples_per_cycle: samples_per_cycle as nat,
                sample_period_ns: sample_period_ns as nat,
                thousandths: slowdown_factor@,
                ticks: 0,
                paused: false,
            }),
            s@.wf(),
    {
        proof {
            use_type_invariant(&slowdown_factor);
        }
        Scheduler { samples_per_cycle, sample_period_ns, slowdown_factor, ticks: 0, paused: false }
    }

    /// The time scale last adopted.
    pub fn slowdown_factor(&self) -> (scale: TimeScale)
        ensures
            scale@ == self@.thousandths,
    {
        self.slowdown_factor
    }

    /// Virtual time, in sample periods.
    pub fn elapsed_ticks(&self) -> (ticks: u64)
        ensures
            ticks == self@.ticks,
    {
        self.ticks
    }

    /// Virtual time, in nanoseconds.
    pub fn elapsed_ns(&self) -> (nanos: u128)
        ensures
            nanos == self@.elapsed_ns(),
    {
        proof {
            use_type_invariant(&self.slowdown_factor);
            lemma_plan_fits(self@);
        }
        self.ticks as u128 * self.sample_period_ns as u128
    }

    /// Whether the scheduler is paused.
    pub fn is_paused(&self) -> (paused: bool)
        ensures
            paused == self@.paused,
    {
        self.paused
    }

    /// Samples per cycle at the time scale in use.
    pub fn batch(&self) -> (batch: u64)
        ensures
            batch == self@.batch(),
    {
        let thousandths: u64 = self.slowdown_factor.thousandths() as u64;
        let scaled: u64 = self.samples_per_cycle as u64 * 1000;
        let per_half: u64 = (scaled + (thousandths - 1)) / thousandths;
        2 * per_half
    }

    /// Wall-clock nanoseconds that one cycle is meant to take.
    pub fn budget_ns(&self) -> (budget: u128)
        ensures
            budget == self@.budget_ns(),
    {
        proof {
            use_type_invariant(&self.slowdown_factor);
            lemma_plan_fits(self@);
        }
        let thousandths: u64 = self.slowdown_factor.thousandths() as u64;
        let scaled_period: u64 = self.sample_period_ns as u64 * thousandths;
        scaled_period as u128 * self.batch() as u128 / 1000
    }

    fn action(&self, resumed: bool) -> (action: Action)
        ensures
            action == self@.action(resumed),
    {
        if self.paused {
            Action::Wait { millis: PAUSE_POLL_MILLIS }
        } else {
            Action::Generate {
                batch: self.batch(),
                budget_ns: self.budget_ns(),
                restart_clock: resumed,
            }
        }
    }

    /// Starts a cycle with what could be read of the shared options: `None`
    /// stands for a value whose lock was held elsewhere, and leaves what was
    /// last known in place. A time scale other than the one in use is
    /// adopted and restarts virtual time; a pause flag that is set pauses.
    pub fn begin_cycle(&mut self, slowdown_factor: Option<TimeScale>, paused: Option<bool>) -> (start:
        CycleStart)
        ensures
            final(self)@ == old(self)@.begin_cycle(
                match slowdown_factor {
                    Some(s) => Some(s@),
                    None => None,
                },
                paused,
            ),
            final(self)@.wf(),
            start.reset == (slowdown_factor matches Some(s) && s@ != old(self)@.thousandths),
            start.reset ==> start.elapsed_ticks == 0,
            start.elapsed_ticks == final(self)@.ticks,
            start.action == final(self)@.action(old(self)@.paused),
    {
        let was_paused = self.paused;
        let mut reset = false;
        if let Some(scale) = slowdown_factor {
            if scale.thousandths() != self.slowdown_factor.thousandths() {
                reset = true;
                self.ticks = 0;
            }
            self.slowdown_factor = scale;
        }
        if let Some(flag) = paused {
            self.paused = flag;
        }
        proof {
            use_type_invariant(&self.slowdown_factor);
        }
        CycleStart { reset, elapsed_ticks: self.ticks, action: self.action(was_paused) }
    }

    /// Takes up the pause flag read while waiting. Virtual time stands still;
    /// a scheduler that leaves its pause restarts the wall clock.
    pub fn poll_pause(&mut self, paused: bool) -> (action: Action)
        ensures
            final(self)@ == old(self)@.poll_pause(paused),
            final(self)@.wf(),
            action == final(self)@.action(old(self)@.paused),
    {
        let was_paused = self.paused;
        self.paused = paused;
        proof {
            use_type_invariant(&self.slowdown_factor);
        }
        self.action(was_paused)
    }

    /// Moves virtual time on by one sample period and gives the time
    /// reached, in sample periods: the time of the next sample. `None`, and
    /// no change, while paused or once the count of periods is at its limit.
    pub fn step(&mut self) -> (time: Option<u64>)
        ensures
            final(self)@ == old(self)@.step(),
            final(self)@.wf(),
            time == (if old(self)@.can_step() {
                Some(old(self)@.next_time() as u64)
            } else {
                None
            }),
    {
        proof {
            use_type_invariant(&self.slowdown_factor);
        }
        if self.paused || self.ticks == u64::MAX {
            None
        } else {
            self.ticks = self.ticks + 1;
            Some(self.ticks)
        }
    }

    /// Ends a cycle whose batch took `took_ns` of wall-clock time: sleep for
    /// the rest of the budget or report the overrun. The wall-clock
    /// reference moves by the budget either way.
    pub fn end_cycle(&self, took_ns: u128) -> (end: CycleEnd)
        ensures
            end.pacing == self@.pacing(took_ns as nat),
            end.advance_ns == self@.budget_ns(),
    {
        let budget = self.budget_ns();
        let pacing = if took_ns < budget {
            Pacing::Sleep { nanos: budget - took_ns }
        } else {
            Pacing::Overrun { micros: (took_ns - budget) / 1000 }
        };
        CycleEnd { pacing, advance_ns: budget }
    }
}

} // verus!
