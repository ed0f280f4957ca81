//! The time scale that the simulation is slowed down by.

use crate::error::ConfigError;
use vstd::prelude::*;

verus! {

/// Thousandths in one unit of time scale.
pub const THOUSAND: u32 = 1000;

/// The slowdown factor a new simulation starts with, in thousandths.
pub const DEFAULT_SLOWDOWN_THOUSANDTHS: u32 = 300_000;

/// A positive divisor applied to wall-clock time, kept in thousandths:
/// a factor of 300 is 300 000 thousandths.
#[derive(Clone, Copy, Debug, PartialEq, Eq, Structural)]
pub struct TimeScale {
    thousandths: u32,
}

impl View for TimeScale {
    type V = nat;

    closed spec fn view(&self) -> nat {
        self.thousandths as nat
    }
}

impl TimeScale {
    /// Every time scale is positive and fits 32 bits.
    #[verifier::type_invariant]
    pub open spec fn in_range(&self) -> bool {
        0 < self@ <= u32::MAX
    }

    /// The factor of `thousandths / 1000`; zero is refused.
    pub fn new(thousandths: u32) -> (scale: Result<TimeScale, ConfigError>)
        ensures
            match scale {
                Ok(s) => thousandths > 0 && s@ == thousandths,
                Err(e) => thousandths == 0 && e == ConfigError::NonPositiveTimeScale,
            },
    {
        if thousandths == 0 {
            Err(ConfigError::NonPositiveTimeScale)
        } else {
            Ok(TimeScale { thousandths })
        }
    }

    /// The factor in thousandths, always positive.
    pub fn thousandths(&self) -> (thousandths: u32)
        ensures
            thousandths == self@,
            thousandths > 0,
    {
        proof {
            use_type_invariant(self);
        }
        self.thousandths
    }
}

impl Default for TimeScale {
    /// A slowdown by 300.
    fn default() -> (scale: TimeScale)
        ensures
            scale@ == DEFAULT_SLOWDOWN_THOUSANDTHS,
    {
        TimeScale { thousandths: DEFAULT_SLOWDOWN_THOUSANDTHS }
    }
}

} // verus!
