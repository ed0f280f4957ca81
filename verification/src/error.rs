//! Configuration values that the pipeline refuses.

use vstd::prelude::*;

verus! {

/// Why a component could not be built from the values it was given.
#[derive(Clone, Copy, Debug, PartialEq, Eq, Structural)]
pub enum ConfigError {
    /// The time scale was not positive.
    NonPositiveTimeScale,
    /// A spectral window would hold no samples.
    ZeroWindowSize,
    /// A decimation rate of zero forwards nothing and counts without end.
    ZeroDecimation,
}

} // verus!
