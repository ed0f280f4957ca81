//! The frequency bands that a channel filter can be asked for.

use vstd::prelude::*;

verus! {

/// The pass band of a channel filter.
#[allow(non_camel_case_types)]
#[derive(Clone, Copy, Debug, PartialEq, Eq, Structural)]
pub enum FilterFrequencies {
    /// From 200 to 350 thousand cycles per second.
    Bandpass200_350,
}

} // verus!
