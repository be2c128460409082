//! The reasons for which a configuration is rejected.
use vstd::prelude::*;

verus! {

/// Why a set of simulation parameters was rejected.
#[derive(Clone, Copy, Debug, PartialEq, Eq, Structural)]
pub enum ConfigError {
    /// Both the total time and the interval were given.
    TimeGridConflict,
    /// Neither the total time nor the interval was given.
    TimeGridMissing,
    /// The time that was given is zero seconds.
    ZeroSeconds,
    /// No point was asked for.
    ZeroPoints,
    /// The yearly mean is not strictly positive.
    NonPositiveMean,
    /// The yearly standard deviation is not strictly positive.
    NonPositiveStddev,
    /// More than one leverage factor was given.
    LeverageConflict,
}

} // verus!
