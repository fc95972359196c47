//! The ways a simulation run can be rejected or fail.

use vstd::prelude::*;

verus! {

/// Why a run was rejected or its results are undefined.
#[derive(Clone, Copy, Debug, PartialEq, Eq)]
pub enum ClausingError {
    /// The particle count is zero: every output would divide by it.
    NoParticles,
    /// The accel aperture radius is not positive: it is the normalization
    /// denominator for every dimension.
    NonPositiveAccelRadius,
    /// A physical length is negative.
    NegativeLength,
    /// No particle escaped: the mean exit velocity, and with it the
    /// downstream correction factor, is undefined.
    NoEscapes,
}

} // verus!
