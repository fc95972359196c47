//! Screening of the run's inputs.
//!
//! The physical dimensions are floating-point values that verified code
//! cannot hold, so the front end evaluates the two sign conditions on them
//! and hands the outcomes in as booleans; the acceptance decision itself is
//! made, in a fixed order, here.

use vstd::prelude::*;
use crate::errors::ClausingError;

verus! {

/// Decide whether a run's inputs are admissible. `r_accel_positive` is
/// whether the accel aperture radius is strictly positive and
/// `lengths_nonnegative` whether every other physical dimension is at least
/// zero; both are evaluated by the caller on its floating-point inputs.
/// The checks apply in that order, the particle count last.
pub fn validate_inputs(npart: usize, r_accel_positive: bool, lengths_nonnegative: bool) -> (r: Result<(), ClausingError>)
    ensures
        r is Ok <==> (r_accel_positive && lengths_nonnegative && npart >= 1),
        !r_accel_positive ==> (r matches Err(e) && e is NonPositiveAccelRadius),
        r_accel_positive && !lengths_nonnegative ==> (r matches Err(e) && e is NegativeLength),
        r_accel_positive && lengths_nonnegative && npart == 0 ==> (r matches Err(e) && e is NoParticles),
{
    if !r_accel_positive {
        Err(ClausingError::NonPositiveAccelRadius)
    } else if !lengths_nonnegative {
        Err(ClausingError::NegativeLength)
    } else if npart == 0 {
        Err(ClausingError::NoParticles)
    } else {
        Ok(())
    }
}

} // verus!
