//! Monte Carlo estimation of the Clausing factor for a two-stage cylindrical
//! aperture (an ion-optics grid pair).
//!
//! The library holds the decision logic of the simulation: which surface a
//! particle is tested against next, how each trajectory terminates, and how
//! per-particle outcomes are folded into the run's counters. Every function
//! here is verified. The floating-point geometry (re-emission sampling,
//! intersection formulas) cannot be expressed in verified code and is driven
//! by an unverified front end, which feeds the outcomes of its comparisons
//! into this library's state machine as plain booleans.

pub mod counters;
pub mod errors;
pub mod fate;
pub mod params;
pub mod tracer;
