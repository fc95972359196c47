//! Terminal classification of a particle trajectory.
//!
//! Every trajectory iteration ends with three ordered checks: fell below the
//! base plane (absorbed), crossed above the top plane (escaped), or exceeded
//! the bounce cutoff (stuck). The first check that holds settles the
//! particle's fate; otherwise it stays in flight for another iteration.

use vstd::prelude::*;

verus! {

/// How a particle trajectory stands after an iteration's exit checks.
#[derive(Clone, Copy, Debug, PartialEq, Eq)]
pub enum Fate {
    /// No exit condition held: the trajectory continues.
    InFlight,
    /// The particle fell back below the base plane and is absorbed.
    Absorbed,
    /// The particle crossed the top plane and leaves the aperture.
    Escaped,
    /// The particle exceeded the bounce cutoff and was forcibly terminated.
    Stuck,
}

/// The outcome of one iteration's exit probe: `below_base` is whether the
/// axial coordinate fell below the base plane, `above_top` whether it rose
/// past the top plane.
#[derive(Clone, Copy, Debug, PartialEq, Eq)]
pub struct ExitProbe {
    pub below_base: bool,
    pub above_top: bool,
}

/// The ordered exit checks: absorption is tested first, then escape, then the
/// bounce cutoff. `bounces` is the number of the iteration just finished,
/// counted from 1.
pub open spec fn spec_classify(below_base: bool, above_top: bool, bounces: int, cutoff: int) -> Fate {
    if below_base {
        Fate::Absorbed
    } else if above_top {
        Fate::Escaped
    } else if bounces > cutoff {
        Fate::Stuck
    } else {
        Fate::InFlight
    }
}

/// Apply the exit checks for one iteration.
pub fn classify(probe: ExitProbe, bounces: usize, cutoff: usize) -> (f: Fate)
    ensures
        f == spec_classify(probe.below_base, probe.above_top, bounces as int, cutoff as int),
{
    if probe.below_base {
        Fate::Absorbed
    } else if probe.above_top {
        Fate::Escaped
    } else if bounces > cutoff {
        Fate::Stuck
    } else {
        Fate::InFlight
    }
}

/// The fate a trajectory reaches when its successive exit probes are the
/// entries of `probes`, the iteration count starting at `bounces`: the run
/// walks the probes in order, applying the exit checks with an iteration
/// count that grows by one each time, until one settles the fate.
/// `Fate::InFlight` means the probes ran out before any check held.
pub open spec fn run_fate(probes: Seq<ExitProbe>, bounces: int, cutoff: int) -> Fate
    decreases probes.len(),
{
    if probes.len() == 0 {
        Fate::InFlight
    } else {
        let f = spec_classify(probes[0].below_base, probes[0].above_top, bounces, cutoff);
        if f is InFlight {
            run_fate(probes.drop_first(), bounces + 1, cutoff)
        } else {
            f
        }
    }
}

/// The cutoff is the bound that keeps every particle's loop finite: a
/// trajectory that starts its run at iteration `bounces` settles within
/// `cutoff + 2 - bounces` further iterations, whatever its probes hold —
/// so from the first iteration, no trajectory runs past `cutoff + 1`.
pub proof fn lemma_cutoff_bounds_the_run(probes: Seq<ExitProbe>, bounces: int, cutoff: int)
    requires
        bounces <= cutoff + 1,
        probes.len() >= cutoff + 2 - bounces,
    ensures
        run_fate(probes, bounces, cutoff) !is InFlight,
    decreases probes.len(),
{
    let f = spec_classify(probes[0].below_base, probes[0].above_top, bounces, cutoff);
    if f is InFlight {
        lemma_cutoff_bounds_the_run(probes.drop_first(), bounces + 1, cutoff);
    }
}

/// Lowering the bounce cutoff never rescues a stuck trajectory: a probe
/// sequence that leaves a particle stuck under a high cutoff leaves it stuck
/// under any lower cutoff as well. This is the deterministic core of the
/// observation that the count of stuck particles grows as the cutoff is
/// lowered: per trajectory, the set of cutoffs under which it sticks is
/// downward closed.
pub proof fn lemma_lower_cutoff_keeps_stuck(probes: Seq<ExitProbe>, bounces: int, c_low: int, c_high: int)
    requires
        c_low <= c_high,
        run_fate(probes, bounces, c_high) is Stuck,
    ensures
        run_fate(probes, bounces, c_low) is Stuck,
    decreases probes.len(),
{
    let f_high = spec_classify(probes[0].below_base, probes[0].above_top, bounces, c_high);
    if f_high is InFlight {
        lemma_lower_cutoff_keeps_stuck(probes.drop_first(), bounces + 1, c_low, c_high);
    }
}

} // verus!
