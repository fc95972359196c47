//! The per-particle trajectory state machine.
//!
//! One iteration of the trajectory loop performs, in order, three geometric
//! tests — lower-wall hit, upward crossing of the stage boundary, upper-wall
//! hit — and then the exit checks. The geometry itself (intersection
//! formulas, diffuse re-emission sampling) is floating-point work that an
//! unverified front end performs; this machine fixes the order of the tests,
//! which re-emission each test outcome demands, when the bounce counter
//! advances, and how the trajectory terminates. The front end reports each
//! test's outcome as a [`Probe`] and performs the [`Action`] the machine
//! hands back before the next test.

use vstd::prelude::*;
use crate::fate::{classify, spec_classify, ExitProbe, Fate};

verus! {

/// The bounce cutoff: a trajectory is forcibly terminated once its iteration
/// count exceeds this bound.
pub const BOUNCE_CUTOFF: usize = 1000;

/// The control point a trajectory stands at: which geometric test comes
/// next, or the fate it terminated with.
#[derive(Clone, Copy, Debug, PartialEq, Eq)]
pub enum Phase {
    /// About to test whether the trajectory meets the lower cylinder wall
    /// (axial coordinate still below the stage boundary).
    LowerTest,
    /// About to test whether the trajectory crossed the stage boundary
    /// moving upward.
    CrossingTest,
    /// About to test whether the trajectory meets the upper cylinder wall
    /// (axial coordinate between the stage boundary and the top plane).
    UpperTest,
    /// About to run the exit checks for this iteration.
    ExitTest,
    /// The trajectory terminated with the given fate.
    Done(Fate),
}

/// The outcome of the geometric test the current phase called for, measured
/// by the front end on its floating-point state.
#[derive(Clone, Copy, Debug, PartialEq, Eq)]
pub enum Probe {
    /// For `Phase::LowerTest`: does the trajectory meet the lower wall?
    Lower { wall_hit: bool },
    /// For `Phase::CrossingTest`: did the trajectory cross the stage
    /// boundary moving upward, and if so, was its radial offset at the
    /// crossing plane within the top aperture (radius 1)?
    /// `within_throat` is only meaningful when `crossed_upward` holds.
    Crossing { crossed_upward: bool, within_throat: bool },
    /// For `Phase::UpperTest`: does the trajectory meet the upper wall?
    Upper { wall_hit: bool },
    /// For `Phase::ExitTest`: the exit measurements.
    Exit(ExitProbe),
}

/// The update the front end must apply to its floating-point state before
/// the next probe.
#[derive(Clone, Copy, Debug, PartialEq, Eq)]
pub enum Action {
    /// No update: move on to the next test.
    Proceed,
    /// Diffuse re-emission at the lower cylinder wall (radius `r_bottom`),
    /// any direction, then recompute the next intersection.
    ReemitLowerWall,
    /// The particle passes the stage boundary unobstructed: advance the
    /// trajectory toward the radius-1 wall of the upper stage.
    PassThroat,
    /// The particle struck the annular face of the upper-stage entrance:
    /// diffuse re-emission downward from the crossing point.
    ReemitAnnulusDown,
    /// Diffuse re-emission at the upper cylinder wall (radius 1), any
    /// direction, then recompute the next intersection (falling back to the
    /// degenerate root if the trajectory re-enters the lower stage with no
    /// real intersection).
    ReemitUpperWall,
}

/// Whether a probe answers the test the given phase calls for.
pub open spec fn probe_fits(phase: Phase, probe: Probe) -> bool {
    match (phase, probe) {
        (Phase::LowerTest, Probe::Lower { .. }) => true,
        (Phase::CrossingTest, Probe::Crossing { .. }) => true,
        (Phase::UpperTest, Probe::Upper { .. }) => true,
        (Phase::ExitTest, Probe::Exit(..)) => true,
        _ => false,
    }
}

/// One transition of the machine: from the current phase, the probe's
/// outcome, and the iteration count, to the next phase, the new iteration
/// count, and the action the front end must perform.
pub open spec fn spec_step(phase: Phase, probe: Probe, bounces: int, cutoff: int) -> (Phase, int, Action) {
    match (phase, probe) {
        (Phase::LowerTest, Probe::Lower { wall_hit }) => (
            Phase::CrossingTest,
            bounces,
            if wall_hit {
                Action::ReemitLowerWall
            } else {
                Action::Proceed
            },
        ),
        (Phase::CrossingTest, Probe::Crossing { crossed_upward, within_throat }) => (
            Phase::UpperTest,
            bounces,
            if !crossed_upward {
                Action::Proceed
            } else if within_throat {
                Action::PassThroat
            } else {
                Action::ReemitAnnulusDown
            },
        ),
        (Phase::UpperTest, Probe::Upper { wall_hit }) => (
            Phase::ExitTest,
            bounces,
            if wall_hit {
                Action::ReemitUpperWall
            } else {
                Action::Proceed
            },
        ),
        (Phase::ExitTest, Probe::Exit(p)) => {
            let f = spec_classify(p.below_base, p.above_top, bounces, cutoff);
            if f is InFlight {
                (Phase::LowerTest, bounces + 1, Action::Proceed)
            } else {
                (Phase::Done(f), bounces, Action::Proceed)
            }
        },
        _ => (phase, bounces, Action::Proceed),
    }
}

/// The fate the machine reaches when the successive exit probes of a
/// trajectory are the entries of `exits`: the three geometric probes of an
/// iteration move the phase from `LowerTest` through `CrossingTest` and
/// `UpperTest` to `ExitTest` and leave the iteration count alone whatever
/// their outcomes (as `spec_step` shows), so only the exit transitions are
/// traced here. `Fate::InFlight` means the probes ran out first.
pub open spec fn traced_fate(exits: Seq<ExitProbe>, bounces: int, cutoff: int) -> Fate
    decreases exits.len(),
{
    if exits.len() == 0 {
        Fate::InFlight
    } else {
        let (phase, next_bounces, _) = spec_step(
            Phase::ExitTest,
            Probe::Exit(exits[0]),
            bounces,
            cutoff,
        );
        match phase {
            Phase::Done(f) => f,
            _ => traced_fate(exits.drop_first(), next_bounces, cutoff),
        }
    }
}

/// The machine's exit transitions compute exactly the trajectory fate of the
/// exit-check model [`crate::fate::run_fate`]: what the machine settles on is
/// what the model says, so the model's laws — among them that lowering the
/// bounce cutoff never rescues a stuck trajectory — hold of the machine.
pub proof fn lemma_traced_fate_matches_run_fate(exits: Seq<ExitProbe>, bounces: int, cutoff: int)
    ensures
        traced_fate(exits, bounces, cutoff) == crate::fate::run_fate(exits, bounces, cutoff),
    decreases exits.len(),
{
    if exits.len() > 0 {
        let f = spec_classify(exits[0].below_base, exits[0].above_top, bounces, cutoff);
        if f is InFlight {
            lemma_traced_fate_matches_run_fate(exits.drop_first(), bounces + 1, cutoff);
        }
    }
}

/// The trajectory machine for one particle: the current phase, the number of
/// the iteration underway (counted from 1), and the bounce cutoff.
pub struct Tracer {
    pub phase: Phase,
    pub bounces: usize,
    pub cutoff: usize,
}

impl Tracer {
    /// The iteration count starts at 1 and is only advanced while it is at
    /// most the cutoff, so it never passes `cutoff + 1`; the cutoff leaves
    /// room for that final increment; and a settled machine carries a
    /// settled fate, never `InFlight`.
    pub open spec fn wf(self) -> bool {
        &&& 1 <= self.bounces <= self.cutoff + 1
        &&& self.cutoff < usize::MAX
        &&& self.phase matches Phase::Done(f) ==> f !is InFlight
    }

    /// A fresh trajectory: first iteration underway, lower-wall test first.
    pub fn new(cutoff: usize) -> (t: Tracer)
        requires
            cutoff < usize::MAX,
        ensures
            t.wf(),
            t.phase is LowerTest,
            t.bounces == 1,
            t.cutoff == cutoff,
    {
        Tracer { phase: Phase::LowerTest, bounces: 1, cutoff }
    }

    /// Feed the machine the outcome of the test its phase called for; it
    /// moves to the next control point and says what the front end must do
    /// to its floating-point state before the next probe.
    pub fn step(&mut self, probe: Probe) -> (act: Action)
        requires
            old(self).wf(),
            old(self).phase !is Done,
            probe_fits(old(self).phase, probe),
        ensures
            final(self).wf(),
            final(self).cutoff == old(self).cutoff,
            (final(self).phase, final(self).bounces as int, act) == spec_step(
                old(self).phase,
                probe,
                old(self).bounces as int,
                old(self).cutoff as int,
            ),
    {
        match (self.phase, probe) {
            (Phase::LowerTest, Probe::Lower { wall_hit }) => {
                self.phase = Phase::CrossingTest;
                if wall_hit {
                    Action::ReemitLowerWall
                } else {
                    Action::Proceed
                }
            },
            (Phase::CrossingTest, Probe::Crossing { crossed_upward, within_throat }) => {
                self.phase = Phase::UpperTest;
                if !crossed_upward {
                    Action::Proceed
                } else if within_throat {
                    Action::PassThroat
                } else {
                    Action::ReemitAnnulusDown
                }
            },
            (Phase::UpperTest, Probe::Upper { wall_hit }) => {
                self.phase = Phase::ExitTest;
                if wall_hit {
                    Action::ReemitUpperWall
                } else {
                    Action::Proceed
                }
            },
            (Phase::ExitTest, Probe::Exit(p)) => {
                let f = classify(p, self.bounces, self.cutoff);
                match f {
                    Fate::InFlight => {
                        self.phase = Phase::LowerTest;
                        self.bounces = self.bounces + 1;
                    },
                    _ => {
                        self.phase = Phase::Done(f);
                    },
                }
                Action::Proceed
            },
            _ => Action::Proceed,
        }
    }
}

} // verus!
