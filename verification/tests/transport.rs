//! Tests of the trajectory state machine and the exit classification.

use clausing::fate::{classify, ExitProbe, Fate};
use clausing::tracer::{Action, Phase, Probe, Tracer, BOUNCE_CUTOFF};

fn exit(below_base: bool, above_top: bool) -> Probe {
    Probe::Exit(ExitProbe { below_base, above_top })
}

#[test]
fn classify_orders_the_checks() {
    // Absorption is tested first, escape second, the cutoff last.
    assert_eq!(
        classify(ExitProbe { below_base: true, above_top: false }, 5, 1000),
        Fate::Absorbed
    );
    assert_eq!(
        classify(ExitProbe { below_base: true, above_top: true }, 5, 1000),
        Fate::Absorbed
    );
    assert_eq!(
        classify(ExitProbe { below_base: false, above_top: true }, 5, 1000),
        Fate::Escaped
    );
    // An escape on the iteration past the cutoff still counts as an escape.
    assert_eq!(
        classify(ExitProbe { below_base: false, above_top: true }, 1001, 1000),
        Fate::Escaped
    );
    // The cutoff check is strict: iteration 1000 under cutoff 1000 flies on.
    assert_eq!(
        classify(ExitProbe { below_base: false, above_top: false }, 1000, 1000),
        Fate::InFlight
    );
    assert_eq!(
        classify(ExitProbe { below_base: false, above_top: false }, 1001, 1000),
        Fate::Stuck
    );
}

#[test]
fn escape_on_first_iteration() {
    // A particle that misses every wall and leaves through the top counts
    // one iteration.
    let mut t = Tracer::new(BOUNCE_CUTOFF);
    assert_eq!(t.phase, Phase::LowerTest);
    assert_eq!(t.bounces, 1);
    assert_eq!(t.step(Probe::Lower { wall_hit: false }), Action::Proceed);
    assert_eq!(t.phase, Phase::CrossingTest);
    assert_eq!(
        t.step(Probe::Crossing { crossed_upward: true, within_throat: true }),
        Action::PassThroat
    );
    assert_eq!(t.phase, Phase::UpperTest);
    assert_eq!(t.step(Probe::Upper { wall_hit: false }), Action::Proceed);
    assert_eq!(t.phase, Phase::ExitTest);
    assert_eq!(t.step(exit(false, true)), Action::Proceed);
    assert_eq!(t.phase, Phase::Done(Fate::Escaped));
    assert_eq!(t.bounces, 1);
}

#[test]
fn each_test_outcome_demands_its_reemission() {
    let mut t = Tracer::new(BOUNCE_CUTOFF);
    // Hitting the lower wall demands a lower-wall re-emission.
    assert_eq!(t.step(Probe::Lower { wall_hit: true }), Action::ReemitLowerWall);
    // Crossing outside the throat strikes the annular face: downward re-emission.
    assert_eq!(
        t.step(Probe::Crossing { crossed_upward: true, within_throat: false }),
        Action::ReemitAnnulusDown
    );
    // Hitting the upper wall demands an upper-wall re-emission.
    assert_eq!(t.step(Probe::Upper { wall_hit: true }), Action::ReemitUpperWall);
    // No exit condition: a second iteration starts at the lower-wall test.
    assert_eq!(t.step(exit(false, false)), Action::Proceed);
    assert_eq!(t.phase, Phase::LowerTest);
    assert_eq!(t.bounces, 2);
    // Falling below the base absorbs the particle.
    assert_eq!(t.step(Probe::Lower { wall_hit: false }), Action::Proceed);
    assert_eq!(
        t.step(Probe::Crossing { crossed_upward: false, within_throat: false }),
        Action::Proceed
    );
    assert_eq!(t.step(Probe::Upper { wall_hit: false }), Action::Proceed);
    assert_eq!(t.step(exit(true, false)), Action::Proceed);
    assert_eq!(t.phase, Phase::Done(Fate::Absorbed));
    assert_eq!(t.bounces, 2);
}

/// Run one iteration in which no wall is hit, ending with the given exit probe.
fn quiet_iteration(t: &mut Tracer, below_base: bool, above_top: bool) {
    t.step(Probe::Lower { wall_hit: false });
    t.step(Probe::Crossing { crossed_upward: false, within_throat: false });
    t.step(Probe::Upper { wall_hit: false });
    t.step(exit(below_base, above_top));
}

#[test]
fn low_cutoff_sticks_after_two_iterations() {
    let mut t = Tracer::new(1);
    quiet_iteration(&mut t, false, false);
    assert_eq!(t.phase, Phase::LowerTest);
    assert_eq!(t.bounces, 2);
    quiet_iteration(&mut t, false, false);
    assert_eq!(t.phase, Phase::Done(Fate::Stuck));
    assert_eq!(t.bounces, 2);
}

/// Replay a trajectory's exit probes, one quiet iteration per entry, until
/// the machine settles or the script runs out.
fn replay(cutoff: usize, script: &[(bool, bool)]) -> (Phase, usize) {
    let mut t = Tracer::new(cutoff);
    for &(below_base, above_top) in script {
        if let Phase::Done(_) = t.phase {
            break;
        }
        quiet_iteration(&mut t, below_base, above_top);
    }
    (t.phase, t.bounces)
}

#[test]
fn lowering_the_cutoff_turns_an_escape_into_stuck() {
    // The same trajectory — two quiet iterations, then an escape — replayed
    // under two cutoffs: the lower cutoff cuts it off before it can escape.
    let script = [(false, false), (false, false), (false, true)];
    assert_eq!(replay(5, &script), (Phase::Done(Fate::Escaped), 3));
    assert_eq!(replay(1, &script), (Phase::Done(Fate::Stuck), 2));
}

#[test]
fn escape_beats_the_cutoff_on_the_final_iteration() {
    // The iteration past the cutoff still runs; if the trajectory leaves
    // through the top during it, that counts as an escape, not as stuck.
    let script = [(false, false), (false, true)];
    assert_eq!(replay(1, &script), (Phase::Done(Fate::Escaped), 2));
}
