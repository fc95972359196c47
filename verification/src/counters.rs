//! The run's accumulators and their reduction to the integer results.
//!
//! Each terminated trajectory is folded into four counters; after the last
//! particle they are reduced to the integer part of the run's results. The
//! two floating-point outputs are ratios the front end forms from these
//! counts and its velocity sums: the Clausing factor is
//! `r_bottom^2 * escaped / npart`, so the bound `escaped <= processed`
//! proved here is exactly the area-ratio bound
//! `0 <= clausing_factor <= r_bottom^2` on the final output.

use vstd::prelude::*;
use crate::errors::ClausingError;
use crate::fate::Fate;

verus! {

/// Running counts over the particles processed so far: how many were
/// processed, how many escaped, how many hit the bounce cutoff (`nlost`),
/// and the largest iteration count any trajectory reached.
#[derive(Clone, Copy, Debug, PartialEq, Eq)]
pub struct Counters {
    pub processed: usize,
    pub escaped: usize,
    pub nlost: usize,
    pub max_count: usize,
}

/// The integer part of the run's results: the escape count the Clausing
/// factor is formed from, the largest iteration count observed, and the
/// count of trajectories cut off.
#[derive(Clone, Copy, Debug, PartialEq, Eq)]
pub struct TransitCounts {
    pub escaped: usize,
    pub max_count: usize,
    pub nlost: usize,
}

impl Counters {
    /// Each particle terminates with exactly one fate, so the escaped and
    /// stuck counts together never pass the processed count; and every
    /// trajectory runs at least one iteration, so once anything was
    /// processed the maximum iteration count is at least 1.
    pub open spec fn wf(self) -> bool {
        &&& self.escaped + self.nlost <= self.processed
        &&& self.processed >= 1 ==> self.max_count >= 1
    }

    /// Counters of a fresh run: all zero.
    pub fn new() -> (c: Counters)
        ensures
            c.wf(),
            c.processed == 0,
            c.escaped == 0,
            c.nlost == 0,
            c.max_count == 0,
    {
        Counters { processed: 0, escaped: 0, nlost: 0, max_count: 0 }
    }

    /// Fold one terminated trajectory into the counters: `fate` is how it
    /// ended and `bounces` how many iterations it ran.
    pub fn record(&mut self, fate: Fate, bounces: usize)
        requires
            old(self).wf(),
            fate !is InFlight,
            bounces >= 1,
            old(self).processed < usize::MAX,
        ensures
            final(self).wf(),
            final(self).processed == old(self).processed + 1,
            final(self).escaped == if fate is Escaped {
                old(self).escaped + 1
            } else {
                old(self).escaped as int
            },
            final(self).nlost == if fate is Stuck {
                old(self).nlost + 1
            } else {
                old(self).nlost as int
            },
            final(self).max_count == if bounces > old(self).max_count {
                bounces
            } else {
                old(self).max_count
            },
    {
        self.processed = self.processed + 1;
        match fate {
            Fate::Escaped => {
                self.escaped = self.escaped + 1;
            },
            Fate::Stuck => {
                self.nlost = self.nlost + 1;
            },
            _ => {},
        }
        if bounces > self.max_count {
            self.max_count = bounces;
        }
    }

    /// Combine the counters of two partial runs over disjoint sets of
    /// particles: counts add, the maxima take the larger.
    pub fn merge(&self, other: &Counters) -> (c: Counters)
        requires
            self.wf(),
            other.wf(),
            self.processed + other.processed <= usize::MAX,
        ensures
            c.wf(),
            c.processed == self.processed + other.processed,
            c.escaped == self.escaped + other.escaped,
            c.nlost == self.nlost + other.nlost,
            c.max_count == if self.max_count > other.max_count {
                self.max_count
            } else {
                other.max_count
            },
    {
        Counters {
            processed: self.processed + other.processed,
            escaped: self.escaped + other.escaped,
            nlost: self.nlost + other.nlost,
            max_count: if self.max_count > other.max_count {
                self.max_count
            } else {
                other.max_count
            },
        }
    }

    /// Reduce a finished run of `npart` particles to its integer results.
    /// Succeeds exactly when at least one particle escaped; with no escape
    /// the mean exit velocity is undefined and the run is reported as such.
    /// On success the escape count is between 1 and `npart` (so the Clausing
    /// factor `r_bottom^2 * escaped / npart` lies in `(0, r_bottom^2]`), the
    /// cutoff count is at most `npart`, and the maximum iteration count is
    /// at least 1.
    pub fn finalize(&self, npart: usize) -> (r: Result<TransitCounts, ClausingError>)
        requires
            self.wf(),
            self.processed == npart,
        ensures
            r is Ok <==> self.escaped >= 1,
            r matches Ok(t) ==> {
                &&& t.escaped == self.escaped
                &&& t.max_count == self.max_count
                &&& t.nlost == self.nlost
                &&& 1 <= t.escaped <= npart
                &&& t.nlost <= npart
                &&& t.max_count >= 1
            },
            r matches Err(e) ==> e is NoEscapes && self.escaped == 0,
    {
        if self.escaped == 0 {
            Err(ClausingError::NoEscapes)
        } else {
            Ok(TransitCounts { escaped: self.escaped, max_count: self.max_count, nlost: self.nlost })
        }
    }
}

} // verus!
