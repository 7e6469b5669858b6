//! Counters reported by the reference-pruning pass.

use vstd::prelude::*;

verus! {

/// Counters the reference-pruning pass reports: how many prunings of each
/// shape it performed.
pub struct PruneStats {
    basicblock: usize,
    diamond: usize,
    fanout: usize,
    fanout_raise: usize,
}

impl PruneStats {
    /// How many basic-block prunings were performed.
    pub closed spec fn spec_basicblock(&self) -> usize {
        self.basicblock
    }

    /// How many diamond prunings were performed.
    pub closed spec fn spec_diamond(&self) -> usize {
        self.diamond
    }

    /// How many fanout prunings were performed.
    pub closed spec fn spec_fanout(&self) -> usize {
        self.fanout
    }

    /// How many raising fanout prunings were performed.
    pub closed spec fn spec_fanout_raise(&self) -> usize {
        self.fanout_raise
    }

    /// Bundles the four counters the native pass reported.
    pub fn new(basicblock: usize, diamond: usize, fanout: usize, fanout_raise: usize) -> (stats:
        Self)
        ensures
            stats.spec_basicblock() == basicblock,
            stats.spec_diamond() == diamond,
            stats.spec_fanout() == fanout,
            stats.spec_fanout_raise() == fanout_raise,
    {
        PruneStats { basicblock, diamond, fanout, fanout_raise }
    }

    /// How many basic-block prunings were performed.
    pub fn basicblock(&self) -> (count: usize)
        ensures
            count == self.spec_basicblock(),
    {
        self.basicblock
    }

    /// How many diamond prunings were performed.
    pub fn diamond(&self) -> (count: usize)
        ensures
            count == self.spec_diamond(),
    {
        self.diamond
    }

    /// How many fanout prunings were performed.
    pub fn fanout(&self) -> (count: usize)
        ensures
            count == self.spec_fanout(),
    {
        self.fanout
    }

    /// How many raising fanout prunings were performed.
    pub fn fanout_raise(&self) -> (count: usize)
        ensures
            count == self.spec_fanout_raise(),
    {
        self.fanout_raise
    }
}

} // verus!
