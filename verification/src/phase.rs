use crate::fixed::MAX_TIME_FX;
use vstd::prelude::*;

verus! {

/// A bare phase accumulator: a counter advanced by a fixed step on every
/// pull, conceptually unbounded.
pub struct Phase {
    pub phase: u64,
    pub delta: u64,
}

impl Phase {
    /// Builds an accumulator with the given per-pull step; a vanishing
    /// step is refused.
    pub fn new(delta: u64) -> (r: Option<Phase>)
        ensures
            match r {
                Some(p) => delta > 0 && p.delta == delta && p.phase == 0,
                None => delta == 0,
            },
    {
        if delta == 0 {
            None
        } else {
            Some(Phase { phase: 0, delta })
        }
    }

    /// Builds an accumulator stepping by one sample period's worth of the
    /// given frequency; refused when the step is too small to represent.
    pub fn with_freq(freq: u64, sample_rate: u32) -> (r: Option<Phase>)
        requires
            sample_rate > 0,
        ensures
            match r {
                Some(p) => freq / (sample_rate as u64) > 0 && p.delta == freq / (
                sample_rate as u64) && p.phase == 0,
                None => freq / (sample_rate as u64) == 0,
            },
    {
        Phase::new(freq / (sample_rate as u64))
    }

    /// Advances the accumulator and yields the advanced phase, until the
    /// counter can no longer be represented.
    pub fn next(&mut self) -> (r: Option<u64>)
        ensures
            ({
                let pre = *old(self);
                let post = *final(self);
                &&& post.delta == pre.delta
                &&& if pre.phase + pre.delta <= u64::MAX {
                    &&& post.phase == pre.phase + pre.delta
                    &&& r == Some(post.phase)
                } else {
                    &&& post.phase == pre.phase
                    &&& r is None
                }
            }),
    {
        if self.phase <= u64::MAX - self.delta {
            self.phase = self.phase + self.delta;
            Some(self.phase)
        } else {
            None
        }
    }

    /// Rewinds the accumulator to the start.
    pub fn reset(&mut self)
        ensures
            final(self).phase == 0,
            final(self).delta == old(self).delta,
    {
        self.phase = 0;
    }

    /// The accumulator never exhausts on its own; it reports the whole
    /// representable time horizon.
    pub fn duration(&self) -> (r: u64)
        ensures
            r == MAX_TIME_FX,
    {
        MAX_TIME_FX
    }
}

} // verus!
