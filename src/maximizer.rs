//! Runtime state of the envelope-following maximizer: the tracked peak
//! envelope and the lookahead line that delays the input before the gain
//! derived from the envelope is applied to it.
use vstd::prelude::*;
use crate::delay_line::{DelayLine, LINE_SIZE};

verus! {

/// State carried by the maximizer from block to block, until a reset.
pub struct MaximizerState<T> {
    /// Current tracked peak magnitude.
    pub envelope: T,
    /// Recent input, read back behind the configured delay.
    pub line: DelayLine<T>,
}

impl<T: Copy> MaximizerState<T> {
    /// The line keeps its invariant; the envelope is free.
    pub open spec fn wf(&self) -> bool {
        self.line.wf()
    }

    /// Envelope and every slot of the line at `zero`, position at the first
    /// slot, nothing written since.
    pub open spec fn is_reset(&self, zero: T) -> bool {
        &&& self.envelope == zero
        &&& self.line.is_silent(zero)
    }

    /// The state of a newly made maximizer.
    pub fn new(zero: T) -> (s: Self)
        ensures
            s.wf(),
            s.is_reset(zero),
    {
        MaximizerState { envelope: zero, line: DelayLine::new(zero) }
    }

    /// Zeroes the envelope and the whole line and moves the write position
    /// back to the first slot.
    pub fn reset(&mut self, zero: T)
        requires
            old(self).wf(),
        ensures
            final(self).wf(),
            final(self).is_reset(zero),
    {
        self.envelope = zero;
        self.line.reset(zero);
    }
}

/// Resetting leaves a state that depends on nothing but the value it resets
/// to: a second reset right after the first changes nothing that can be
/// observed.
pub proof fn lemma_reset_idempotent<T: Copy>(
    once: MaximizerState<T>,
    twice: MaximizerState<T>,
    zero: T,
)
    requires
        once.is_reset(zero),
        twice.is_reset(zero),
    ensures
        once.envelope == twice.envelope,
        once.line.slots() == twice.line.slots(),
        once.line.pos() == twice.line.pos(),
        once.line.history() == twice.line.history(),
        once.line.silence() == twice.line.silence(),
{
}

/// Read and write positions of the line stay within its slots whatever is
/// pushed through it and whatever delay is asked for.
pub proof fn lemma_positions_in_range<T: Copy>(s: MaximizerState<T>, delay: int)
    requires
        s.wf(),
        delay >= 0,
    ensures
        0 <= s.line.pos() < LINE_SIZE,
        0 <= crate::delay_line::slot_before(s.line.pos(), delay) < LINE_SIZE,
{
    s.line.lemma_wf_pos();
}

} // verus!
