//! A fixed-capacity ring of samples: every processed sample is written at the
//! current position, a sample some steps in the past is read back, and the
//! position moves on by one slot, wrapping around.
use vstd::prelude::*;

verus! {

/// Number of slots in the line; a power of two.
pub const LINE_SIZE: usize = 16;

/// Slot that lies `delay` steps before `pos`, counting around the ring
/// (true modulo, so it never underflows).
pub open spec fn slot_before(pos: int, delay: int) -> int {
    (pos - delay) % (LINE_SIZE as int)
}

/// The sample written `delay` steps before the newest one of `history`
/// (`delay == 0` is the newest); `silence` where the history is shorter.
pub open spec fn lookback<T>(history: Seq<T>, delay: int, silence: T) -> T {
    if 0 <= delay < history.len() {
        history[history.len() - 1 - delay]
    } else {
        silence
    }
}

/// Ring buffer of `LINE_SIZE` samples and the position of the next write.
pub struct DelayLine<T> {
    slots: Vec<T>,
    pos: usize,
    /// Every sample written since the line was made or last reset, oldest first.
    history: Ghost<Seq<T>>,
    /// The value the line was filled with on making or reset.
    silence: Ghost<T>,
}

impl<T: Copy> DelayLine<T> {
    /// Contents of the ring, slot by slot.
    pub closed spec fn slots(&self) -> Seq<T> {
        self.slots@
    }

    /// Slot that the next sample is written to.
    pub closed spec fn pos(&self) -> int {
        self.pos as int
    }

    /// Every sample written since the line was made or last reset, oldest first.
    pub closed spec fn history(&self) -> Seq<T> {
        self.history@
    }

    /// The value the line was filled with on making or reset.
    pub closed spec fn silence(&self) -> T {
        self.silence@
    }

    /// The ring has its fixed size, the position lies within it, and each of
    /// the last `LINE_SIZE` slots behind the position holds the sample written
    /// that many steps ago, or silence where nothing was written yet.
    pub closed spec fn wf(&self) -> bool {
        &&& self.slots@.len() == LINE_SIZE
        &&& self.pos < LINE_SIZE
        &&& forall|j: int|
            0 <= j < LINE_SIZE ==> #[trigger] self.slots@[slot_before(self.pos as int - 1, j)]
                == lookback(self.history@, j, self.silence@)
    }

    /// The state right after making or reset: every slot silent, position at
    /// the first slot, nothing written yet.
    pub open spec fn is_silent(&self, silence: T) -> bool {
        &&& self.wf()
        &&& self.pos() == 0
        &&& self.slots() == Seq::new(LINE_SIZE as nat, |_i: int| silence)
        &&& self.history() == Seq::<T>::empty()
        &&& self.silence() == silence
    }

    /// A well-formed line writes within its slots.
    pub proof fn lemma_wf_pos(&self)
        requires
            self.wf(),
        ensures
            0 <= self.pos() < LINE_SIZE,
            self.slots().len() == LINE_SIZE,
    {
    }

    proof fn lemma_silent_wf(&self)
        requires
            self.slots@.len() == LINE_SIZE,
            self.pos < LINE_SIZE,
            forall|i: int| 0 <= i < LINE_SIZE ==> self.slots@[i] == self.silence@,
            self.history@.len() == 0,
        ensures
            self.wf(),
    {
        assert forall|j: int| 0 <= j < LINE_SIZE implies #[trigger] self.slots@[slot_before(
            self.pos as int - 1,
            j,
        )] == lookback(self.history@, j, self.silence@) by {
            let k = slot_before(self.pos as int - 1, j);
            assert(0 <= k < LINE_SIZE);
        }
    }

    /// A line of silent slots, positioned at the first one.
    pub fn new(silence: T) -> (line: Self)
        ensures
            line.is_silent(silence),
    {
        let mut slots: Vec<T> = Vec::new();
        let mut i: usize = 0;
        while i < LINE_SIZE
            invariant
                i <= LINE_SIZE,
                slots@.len() == i,
                forall|k: int| 0 <= k < i ==> slots@[k] == silence,
            decreases LINE_SIZE - i,
        {
            slots.push(silence);
            i = i + 1;
        }
        let line = DelayLine { slots, pos: 0, history: Ghost(Seq::empty()), silence: Ghost(silence) };
        proof {
            line.lemma_silent_wf();
            assert(line.slots() =~= Seq::new(LINE_SIZE as nat, |_i: int| silence));
        }
        line
    }

    /// Silences every slot and moves the position back to the first slot,
    /// whatever the line held before.
    pub fn reset(&mut self, silence: T)
        requires
            old(self).wf(),
        ensures
            final(self).is_silent(silence),
    {
        let mut i: usize = 0;
        while i < LINE_SIZE
            invariant
                i <= LINE_SIZE,
                self.slots@.len() == LINE_SIZE,
                forall|k: int| 0 <= k < i ==> self.slots@[k] == silence,
            decreases LINE_SIZE - i,
        {
            self.slots.set(i, silence);
            i = i + 1;
        }
        self.pos = 0;
        self.history = Ghost(Seq::empty());
        self.silence = Ghost(silence);
        proof {
            self.lemma_silent_wf();
            assert(self.slots() =~= Seq::new(LINE_SIZE as nat, |_i: int| silence));
        }
    }

    /// Slot that a sample written at `pos` reads back when delayed by `delay`.
    pub fn read_slot(pos: usize, delay: usize) -> (r: usize)
        requires
            pos < LINE_SIZE,
        ensures
            r == slot_before(pos as int, delay as int),
            r < LINE_SIZE,
    {
        let back = delay % LINE_SIZE;
        (pos + LINE_SIZE - back) % LINE_SIZE
    }

    /// Slot that the next sample will be written to.
    pub fn position(&self) -> (r: usize)
        requires
            self.wf(),
        ensures
            r == self.pos(),
            r < LINE_SIZE,
    {
        self.pos
    }

    /// Writes `x` at the current position, reads the sample `delay` slots
    /// behind it (the one just written when `delay` is a multiple of the
    /// size), and advances the position by one slot.
    ///
    /// A `delay` below `LINE_SIZE` gives the sample written `delay` steps ago,
    /// or silence while fewer have been written since the last reset. A
    /// longer one wraps around the ring and reads a slot written more
    /// recently than it asks for.
    pub fn push_and_read(&mut self, x: T, delay: usize) -> (r: T)
        requires
            old(self).wf(),
        ensures
            final(self).wf(),
            final(self).slots() == old(self).slots().update(old(self).pos(), x),
            final(self).pos() == (old(self).pos() + 1) % (LINE_SIZE as int),
            final(self).history() == old(self).history().push(x),
            final(self).silence() == old(self).silence(),
            r == final(self).slots()[slot_before(old(self).pos(), delay as int)],
            delay < LINE_SIZE ==> r == lookback(final(self).history(), delay as int, final(self).silence()),
            r == lookback(
                final(self).history(),
                delay as int % LINE_SIZE as int,
                final(self).silence(),
            ),
    {
        let p = self.pos;
        let ghost old_slots = self.slots@;
        let ghost old_hist = self.history@;
        self.slots.set(p, x);
        self.history = Ghost(old_hist.push(x));
        let idx = Self::read_slot(p, delay);
        let r = self.slots[idx];
        self.pos = if p + 1 == LINE_SIZE { 0 } else { p + 1 };
        proof {
            assert forall|j: int| 0 <= j < LINE_SIZE implies #[trigger] self.slots@[slot_before(
                self.pos as int - 1,
                j,
            )] == lookback(self.history@, j, self.silence@) by {
                assert(slot_before(self.pos as int - 1, j) == slot_before(p as int, j));
                if j == 0 {
                    assert(slot_before(p as int, 0) == p);
                } else {
                    assert(slot_before(p as int, j) == slot_before(p as int - 1, j - 1));
                    assert(slot_before(p as int, j) != p);
                    assert(old_slots[slot_before(p as int - 1, j - 1)] == lookback(
                        old_hist,
                        j - 1,
                        self.silence@,
                    ));
                }
            }
            let back = delay as int % LINE_SIZE as int;
            assert(slot_before(p as int, delay as int) == slot_before(p as int, back));
            assert(self.slots@[slot_before(self.pos as int - 1, back)] == lookback(
                self.history@,
                back,
                self.silence@,
            ));
        }
        r
    }
}

/// Behind a delay shorter than the line, the first `delay` samples read back
/// after a reset are silence: nothing that far back has been written yet.
pub proof fn lemma_primed_with_silence<T>(history: Seq<T>, delay: int, silence: T)
    requires
        0 <= delay < LINE_SIZE,
        history.len() <= delay,
    ensures
        lookback(history, delay, silence) == silence,
{
}

/// Once more than `delay` samples have been written, a delay shorter than the
/// line reads back exactly the input of `delay` steps before.
pub proof fn lemma_reads_past_input<T>(history: Seq<T>, delay: int, silence: T)
    requires
        0 <= delay < LINE_SIZE,
        delay < history.len(),
    ensures
        lookback(history, delay, silence) == history[history.len() - 1 - delay],
{
}

} // verus!
