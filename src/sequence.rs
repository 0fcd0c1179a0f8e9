//! A timed series of patterns: which pattern is shown, when to move on,
//! and what to send to the device at each step.
use vstd::prelude::*;
use crate::command::{command_of, encode_all_off, encode_leds, COMMAND_START, BRIGHTNESS_OFF};
use crate::microplate::{MicroPlate, cleared, with_leds};
use crate::revision::Revision;

verus! {

/// What the control loop must send to the device after a step of the sequence.
#[derive(Debug, Clone, Copy, PartialEq, Eq, Structural)]
pub enum SequenceAction {
    /// Nothing to send.
    Idle,
    /// Turn every LED off, then show the current pattern; restart its timer.
    ShowCurrent,
    /// Turn every LED off: the run is over.
    AllOff,
}

/// Sum of the durations of `ps`, in seconds.
pub open spec fn total_duration(ps: Seq<MicroPlate>) -> int
    decreases ps.len(),
{
    if ps.len() == 0 {
        0
    } else {
        total_duration(ps.drop_last()) + ps.last().duration
    }
}

/// A non-empty list of patterns, the one selected, and whether a run is in progress.
#[derive(Debug, Clone)]
pub struct Sequence {
    pub plates: Vec<MicroPlate>,
    /// Index of the selected pattern; during a run, the one shown.
    pub current: usize,
    pub running: bool,
}

impl Sequence {
    pub open spec fn wf(&self) -> bool {
        &&& self.plates@.len() >= 1
        &&& self.current < self.plates@.len()
        &&& forall|i: int| 0 <= i < self.plates@.len() ==> (#[trigger] self.plates@[i]).wf()
    }

    /// One default pattern, selected, and no run in progress.
    pub fn new() -> (s: Sequence)
        ensures
            s.wf(),
            s.plates@.len() == 1,
            s.plates@[0].is_default(),
            s.current == 0,
            !s.running,
    {
        let mut plates: Vec<MicroPlate> = Vec::new();
        plates.push(MicroPlate::default());
        Sequence { plates, current: 0, running: false }
    }

    /// Starts a run at the first pattern, with its readings cleared.
    pub fn start(&mut self) -> (a: SequenceAction)
        requires
            old(self).wf(),
        ensures
            final(self).wf(),
            a == SequenceAction::ShowCurrent,
            final(self).running,
            final(self).current == 0,
            final(self).plates@.len() == old(self).plates@.len(),
            final(self).plates@[0].wells@ == cleared(old(self).plates@[0].wells@),
            final(self).plates@[0].brightness == old(self).plates@[0].brightness,
            final(self).plates@[0].wavelength == old(self).plates@[0].wavelength,
            final(self).plates@[0].duration == old(self).plates@[0].duration,
            forall|i: int| 1 <= i < final(self).plates@.len() ==> #[trigger] final(self).plates@[i] == old(self).plates@[i],
    {
        self.running = true;
        self.current = 0;
        self.plates[0].clear();
        SequenceAction::ShowCurrent
    }

    /// Ends a run.
    pub fn stop(&mut self) -> (a: SequenceAction)
        ensures
            a == SequenceAction::AllOff,
            !final(self).running,
            final(self).current == old(self).current,
            final(self).plates@ == old(self).plates@,
    {
        self.running = false;
        SequenceAction::AllOff
    }

    /// One tick of the control loop, `elapsed` seconds after the current
    /// pattern was shown. When its duration has passed, moves on to the next
    /// pattern, or ends the run after the last one.
    pub fn tick(&mut self, elapsed: u64) -> (a: SequenceAction)
        requires
            old(self).wf(),
        ensures
            final(self).wf(),
            final(self).plates@ == old(self).plates@,
            !old(self).running || elapsed < old(self).plates@[old(self).current as int].duration ==> {
                &&& a == SequenceAction::Idle
                &&& final(self).current == old(self).current
                &&& final(self).running == old(self).running
            },
            old(self).running && elapsed >= old(self).plates@[old(self).current as int].duration ==> {
                if old(self).current + 1 >= old(self).plates@.len() {
                    &&& a == SequenceAction::AllOff
                    &&& !final(self).running
                    &&& final(self).current == old(self).current
                } else {
                    &&& a == SequenceAction::ShowCurrent
                    &&& final(self).running
                    &&& final(self).current == old(self).current + 1
                }
            },
    {
        if !self.running || elapsed < self.plates[self.current].duration {
            return SequenceAction::Idle;
        }
        if self.current >= self.plates.len() - 1 {
            self.running = false;
            SequenceAction::AllOff
        } else {
            self.current = self.current + 1;
            SequenceAction::ShowCurrent
        }
    }

    /// Bytes to send to the device for `a`.
    pub fn command_bytes(&self, a: SequenceAction, rev: &Revision) -> (r: Vec<u8>)
        requires
            self.wf(),
            rev.wf(),
        ensures
            a == SequenceAction::Idle ==> r@ == Seq::<u8>::empty(),
            a == SequenceAction::AllOff ==> r@ == seq![COMMAND_START, BRIGHTNESS_OFF],
            a == SequenceAction::ShowCurrent ==> r@ == seq![COMMAND_START, BRIGHTNESS_OFF]
                + command_of(self.plates@[self.current as int], *rev),
    {
        match a {
            SequenceAction::Idle => Vec::new(),
            SequenceAction::AllOff => encode_all_off(),
            SequenceAction::ShowCurrent => {
                let mut r = encode_all_off();
                let mut show = encode_leds(&self.plates[self.current], rev);
                r.append(&mut show);
                r
            },
        }
    }

    /// Sum of the durations of all patterns, in seconds, saturating at `u64::MAX`.
    pub fn total_duration(&self) -> (r: u64)
        ensures
            r as int == if total_duration(self.plates@) > u64::MAX as int {
                u64::MAX as int
            } else {
                total_duration(self.plates@)
            },
    {
        let mut sum: u64 = 0;
        let mut i: usize = 0;
        while i < self.plates.len()
            invariant
                i <= self.plates@.len(),
                sum as int == if total_duration(self.plates@.take(i as int)) > u64::MAX as int {
                    u64::MAX as int
                } else {
                    total_duration(self.plates@.take(i as int))
                },
            decreases self.plates@.len() - i,
        {
            assert(self.plates@.take(i + 1).drop_last() =~= self.plates@.take(i as int));
            proof {
                lemma_total_duration_nonnegative(self.plates@.take(i as int));
            }
            sum = sum.saturating_add(self.plates[i].duration);
            i += 1;
        }
        assert(self.plates@.take(i as int) =~= self.plates@);
        sum
    }

    /// Seconds of the run still to go, `elapsed` seconds after it started; zero once it is over.
    pub fn seconds_left(&self, elapsed: u64) -> (r: u64)
        ensures
            r as int == if total_duration(self.plates@) > u64::MAX as int {
                u64::MAX - elapsed
            } else if total_duration(self.plates@) > elapsed {
                total_duration(self.plates@) - elapsed
            } else {
                0
            },
    {
        self.total_duration().saturating_sub(elapsed)
    }

    /// Appends a default pattern and selects it.
    pub fn add_pattern(&mut self)
        requires
            old(self).wf(),
        ensures
            final(self).wf(),
            final(self).plates@.len() == old(self).plates@.len() + 1,
            final(self).plates@.drop_last() == old(self).plates@,
            final(self).plates@.last().is_default(),
            final(self).current == old(self).plates@.len(),
            final(self).running == old(self).running,
    {
        self.plates.push(MicroPlate::default());
        self.current = self.plates.len() - 1;
        assert(self.plates@.drop_last() =~= old(self).plates@);
    }

    /// Removes the selected pattern, unless it is the only one, and selects
    /// the one before it (or the first). Returns whether a pattern was removed.
    pub fn remove_pattern(&mut self) -> (removed: bool)
        requires
            old(self).wf(),
        ensures
            final(self).wf(),
            removed == (old(self).plates@.len() > 1),
            removed ==> final(self).plates@ == old(self).plates@.remove(old(self).current as int),
            removed ==> final(self).current == (if old(self).current == 0 { 0 } else { old(self).current - 1 }),
            !removed ==> final(self).plates@ == old(self).plates@ && final(self).current == old(self).current,
            final(self).running == old(self).running,
    {
        if self.plates.len() <= 1 {
            return false;
        }
        self.plates.remove(self.current);
        if self.current != 0 {
            self.current = self.current - 1;
        }
        assert forall|i: int| 0 <= i < self.plates@.len() implies (#[trigger] self.plates@[i]).wf() by {
            if i >= old(self).current {
                assert(self.plates@[i] == old(self).plates@[i + 1]);
            } else {
                assert(self.plates@[i] == old(self).plates@[i]);
            }
        }
        true
    }

    /// Selects pattern `i`, if there is one; returns whether it did.
    pub fn select(&mut self, i: usize) -> (selected: bool)
        ensures
            selected == (i < old(self).plates@.len()),
            final(self).current == (if selected { i } else { old(self).current }),
            final(self).plates@ == old(self).plates@,
            final(self).running == old(self).running,
    {
        if i < self.plates.len() {
            self.current = i;
            true
        } else {
            false
        }
    }

    /// Sets the illumination flag of every well of the selected pattern to `on`.
    pub fn set_all_leds(&mut self, on: bool)
        requires
            old(self).wf(),
        ensures
            final(self).wf(),
            final(self).current == old(self).current,
            final(self).running == old(self).running,
            final(self).plates@.len() == old(self).plates@.len(),
            final(self).plates@[old(self).current as int].wells@
                == with_leds(old(self).plates@[old(self).current as int].wells@, on),
            final(self).plates@[old(self).current as int].brightness
                == old(self).plates@[old(self).current as int].brightness,
            final(self).plates@[old(self).current as int].wavelength
                == old(self).plates@[old(self).current as int].wavelength,
            final(self).plates@[old(self).current as int].duration
                == old(self).plates@[old(self).current as int].duration,
            forall|i: int| 0 <= i < final(self).plates@.len() && i != old(self).current
                ==> #[trigger] final(self).plates@[i] == old(self).plates@[i],
    {
        let c = self.current;
        self.plates[c].set_all_leds(on);
    }
}

proof fn lemma_total_duration_nonnegative(ps: Seq<MicroPlate>)
    ensures
        total_duration(ps) >= 0,
    decreases ps.len(),
{
    if ps.len() > 0 {
        lemma_total_duration_nonnegative(ps.drop_last());
    }
}

} // verus!
