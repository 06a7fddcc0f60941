use vstd::prelude::*;

verus! {

/// The delay and sound countdown counters.
#[derive(Clone, Copy, Debug, PartialEq, Eq, Structural)]
pub struct Timers {
    pub delay: u8,
    pub sound: u8,
}

/// One countdown step of a counter: down by one, never below zero.
pub open spec fn count_down(t: u8) -> u8 {
    if t > 0 {
        (t - 1) as u8
    } else {
        0
    }
}

/// The timers after one tick.
pub open spec fn tick_spec(t: Timers) -> Timers {
    Timers { delay: count_down(t.delay), sound: count_down(t.sound) }
}

/// Whether a tick from `t` takes the sound timer from one to zero.
pub open spec fn beeps(t: Timers) -> bool {
    t.sound == 1
}

impl Timers {
    pub fn new() -> (r: Timers)
        ensures
            r.delay == 0,
            r.sound == 0,
    {
        Timers { delay: 0, sound: 0 }
    }

    /// Decrements both counters by one, stopping at zero. Returns whether the
    /// sound timer reached zero on this tick, which is when a beep is due.
    pub fn tick(&mut self) -> (beep: bool)
        ensures
            *final(self) == tick_spec(*old(self)),
            beep == beeps(*old(self)),
    {
        let beep = self.sound == 1;
        if self.delay > 0 {
            self.delay = self.delay - 1;
        }
        if self.sound > 0 {
            self.sound = self.sound - 1;
        }
        beep
    }
}

/// A tick never takes a counter below zero, lowers each counter by at most
/// one, and beeps exactly when the sound timer goes from one to zero.
pub proof fn lemma_tick_decay(t: Timers)
    ensures
        tick_spec(t).delay as int == if t.delay > 0 { t.delay - 1 } else { 0 },
        tick_spec(t).sound as int == if t.sound > 0 { t.sound - 1 } else { 0 },
        t.delay == 0 ==> tick_spec(t).delay == 0,
        beeps(t) <==> (t.sound > 0 && tick_spec(t).sound == 0),
{
}

} // verus!
