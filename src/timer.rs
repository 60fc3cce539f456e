use vstd::prelude::*;

verus! {

/// A counter after one 60 Hz tick: one less, but never below zero.
pub open spec fn tick_spec(v: u8) -> u8 {
    if v > 0 {
        (v - 1) as u8
    } else {
        0
    }
}

/// A counter after `n` ticks.
pub open spec fn ticked(v: u8, n: nat) -> u8
    decreases n,
{
    if n == 0 {
        v
    } else {
        tick_spec(ticked(v, (n - 1) as nat))
    }
}

/// However many ticks pass, a counter that started at `v` stands at
/// `v - n` while that is positive and at zero afterwards: it never wraps.
pub proof fn lemma_ticks_saturate(v: u8, n: nat)
    ensures
        ticked(v, n) == if n <= v {
            v - n
        } else {
            0
        },
    decreases n,
{
    if n > 0 {
        lemma_ticks_saturate(v, (n - 1) as nat);
    }
}

/// The delay and sound countdown counters.
pub struct Timers {
    pub delay: u8,
    pub sound: u8,
}

impl Timers {
    /// Both counters at zero.
    pub fn init() -> (r: Timers)
        ensures
            r.delay == 0,
            r.sound == 0,
    {
        Timers { delay: 0, sound: 0 }
    }

    pub fn set_delay(&mut self, v: u8)
        ensures
            final(self).delay == v,
            final(self).sound == old(self).sound,
    {
        self.delay = v;
    }

    pub fn get_delay(&self) -> (r: u8)
        ensures
            r == self.delay,
    {
        self.delay
    }

    pub fn set_sound(&mut self, v: u8)
        ensures
            final(self).sound == v,
            final(self).delay == old(self).delay,
    {
        self.sound = v;
    }

    pub fn get_sound(&self) -> (r: u8)
        ensures
            r == self.sound,
    {
        self.sound
    }

    /// One 60 Hz tick: each counter that is above zero goes down by one.
    pub fn tick(&mut self)
        ensures
            final(self).delay == tick_spec(old(self).delay),
            final(self).sound == tick_spec(old(self).sound),
    {
        if self.delay > 0 {
            self.delay = self.delay - 1;
        }
        if self.sound > 0 {
            self.sound = self.sound - 1;
        }
    }
}

} // verus!
