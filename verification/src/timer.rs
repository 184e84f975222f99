//! The delay and sound timers: two 8-bit counters that a ticker winds down
//! sixty times a second, independently of the processor's pace.

use vstd::prelude::*;

verus! {

/// How many times a second a timer is ticked.
pub const TICKS_PER_SECOND: u64 = 60;

/// A counter that the processor loads and reads.
pub trait Timer<T> {
    /// The value that the counter holds.
    spec fn value(&self) -> T;

    /// Reads the counter.
    fn get_timer_value(&self) -> (value: T)
        ensures
            value == self.value(),
    ;

    /// Loads the counter; later ticks count down from `value`.
    fn set_timer_value(&mut self, value: T)
        ensures
            final(self).value() == value,
    ;
}

/// The value of a counter one tick later: one less, and zero stays zero.
pub open spec fn wound_down(value: u8) -> u8 {
    if value > 0 {
        (value - 1) as u8
    } else {
        0
    }
}

/// A tick never raises a counter: between two loads its value only falls,
/// and it falls by one while it is above zero.
pub proof fn tick_winds_down(value: u8)
    ensures
        wound_down(value) <= value,
        value > 0 ==> wound_down(value) == value - 1,
        value == 0 ==> wound_down(value) == 0,
{
}

/// The timer that programs use to measure time.
pub struct DelayTimer {
    timer: u8,
}

impl DelayTimer {
    /// A timer at rest, holding zero.
    pub fn new() -> (timer: DelayTimer)
        ensures
            timer.value() == 0,
    {
        DelayTimer { timer: 0 }
    }

    /// One tick: the counter goes down by one unless it is at zero.
    pub fn tick(&mut self)
        ensures
            final(self).value() == wound_down(old(self).value()),
    {
        if self.timer > 0 {
            self.timer -= 1;
        }
    }
}

impl Timer<u8> for DelayTimer {
    closed spec fn value(&self) -> u8 {
        self.timer
    }

    fn get_timer_value(&self) -> (value: u8) {
        self.timer
    }

    fn set_timer_value(&mut self, value: u8) {
        self.timer = value;
    }
}

/// The timer that sounds a tone while it is not zero.
pub struct SoundTimer {
    timer: u8,
    playing_timer: u8,
}

/// Whether a tick that finds the counter at `value` starts a tone, given the
/// load `playing` of the tone that is sounding (zero when none is): only a
/// load strictly above the sounding one does.
pub open spec fn starts_tone(value: u8, playing: u8) -> bool {
    value > 0 && value > playing
}

/// The load of the sounding tone after a tick that found the counter at
/// `value`: the new load where a tone starts, nothing once the counter is
/// at zero, and the same as before otherwise.
pub open spec fn playing_after(value: u8, playing: u8) -> u8 {
    if starts_tone(value, playing) {
        value
    } else if value == 0 {
        0
    } else {
        playing
    }
}

/// How long the tone of a load of `load` ticks lasts, in microseconds,
/// rounded down.
pub open spec fn tone_micros(load: u8) -> nat {
    (load as nat * 1_000_000) / 60
}

impl SoundTimer {
    /// A timer at rest, holding zero, with no tone sounding.
    pub fn new() -> (timer: SoundTimer)
        ensures
            timer.value() == 0,
            timer.playing() == 0,
    {
        SoundTimer { timer: 0, playing_timer: 0 }
    }

    /// The load of the tone that is sounding, zero when none is.
    pub closed spec fn playing(&self) -> u8 {
        self.playing_timer
    }

    /// One tick. Returns the load of the tone to start now, if one is to
    /// start; then the counter goes down by one unless it is at zero.
    pub fn tick(&mut self) -> (tone: Option<u8>)
        ensures
            tone == if starts_tone(old(self).value(), old(self).playing()) {
                Some(old(self).value())
            } else {
                None
            },
            final(self).value() == wound_down(old(self).value()),
            final(self).playing() == playing_after(old(self).value(), old(self).playing()),
    {
        let mut tone: Option<u8> = None;
        if self.timer > 0 && self.timer > self.playing_timer {
            self.playing_timer = self.timer;
            tone = Some(self.playing_timer);
        }
        if self.timer > 0 {
            self.timer -= 1;
        } else {
            self.playing_timer = 0;
        }
        tone
    }

    /// The length in microseconds of the tone of a given load: one sixtieth
    /// of a second for each tick of the load.
    pub fn tone_duration_micros(load: u8) -> (micros: u64)
        ensures
            micros == tone_micros(load),
    {
        (load as u64) * 1_000_000 / TICKS_PER_SECOND
    }
}

impl Timer<u8> for SoundTimer {
    closed spec fn value(&self) -> u8 {
        self.timer
    }

    fn get_timer_value(&self) -> (value: u8) {
        self.timer
    }

    fn set_timer_value(&mut self, value: u8)
        ensures
            final(self).playing() == old(self).playing(),
    {
        self.timer = value;
    }
}

} // verus!
