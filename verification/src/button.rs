//! Debounced push-button input.
//!
//! The raw pin level is sampled no more often than once per configured
//! interval of the cycle counter.  A press is reported only when two
//! consecutive samples read high, and only on the rising edge of that
//! debounced value, so one physical press fires exactly once however noisily
//! the contacts bounce.  Reading the pin and the cycle counter is the
//! embedding firmware's job; both arrive here as plain values.

use vstd::prelude::*;

verus! {

/// Cycle-counter distance from the last effective sample, with the counter
/// free to wrap.
pub open spec fn elapsed_cycles(now: u32, last: u32) -> u32 {
    vstd::wrapping::u32_specs::wrapping_sub(now, last)
}

/// Debounce state for one button.
pub struct Button {
    /// Cycle-counter value of the last effective sample.
    pub last_button_input_time: u32,
    /// The debounced (two samples high) value at the last effective sample.
    pub last_set_value: bool,
    /// The raw pin level at the last effective sample.
    pub debounce_value: bool,
    /// Minimum cycles between effective samples: the debounce window.
    pub sample_interval: u32,
}

impl Button {
    pub fn new(sample_interval: u32) -> (b: Button)
        ensures
            b.last_button_input_time == 0,
            !b.last_set_value,
            !b.debounce_value,
            b.sample_interval == sample_interval,
    {
        Button {
            last_button_input_time: 0,
            last_set_value: false,
            debounce_value: false,
            sample_interval,
        }
    }

    /// Feed one poll of the raw pin level at cycle-counter time `now_cycles`.
    /// Returns whether the press callback is owed: true exactly on the
    /// rising edge of the debounced value.  Polls inside the debounce window
    /// are no-ops.
    pub fn check_if_pressed(&mut self, now_cycles: u32, raw_level: bool) -> (fire: bool)
        ensures
            elapsed_cycles(now_cycles, old(self).last_button_input_time)
                < old(self).sample_interval ==> (*final(self) == *old(self) && !fire),
            elapsed_cycles(now_cycles, old(self).last_button_input_time)
                >= old(self).sample_interval ==> {
                let pushed = raw_level && old(self).debounce_value;
                &&& fire == (pushed && !old(self).last_set_value)
                &&& final(self).last_set_value == pushed
                &&& final(self).debounce_value == raw_level
                &&& final(self).last_button_input_time == now_cycles
                &&& final(self).sample_interval == old(self).sample_interval
            },
    {
        if now_cycles.wrapping_sub(self.last_button_input_time) >= self.sample_interval {
            let button_pushed = raw_level && self.debounce_value;
            let fire = button_pushed && !self.last_set_value;
            self.last_set_value = button_pushed;
            self.debounce_value = raw_level;
            self.last_button_input_time = now_cycles;
            fire
        } else {
            false
        }
    }
}

} // verus!
