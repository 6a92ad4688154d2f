//! The shift-register protocol state machine.
//!
//! The driver alternates between two phases.  `ClockOn` raises the serial
//! clock line (and, on the first bit of a scan line, the latch line).
//! `ClockOffDataOut` lowers them again, advances the shift-bit index, and
//! computes the modulated output word for the new scan line.  When the index
//! wraps past the last scan line and the call is frame-complete-eligible,
//! the masked external real-time counter is compared against the value seen
//! at the previous wrap: a change marks a frame boundary, and the
//! framebuffer is flipped — the software equivalent of vertical sync.
//!
//! The embedding firmware owns the GPIO and counter registers.  Each step
//! here takes the samples it needs as arguments and returns the port word to
//! write as a [`DriveAction`]; nothing in this module touches hardware.

use crate::framebuffer::Framebuffer;
use crate::pdm::{carry_word, pwm_pulse_line, stepped_lanes};
use crate::scan_lines::{lemma_lines_view_index, lemma_lines_view_len};
use crate::timing::{ns_to_cycles, spec_ns_to_cycles};
use vstd::prelude::*;

verus! {

broadcast use lemma_lines_view_len, lemma_lines_view_index;

/// Target refresh rates, as the mask applied to the 32768 Hz real-time
/// counter: masking off low bits divides the clock, so a frame boundary is
/// seen each time the masked value changes.  `FpsN` refreshes N times per
/// second; `SpfN` refreshes once per N seconds.
#[derive(Clone, Copy, Debug, PartialEq, Eq, Structural)]
pub enum FrameRate {
    Fps32768,
    Fps16384,
    Fps8192,
    Fps4096,
    Fps2048,
    Fps1024,
    Fps512,
    Fps256,
    Fps128,
    Fps64,
    Fps32,
    Fps16,
    Fps8,
    Fps4,
    Fps2,
    Fps1,
    Spf2,
    Spf4,
    Spf8,
    Spf16,
    Spf32,
    Spf64,
    Spf128,
    Spf256,
    Spf512,
    Spf1024,
    Spf2048,
    Spf4096,
    Spf8192,
    Spf16384,
    Spf32768,
    Spf65536,
}

/// The counter mask of each rate: all bits above the divider's bit position.
pub open spec fn rtc_mask_spec(rate: FrameRate) -> u32 {
    match rate {
        FrameRate::Fps32768 => 0xFFFFFFFFu32,
        FrameRate::Fps16384 => 0xFFFFFFFEu32,
        FrameRate::Fps8192 => 0xFFFFFFFCu32,
        FrameRate::Fps4096 => 0xFFFFFFF8u32,
        FrameRate::Fps2048 => 0xFFFFFFF0u32,
        FrameRate::Fps1024 => 0xFFFFFFE0u32,
        FrameRate::Fps512 => 0xFFFFFFC0u32,
        FrameRate::Fps256 => 0xFFFFFF80u32,
        FrameRate::Fps128 => 0xFFFFFF00u32,
        FrameRate::Fps64 => 0xFFFFFE00u32,
        FrameRate::Fps32 => 0xFFFFFC00u32,
        FrameRate::Fps16 => 0xFFFFF800u32,
        FrameRate::Fps8 => 0xFFFFF000u32,
        FrameRate::Fps4 => 0xFFFFE000u32,
        FrameRate::Fps2 => 0xFFFFC000u32,
        FrameRate::Fps1 => 0xFFFF8000u32,
        FrameRate::Spf2 => 0xFFFF0000u32,
        FrameRate::Spf4 => 0xFFFE0000u32,
        FrameRate::Spf8 => 0xFFFC0000u32,
        FrameRate::Spf16 => 0xFFF80000u32,
        FrameRate::Spf32 => 0xFFF00000u32,
        FrameRate::Spf64 => 0xFFE00000u32,
        FrameRate::Spf128 => 0xFFC00000u32,
        FrameRate::Spf256 => 0xFF800000u32,
        FrameRate::Spf512 => 0xFF000000u32,
        FrameRate::Spf1024 => 0xFE000000u32,
        FrameRate::Spf2048 => 0xFC000000u32,
        FrameRate::Spf4096 => 0xF8000000u32,
        FrameRate::Spf8192 => 0xF0000000u32,
        FrameRate::Spf16384 => 0xE0000000u32,
        FrameRate::Spf32768 => 0xC0000000u32,
        FrameRate::Spf65536 => 0x80000000u32,
    }
}

impl FrameRate {
    /// The mask applied to the real-time counter for this rate.
    pub fn rtc_mask(&self) -> (mask: u32)
        ensures
            mask == rtc_mask_spec(*self),
    {
        match *self {
            FrameRate::Fps32768 => 0xFFFFFFFF,
            FrameRate::Fps16384 => 0xFFFFFFFE,
            FrameRate::Fps8192 => 0xFFFFFFFC,
            FrameRate::Fps4096 => 0xFFFFFFF8,
            FrameRate::Fps2048 => 0xFFFFFFF0,
            FrameRate::Fps1024 => 0xFFFFFFE0,
            FrameRate::Fps512 => 0xFFFFFFC0,
            FrameRate::Fps256 => 0xFFFFFF80,
            FrameRate::Fps128 => 0xFFFFFF00,
            FrameRate::Fps64 => 0xFFFFFE00,
            FrameRate::Fps32 => 0xFFFFFC00,
            FrameRate::Fps16 => 0xFFFFF800,
            FrameRate::Fps8 => 0xFFFFF000,
            FrameRate::Fps4 => 0xFFFFE000,
            FrameRate::Fps2 => 0xFFFFC000,
            FrameRate::Fps1 => 0xFFFF8000,
            FrameRate::Spf2 => 0xFFFF0000,
            FrameRate::Spf4 => 0xFFFE0000,
            FrameRate::Spf8 => 0xFFFC0000,
            FrameRate::Spf16 => 0xFFF80000,
            FrameRate::Spf32 => 0xFFF00000,
            FrameRate::Spf64 => 0xFFE00000,
            FrameRate::Spf128 => 0xFFC00000,
            FrameRate::Spf256 => 0xFF800000,
            FrameRate::Spf512 => 0xFF000000,
            FrameRate::Spf1024 => 0xFE000000,
            FrameRate::Spf2048 => 0xFC000000,
            FrameRate::Spf4096 => 0xF8000000,
            FrameRate::Spf8192 => 0xF0000000,
            FrameRate::Spf16384 => 0xE0000000,
            FrameRate::Spf32768 => 0xC0000000,
            FrameRate::Spf65536 => 0x80000000,
        }
    }
}

/// The two phases of the protocol.
#[derive(Clone, Copy, Debug, PartialEq, Eq, Structural)]
pub enum DriverState {
    ClockOn,
    ClockOffDataOut,
}

impl DriverState {
    /// Minimum dwell before this phase may run, in CPU cycles at the given
    /// core clock: the shift register wants its clock held for at least
    /// 22 ns and its data stable for at least 25 ns (at full supply
    /// voltage; a slower part needs a larger configured dwell).
    pub fn pre_delay_cycles(&self, clock_hz: u32) -> (cycles: u32)
        ensures
            cycles == match *self {
                DriverState::ClockOn => spec_ns_to_cycles(22, clock_hz as int),
                DriverState::ClockOffDataOut => spec_ns_to_cycles(25, clock_hz as int),
            },
    {
        let ns: u64 = match *self {
            DriverState::ClockOn => 22,
            DriverState::ClockOffDataOut => 25,
        };
        let cycles = ns_to_cycles(ns, clock_hz as u64);
        proof {
            assert(cycles * 1_000_000_000 <= ns * clock_hz + 999_999_999) by (nonlinear_arith)
                requires
                    cycles == (ns * clock_hz + 999_999_999) / 1_000_000_000,
                    ns * clock_hz + 999_999_999 >= 0,
            ;
        }
        cycles as u32
    }
}

/// One port write owed after a phase advance.  The embedding firmware
/// performs it: `ClockSet` raises the named bits of the clock GPIO bank,
/// `DataOut` lowers them again and writes the scan-line word to the data
/// bank.
#[derive(Clone, Copy, Debug, PartialEq, Eq, Structural)]
pub enum DriveAction {
    ClockSet { bits: u32 },
    DataOut { clock_clear_bits: u32, line_word: u32 },
}

/// The protocol state machine for one panel.
pub struct ScreenDriver {
    /// Mask applied to the real-time counter; see [`FrameRate`].
    pub rtc_mask: u32,
    /// The panel's double-buffered storage.
    pub framebuffer: Framebuffer,
    /// Index of the scan line currently latched, 0 .. 23.
    pub current_shift_bit: u32,
    /// Which phase runs next.
    pub state: DriverState,
    /// Cycle-counter value when the previous phase ran; mid-render drives
    /// advance only once the phase's dwell has elapsed since then.
    pub delay_start_cycles: u32,
    /// The clock-bank bits raised by the last `ClockOn`, to be lowered by
    /// the next `ClockOffDataOut`.
    pub clock_pulse_bits: u32,
    /// Masked counter value observed at the previous scan wrap.
    pub last_rtc_val: u32,
    /// Bit position of the serial clock line in the clock GPIO bank.
    pub clock_pin_offset: u32,
    /// Bit position of the latch/start line in the clock GPIO bank.
    pub latch_pin_offset: u32,
    /// Bit position of each column's serial data line in the data GPIO
    /// bank.
    pub led_pin_offsets: Vec<u32>,
    /// Configured minimum dwell of the `ClockOn` phase, in cycles.
    pub clock_on_dwell: u32,
    /// Configured minimum dwell of the `ClockOffDataOut` phase, in cycles.
    pub data_out_dwell: u32,
}

impl ScreenDriver {
    /// Scan lines per full refresh: one per row and color channel.
    pub const SHIFT_COUNT: u32 = 24;

    pub open spec fn wf(&self) -> bool {
        &&& self.framebuffer.wf()
        &&& self.current_shift_bit < 24
        &&& self.clock_pin_offset < 32
        &&& self.latch_pin_offset < 32
        &&& self.led_pin_offsets@.len() == 12
        &&& forall|i: int| 0 <= i < 12 ==> self.led_pin_offsets@[i] < 32
    }

    /// The clock-bank bits a `ClockOn` phase raises from this state: the
    /// clock line always, the latch line only on the first bit of a scan
    /// line.
    pub open spec fn clock_pulse_word(&self) -> u32 {
        (1u32 << self.clock_pin_offset) | if self.current_shift_bit == 0 {
            1u32 << self.latch_pin_offset
        } else {
            0u32
        }
    }

    /// The shift-bit index after one data-out phase.
    pub open spec fn shift_advance(bit: u32) -> u32 {
        if bit == 23 {
            0u32
        } else {
            (bit + 1) as u32
        }
    }

    /// Whether a data-out phase from this state flips the frame: only a
    /// frame-complete-eligible call that wraps the scan and samples a masked
    /// counter value different from the one seen at the previous wrap.
    pub open spec fn frame_flip_due(&self, allow_frame_flip: bool, rtc_raw: u32) -> bool {
        &&& allow_frame_flip
        &&& self.current_shift_bit == 23
        &&& (rtc_raw & self.rtc_mask) != self.last_rtc_val
    }

    /// Everything one `ClockOffDataOut` phase does to the driver state,
    /// short of the phase bookkeeping its callers own: the shift bit
    /// advances; on a frame boundary the framebuffer flips and the masked
    /// sample is remembered; the new scan line's accumulators take one
    /// modulation step against the (possibly just flipped) targets; and the
    /// returned word carries the modulation bits at the configured pin
    /// offsets.
    pub open spec fn data_out_rel(
        pre: ScreenDriver,
        post: ScreenDriver,
        allow_frame_flip: bool,
        rtc_raw: u32,
        flipped: bool,
        word: u32,
    ) -> bool {
        let new_bit = Self::shift_advance(pre.current_shift_bit) as int;
        let targets = if flipped {
            pre.framebuffer.back_buffer.lines()
        } else {
            pre.framebuffer.front_buffer.targets()
        };
        let currents = pre.framebuffer.front_buffer.currents();
        &&& flipped == pre.frame_flip_due(allow_frame_flip, rtc_raw)
        &&& post.current_shift_bit == new_bit
        &&& post.last_rtc_val == if flipped {
            rtc_raw & pre.rtc_mask
        } else {
            pre.last_rtc_val
        }
        &&& post.framebuffer.back_buffer.lines() == pre.framebuffer.back_buffer.lines()
        &&& post.framebuffer.front_buffer.targets() == targets
        &&& post.framebuffer.front_buffer.currents() == currents.update(
            new_bit,
            stepped_lanes(currents[new_bit], targets[new_bit]),
        )
        &&& word == carry_word(currents[new_bit], targets[new_bit], pre.led_pin_offsets@, 12)
        &&& post.rtc_mask == pre.rtc_mask
        &&& post.clock_pin_offset == pre.clock_pin_offset
        &&& post.latch_pin_offset == pre.latch_pin_offset
        &&& post.led_pin_offsets@ == pre.led_pin_offsets@
        &&& post.clock_on_dwell == pre.clock_on_dwell
        &&& post.data_out_dwell == pre.data_out_dwell
    }

    /// The dwell the current phase must respect.
    pub open spec fn current_dwell(&self) -> u32 {
        match self.state {
            DriverState::ClockOn => self.clock_on_dwell,
            DriverState::ClockOffDataOut => self.data_out_dwell,
        }
    }

    /// Build a driver for a panel whose serial lines sit at the given bit
    /// offsets of their GPIO banks.  `now_cycles` seeds the dwell timing;
    /// `clock_hz` is the core clock the dwells are computed against.
    pub fn new(
        now_cycles: u32,
        clock_hz: u32,
        clock_pin_offset: u32,
        latch_pin_offset: u32,
        led_pin_offsets: Vec<u32>,
    ) -> (driver: ScreenDriver)
        requires
            clock_pin_offset < 32,
            latch_pin_offset < 32,
            led_pin_offsets@.len() == 12,
            forall|i: int| 0 <= i < 12 ==> led_pin_offsets@[i] < 32,
        ensures
            driver.wf(),
            driver.rtc_mask == rtc_mask_spec(FrameRate::Fps64),
            driver.current_shift_bit == 0,
            driver.state is ClockOn,
            driver.delay_start_cycles == now_cycles,
            driver.clock_pulse_bits == 0,
            driver.last_rtc_val == 0,
            driver.clock_pin_offset == clock_pin_offset,
            driver.latch_pin_offset == latch_pin_offset,
            driver.led_pin_offsets@ == led_pin_offsets@,
            driver.clock_on_dwell == spec_ns_to_cycles(22, clock_hz as int),
            driver.data_out_dwell == spec_ns_to_cycles(25, clock_hz as int),
            crate::scan_lines::all_zero(driver.framebuffer.back_buffer.lines()),
            crate::scan_lines::all_zero(driver.framebuffer.front_buffer.targets()),
            crate::scan_lines::all_zero(driver.framebuffer.front_buffer.currents()),
    {
        let clock_on_dwell = DriverState::ClockOn.pre_delay_cycles(clock_hz);
        let data_out_dwell = DriverState::ClockOffDataOut.pre_delay_cycles(clock_hz);
        ScreenDriver {
            rtc_mask: FrameRate::Fps64.rtc_mask(),
            framebuffer: Framebuffer::new(),
            current_shift_bit: 0,
            state: DriverState::ClockOn,
            delay_start_cycles: now_cycles,
            clock_pulse_bits: 0,
            last_rtc_val: 0,
            clock_pin_offset,
            latch_pin_offset,
            led_pin_offsets,
            clock_on_dwell,
            data_out_dwell,
        }
    }

    /// Select the refresh rate for the next frames.
    pub fn set_target_frame_rate(&mut self, frame_rate: FrameRate)
        requires
            old(self).wf(),
        ensures
            final(self).wf(),
            *final(self) == (ScreenDriver { rtc_mask: rtc_mask_spec(frame_rate), ..*old(self) }),
    {
        self.rtc_mask = frame_rate.rtc_mask();
    }

    /// The `ClockOn` phase: raise the clock (and, at a scan line's first
    /// bit, the latch) and remember which bits to lower again.
    fn drive_clock_on(&mut self) -> (bits: u32)
        requires
            old(self).wf(),
        ensures
            final(self).wf(),
            bits == old(self).clock_pulse_word(),
            *final(self) == (ScreenDriver { clock_pulse_bits: bits, ..*old(self) }),
    {
        let mut bits: u32 = 1u32 << self.clock_pin_offset;
        if self.current_shift_bit == 0 {
            bits = bits | (1u32 << self.latch_pin_offset);
        } else {
            proof {
                assert(bits | 0u32 == bits) by (bit_vector);
            }
        }
        self.clock_pulse_bits = bits;
        bits
    }

    /// The `ClockOffDataOut` phase: advance the shift bit, flip the frame on
    /// a detected boundary when eligible, and compute the output word for
    /// the new scan line.  `rtc_raw` is the firmware's sample of the
    /// real-time counter; it is consulted only at a scan wrap of an eligible
    /// call.
    fn drive_clock_off_data_out(&mut self, allow_frame_flip: bool, rtc_raw: u32) -> (r: (
        bool,
        u32,
    ))
        requires
            old(self).wf(),
        ensures
            final(self).wf(),
            Self::data_out_rel(*old(self), *final(self), allow_frame_flip, rtc_raw, r.0, r.1),
            final(self).state == old(self).state,
            final(self).delay_start_cycles == old(self).delay_start_cycles,
            final(self).clock_pulse_bits == old(self).clock_pulse_bits,
    {
        let ghost pre = *self;
        let mut frame_flipped = false;

        self.current_shift_bit = self.current_shift_bit + 1;
        if self.current_shift_bit == 24 {
            self.current_shift_bit = 0;
            if allow_frame_flip {
                let current_rtc_val = rtc_raw & self.rtc_mask;
                if self.last_rtc_val != current_rtc_val {
                    self.last_rtc_val = current_rtc_val;
                    self.framebuffer.flip();
                    frame_flipped = true;
                }
            }
        }

        let ghost mid = *self;
        let line = self.current_shift_bit as usize;
        let word = pwm_pulse_line(
            &mut self.framebuffer.front_buffer.bit_current_lines[line],
            &self.framebuffer.front_buffer.bit_target_lines[line],
            &self.led_pin_offsets,
        );
        proof {
            let new_bit = Self::shift_advance(pre.current_shift_bit) as int;
            let targets = if frame_flipped {
                pre.framebuffer.back_buffer.lines()
            } else {
                pre.framebuffer.front_buffer.targets()
            };
            assert(mid.framebuffer.front_buffer.targets() =~~= targets);
            assert(mid.framebuffer.front_buffer.currents() =~~= pre.framebuffer.front_buffer.currents());
            assert(self.framebuffer.front_buffer.targets() =~~= targets);
            assert(self.framebuffer.front_buffer.currents() =~~= pre.framebuffer.front_buffer.currents().update(
                new_bit,
                stepped_lanes(pre.framebuffer.front_buffer.currents()[new_bit], targets[new_bit]),
            ));
            assert(self.framebuffer.back_buffer.lines() =~~= pre.framebuffer.back_buffer.lines());
        }
        (frame_flipped, word)
    }

    /// Opportunistic, non-blocking drive, meant to be called from inside an
    /// animation's per-pixel loop.  If the current phase's dwell has not
    /// elapsed since the previous advance nothing happens; otherwise one
    /// phase runs and the owed port write is returned.  Mid-render drives
    /// are never frame-complete-eligible, so no flip can happen here.
    pub fn drive_mid_render(&mut self, now_cycles: u32) -> (action: Option<DriveAction>)
        requires
            old(self).wf(),
        ensures
            final(self).wf(),
            elapsed_lt_dwell(now_cycles, *old(self)) ==> {
                &&& action is None
                &&& *final(self) == *old(self)
            },
            !elapsed_lt_dwell(now_cycles, *old(self)) && old(self).state is ClockOn ==> {
                &&& action == Some(DriveAction::ClockSet { bits: old(self).clock_pulse_word() })
                &&& *final(self) == (ScreenDriver {
                    state: DriverState::ClockOffDataOut,
                    delay_start_cycles: now_cycles,
                    clock_pulse_bits: old(self).clock_pulse_word(),
                    ..*old(self)
                })
            },
            !elapsed_lt_dwell(now_cycles, *old(self)) && old(self).state is ClockOffDataOut ==> {
                &&& action matches Some(DriveAction::DataOut { clock_clear_bits, line_word })
                &&& clock_clear_bits == old(self).clock_pulse_bits
                &&& Self::data_out_rel(*old(self), *final(self), false, 0, false, line_word)
                &&& final(self).state is ClockOn
                &&& final(self).delay_start_cycles == now_cycles
                &&& final(self).clock_pulse_bits == old(self).clock_pulse_bits
            },
    {
        let dwell = match self.state {
            DriverState::ClockOn => self.clock_on_dwell,
            DriverState::ClockOffDataOut => self.data_out_dwell,
        };
        if now_cycles.wrapping_sub(self.delay_start_cycles) >= dwell {
            let action = match self.state {
                DriverState::ClockOn => {
                    let bits = self.drive_clock_on();
                    self.state = DriverState::ClockOffDataOut;
                    DriveAction::ClockSet { bits }
                },
                DriverState::ClockOffDataOut => {
                    let clock_clear_bits = self.clock_pulse_bits;
                    let (_, line_word) = self.drive_clock_off_data_out(false, 0);
                    self.state = DriverState::ClockOn;
                    DriveAction::DataOut { clock_clear_bits, line_word }
                },
            };
            self.delay_start_cycles = now_cycles;
            Some(action)
        } else {
            None
        }
    }

    /// One forced phase advance of the post-render drive.  The caller
    /// busy-waits the phase's dwell (see [`crate::timing`]), performs the
    /// returned port write, and repeats until the returned flag reports a
    /// frame flip, which guarantees the display advanced one full external
    /// clock tick before the next frame is rendered.
    pub fn drive_post_render(&mut self, rtc_raw: u32) -> (r: (DriveAction, bool))
        requires
            old(self).wf(),
        ensures
            final(self).wf(),
            old(self).state is ClockOn ==> {
                &&& r.0 == (DriveAction::ClockSet { bits: old(self).clock_pulse_word() })
                &&& !r.1
                &&& *final(self) == (ScreenDriver {
                    state: DriverState::ClockOffDataOut,
                    clock_pulse_bits: old(self).clock_pulse_word(),
                    ..*old(self)
                })
            },
            old(self).state is ClockOffDataOut ==> {
                &&& r.0 matches DriveAction::DataOut { clock_clear_bits, line_word }
                &&& clock_clear_bits == old(self).clock_pulse_bits
                &&& Self::data_out_rel(*old(self), *final(self), true, rtc_raw, r.1, line_word)
                &&& final(self).state is ClockOn
                &&& final(self).delay_start_cycles == old(self).delay_start_cycles
                &&& final(self).clock_pulse_bits == old(self).clock_pulse_bits
            },
    {
        match self.state {
            DriverState::ClockOn => {
                let bits = self.drive_clock_on();
                self.state = DriverState::ClockOffDataOut;
                (DriveAction::ClockSet { bits }, false)
            },
            DriverState::ClockOffDataOut => {
                let clock_clear_bits = self.clock_pulse_bits;
                let (frame_flipped, line_word) = self.drive_clock_off_data_out(true, rtc_raw);
                self.state = DriverState::ClockOn;
                (DriveAction::DataOut { clock_clear_bits, line_word }, frame_flipped)
            },
        }
    }
}

/// Whether the current phase's dwell has not yet elapsed at `now_cycles`.
pub open spec fn elapsed_lt_dwell(now_cycles: u32, driver: ScreenDriver) -> bool {
    vstd::wrapping::u32_specs::wrapping_sub(now_cycles, driver.delay_start_cycles)
        < driver.current_dwell()
}

/// A frame flip is signaled at most once per change of the masked counter:
/// once a flip has recorded the masked sample, any later state that still
/// carries that record cannot flip again on a sample with the same masked
/// value, eligible or not.
pub proof fn lemma_flip_at_most_once_per_change(
    pre: ScreenDriver,
    post: ScreenDriver,
    later: ScreenDriver,
    rtc_first: u32,
    rtc_second: u32,
    flipped: bool,
    word: u32,
    allow_frame_flip: bool,
)
    requires
        ScreenDriver::data_out_rel(pre, post, true, rtc_first, flipped, word),
        flipped,
        later.rtc_mask == post.rtc_mask,
        later.last_rtc_val == post.last_rtc_val,
        rtc_second & later.rtc_mask == rtc_first & pre.rtc_mask,
    ensures
        !later.frame_flip_due(allow_frame_flip, rtc_second),
{
}

} // verus!
