//! A chunked animation that seeds a short rainbow band and then advances
//! one pixel of the panel per chunk, reading the displayed target back from
//! the front buffer and pushing it one hue step forward.  Unlike the other
//! programs it works on raw channel bytes, without luminosity adjustment.

use crate::color::{hue_step, AdjustedColor, Color};
use crate::framebuffer::{BackBuffer, FrontBuffer};
use crate::scan_lines::set_pixel;
use vstd::prelude::*;

verus! {

/// The chunked renderer's cursor over the panel's pixels.
pub struct Rainbow {
    /// Next pixel to advance, in row-major order; one full frame has been
    /// processed when it reaches `END`.
    pub current_stage: u16,
}

impl Rainbow {
    /// Where a frame's processing starts.
    pub const START_LED_RANGE: u16 = 0;

    /// One past the last pixel index of the panel.
    pub const END: u16 = 96;

    /// The frame rate this program is tuned for.
    pub fn frame_rate() -> (rate: u16)
        ensures
            rate == 512,
    {
        512
    }

    /// Seed the band: five pixels of the leftmost column fade from green
    /// through yellow to red, written as raw channel bytes.
    pub fn init(&mut self, back_buffer: &mut BackBuffer)
        requires
            old(back_buffer).wf(),
        ensures
            final(back_buffer).wf(),
            final(back_buffer).lines() == rainbow_seed(old(back_buffer).lines()),
            *final(self) == *old(self),
    {
        back_buffer.set_led_adjusted(0, 3, AdjustedColor { r: 0, g: 255, b: 0 });
        back_buffer.set_led_adjusted(0, 4, AdjustedColor { r: 127, g: 255, b: 0 });
        back_buffer.set_led_adjusted(0, 5, AdjustedColor { r: 255, g: 255, b: 0 });
        back_buffer.set_led_adjusted(0, 6, AdjustedColor { r: 255, g: 127, b: 0 });
        back_buffer.set_led_adjusted(0, 7, AdjustedColor { r: 255, g: 0, b: 0 });
    }

    /// Advance one pixel: read its displayed raw channels, step them around
    /// the hue wheel, and write the result to the back buffer.  Once the
    /// whole panel has been processed, further chunks do nothing until
    /// `frame_finished` resets the cursor.
    pub fn process_chunk(&mut self, front_buffer: &FrontBuffer, back_buffer: &mut BackBuffer)
        requires
            front_buffer.wf(),
            old(back_buffer).wf(),
        ensures
            final(back_buffer).wf(),
            old(self).current_stage < 96 ==> ({
                let y = old(self).current_stage as int / 12;
                let x = old(self).current_stage as int % 12;
                let shown = Color {
                    r: front_buffer.targets()[3 * y][x],
                    g: front_buffer.targets()[3 * y + 1][x],
                    b: front_buffer.targets()[3 * y + 2][x],
                };
                let stepped = hue_step(shown);
                &&& final(back_buffer).lines() == set_pixel(
                    old(back_buffer).lines(),
                    x,
                    y,
                    (AdjustedColor { r: stepped.r, g: stepped.g, b: stepped.b }),
                )
                &&& final(self).current_stage == old(self).current_stage + 1
            }),
            old(self).current_stage >= 96 ==> ({
                &&& *final(back_buffer) == *old(back_buffer)
                &&& *final(self) == *old(self)
            }),
    {
        if self.current_stage < 96 {
            let y = (self.current_stage / 12) as usize;
            let x = (self.current_stage % 12) as usize;

            let shown = front_buffer.get_target(x, y);
            let stepped = Color::from_rgb(shown.r, shown.g, shown.b).cycle_hue();
            back_buffer.set_led_adjusted(
                x,
                y,
                AdjustedColor { r: stepped.r, g: stepped.g, b: stepped.b },
            );

            self.current_stage = self.current_stage + 1;
        }
    }

    /// Start the next frame from the first pixel.
    pub fn frame_finished(&mut self)
        ensures
            final(self).current_stage == 0,
    {
        self.current_stage = Self::START_LED_RANGE;
    }
}

/// The five seed pixels laid into a bank by `init`.
pub open spec fn rainbow_seed(s: Seq<Seq<u8>>) -> Seq<Seq<u8>> {
    let s1 = set_pixel(s, 0, 3, AdjustedColor { r: 0, g: 255, b: 0 });
    let s2 = set_pixel(s1, 0, 4, AdjustedColor { r: 127, g: 255, b: 0 });
    let s3 = set_pixel(s2, 0, 5, AdjustedColor { r: 255, g: 255, b: 0 });
    let s4 = set_pixel(s3, 0, 6, AdjustedColor { r: 255, g: 127, b: 0 });
    set_pixel(s4, 0, 7, AdjustedColor { r: 255, g: 0, b: 0 })
}

impl Default for Rainbow {
    fn default() -> (program: Rainbow)
        ensures
            program.current_stage == 0,
    {
        Rainbow { current_stage: 0 }
    }
}

} // verus!
