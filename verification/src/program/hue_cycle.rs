//! An animation that starts every pixel on a saturated gradient and walks
//! each one around the hue wheel, one step per frame.

use crate::color::{adjusted_of, channel_of, hue_step, AdjustedColor, Color};
use crate::framebuffer::Framebuffer;
use crate::led_driver::{rtc_mask_spec, FrameRate, ScreenDriver};
use crate::scan_lines::{all_zero, lemma_set_pixel_points};
use vstd::prelude::*;

verus! {

/// The per-pixel scratch state of the animation.
pub struct HueCycle {
    /// The raw color of each pixel, row by row; the displayed value is its
    /// luminosity-adjusted form.
    pub scratch_buffer: Vec<Vec<Color>>,
}

impl HueCycle {
    pub open spec fn wf(&self) -> bool {
        &&& self.scratch_buffer@.len() == 8
        &&& forall|y: int| 0 <= y < 8 ==> (#[trigger] self.scratch_buffer@[y])@.len() == 12
    }

    /// The byte scan line `l`, column `c` holds after this scratch state is
    /// stepped and rendered.
    pub open spec fn rendered_byte(&self, l: int, c: int) -> u8 {
        channel_of(adjusted_of(hue_step(self.scratch_buffer@[l / 3]@[c])), l % 3)
    }

    /// Build the program: a diagonal gradient of fully saturated colors,
    /// a 512 Hz frame rate, and one flip so the front buffer starts from
    /// the (blank) back buffer rather than from stale data.
    pub fn new(driver: &mut ScreenDriver) -> (program: HueCycle)
        requires
            old(driver).wf(),
        ensures
            final(driver).wf(),
            program.wf(),
            forall|y: int, x: int|
                0 <= y < 8 && 0 <= x < 12 ==> #[trigger] program.scratch_buffer@[y]@[x]
                    == (Color { r: ((x + y) * 10) as u8, g: 255, b: 0 }),
            final(driver).rtc_mask == rtc_mask_spec(FrameRate::Fps512),
            crate::framebuffer::flip_rel(old(driver).framebuffer, final(driver).framebuffer),
            final(driver).current_shift_bit == old(driver).current_shift_bit,
            final(driver).state == old(driver).state,
            final(driver).delay_start_cycles == old(driver).delay_start_cycles,
            final(driver).clock_pulse_bits == old(driver).clock_pulse_bits,
            final(driver).last_rtc_val == old(driver).last_rtc_val,
            final(driver).clock_pin_offset == old(driver).clock_pin_offset,
            final(driver).latch_pin_offset == old(driver).latch_pin_offset,
            final(driver).led_pin_offsets@ == old(driver).led_pin_offsets@,
            final(driver).clock_on_dwell == old(driver).clock_on_dwell,
            final(driver).data_out_dwell == old(driver).data_out_dwell,
    {
        let mut scratch_buffer: Vec<Vec<Color>> = Vec::new();
        let mut y: usize = 0;
        while y < 8
            invariant
                y <= 8,
                scratch_buffer@.len() == y,
                forall|r: int| 0 <= r < y ==> (#[trigger] scratch_buffer@[r])@.len() == 12,
                forall|r: int, c: int|
                    0 <= r < y && 0 <= c < 12 ==> #[trigger] scratch_buffer@[r]@[c]
                        == (Color { r: ((c + r) * 10) as u8, g: 255, b: 0 }),
            decreases 8 - y,
        {
            let mut row: Vec<Color> = Vec::new();
            let mut x: usize = 0;
            while x < 12
                invariant
                    y < 8,
                    x <= 12,
                    row@.len() == x,
                    forall|c: int|
                        0 <= c < x ==> #[trigger] row@[c]
                            == (Color { r: ((c + y) * 10) as u8, g: 255, b: 0 }),
                decreases 12 - x,
            {
                row.push(Color::from_rgb(((x + y) * 10) as u8, 255, 0));
                x = x + 1;
            }
            scratch_buffer.push(row);
            y = y + 1;
        }
        driver.set_target_frame_rate(FrameRate::Fps512);
        driver.framebuffer.flip();
        HueCycle { scratch_buffer }
    }

    /// Advance every pixel one hue step and render the whole panel: each
    /// scan-line byte becomes the adjusted channel of the stepped color, and
    /// every modulation accumulator is reset by the write.
    pub fn render(&mut self, fb: &mut Framebuffer)
        requires
            old(self).wf(),
            old(fb).wf(),
        ensures
            final(self).wf(),
            final(fb).wf(),
            forall|y: int, x: int|
                0 <= y < 8 && 0 <= x < 12 ==> #[trigger] final(self).scratch_buffer@[y]@[x]
                    == hue_step(old(self).scratch_buffer@[y]@[x]),
            final(fb).front_buffer.targets() == old(fb).front_buffer.targets(),
            forall|l: int, c: int|
                0 <= l < 24 && 0 <= c < 12 ==> #[trigger] final(fb).back_buffer.lines()[l][c]
                    == old(self).rendered_byte(l, c),
            all_zero(final(fb).front_buffer.currents()),
    {
        let ghost orig = *self;
        let ghost orig_fb = *fb;
        let mut y: usize = 0;
        while y < 8
            invariant
                orig.wf(),
                orig_fb.wf(),
                self.wf(),
                fb.wf(),
                y <= 8,
                fb.front_buffer.targets() == orig_fb.front_buffer.targets(),
                forall|r: int, c: int|
                    0 <= r < 8 && 0 <= c < 12 ==> #[trigger] self.scratch_buffer@[r]@[c] == if r
                        < y {
                        hue_step(orig.scratch_buffer@[r]@[c])
                    } else {
                        orig.scratch_buffer@[r]@[c]
                    },
                forall|l: int, c: int|
                    0 <= l < 24 && 0 <= c < 12 ==> #[trigger] fb.back_buffer.lines()[l][c] == if l
                        / 3 < y {
                        orig.rendered_byte(l, c)
                    } else {
                        orig_fb.back_buffer.lines()[l][c]
                    },
                forall|l: int, c: int|
                    0 <= l < 24 && 0 <= c < 12 ==> #[trigger] fb.front_buffer.currents()[l][c]
                        == if l / 3 < y {
                        0u8
                    } else {
                        orig_fb.front_buffer.currents()[l][c]
                    },
            decreases 8 - y,
        {
            let mut x: usize = 0;
            while x < 12
                invariant
                    orig.wf(),
                    orig_fb.wf(),
                    self.wf(),
                    fb.wf(),
                    y < 8,
                    x <= 12,
                    fb.front_buffer.targets() == orig_fb.front_buffer.targets(),
                    forall|r: int, c: int|
                        0 <= r < 8 && 0 <= c < 12 ==> #[trigger] self.scratch_buffer@[r]@[c]
                            == if r < y || (r == y && c < x) {
                            hue_step(orig.scratch_buffer@[r]@[c])
                        } else {
                            orig.scratch_buffer@[r]@[c]
                        },
                    forall|l: int, c: int|
                        0 <= l < 24 && 0 <= c < 12 ==> #[trigger] fb.back_buffer.lines()[l][c]
                            == if l / 3 < y || (l / 3 == y && c < x) {
                            orig.rendered_byte(l, c)
                        } else {
                            orig_fb.back_buffer.lines()[l][c]
                        },
                    forall|l: int, c: int|
                        0 <= l < 24 && 0 <= c < 12 ==> #[trigger] fb.front_buffer.currents()[l][c]
                            == if l / 3 < y || (l / 3 == y && c < x) {
                            0u8
                        } else {
                            orig_fb.front_buffer.currents()[l][c]
                        },
                decreases 12 - x,
            {
                let color = self.scratch_buffer[y][x];
                let stepped = color.cycle_hue();
                self.scratch_buffer[y][x] = stepped;
                let ghost fb_prev = *fb;
                fb.set_led(x, y, stepped);
                proof {
                    fb_prev.back_buffer.lemma_wf_lines();
                    fb_prev.front_buffer.lemma_wf_lines();
                    lemma_set_pixel_points(
                        fb_prev.back_buffer.lines(),
                        x as int,
                        y as int,
                        adjusted_of(stepped),
                    );
                    lemma_set_pixel_points(
                        fb_prev.front_buffer.currents(),
                        x as int,
                        y as int,
                        (AdjustedColor { r: 0, g: 0, b: 0 }),
                    );
                    let l0 = 3 * (y as int);
                    vstd::arithmetic::div_mod::lemma_fundamental_div_mod_converse(l0, 3, y as int, 0);
                    vstd::arithmetic::div_mod::lemma_fundamental_div_mod_converse(
                        l0 + 1,
                        3,
                        y as int,
                        1,
                    );
                    vstd::arithmetic::div_mod::lemma_fundamental_div_mod_converse(
                        l0 + 2,
                        3,
                        y as int,
                        2,
                    );
                }
                x = x + 1;
            }
            y = y + 1;
        }
    }
}

} // verus!
