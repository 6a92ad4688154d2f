//! A clock face: glyph stencils rendered in a text color, and the
//! wall-clock arithmetic that turns a seconds counter into the displayed
//! 12-hour time.
//!
//! The seconds counter lives in the secure real-time clock peripheral; the
//! firmware samples it and passes the value in.  The glyph drawing itself
//! is still being laid out, so a render currently computes the time fields
//! and leaves the buffer to the backdrop.

use crate::color::AdjustedColor;
use crate::led_driver::{rtc_mask_spec, FrameRate, ScreenDriver};
use vstd::prelude::*;

verus! {

/// A stencil cell set to the glyph color when the stencil marks it, black
/// otherwise.
pub open spec fn glyph_cell(stencil: u8, color: AdjustedColor) -> AdjustedColor {
    if stencil != 0 {
        color
    } else {
        AdjustedColor { r: 0, g: 0, b: 0 }
    }
}

/// Turn a glyph stencil (nonzero marks a lit cell) into colored pixels.
pub fn process_glyph(stencil: &Vec<Vec<u8>>, color: AdjustedColor) -> (glyph: Vec<
    Vec<AdjustedColor>,
>)
    ensures
        glyph@.len() == stencil@.len(),
        forall|y: int| 0 <= y < stencil@.len() ==> (#[trigger] glyph@[y])@.len()
            == stencil@[y]@.len(),
        forall|y: int, x: int|
            0 <= y < stencil@.len() && 0 <= x < stencil@[y]@.len() ==> #[trigger] glyph@[y]@[x]
                == glyph_cell(stencil@[y]@[x], color),
{
    let mut glyph: Vec<Vec<AdjustedColor>> = Vec::new();
    let mut y: usize = 0;
    while y < stencil.len()
        invariant
            y <= stencil@.len(),
            glyph@.len() == y,
            forall|r: int| 0 <= r < y ==> (#[trigger] glyph@[r])@.len() == stencil@[r]@.len(),
            forall|r: int, x: int|
                0 <= r < y && 0 <= x < stencil@[r]@.len() ==> #[trigger] glyph@[r]@[x]
                    == glyph_cell(stencil@[r]@[x], color),
        decreases stencil@.len() - y,
    {
        let row = &stencil[y];
        let mut out_row: Vec<AdjustedColor> = Vec::new();
        let mut x: usize = 0;
        while x < row.len()
            invariant
                y < stencil@.len(),
                row == stencil@[y as int],
                x <= row@.len(),
                out_row@.len() == x,
                forall|c: int|
                    0 <= c < x ==> #[trigger] out_row@[c] == glyph_cell(row@[c], color),
            decreases row@.len() - x,
        {
            if row[x] != 0 {
                out_row.push(color);
            } else {
                out_row.push(AdjustedColor { r: 0, g: 0, b: 0 });
            }
            x = x + 1;
        }
        glyph.push(out_row);
        y = y + 1;
    }
    glyph
}

/// Turn a family of stencils (such as the ten digits) into colored glyphs.
pub fn process_glyph_array(stencils: &Vec<Vec<Vec<u8>>>, color: AdjustedColor) -> (glyphs: Vec<
    Vec<Vec<AdjustedColor>>,
>)
    ensures
        glyphs@.len() == stencils@.len(),
        forall|g: int, y: int, x: int|
            0 <= g < stencils@.len() && 0 <= y < stencils@[g]@.len() && 0 <= x
                < stencils@[g]@[y]@.len() ==> #[trigger] glyphs@[g]@[y]@[x] == glyph_cell(
                stencils@[g]@[y]@[x],
                color,
            ),
        forall|g: int|
            0 <= g < stencils@.len() ==> (#[trigger] glyphs@[g])@.len() == stencils@[g]@.len(),
        forall|g: int, y: int|
            0 <= g < stencils@.len() && 0 <= y < stencils@[g]@.len()
                ==> (#[trigger] glyphs@[g]@[y])@.len() == stencils@[g]@[y]@.len(),
{
    let mut glyphs: Vec<Vec<Vec<AdjustedColor>>> = Vec::new();
    let mut g: usize = 0;
    while g < stencils.len()
        invariant
            g <= stencils@.len(),
            glyphs@.len() == g,
            forall|gg: int, y: int, x: int|
                0 <= gg < g && 0 <= y < stencils@[gg]@.len() && 0 <= x < stencils@[gg]@[y]@.len()
                    ==> #[trigger] glyphs@[gg]@[y]@[x] == glyph_cell(stencils@[gg]@[y]@[x], color),
            forall|gg: int|
                0 <= gg < g ==> (#[trigger] glyphs@[gg])@.len() == stencils@[gg]@.len(),
            forall|gg: int, y: int|
                0 <= gg < g && 0 <= y < stencils@[gg]@.len() ==> (#[trigger] glyphs@[gg]@[y])@.len()
                    == stencils@[gg]@[y]@.len(),
        decreases stencils@.len() - g,
    {
        let glyph = process_glyph(&stencils[g], color);
        glyphs.push(glyph);
        g = g + 1;
    }
    glyphs
}

/// The clock program.  Its face layout is unfinished; rendering currently
/// amounts to computing the display time.
pub struct Clock {}

impl Clock {
    /// Build the program: a clock only needs one frame per second.
    pub fn new(driver: &mut ScreenDriver) -> (program: Clock)
        requires
            old(driver).wf(),
        ensures
            final(driver).wf(),
            *final(driver) == (ScreenDriver {
                rtc_mask: rtc_mask_spec(FrameRate::Fps1),
                ..*old(driver)
            }),
    {
        driver.set_target_frame_rate(FrameRate::Fps1);
        Clock {}
    }

    /// Compute the displayed time from the seconds counter: 12-hour hour
    /// (with 0 shown as 12), minute of the hour, and the meridiem flag as
    /// the display derives it from the 24-hour value.
    pub fn render(&mut self, total_seconds: u32) -> (parts: (u32, u32, bool))
        ensures
            ({
                let total_minutes = total_seconds / 60;
                let minutes = total_minutes % 60;
                let hours_24 = (total_minutes / 60) % 24;
                let hours_12 = hours_24 % 12;
                &&& parts.0 == if hours_12 == 0 {
                    12u32
                } else {
                    hours_12
                }
                &&& parts.1 == minutes
                &&& parts.2 == (hours_24 < 12)
            }),
    {
        let total_minutes = total_seconds / 60;
        let minutes = total_minutes % 60;

        let total_hours = total_minutes / 60;
        let hours_24 = total_hours % 24;
        let mut hours_12 = hours_24 % 12;
        if hours_12 == 0 {
            hours_12 = 12;
        }

        let pm = hours_24 < 12;

        (hours_12, minutes, pm)
    }
}

} // verus!
