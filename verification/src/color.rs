//! Raw 8-bit RGB colors and the luminosity-adjusted variant that is actually
//! shifted out to the panel.

use vstd::prelude::*;

verus! {

/// An 8-bit-per-channel RGB color as an animation sees it.
#[derive(Clone, Copy, Debug, PartialEq, Eq, Structural)]
pub struct Color {
    pub r: u8,
    pub g: u8,
    pub b: u8,
}

/// A color after per-channel intensity compensation for the LEDs' relative
/// luminous efficiency.  The scaling is lossy and one-directional.
#[derive(Clone, Copy, Debug, PartialEq, Eq, Structural)]
pub struct AdjustedColor {
    pub r: u8,
    pub g: u8,
    pub b: u8,
}

/// The intensity compensation applied before a color is displayed: red is
/// kept, green is scaled by 29/50 and blue by 29/70.
pub open spec fn adjusted_of(c: Color) -> AdjustedColor {
    AdjustedColor { r: c.r, g: ((c.g * 29) / 50) as u8, b: ((c.b * 29) / 70) as u8 }
}

/// Select one channel byte of an adjusted color: 0 is red, 1 green, 2 blue —
/// the order the scan lines of a row are laid out in.
pub open spec fn channel_of(c: AdjustedColor, ch: int) -> u8 {
    if ch == 0 {
        c.r
    } else if ch == 1 {
        c.g
    } else {
        c.b
    }
}

/// One saturating increment, applied only when `cond` holds.
pub open spec fn sat_inc(v: u8, cond: bool) -> u8 {
    if cond && v < 255 {
        (v + 1) as u8
    } else {
        v
    }
}

/// One saturating decrement, applied only when `cond` holds.
pub open spec fn sat_dec(v: u8, cond: bool) -> u8 {
    if cond && v > 0 {
        (v - 1) as u8
    } else {
        v
    }
}

/// One step of the hue-wheel walk used by the animations: each channel is
/// nudged up or down by one depending on which channels sit at their
/// extremes, so a fully saturated color orbits the hue circle.
pub open spec fn hue_step(c: Color) -> Color {
    let g1 = sat_inc(c.g, c.r == 0xFF && c.b == 0x00);
    let g2 = sat_dec(g1, c.b == 0xFF && c.r == 0x00);
    let b1 = sat_inc(c.b, g2 == 0xFF && c.r == 0x00);
    let b2 = sat_dec(b1, c.r == 0xFF && g2 == 0x00);
    let r1 = sat_inc(c.r, b2 == 0xFF && g2 == 0x00);
    let r2 = sat_dec(r1, g2 == 0xFF && b2 == 0x00);
    Color { r: r2, g: g2, b: b2 }
}

impl Color {
    pub fn from_rgb(r: u8, g: u8, b: u8) -> (c: Color)
        ensures
            c == (Color { r, g, b }),
    {
        Color { r, g, b }
    }

    /// Scale the channels for display; see `adjusted_of` for the exact ratios.
    pub fn adjust_for_led(self) -> (a: AdjustedColor)
        ensures
            a == adjusted_of(self),
    {
        let g_scaled: u16 = (self.g as u16 * 29) / 50;
        let b_scaled: u16 = (self.b as u16 * 29) / 70;
        AdjustedColor { r: self.r, g: g_scaled as u8, b: b_scaled as u8 }
    }

    /// Advance this color one step around the hue wheel.
    pub fn cycle_hue(self) -> (c: Color)
        ensures
            c == hue_step(self),
    {
        let mut g = self.g;
        if self.r == 0xFF && self.b == 0x00 {
            g = g.saturating_add(1);
        }
        if self.b == 0xFF && self.r == 0x00 {
            g = g.saturating_sub(1);
        }
        let mut b = self.b;
        if g == 0xFF && self.r == 0x00 {
            b = b.saturating_add(1);
        }
        if self.r == 0xFF && g == 0x00 {
            b = b.saturating_sub(1);
        }
        let mut r = self.r;
        if b == 0xFF && g == 0x00 {
            r = r.saturating_add(1);
        }
        if g == 0xFF && b == 0x00 {
            r = r.saturating_sub(1);
        }
        Color { r, g, b }
    }
}

} // verus!
