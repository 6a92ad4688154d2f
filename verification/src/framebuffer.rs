//! Double-buffered pixel storage for the panel.
//!
//! The panel is `WIDTH` x `HEIGHT` pixels; every row owns one scan line per
//! color channel, so there are `HEIGHT * 3` lines of `WIDTH` bytes.  The back
//! buffer holds the targets an animation writes; the front buffer holds the
//! targets being displayed plus the per-pixel-channel modulation accumulators
//! (`bit_current_lines`), which persist across frames.  A `flip` copies the
//! back targets into the front targets between whole frames only, so a scan
//! line is never read half-updated.

use crate::color::{adjusted_of, AdjustedColor, Color};
use crate::scan_lines::{
    all_zero, lemma_lines_view_index, lemma_lines_view_len, lines_view, set_pixel, wf_lines,
};
use vstd::prelude::*;

verus! {

broadcast use lemma_lines_view_len, lemma_lines_view_index;

/// Which scan line within a row carries which channel.
#[derive(Clone, Copy, Debug, PartialEq, Eq, Structural)]
pub enum ColorLines {
    Red,
    Green,
    Blue,
}

impl ColorLines {
    /// Number of scan lines per pixel row.
    pub const COUNT: usize = 3;

    /// The index of this channel's line within a row.
    pub fn offset(&self) -> (n: usize)
        ensures
            n == match *self {
                ColorLines::Red => 0int,
                ColorLines::Green => 1int,
                ColorLines::Blue => 2int,
            },
    {
        match *self {
            ColorLines::Red => 0,
            ColorLines::Green => 1,
            ColorLines::Blue => 2,
        }
    }
}

/// Target brightness storage owned by the running animation.
pub struct BackBuffer {
    pub bit_lines: Vec<Vec<u8>>,
}

/// Displayed targets plus the persistent modulation accumulators.
pub struct FrontBuffer {
    pub bit_target_lines: Vec<Vec<u8>>,
    pub bit_current_lines: Vec<Vec<u8>>,
}

/// The front and back buffers of one panel.
pub struct Framebuffer {
    pub front_buffer: FrontBuffer,
    pub back_buffer: BackBuffer,
}

/// A fresh bank of zeroed scan lines.
fn zero_lines() -> (v: Vec<Vec<u8>>)
    ensures
        wf_lines(lines_view(v)),
        all_zero(lines_view(v)),
{
    let mut v: Vec<Vec<u8>> = Vec::new();
    let mut i: usize = 0;
    while i < 24
        invariant
            i <= 24,
            v.len() == i,
            forall|k: int| 0 <= k < i ==> (#[trigger] v@[k])@.len() == 12,
            forall|k: int, j: int| 0 <= k < i && 0 <= j < 12 ==> #[trigger] v@[k]@[j] == 0,
        decreases 24 - i,
    {
        let mut row: Vec<u8> = Vec::new();
        let mut x: usize = 0;
        while x < 12
            invariant
                x <= 12,
                row.len() == x,
                forall|j: int| 0 <= j < x ==> row@[j] == 0,
            decreases 12 - x,
        {
            row.push(0);
            x = x + 1;
        }
        v.push(row);
        i = i + 1;
    }
    v
}

impl BackBuffer {
    pub open spec fn lines(&self) -> Seq<Seq<u8>> {
        lines_view(self.bit_lines)
    }

    pub open spec fn wf(&self) -> bool {
        &&& self.bit_lines@.len() == 24
        &&& forall|i: int| 0 <= i < 24 ==> (#[trigger] self.bit_lines@[i])@.len() == 12
    }

    /// A well-formed buffer has a well-formed bank of lines as its view.
    pub proof fn lemma_wf_lines(&self)
        requires
            self.wf(),
        ensures
            wf_lines(self.lines()),
    {
    }

    pub fn new() -> (b: BackBuffer)
        ensures
            b.wf(),
            all_zero(b.lines()),
    {
        BackBuffer { bit_lines: zero_lines() }
    }

    /// Raw write of one pixel's three channel bytes.  The caller must have
    /// checked the coordinates; this is the innermost, always-in-bounds
    /// writer.
    pub fn set_led_adjusted(&mut self, led_x: usize, led_y: usize, color: AdjustedColor)
        requires
            old(self).wf(),
            led_x < 12,
            led_y < 8,
        ensures
            final(self).wf(),
            final(self).lines() == set_pixel(old(self).lines(), led_x as int, led_y as int, color),
    {
        let base = 3 * led_y;
        self.bit_lines[base][led_x] = color.r;
        self.bit_lines[base + 1][led_x] = color.g;
        self.bit_lines[base + 2][led_x] = color.b;
        proof {
            assert(final(self).lines() =~~= set_pixel(
                old(self).lines(),
                led_x as int,
                led_y as int,
                color,
            ));
        }
    }

    /// Luminosity-adjusting write; see `Color::adjust_for_led`.
    pub fn set_led(&mut self, led_x: usize, led_y: usize, color: Color)
        requires
            old(self).wf(),
            led_x < 12,
            led_y < 8,
        ensures
            final(self).wf(),
            final(self).lines() == set_pixel(
                old(self).lines(),
                led_x as int,
                led_y as int,
                adjusted_of(color),
            ),
    {
        self.set_led_adjusted(led_x, led_y, color.adjust_for_led());
    }

    /// Bounds-checked raw write: out-of-range coordinates leave the buffer
    /// unchanged.  Animations that compute neighbor coordinates (splashes at
    /// the grid edge) rely on the silent no-op.
    pub fn try_set_led_adjusted(&mut self, led_x: usize, led_y: usize, color: AdjustedColor)
        requires
            old(self).wf(),
        ensures
            final(self).wf(),
            led_x < 12 && led_y < 8 ==> final(self).lines() == set_pixel(
                old(self).lines(),
                led_x as int,
                led_y as int,
                color,
            ),
            !(led_x < 12 && led_y < 8) ==> *final(self) == *old(self),
    {
        if led_x < 12 && led_y < 8 {
            self.set_led_adjusted(led_x, led_y, color);
        }
    }

    /// Bounds-checked adjusting write.
    pub fn try_set_led(&mut self, led_x: usize, led_y: usize, color: Color)
        requires
            old(self).wf(),
        ensures
            final(self).wf(),
            led_x < 12 && led_y < 8 ==> final(self).lines() == set_pixel(
                old(self).lines(),
                led_x as int,
                led_y as int,
                adjusted_of(color),
            ),
            !(led_x < 12 && led_y < 8) ==> *final(self) == *old(self),
    {
        self.try_set_led_adjusted(led_x, led_y, color.adjust_for_led());
    }

    /// Read one pixel's three channel bytes back.
    pub fn get_led(&self, led_x: usize, led_y: usize) -> (c: AdjustedColor)
        requires
            self.wf(),
            led_x < 12,
            led_y < 8,
        ensures
            c.r == self.lines()[3 * led_y][led_x as int],
            c.g == self.lines()[3 * led_y + 1][led_x as int],
            c.b == self.lines()[3 * led_y + 2][led_x as int],
    {
        let base = 3 * led_y;
        AdjustedColor {
            r: self.bit_lines[base][led_x],
            g: self.bit_lines[base + 1][led_x],
            b: self.bit_lines[base + 2][led_x],
        }
    }
}

impl FrontBuffer {
    pub open spec fn targets(&self) -> Seq<Seq<u8>> {
        lines_view(self.bit_target_lines)
    }

    pub open spec fn currents(&self) -> Seq<Seq<u8>> {
        lines_view(self.bit_current_lines)
    }

    pub open spec fn wf(&self) -> bool {
        &&& self.bit_target_lines@.len() == 24
        &&& forall|i: int|
            0 <= i < 24 ==> (#[trigger] self.bit_target_lines@[i])@.len() == 12
        &&& self.bit_current_lines@.len() == 24
        &&& forall|i: int|
            0 <= i < 24 ==> (#[trigger] self.bit_current_lines@[i])@.len() == 12
    }

    /// A well-formed buffer has well-formed banks as its views.
    pub proof fn lemma_wf_lines(&self)
        requires
            self.wf(),
        ensures
            wf_lines(self.targets()),
            wf_lines(self.currents()),
    {
    }

    pub fn new() -> (f: FrontBuffer)
        ensures
            f.wf(),
            all_zero(f.targets()),
            all_zero(f.currents()),
    {
        FrontBuffer { bit_target_lines: zero_lines(), bit_current_lines: zero_lines() }
    }

    /// Read the displayed target for one pixel.
    pub fn get_target(&self, led_x: usize, led_y: usize) -> (c: AdjustedColor)
        requires
            self.wf(),
            led_x < 12,
            led_y < 8,
        ensures
            c.r == self.targets()[3 * led_y][led_x as int],
            c.g == self.targets()[3 * led_y + 1][led_x as int],
            c.b == self.targets()[3 * led_y + 2][led_x as int],
    {
        let base = 3 * led_y;
        AdjustedColor {
            r: self.bit_target_lines[base][led_x],
            g: self.bit_target_lines[base + 1][led_x],
            b: self.bit_target_lines[base + 2][led_x],
        }
    }

    /// Read the modulation accumulators for one pixel.
    pub fn get_current(&self, led_x: usize, led_y: usize) -> (c: AdjustedColor)
        requires
            self.wf(),
            led_x < 12,
            led_y < 8,
        ensures
            c.r == self.currents()[3 * led_y][led_x as int],
            c.g == self.currents()[3 * led_y + 1][led_x as int],
            c.b == self.currents()[3 * led_y + 2][led_x as int],
    {
        let base = 3 * led_y;
        AdjustedColor {
            r: self.bit_current_lines[base][led_x],
            g: self.bit_current_lines[base + 1][led_x],
            b: self.bit_current_lines[base + 2][led_x],
        }
    }
}

/// What one `flip` does: the displayed targets become the back-buffer
/// contents while the accumulators and the back buffer itself are untouched.
pub open spec fn flip_rel(pre: Framebuffer, post: Framebuffer) -> bool {
    &&& post.front_buffer.targets() == pre.back_buffer.lines()
    &&& post.front_buffer.currents() == pre.front_buffer.currents()
    &&& post.back_buffer.lines() == pre.back_buffer.lines()
}

/// Flip idempotence: flipping twice with no back-buffer write in between
/// leaves the front target lines identical after both flips.
pub proof fn lemma_flip_idempotent(fb0: Framebuffer, fb1: Framebuffer, fb2: Framebuffer)
    requires
        flip_rel(fb0, fb1),
        flip_rel(fb1, fb2),
    ensures
        fb2.front_buffer.targets() == fb1.front_buffer.targets(),
        fb2.front_buffer.currents() == fb0.front_buffer.currents(),
{
}

impl Framebuffer {
    /// Pixels per scan line.
    pub const WIDTH: usize = 12;

    /// Pixel rows of the panel.
    pub const HEIGHT: usize = 8;

    pub open spec fn wf(&self) -> bool {
        self.front_buffer.wf() && self.back_buffer.wf()
    }

    pub fn new() -> (fb: Framebuffer)
        ensures
            fb.wf(),
            all_zero(fb.back_buffer.lines()),
            all_zero(fb.front_buffer.targets()),
            all_zero(fb.front_buffer.currents()),
    {
        Framebuffer { front_buffer: FrontBuffer::new(), back_buffer: BackBuffer::new() }
    }

    /// Copy the back-buffer targets into the front buffer.  This is the only
    /// mutator of the displayed targets and must run between whole frames
    /// only.  The accumulators persist across the flip.
    pub fn flip(&mut self)
        requires
            old(self).wf(),
        ensures
            final(self).wf(),
            flip_rel(*old(self), *final(self)),
    {
        let ghost orig = *self;
        let mut i: usize = 0;
        while i < 24
            invariant
                orig.wf(),
                i <= 24,
                self.back_buffer == orig.back_buffer,
                self.front_buffer.bit_current_lines == orig.front_buffer.bit_current_lines,
                self.front_buffer.bit_target_lines@.len() == 24,
                forall|k: int|
                    0 <= k < i ==> #[trigger] self.front_buffer.bit_target_lines@[k]@
                        == orig.back_buffer.bit_lines@[k]@,
                forall|k: int|
                    i <= k < 24 ==> #[trigger] self.front_buffer.bit_target_lines@[k]
                        == orig.front_buffer.bit_target_lines@[k],
            decreases 24 - i,
        {
            let mut row: Vec<u8> = Vec::new();
            let mut x: usize = 0;
            while x < 12
                invariant
                    orig.wf(),
                    i < 24,
                    x <= 12,
                    row@.len() == x,
                    self.back_buffer == orig.back_buffer,
                    forall|j: int| 0 <= j < x ==> row@[j] == orig.back_buffer.bit_lines@[i as int]@[j],
                decreases 12 - x,
            {
                row.push(self.back_buffer.bit_lines[i][x]);
                x = x + 1;
            }
            proof {
                assert(row@ =~= orig.back_buffer.bit_lines@[i as int]@);
            }
            self.front_buffer.bit_target_lines[i] = row;
            i = i + 1;
        }
        proof {
            assert(self.front_buffer.targets() =~~= orig.back_buffer.lines());
            assert(self.front_buffer.currents() =~~= orig.front_buffer.currents());
        }
    }

    /// Write one pixel into the back buffer and reset its three modulation
    /// accumulators to zero, keeping accumulator and target in step: stale
    /// accumulator residue would bias the next ~256 output bits.
    pub fn set_led_adjusted(&mut self, led_x: usize, led_y: usize, color: AdjustedColor)
        requires
            old(self).wf(),
            led_x < 12,
            led_y < 8,
        ensures
            final(self).wf(),
            final(self).back_buffer.lines() == set_pixel(
                old(self).back_buffer.lines(),
                led_x as int,
                led_y as int,
                color,
            ),
            final(self).front_buffer.currents() == set_pixel(
                old(self).front_buffer.currents(),
                led_x as int,
                led_y as int,
                (AdjustedColor { r: 0, g: 0, b: 0 }),
            ),
            final(self).front_buffer.targets() == old(self).front_buffer.targets(),
            final(self).front_buffer.currents()[3 * led_y][led_x as int] == 0,
            final(self).front_buffer.currents()[3 * led_y + 1][led_x as int] == 0,
            final(self).front_buffer.currents()[3 * led_y + 2][led_x as int] == 0,
    {
        self.back_buffer.set_led_adjusted(led_x, led_y, color);
        let base = 3 * led_y;
        self.front_buffer.bit_current_lines[base][led_x] = 0;
        self.front_buffer.bit_current_lines[base + 1][led_x] = 0;
        self.front_buffer.bit_current_lines[base + 2][led_x] = 0;
        proof {
            assert(final(self).front_buffer.currents() =~~= set_pixel(
                old(self).front_buffer.currents(),
                led_x as int,
                led_y as int,
                (AdjustedColor { r: 0, g: 0, b: 0 }),
            ));
        }
    }

    /// Luminosity-adjusting pixel write with accumulator reset.
    pub fn set_led(&mut self, led_x: usize, led_y: usize, color: Color)
        requires
            old(self).wf(),
            led_x < 12,
            led_y < 8,
        ensures
            final(self).wf(),
            final(self).back_buffer.lines() == set_pixel(
                old(self).back_buffer.lines(),
                led_x as int,
                led_y as int,
                adjusted_of(color),
            ),
            final(self).front_buffer.currents() == set_pixel(
                old(self).front_buffer.currents(),
                led_x as int,
                led_y as int,
                (AdjustedColor { r: 0, g: 0, b: 0 }),
            ),
            final(self).front_buffer.targets() == old(self).front_buffer.targets(),
            final(self).front_buffer.currents()[3 * led_y][led_x as int] == 0,
            final(self).front_buffer.currents()[3 * led_y + 1][led_x as int] == 0,
            final(self).front_buffer.currents()[3 * led_y + 2][led_x as int] == 0,
    {
        self.set_led_adjusted(led_x, led_y, color.adjust_for_led());
    }

    /// Bounds-checked pixel write with accumulator reset: out-of-range
    /// coordinates leave the whole framebuffer unchanged.
    pub fn try_set_led_adjusted(&mut self, led_x: usize, led_y: usize, color: AdjustedColor)
        requires
            old(self).wf(),
        ensures
            final(self).wf(),
            led_x < 12 && led_y < 8 ==> final(self).back_buffer.lines() == set_pixel(
                old(self).back_buffer.lines(),
                led_x as int,
                led_y as int,
                color,
            ) && final(self).front_buffer.currents() == set_pixel(
                old(self).front_buffer.currents(),
                led_x as int,
                led_y as int,
                (AdjustedColor { r: 0, g: 0, b: 0 }),
            ) && final(self).front_buffer.targets() == old(self).front_buffer.targets(),
            !(led_x < 12 && led_y < 8) ==> *final(self) == *old(self),
    {
        if led_x < 12 && led_y < 8 {
            self.set_led_adjusted(led_x, led_y, color);
        }
    }

    /// Bounds-checked adjusting write with accumulator reset.
    pub fn try_set_led(&mut self, led_x: usize, led_y: usize, color: Color)
        requires
            old(self).wf(),
        ensures
            final(self).wf(),
            led_x < 12 && led_y < 8 ==> final(self).back_buffer.lines() == set_pixel(
                old(self).back_buffer.lines(),
                led_x as int,
                led_y as int,
                adjusted_of(color),
            ) && final(self).front_buffer.currents() == set_pixel(
                old(self).front_buffer.currents(),
                led_x as int,
                led_y as int,
                (AdjustedColor { r: 0, g: 0, b: 0 }),
            ) && final(self).front_buffer.targets() == old(self).front_buffer.targets(),
            !(led_x < 12 && led_y < 8) ==> *final(self) == *old(self),
    {
        self.try_set_led_adjusted(led_x, led_y, color.adjust_for_led());
    }

    /// Replace the whole back buffer and zero every modulation accumulator:
    /// the bulk form of the per-pixel write-and-reset.
    pub fn replace_back(&mut self, buffer: BackBuffer)
        requires
            old(self).wf(),
            buffer.wf(),
        ensures
            final(self).wf(),
            final(self).back_buffer.lines() == buffer.lines(),
            all_zero(final(self).front_buffer.currents()),
            wf_lines(final(self).front_buffer.currents()),
            final(self).front_buffer.targets() == old(self).front_buffer.targets(),
    {
        self.back_buffer = buffer;
        self.front_buffer.bit_current_lines = zero_lines();
    }
}

impl Default for Framebuffer {
    fn default() -> (fb: Framebuffer)
        ensures
            fb.wf(),
            all_zero(fb.back_buffer.lines()),
            all_zero(fb.front_buffer.targets()),
            all_zero(fb.front_buffer.currents()),
    {
        Framebuffer::new()
    }
}

} // verus!
