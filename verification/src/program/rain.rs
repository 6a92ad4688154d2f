//! A rain simulation: drops spawn at random rows, fall as the columns
//! scroll, splash when they reach the ground band at the right edge, and
//! fade out over a two-frame splash animation.
//!
//! The panel is drawn sideways: a drop lives in one column line and keeps a
//! fixed row `y`; the columns scroll by rotating `line_shift`.  Entropy
//! comes from a small PRNG of the rand crate, seeded once by the caller
//! (the firmware seeds it from a hardware TRNG).  Nothing is assumed about
//! the drawn values, so every contract here holds for every stream.

use crate::collections::InlineVec;
use crate::color::{adjusted_of, channel_of, AdjustedColor, Color};
use crate::framebuffer::{BackBuffer, Framebuffer};
use crate::led_driver::{rtc_mask_spec, FrameRate, ScreenDriver};
use crate::scan_lines::lemma_set_pixel_points;
use vstd::prelude::*;

verus! {

#[verifier::external_type_specification]
#[verifier::external_body]
pub struct ExSmallRng(rand::rngs::SmallRng);

/// Relies on rand's `SeedableRng::seed_from_u64` for `SmallRng`: builds a
/// generator from a 64-bit seed.  No property of the stream is assumed.
#[verifier::external_body]
fn rng_from_seed(seed: u64) -> rand::rngs::SmallRng {
    <rand::rngs::SmallRng as rand::SeedableRng>::seed_from_u64(seed)
}

/// Relies on rand's `RngCore::next_u32` for `SmallRng`: draws 32 bits.
/// Nothing is assumed of the value, so callers are verified for every
/// outcome.
#[verifier::external_body]
fn rng_next_u32(rng: &mut rand::rngs::SmallRng) -> u32 {
    rand::RngCore::next_u32(rng)
}

/// What a raindrop is doing.
#[derive(Clone, Copy, Debug, PartialEq, Eq, Structural)]
pub enum RaindropState {
    Falling,
    /// Splashing against the ground: `splash_x` is the column the drop hit,
    /// `frame` counts the two animation frames already shown.
    Splashing { splash_x: usize, frame: u8 },
}

/// One raindrop: its row and its state.
#[derive(Clone, Copy, Debug, PartialEq, Eq, Structural)]
pub struct Raindrop {
    pub y: usize,
    pub state: RaindropState,
}

impl Raindrop {
    pub fn new(y: usize) -> (drop: Raindrop)
        ensures
            drop.y == y,
            drop.state is Falling,
    {
        Raindrop { y, state: RaindropState::Falling }
    }
}

/// The drops of one column.
pub type RaindropLine = InlineVec<8, Raindrop>;

/// A raindrop that fits the panel: its row exists and a splash remembers a
/// real column.
pub open spec fn drop_wf(drop: Raindrop) -> bool {
    &&& drop.y < 8
    &&& drop.state matches RaindropState::Splashing { splash_x, frame } ==> splash_x < 12
}

/// How one simulation step may change a drop: the row never moves, a
/// falling drop may start splashing somewhere on the panel, and a splash
/// only advances its frame counter.
pub open spec fn drop_evolved(pre: Raindrop, post: Raindrop) -> bool {
    &&& post.y == pre.y
    &&& {
        ||| post == pre
        ||| {
            &&& pre.state is Falling
            &&& (post.state matches RaindropState::Splashing { splash_x, frame }
                && splash_x < 12 && frame == 0)
        }
        ||| (match pre.state {
            RaindropState::Splashing { splash_x: sx, frame: f } => f < 2 && post.state
                == (RaindropState::Splashing { splash_x: sx, frame: (f + 1) as u8 }),
            _ => false,
        })
    }
}

/// The rain simulation's state.
pub struct Rain {
    /// The seeded generator; opaque to specifications.
    pub rng: rand::rngs::SmallRng,
    /// The drops of each column.
    pub raindrop_lines: Vec<RaindropLine>,
    /// Scroll position: which stored line is the leftmost column this frame.
    pub line_shift: usize,
}

/// The byte scan line `l`, column `c` of the ground backdrop holds: the
/// ground color in the ground band at the right edge, black elsewhere.
pub open spec fn base_frame_byte(l: int, c: int) -> u8 {
    if c >= 9 {
        channel_of(adjusted_of(Color { r: 36, g: 40, b: 43 }), l % 3)
    } else {
        0
    }
}

/// The channel byte a drawn raindrop leaves on scan line `l`.
pub open spec fn raindrop_byte(l: int) -> u8 {
    channel_of(adjusted_of(Color { r: 200, g: 200, b: 200 }), l % 3)
}

/// Writing one pixel of a single color leaves every byte either untouched
/// or holding that color's channel for its scan line.
proof fn lemma_pixel_write_palette(s: Seq<Seq<u8>>, x: int, yy: int, col: AdjustedColor)
    requires
        crate::scan_lines::wf_lines(s),
        0 <= x < 12,
        0 <= yy < 8,
    ensures
        forall|l: int, c: int|
            0 <= l < 24 && 0 <= c < 12 ==> #[trigger] crate::scan_lines::set_pixel(
                s,
                x,
                yy,
                col,
            )[l][c] == s[l][c] || crate::scan_lines::set_pixel(s, x, yy, col)[l][c] == channel_of(
                col,
                l % 3,
            ),
{
    lemma_set_pixel_points(s, x, yy, col);
    let l0 = 3 * yy;
    vstd::arithmetic::div_mod::lemma_fundamental_div_mod_converse(l0, 3, yy, 0);
    vstd::arithmetic::div_mod::lemma_fundamental_div_mod_converse(l0 + 1, 3, yy, 1);
    vstd::arithmetic::div_mod::lemma_fundamental_div_mod_converse(l0 + 2, 3, yy, 2);
}

impl Rain {
    /// A draw below this spawns a drop: roughly one chance in ten per row
    /// and frame.
    pub const RAINDROP_FREQUENCY: u32 = u32::MAX / 10;

    /// First column of the ground band, inclusive.
    pub const GROUND_LEVEL: usize = 12 - 3;

    /// A draw above this starts a splash for a drop over the ground band.
    pub const SPLASH_FREQUENCY: u32 = u32::MAX / 3;

    /// The color a drop is drawn in.
    pub fn raindrop_color() -> (c: AdjustedColor)
        ensures
            c == adjusted_of(Color { r: 200, g: 200, b: 200 }),
    {
        Color::from_rgb(200, 200, 200).adjust_for_led()
    }

    /// The color of the ground band.
    pub fn ground_color() -> (c: AdjustedColor)
        ensures
            c == adjusted_of(Color { r: 36, g: 40, b: 43 }),
    {
        Color::from_rgb(36, 40, 43).adjust_for_led()
    }

    /// The backdrop every frame starts from: black sky, ground band at the
    /// right edge.
    pub fn base_frame() -> (buffer: BackBuffer)
        ensures
            buffer.wf(),
            forall|l: int, c: int|
                0 <= l < 24 && 0 <= c < 12 ==> #[trigger] buffer.lines()[l][c] == base_frame_byte(
                    l,
                    c,
                ),
    {
        let ground = Self::ground_color();
        let mut buffer = BackBuffer::new();
        let mut y: usize = 0;
        while y < 8
            invariant
                y <= 8,
                buffer.wf(),
                forall|l: int, c: int|
                    0 <= l < 24 && 0 <= c < 12 ==> #[trigger] buffer.lines()[l][c] == if l / 3 < y
                        && c >= 9 {
                        base_frame_byte(l, c)
                    } else {
                        0u8
                    },
            decreases 8 - y,
        {
            let mut x: usize = 9;
            while x < 12
                invariant
                    y < 8,
                    9 <= x <= 12,
                    buffer.wf(),
                    forall|l: int, c: int|
                        0 <= l < 24 && 0 <= c < 12 ==> #[trigger] buffer.lines()[l][c] == if (l / 3
                            < y && c >= 9) || (l / 3 == y && 9 <= c < x) {
                            base_frame_byte(l, c)
                        } else {
                            0u8
                        },
                decreases 12 - x,
            {
                let ghost prev = buffer;
                buffer.set_led_adjusted(x, y, Self::ground_color());
                proof {
                    prev.lemma_wf_lines();
                    lemma_set_pixel_points(
                        prev.lines(),
                        x as int,
                        y as int,
                        adjusted_of(Color { r: 36, g: 40, b: 43 }),
                    );
                    let l0 = 3 * (y as int);
                    vstd::arithmetic::div_mod::lemma_fundamental_div_mod_converse(l0, 3, y as int, 0);
                    vstd::arithmetic::div_mod::lemma_fundamental_div_mod_converse(
                        l0 + 1,
                        3,
                        y as int,
                        1,
                    );
                    vstd::arithmetic::div_mod::lemma_fundamental_div_mod_converse(
                        l0 + 2,
                        3,
                        y as int,
                        2,
                    );
                }
                x = x + 1;
            }
            y = y + 1;
        }
        buffer
    }

    /// Structural soundness: twelve columns, every line within capacity,
    /// every drop on the panel.
    pub open spec fn wf(&self) -> bool {
        &&& self.raindrop_lines@.len() == 12
        &&& self.line_shift < 12
        &&& forall|i: int| 0 <= i < 12 ==> (#[trigger] self.raindrop_lines@[i]).wf()
        &&& forall|i: int, k: int|
            0 <= i < 12 && 0 <= k < self.raindrop_lines@[i]@.len() ==> drop_wf(
                #[trigger] self.raindrop_lines@[i]@[k],
            )
    }

    /// Build the simulation: empty columns, the configured frame rate, and
    /// a generator seeded by the caller (the firmware hands in hardware
    /// entropy; a test hands in a constant).
    pub fn new(driver: &mut ScreenDriver, seed: u64) -> (program: Rain)
        requires
            old(driver).wf(),
        ensures
            final(driver).wf(),
            program.wf(),
            program.line_shift == 0,
            forall|i: int| 0 <= i < 12 ==> (#[trigger] program.raindrop_lines@[i])@.len() == 0,
            *final(driver) == (ScreenDriver {
                rtc_mask: rtc_mask_spec(FrameRate::Fps64),
                ..*old(driver)
            }),
    {
        let rng = rng_from_seed(seed);
        driver.set_target_frame_rate(FrameRate::Fps64);
        let mut raindrop_lines: Vec<RaindropLine> = Vec::new();
        let mut i: usize = 0;
        while i < 12
            invariant
                i <= 12,
                raindrop_lines@.len() == i,
                forall|k: int| 0 <= k < i ==> (#[trigger] raindrop_lines@[k])@.len() == 0,
            decreases 12 - i,
        {
            raindrop_lines.push(InlineVec::new());
            i = i + 1;
        }
        Rain { rng, raindrop_lines, line_shift: 0 }
    }

    /// Maybe spawn a drop at each row of the column that just scrolled in.
    /// Whatever the generator draws, the new drops are falling and on the
    /// panel, and no other column is touched.
    fn spawn_drops(&mut self)
        requires
            old(self).wf(),
            old(self).raindrop_lines@[old(self).line_shift as int]@.len() == 0,
        ensures
            final(self).wf(),
            final(self).line_shift == old(self).line_shift,
            forall|i: int|
                0 <= i < 12 && i != old(self).line_shift
                    ==> #[trigger] final(self).raindrop_lines@[i]@
                        == old(self).raindrop_lines@[i]@,
            forall|k: int|
                0 <= k < final(self).raindrop_lines@[old(self).line_shift as int]@.len()
                    ==> (#[trigger] final(self).raindrop_lines@[old(self).line_shift as int]@[k]).state
                        is Falling,
    {
        let ghost orig = *self;
        let line_shift = self.line_shift;
        let mut y: usize = 0;
        while y < 8
            invariant
                orig.wf(),
                self.line_shift == orig.line_shift,
                line_shift == orig.line_shift,
                self.raindrop_lines@.len() == 12,
                y <= 8,
                forall|i: int|
                    0 <= i < 12 && i != line_shift ==> #[trigger] self.raindrop_lines@[i]@
                        == orig.raindrop_lines@[i]@,
                self.raindrop_lines@[line_shift as int]@.len() <= y,
                forall|k: int|
                    0 <= k < self.raindrop_lines@[line_shift as int]@.len() ==> {
                        let drop = #[trigger] self.raindrop_lines@[line_shift as int]@[k];
                        drop.state is Falling && drop.y < 8
                    },
            decreases 8 - y,
        {
            if rng_next_u32(&mut self.rng) <= Self::RAINDROP_FREQUENCY {
                self.raindrop_lines[line_shift].push(Raindrop::new(y));
            }
            y = y + 1;
        }
    }

    /// Give each drop hovering over the ground band a chance to start its
    /// splash.  Rows and counts are untouched; each drop either stays as it
    /// was or starts splashing at its current column.
    fn random_splashes(&mut self)
        requires
            old(self).wf(),
        ensures
            final(self).wf(),
            final(self).line_shift == old(self).line_shift,
            forall|i: int|
                0 <= i < 12 ==> #[trigger] final(self).raindrop_lines@[i]@.len() == old(self).raindrop_lines@[i]@.len(),
            forall|i: int, k: int|
                0 <= i < 12 && 0 <= k < old(self).raindrop_lines@[i]@.len() ==> drop_evolved(
                    old(self).raindrop_lines@[i]@[k],
                    #[trigger] final(self).raindrop_lines@[i]@[k],
                ),
    {
        let ghost orig = *self;
        let mut x = self.line_shift;
        let mut step: usize = 0;
        while step < 3
            invariant
                orig.wf(),
                self.wf(),
                self.line_shift == orig.line_shift,
                x < 12,
                step <= 3,
                forall|i: int|
                    0 <= i < 12 ==> #[trigger] self.raindrop_lines@[i]@.len()
                        == orig.raindrop_lines@[i]@.len(),
                forall|i: int, k: int|
                    0 <= i < 12 && 0 <= k < orig.raindrop_lines@[i]@.len() ==> drop_evolved(
                        orig.raindrop_lines@[i]@[k],
                        #[trigger] self.raindrop_lines@[i]@[k],
                    ),
            decreases 3 - step,
        {
            let count = self.raindrop_lines[x].len();
            let mut k: usize = 0;
            while k < count
                invariant
                    orig.wf(),
                    self.wf(),
                    self.line_shift == orig.line_shift,
                    x < 12,
                    k <= count,
                    count == self.raindrop_lines@[x as int]@.len(),
                    forall|i: int|
                        0 <= i < 12 ==> #[trigger] self.raindrop_lines@[i]@.len()
                            == orig.raindrop_lines@[i]@.len(),
                    forall|i: int, kk: int|
                        0 <= i < 12 && 0 <= kk < orig.raindrop_lines@[i]@.len() ==> drop_evolved(
                            orig.raindrop_lines@[i]@[kk],
                            #[trigger] self.raindrop_lines@[i]@[kk],
                        ),
                decreases count - k,
            {
                let drop = *self.raindrop_lines[x].get(k);
                match drop.state {
                    RaindropState::Falling => {
                        if rng_next_u32(&mut self.rng) > Self::SPLASH_FREQUENCY {
                            let splashed = Raindrop {
                                y: drop.y,
                                state: RaindropState::Splashing { splash_x: x, frame: 0 },
                            };
                            self.raindrop_lines[x].set(k, splashed);
                        }
                    },
                    RaindropState::Splashing { .. } => {},
                }
                k = k + 1;
            }
            x = x + 1;
            if x >= 12 {
                x = 0;
            }
            step = step + 1;
        }
    }

    /// Force every drop of the column about to scroll off the panel into a
    /// splash at the last column, so no drop survives past the edge.
    fn force_splashes(&mut self)
        requires
            old(self).wf(),
        ensures
            final(self).wf(),
            final(self).line_shift == old(self).line_shift,
            ({
                let last = if old(self).line_shift == 0 {
                    11int
                } else {
                    old(self).line_shift - 1
                };
                &&& forall|i: int|
                    0 <= i < 12 && i != last ==> #[trigger] final(self).raindrop_lines@[i]@ == old(self).raindrop_lines@[i]@
                &&& final(self).raindrop_lines@[last]@.len() == old(self).raindrop_lines@[last]@.len()
                &&& forall|k: int|
                    0 <= k < old(self).raindrop_lines@[last]@.len()
                        ==> #[trigger] final(self).raindrop_lines@[last]@[k] == (Raindrop {
                        y: old(self).raindrop_lines@[last]@[k].y,
                        state: RaindropState::Splashing { splash_x: 11, frame: 0 },
                    })
            }),
    {
        let ghost orig = *self;
        let last_line_idx = if self.line_shift == 0 {
            11
        } else {
            self.line_shift - 1
        };
        let count = self.raindrop_lines[last_line_idx].len();
        let mut k: usize = 0;
        while k < count
            invariant
                orig.wf(),
                self.wf(),
                self.line_shift == orig.line_shift,
                last_line_idx < 12,
                k <= count,
                count == self.raindrop_lines@[last_line_idx as int]@.len(),
                forall|i: int|
                    0 <= i < 12 && i != last_line_idx ==> #[trigger] self.raindrop_lines@[i]@
                        == orig.raindrop_lines@[i]@,
                count == orig.raindrop_lines@[last_line_idx as int]@.len(),
                forall|kk: int|
                    0 <= kk < k ==> #[trigger] self.raindrop_lines@[last_line_idx as int]@[kk]
                        == (Raindrop {
                        y: orig.raindrop_lines@[last_line_idx as int]@[kk].y,
                        state: RaindropState::Splashing { splash_x: 11, frame: 0 },
                    }),
                forall|kk: int|
                    k <= kk < count ==> #[trigger] self.raindrop_lines@[last_line_idx as int]@[kk]
                        == orig.raindrop_lines@[last_line_idx as int]@[kk],
            decreases count - k,
        {
            let drop = *self.raindrop_lines[last_line_idx].get(k);
            let splashed = Raindrop {
                y: drop.y,
                state: RaindropState::Splashing { splash_x: 11, frame: 0 },
            };
            self.raindrop_lines[last_line_idx].set(k, splashed);
            k = k + 1;
        }
    }

    /// Draw every drop into the back buffer: falling drops as a single
    /// pixel at their scrolled column, splashes as the two-frame spray
    /// around their landing column (clipped at the panel edges), advancing
    /// each splash's frame counter.
    fn rasterize_drops(&mut self, fb: &mut Framebuffer)
        requires
            old(self).wf(),
            old(fb).wf(),
        ensures
            final(self).wf(),
            final(fb).wf(),
            final(self).line_shift == old(self).line_shift,
            final(fb).front_buffer.targets() == old(fb).front_buffer.targets(),
            forall|l: int, c: int|
                0 <= l < 24 && 0 <= c < 12 ==> #[trigger] final(fb).back_buffer.lines()[l][c]
                    == old(fb).back_buffer.lines()[l][c] || final(fb).back_buffer.lines()[l][c]
                    == raindrop_byte(l),
            forall|i: int|
                0 <= i < 12 ==> #[trigger] final(self).raindrop_lines@[i]@.len() == old(self).raindrop_lines@[i]@.len(),
            forall|i: int, k: int|
                0 <= i < 12 && 0 <= k < old(self).raindrop_lines@[i]@.len() ==> drop_evolved(
                    old(self).raindrop_lines@[i]@[k],
                    #[trigger] final(self).raindrop_lines@[i]@[k],
                ),
    {
        let ghost orig = *self;
        let mut falling_x = self.line_shift;
        let mut line: usize = 0;
        while line < 12
            invariant
                orig.wf(),
                self.wf(),
                fb.wf(),
                self.line_shift == orig.line_shift,
                falling_x < 12,
                line <= 12,
                fb.front_buffer.targets() == old(fb).front_buffer.targets(),
                forall|l: int, c: int|
                    0 <= l < 24 && 0 <= c < 12 ==> #[trigger] fb.back_buffer.lines()[l][c]
                        == old(fb).back_buffer.lines()[l][c] || fb.back_buffer.lines()[l][c]
                        == raindrop_byte(l),
                forall|i: int|
                    0 <= i < 12 ==> #[trigger] self.raindrop_lines@[i]@.len()
                        == orig.raindrop_lines@[i]@.len(),
                forall|i: int, k: int|
                    0 <= i < line && 0 <= k < orig.raindrop_lines@[i]@.len() ==> drop_evolved(
                        orig.raindrop_lines@[i]@[k],
                        #[trigger] self.raindrop_lines@[i]@[k],
                    ),
                forall|i: int|
                    line <= i < 12 ==> #[trigger] self.raindrop_lines@[i]@
                        == orig.raindrop_lines@[i]@,
            decreases 12 - line,
        {
            let count = self.raindrop_lines[line].len();
            let mut k: usize = 0;
            while k < count
                invariant
                    orig.wf(),
                    self.wf(),
                    fb.wf(),
                    self.line_shift == orig.line_shift,
                    falling_x < 12,
                    line < 12,
                    k <= count,
                    count == self.raindrop_lines@[line as int]@.len(),
                    fb.front_buffer.targets() == old(fb).front_buffer.targets(),
                    forall|l: int, c: int|
                        0 <= l < 24 && 0 <= c < 12 ==> #[trigger] fb.back_buffer.lines()[l][c]
                            == old(fb).back_buffer.lines()[l][c] || fb.back_buffer.lines()[l][c]
                            == raindrop_byte(l),
                    forall|i: int|
                        0 <= i < 12 ==> #[trigger] self.raindrop_lines@[i]@.len()
                            == orig.raindrop_lines@[i]@.len(),
                    forall|i: int, kk: int|
                        0 <= i < line && 0 <= kk < orig.raindrop_lines@[i]@.len() ==> drop_evolved(
                            orig.raindrop_lines@[i]@[kk],
                            #[trigger] self.raindrop_lines@[i]@[kk],
                        ),
                    forall|kk: int|
                        0 <= kk < k ==> drop_evolved(
                            orig.raindrop_lines@[line as int]@[kk],
                            #[trigger] self.raindrop_lines@[line as int]@[kk],
                        ),
                    forall|kk: int|
                        k <= kk < count ==> #[trigger] self.raindrop_lines@[line as int]@[kk]
                            == orig.raindrop_lines@[line as int]@[kk],
                    forall|i: int|
                        line < i < 12 ==> #[trigger] self.raindrop_lines@[i]@
                            == orig.raindrop_lines@[i]@,
                decreases count - k,
            {
                let drop = *self.raindrop_lines[line].get(k);
                match drop.state {
                    RaindropState::Falling => {
                        let ghost prev = *fb;
                        fb.set_led_adjusted(falling_x, drop.y, Self::raindrop_color());
                        proof {
                            prev.back_buffer.lemma_wf_lines();
                            lemma_pixel_write_palette(
                                prev.back_buffer.lines(),
                                falling_x as int,
                                drop.y as int,
                                adjusted_of(Color { r: 200, g: 200, b: 200 }),
                            );
                        }
                    },
                    RaindropState::Splashing { splash_x, frame } => {
                        // The spray coordinates may fall off the panel, so
                        // only attempt to set those pixels.
                        if frame == 0 {
                            if splash_x > 0 {
                                if drop.y > 0 {
                                    let ghost prev = *fb;
                                    fb.try_set_led_adjusted(
                                        splash_x - 1,
                                        drop.y - 1,
                                        Self::raindrop_color(),
                                    );
                                    proof {
                                        prev.back_buffer.lemma_wf_lines();
                                        lemma_pixel_write_palette(
                                            prev.back_buffer.lines(),
                                            splash_x - 1,
                                            drop.y - 1,
                                            adjusted_of(Color { r: 200, g: 200, b: 200 }),
                                        );
                                    }
                                }
                                let ghost prev = *fb;
                                fb.try_set_led_adjusted(
                                    splash_x - 1,
                                    drop.y + 1,
                                    Self::raindrop_color(),
                                );
                                proof {
                                    if drop.y + 1 < 8 {
                                        prev.back_buffer.lemma_wf_lines();
                                        lemma_pixel_write_palette(
                                            prev.back_buffer.lines(),
                                            splash_x - 1,
                                            drop.y + 1,
                                            adjusted_of(Color { r: 200, g: 200, b: 200 }),
                                        );
                                    }
                                }
                            }
                            let advanced = Raindrop {
                                y: drop.y,
                                state: RaindropState::Splashing { splash_x, frame: 1 },
                            };
                            self.raindrop_lines[line].set(k, advanced);
                        } else if frame == 1 {
                            if drop.y > 0 {
                                let ghost prev = *fb;
                                fb.try_set_led_adjusted(
                                    splash_x,
                                    drop.y - 1,
                                    Self::raindrop_color(),
                                );
                                proof {
                                    prev.back_buffer.lemma_wf_lines();
                                    lemma_pixel_write_palette(
                                        prev.back_buffer.lines(),
                                        splash_x as int,
                                        drop.y - 1,
                                        adjusted_of(Color { r: 200, g: 200, b: 200 }),
                                    );
                                }
                            }
                            let ghost prev = *fb;
                            fb.try_set_led_adjusted(splash_x, drop.y + 1, Self::raindrop_color());
                            proof {
                                if drop.y + 1 < 8 {
                                    prev.back_buffer.lemma_wf_lines();
                                    lemma_pixel_write_palette(
                                        prev.back_buffer.lines(),
                                        splash_x as int,
                                        drop.y + 1,
                                        adjusted_of(Color { r: 200, g: 200, b: 200 }),
                                    );
                                }
                            }
                            let advanced = Raindrop {
                                y: drop.y,
                                state: RaindropState::Splashing { splash_x, frame: 2 },
                            };
                            self.raindrop_lines[line].set(k, advanced);
                        } else {
                            // Splash animation already finished.
                        }
                    },
                }
                k = k + 1;
            }
            falling_x = falling_x + 1;
            if falling_x >= 12 {
                falling_x = 0;
            }
            line = line + 1;
        }
    }

    /// One frame of the simulation: lay down the backdrop (resetting every
    /// modulation accumulator with it), spawn, splash and draw the drops,
    /// then scroll the columns and clear the line that scrolls in next.
    pub fn render(&mut self, fb: &mut Framebuffer)
        requires
            old(self).wf(),
            old(fb).wf(),
            old(self).raindrop_lines@[old(self).line_shift as int]@.len() == 0,
        ensures
            final(self).wf(),
            final(fb).wf(),
            final(fb).front_buffer.targets() == old(fb).front_buffer.targets(),
            final(self).line_shift == if old(self).line_shift == 11 {
                0int
            } else {
                old(self).line_shift + 1
            },
            final(self).raindrop_lines@[final(self).line_shift as int]@.len() == 0,
            forall|l: int, c: int|
                0 <= l < 24 && 0 <= c < 12 ==> #[trigger] final(fb).back_buffer.lines()[l][c]
                    == base_frame_byte(l, c) || final(fb).back_buffer.lines()[l][c]
                    == raindrop_byte(l),
    {
        fb.replace_back(Self::base_frame());
        self.spawn_drops();
        self.random_splashes();
        self.force_splashes();
        self.rasterize_drops(fb);

        self.line_shift = self.line_shift + 1;
        if self.line_shift >= 12 {
            self.line_shift = 0;
        }
        let line_shift = self.line_shift;
        self.raindrop_lines[line_shift].clear();
    }
}

} // verus!
