//! The mathematical model of a bank of scan lines.
//!
//! A bank is `Vec<Vec<u8>>`: one line per pixel row and color channel, one
//! byte per column.  The spec view is a `Seq<Seq<u8>>`; the lemmas here let
//! the verifier move between the stored vectors and that view.

use crate::color::AdjustedColor;
use vstd::prelude::*;

verus! {

/// A bank of scan lines as a mathematical value: one sequence of bytes per
/// line.
pub open spec fn lines_view(v: Vec<Vec<u8>>) -> Seq<Seq<u8>> {
    Seq::new(v@.len(), |i: int| v@[i]@)
}

/// `lines_view` has one entry per stored line.
pub broadcast proof fn lemma_lines_view_len(v: Vec<Vec<u8>>)
    ensures
        (#[trigger] lines_view(v)).len() == v@.len(),
{
}

/// Indexing `lines_view` reads the stored line's bytes.
pub broadcast proof fn lemma_lines_view_index(v: Vec<Vec<u8>>, i: int)
    requires
        0 <= i < v@.len(),
    ensures
        #![trigger lines_view(v)[i]]
        #![trigger v@[i]@]
        lines_view(v)[i] == v@[i]@,
{
}

/// A well-formed bank: one line per row and channel of the panel, each line
/// one byte per column.
pub open spec fn wf_lines(s: Seq<Seq<u8>>) -> bool {
    &&& s.len() == 24
    &&& forall|i: int| 0 <= i < s.len() ==> (#[trigger] s[i]).len() == 12
}

/// Every byte of the bank is zero.
pub open spec fn all_zero(s: Seq<Seq<u8>>) -> bool {
    forall|i: int, j: int|
        0 <= i < s.len() && 0 <= j < s[i].len() ==> #[trigger] s[i][j] == 0
}

/// The bank after writing one pixel: the three channel bytes of column `x`
/// in row `y` are replaced by the channels of `c`.
pub open spec fn set_pixel(s: Seq<Seq<u8>>, x: int, y: int, c: AdjustedColor) -> Seq<Seq<u8>> {
    let s0 = s.update(3 * y, s[3 * y].update(x, c.r));
    let s1 = s0.update(3 * y + 1, s0[3 * y + 1].update(x, c.g));
    s1.update(3 * y + 2, s1[3 * y + 2].update(x, c.b))
}

/// Pointwise reading of `set_pixel`: every byte other than the three written
/// ones is untouched.
pub proof fn lemma_set_pixel_points(s: Seq<Seq<u8>>, x: int, y: int, c: AdjustedColor)
    requires
        wf_lines(s),
        0 <= x < 12,
        0 <= y < 8,
    ensures
        wf_lines(set_pixel(s, x, y, c)),
        set_pixel(s, x, y, c)[3 * y][x] == c.r,
        set_pixel(s, x, y, c)[3 * y + 1][x] == c.g,
        set_pixel(s, x, y, c)[3 * y + 2][x] == c.b,
        forall|i: int, j: int|
            0 <= i < 24 && 0 <= j < 12 && !(3 * y <= i <= 3 * y + 2 && j == x)
                ==> #[trigger] set_pixel(s, x, y, c)[i][j] == s[i][j],
{
}

} // verus!
