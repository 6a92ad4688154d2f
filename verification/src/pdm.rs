//! Pulse-density modulation: turning an 8-bit target brightness into a
//! 1-bit-per-cycle stream whose long-run duty cycle is `target / 255`.
//!
//! Each pixel-channel keeps an 8-bit accumulator.  Every shift-register cycle
//! the target is added to the accumulator with wraparound, and the carry of
//! that add is the output bit.  Over 256 cycles from a zero accumulator the
//! carry fires exactly `target` times (`lemma_pdm_duty_cycle`), which is the
//! Bresenham-style error-diffusion property the panel's brightness rests on.

use vstd::arithmetic::div_mod::{
    lemma_fundamental_div_mod, lemma_fundamental_div_mod_converse,
};
use vstd::prelude::*;

verus! {

/// The output bit of one modulation step: whether adding `target` to the
/// accumulator overflows past 255.
pub open spec fn pdm_carry(current: u8, target: u8) -> bool {
    current + target > 255
}

/// The accumulator after one modulation step: the wrapped low 8 bits of the
/// sum.
pub open spec fn pdm_next(current: u8, target: u8) -> u8 {
    ((current + target) % 256) as u8
}

/// The accumulator after `k` modulation steps with constant `target`,
/// starting from 0.
pub open spec fn pdm_acc(target: u8, k: nat) -> u8
    decreases k,
{
    if k == 0 {
        0
    } else {
        pdm_next(pdm_acc(target, (k - 1) as nat), target)
    }
}

/// How many of the first `k` output bits are high, for a constant `target`
/// and a zero starting accumulator.
pub open spec fn pdm_ones(target: u8, k: nat) -> nat
    decreases k,
{
    if k == 0 {
        0
    } else {
        pdm_ones(target, (k - 1) as nat) + if pdm_carry(
            pdm_acc(target, (k - 1) as nat),
            target,
        ) {
            1nat
        } else {
            0nat
        }
    }
}

/// After `k` steps the accumulator holds `(k * target) % 256` and the carry
/// has fired `(k * target) / 256` times: the modulator is an exact
/// fixed-point division, not an approximation.
pub proof fn lemma_pdm_counts(target: u8, k: nat)
    ensures
        pdm_acc(target, k) == (k * target) % 256,
        pdm_ones(target, k) == (k * target) / 256,
    decreases k,
{
    if k == 0 {
        assert(0nat * target == 0) by (nonlinear_arith);
    } else {
        let j = (k - 1) as nat;
        lemma_pdm_counts(target, j);
        let a = j * target as int;
        assert(k * target == a + target) by (nonlinear_arith)
            requires
                a == j * target,
                k == j + 1,
        ;
        lemma_fundamental_div_mod(a, 256);
        let q = a / 256;
        let r = a % 256;
        if r + target > 255 {
            lemma_fundamental_div_mod_converse(a + target, 256, q + 1, r + target - 256);
        } else {
            lemma_fundamental_div_mod_converse(a + target, 256, q, r + target);
        }
    }
}

/// Duty-cycle convergence: for every target, 256 steps from a zero
/// accumulator produce exactly `target` high bits.
pub proof fn lemma_pdm_duty_cycle(target: u8)
    ensures
        pdm_ones(target, 256) == target,
        pdm_acc(target, 256) == 0,
{
    lemma_pdm_counts(target, 256);
    assert(256 * target == target * 256) by (nonlinear_arith);
    lemma_fundamental_div_mod_converse(256 * target, 256, target as int, 0);
}

/// In any window of `w` consecutive steps the carry fires between
/// `(w * target) / 256` and `(w * target) / 256 + 1` times: the high bits
/// are spread evenly through the stream rather than bunched.
pub proof fn lemma_pdm_window_ones(target: u8, k: nat, w: nat)
    ensures
        pdm_ones(target, k + w) >= pdm_ones(target, k) + (w * target) / 256,
        pdm_ones(target, k + w) <= pdm_ones(target, k) + (w * target) / 256 + 1,
{
    lemma_pdm_counts(target, k);
    lemma_pdm_counts(target, k + w);
    let a = k * target as int;
    let b = w * target as int;
    assert((k + w) * target == a + b) by (nonlinear_arith)
        requires
            a == k * target,
            b == w * target,
    ;
    lemma_fundamental_div_mod(a, 256);
    lemma_fundamental_div_mod(b, 256);
    let qa = a / 256;
    let ra = a % 256;
    let qb = b / 256;
    let rb = b % 256;
    if ra + rb < 256 {
        lemma_fundamental_div_mod_converse(a + b, 256, qa + qb, ra + rb);
    } else {
        lemma_fundamental_div_mod_converse(a + b, 256, qa + qb + 1, ra + rb - 256);
    }
}

/// In a window where every output bit equals `bit`, the number of carries
/// is exactly the window length (for high bits) or zero (for low bits).
proof fn lemma_pdm_constant_window(target: u8, k: nat, w: nat, bit: bool)
    requires
        forall|j: nat| k <= j < k + w ==> pdm_carry(#[trigger] pdm_acc(target, j), target) == bit,
    ensures
        pdm_ones(target, k + w) == pdm_ones(target, k) + if bit {
            w
        } else {
            0nat
        },
    decreases w,
{
    if w > 0 {
        lemma_pdm_constant_window(target, k, (w - 1) as nat, bit);
        assert(pdm_carry(pdm_acc(target, (k + w - 1) as nat), target) == bit);
    }
}

/// Distribution uniformity, as a bound on bursts: a run of `w` consecutive
/// low bits forces `w * target <= 255`, and a run of `w` consecutive high
/// bits forces `w * (256 - target) <= 256`.  Long bursts can only happen
/// at the extreme targets that genuinely call for them.
pub proof fn lemma_pdm_run_bound(target: u8, k: nat, w: nat, bit: bool)
    requires
        forall|j: nat| k <= j < k + w ==> pdm_carry(#[trigger] pdm_acc(target, j), target) == bit,
    ensures
        !bit ==> w * target <= 255,
        bit ==> w * (256 - target) <= 256,
{
    lemma_pdm_constant_window(target, k, w, bit);
    lemma_pdm_window_ones(target, k, w);
    let b = w * target as int;
    lemma_fundamental_div_mod(b, 256);
    if bit {
        assert(w * (256 - target) == 256 * w - b) by (nonlinear_arith)
            requires
                b == w * target,
        ;
    }
}

/// One modulation step for a single pixel-channel.  Mutates the accumulator
/// in place and returns the output bit for this cycle.  Defined for all
/// inputs; nothing here can overflow a panic into existence.
pub fn pwm_pulse(current: &mut u8, target: u8) -> (bit: bool)
    ensures
        *final(current) == pdm_next(*old(current), target),
        bit == pdm_carry(*old(current), target),
{
    let sum: u16 = *current as u16 + target as u16;
    *current = (sum % 256) as u8;
    sum > 255
}

/// The output word built from the carries of `n` lanes, each scattered to its
/// configured bit offset.  Offsets may repeat; the bits are simply ORed in.
pub open spec fn carry_word(current: Seq<u8>, targets: Seq<u8>, offsets: Seq<u32>, n: int) -> u32
    decreases n,
{
    if n <= 0 {
        0
    } else {
        carry_word(current, targets, offsets, n - 1) | (if pdm_carry(
            current[n - 1],
            targets[n - 1],
        ) {
            1u32 << offsets[n - 1]
        } else {
            0u32
        })
    }
}

/// The accumulator bank after one step of every lane.
pub open spec fn stepped_lanes(current: Seq<u8>, targets: Seq<u8>) -> Seq<u8> {
    Seq::new(current.len(), |i: int| pdm_next(current[i], targets[i]))
}

/// One modulation step across all lanes of a scan line: each accumulator is
/// advanced and each carry is ORed into the returned word at that lane's bit
/// offset.
pub fn pwm_pulse_line(current: &mut Vec<u8>, targets: &Vec<u8>, offsets: &Vec<u32>) -> (word: u32)
    requires
        targets.len() == old(current).len(),
        offsets.len() == old(current).len(),
        forall|i: int| 0 <= i < offsets.len() ==> offsets[i] < 32,
    ensures
        final(current)@ == stepped_lanes(old(current)@, targets@),
        word == carry_word(old(current)@, targets@, offsets@, old(current).len() as int),
{
    let ghost orig = current@;
    let n = current.len();
    let mut word: u32 = 0;
    let mut i: usize = 0;
    while i < n
        invariant
            n == orig.len(),
            targets.len() == n,
            offsets.len() == n,
            forall|j: int| 0 <= j < n ==> offsets[j] < 32,
            i <= n,
            current.len() == n,
            forall|j: int| 0 <= j < i ==> current[j] == pdm_next(orig[j], targets@[j]),
            forall|j: int| i <= j < n ==> current[j] == orig[j],
            word == carry_word(orig, targets@, offsets@, i as int),
        decreases n - i,
    {
        let mut lane = current[i];
        let bit = pwm_pulse(&mut lane, targets[i]);
        current[i] = lane;
        if bit {
            word = word | (1u32 << offsets[i]);
        } else {
            proof {
                assert(word | 0u32 == word) by (bit_vector);
            }
        }
        i = i + 1;
    }
    proof {
        assert(final(current)@ =~= stepped_lanes(orig, targets@));
    }
    word
}

/// Four-lane batched form of the modulation step, mirroring the width of the
/// port word a shift-register bank consumes: the four carries are scattered
/// into `out_buffer` at the caller-supplied bit offsets.
pub fn pwm_pulse_batched(
    current_values: &mut Vec<u8>,
    target_values: &Vec<u8>,
    bit_offsets: &Vec<u32>,
    out_buffer: &mut u32,
)
    requires
        old(current_values).len() == 4,
        target_values.len() == 4,
        bit_offsets.len() == 4,
        forall|i: int| 0 <= i < 4 ==> bit_offsets[i] < 32,
    ensures
        final(current_values)@ == stepped_lanes(old(current_values)@, target_values@),
        *final(out_buffer) == *old(out_buffer) | carry_word(
            old(current_values)@,
            target_values@,
            bit_offsets@,
            4,
        ),
{
    let word = pwm_pulse_line(current_values, target_values, bit_offsets);
    *out_buffer = *out_buffer | word;
}

} // verus!
