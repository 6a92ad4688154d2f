use led_matrix::color::{AdjustedColor, Color};
use led_matrix::framebuffer::Framebuffer;

fn targets_snapshot(fb: &Framebuffer) -> Vec<Vec<u8>> {
    fb.front_buffer.bit_target_lines.clone()
}

#[test]
fn set_resets_accumulator_to_zero() {
    let mut fb = Framebuffer::new();
    for line in 9..12 {
        for x in 0..12 {
            fb.front_buffer.bit_current_lines[line][x] = 77;
        }
    }
    fb.set_led(3, 3, Color::from_rgb(10, 20, 30));
    let current = fb.front_buffer.get_current(3, 3);
    assert_eq!((current.r, current.g, current.b), (0, 0, 0));
    // A pixel not written keeps its accumulator.
    let untouched = fb.front_buffer.get_current(4, 3);
    assert_eq!(untouched.r, 77);
}

#[test]
fn flip_without_writes_is_idempotent() {
    let mut fb = Framebuffer::new();
    for y in 0..8 {
        fb.set_led(y, y, Color::from_rgb((y * 30) as u8, 255, 9));
    }
    fb.flip();
    let first = targets_snapshot(&fb);
    fb.flip();
    let second = targets_snapshot(&fb);
    assert_eq!(first, second);
}

#[test]
fn flip_copies_back_buffer_into_front_targets() {
    let mut fb = Framebuffer::new();
    fb.set_led_adjusted(5, 2, AdjustedColor { r: 1, g: 2, b: 3 });
    assert_eq!(fb.front_buffer.get_target(5, 2), AdjustedColor { r: 0, g: 0, b: 0 });
    fb.flip();
    assert_eq!(fb.front_buffer.get_target(5, 2), AdjustedColor { r: 1, g: 2, b: 3 });
    // The accumulators survive the flip.
    fb.front_buffer.bit_current_lines[0][0] = 9;
    fb.flip();
    assert_eq!(fb.front_buffer.bit_current_lines[0][0], 9);
}

#[test]
fn try_set_out_of_range_is_a_no_op() {
    let mut fb = Framebuffer::new();
    fb.set_led(0, 0, Color::from_rgb(50, 60, 70));
    let back_before = fb.back_buffer.bit_lines.clone();
    let current_before = fb.front_buffer.bit_current_lines.clone();

    fb.try_set_led(12, 0, Color::from_rgb(255, 255, 255));
    fb.try_set_led(0, 8, Color::from_rgb(255, 255, 255));
    fb.try_set_led(usize::MAX, usize::MAX, Color::from_rgb(255, 255, 255));
    fb.try_set_led_adjusted(12, 8, AdjustedColor { r: 9, g: 9, b: 9 });

    assert_eq!(fb.back_buffer.bit_lines, back_before);
    assert_eq!(fb.front_buffer.bit_current_lines, current_before);
}

#[test]
fn try_set_in_range_equals_set() {
    let color = Color::from_rgb(200, 100, 50);
    let mut fb_a = Framebuffer::new();
    let mut fb_b = Framebuffer::new();
    fb_a.try_set_led(0, 0, color);
    fb_b.set_led(0, 0, color);
    assert_eq!(fb_a.back_buffer.bit_lines, fb_b.back_buffer.bit_lines);
    assert_eq!(
        fb_a.front_buffer.bit_current_lines,
        fb_b.front_buffer.bit_current_lines
    );
}

#[test]
fn set_led_applies_luminosity_adjustment() {
    let mut fb = Framebuffer::new();
    fb.set_led(1, 2, Color::from_rgb(100, 100, 100));
    let shown = fb.back_buffer.get_led(1, 2);
    assert_eq!((shown.r, shown.g, shown.b), (100, 58, 41));
}

#[test]
fn set_led_adjusted_writes_raw_bytes() {
    let mut fb = Framebuffer::new();
    fb.set_led_adjusted(11, 7, AdjustedColor { r: 1, g: 2, b: 3 });
    assert_eq!(fb.back_buffer.bit_lines[21][11], 1);
    assert_eq!(fb.back_buffer.bit_lines[22][11], 2);
    assert_eq!(fb.back_buffer.bit_lines[23][11], 3);
}

#[test]
fn replace_back_zeroes_every_accumulator() {
    let mut fb = Framebuffer::new();
    fb.front_buffer.bit_current_lines[5][5] = 200;
    let mut other = led_matrix::framebuffer::BackBuffer::new();
    other.set_led_adjusted(2, 2, AdjustedColor { r: 8, g: 8, b: 8 });
    fb.replace_back(other);
    assert_eq!(fb.back_buffer.bit_lines[6][2], 8);
    for line in 0..24 {
        for x in 0..12 {
            assert_eq!(fb.front_buffer.bit_current_lines[line][x], 0);
        }
    }
}
