use led_matrix::framebuffer::Framebuffer;
use led_matrix::led_driver::{DriveAction, DriverState, FrameRate, ScreenDriver};

const CLOCK_HZ: u32 = 600_000_000;

fn test_driver() -> ScreenDriver {
    ScreenDriver::new(0, CLOCK_HZ, 24, 25, (0..12u32).collect())
}

/// Run whole clock-on/data-out pairs until the scan wraps once, feeding a
/// constant counter sample, and count the signaled flips.
fn flips_in_one_scan(driver: &mut ScreenDriver, rtc: u32) -> u32 {
    let mut flips = 0;
    for _ in 0..24 {
        let (_, flipped) = driver.drive_post_render(rtc);
        assert!(!flipped);
        let (_, flipped) = driver.drive_post_render(rtc);
        if flipped {
            flips += 1;
        }
    }
    flips
}

#[test]
fn new_driver_starts_clean() {
    let driver = test_driver();
    assert_eq!(driver.rtc_mask, 0xFFFFFE00);
    assert_eq!(driver.current_shift_bit, 0);
    assert_eq!(driver.clock_pulse_bits, 0);
    assert_eq!(driver.last_rtc_val, 0);
    assert!(matches!(driver.state, DriverState::ClockOn));
}

#[test]
fn rtc_masks_divide_the_counter() {
    assert_eq!(FrameRate::Fps32768.rtc_mask(), u32::MAX);
    assert_eq!(FrameRate::Fps64.rtc_mask(), 0xFFFFFE00);
    assert_eq!(FrameRate::Fps1.rtc_mask(), 0xFFFF8000);
    assert_eq!(FrameRate::Spf65536.rtc_mask(), 0x80000000);
    let mut driver = test_driver();
    driver.set_target_frame_rate(FrameRate::Fps512);
    assert_eq!(driver.rtc_mask, 0xFFFFFFC0);
}

#[test]
fn pre_delay_cycles_round_up() {
    assert_eq!(DriverState::ClockOn.pre_delay_cycles(CLOCK_HZ), 14);
    assert_eq!(DriverState::ClockOffDataOut.pre_delay_cycles(CLOCK_HZ), 15);
    // At exactly 1 GHz the nanosecond counts map one to one.
    assert_eq!(DriverState::ClockOn.pre_delay_cycles(1_000_000_000), 22);
}

#[test]
fn clock_pulse_includes_latch_only_at_line_start() {
    let mut driver = test_driver();
    let (action, flipped) = driver.drive_post_render(0);
    assert!(!flipped);
    assert_eq!(action, DriveAction::ClockSet { bits: (1 << 24) | (1 << 25) });

    // Finish the data phase; the next clock pulse is mid-scan and must not
    // raise the latch bit.
    let (action, _) = driver.drive_post_render(0);
    assert!(matches!(action, DriveAction::DataOut { clock_clear_bits, .. }
        if clock_clear_bits == (1 << 24) | (1 << 25)));
    let (action, _) = driver.drive_post_render(0);
    assert_eq!(action, DriveAction::ClockSet { bits: 1 << 24 });
}

#[test]
fn frame_flip_signaled_exactly_on_masked_change() {
    let mut driver = test_driver();
    // The masked counter still reads its initial value: no boundary.
    assert_eq!(flips_in_one_scan(&mut driver, 0), 0);
    // The counter moved past the mask: exactly one flip at the wrap.
    assert_eq!(flips_in_one_scan(&mut driver, 0x200), 1);
    // Same masked value again: no second flip for the same change.
    assert_eq!(flips_in_one_scan(&mut driver, 0x200), 0);
    assert_eq!(flips_in_one_scan(&mut driver, 0x2FF), 0);
    // The next change flips again.
    assert_eq!(flips_in_one_scan(&mut driver, 0x400), 1);
}

#[test]
fn flip_happens_only_at_scan_wrap() {
    let mut driver = test_driver();
    for step in 0..24 {
        let (_, flipped) = driver.drive_post_render(0x200);
        assert!(!flipped, "clock phase {step}");
        let (_, flipped) = driver.drive_post_render(0x200);
        assert_eq!(flipped, step == 23, "data phase {step}");
    }
}

#[test]
fn mid_render_waits_for_the_dwell() {
    let mut driver = test_driver();
    // 14 cycles must pass before the clock phase may run.
    assert_eq!(driver.drive_mid_render(13), None);
    assert_eq!(driver.current_shift_bit, 0);
    let action = driver.drive_mid_render(14);
    assert_eq!(action, Some(DriveAction::ClockSet { bits: (1 << 24) | (1 << 25) }));
    // The data phase now needs 15 more cycles.
    assert_eq!(driver.drive_mid_render(20), None);
    let action = driver.drive_mid_render(29);
    assert!(matches!(action, Some(DriveAction::DataOut { .. })));
    assert_eq!(driver.current_shift_bit, 1);
}

#[test]
fn mid_render_never_flips() {
    let mut driver = test_driver();
    let mut now = 0u32;
    // Drive through several full scans with a counter value that would flip
    // a post-render drive at every wrap.
    driver.last_rtc_val = 0;
    for _ in 0..200 {
        now = now.wrapping_add(1000);
        driver.drive_mid_render(now);
    }
    assert_eq!(driver.last_rtc_val, 0);
}

#[test]
fn data_word_carries_modulation_bits_at_pin_offsets() {
    let mut driver = test_driver();
    // Saturate the displayed target of scan line 1 directly.
    for x in 0..12 {
        driver.framebuffer.front_buffer.bit_target_lines[1][x] = 255;
    }
    // First pass over line 1: accumulators 0 -> 255, no carries yet.
    let (_, _) = driver.drive_post_render(0);
    let (action, _) = driver.drive_post_render(0);
    let DriveAction::DataOut { line_word, .. } = action else {
        panic!("expected a data phase");
    };
    assert_eq!(line_word, 0);

    // Walk the scan around until line 1 comes up again; its accumulators
    // all sit at 255, so every lane carries.
    let mut last_word = 0;
    for _ in 0..24 {
        let (_, _) = driver.drive_post_render(0);
        let (action, _) = driver.drive_post_render(0);
        if driver.current_shift_bit == 1 {
            let DriveAction::DataOut { line_word, .. } = action else {
                panic!("expected a data phase");
            };
            last_word = line_word;
        }
    }
    assert_eq!(last_word, 0xFFF);
}

#[test]
fn post_render_flip_publishes_back_buffer() {
    let mut driver = test_driver();
    driver.framebuffer.set_led_adjusted(
        0,
        0,
        led_matrix::color::AdjustedColor { r: 210, g: 220, b: 230 },
    );
    assert_eq!(driver.framebuffer.front_buffer.bit_target_lines[0][0], 0);
    let flips = flips_in_one_scan(&mut driver, 0x200);
    assert_eq!(flips, 1);
    assert_eq!(driver.framebuffer.front_buffer.bit_target_lines[0][0], 210);
    assert_eq!(driver.last_rtc_val, 0x200);
}
