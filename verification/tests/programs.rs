use led_matrix::color::{AdjustedColor, Color};
use led_matrix::framebuffer::{BackBuffer, Framebuffer, FrontBuffer};
use led_matrix::led_driver::ScreenDriver;
use led_matrix::program::clock::{process_glyph, Clock};
use led_matrix::program::hue_cycle::HueCycle;
use led_matrix::program::rain::{Rain, Raindrop, RaindropState};
use led_matrix::program::rainbow::Rainbow;

fn test_driver() -> ScreenDriver {
    ScreenDriver::new(0, 600_000_000, 24, 25, (0..12u32).collect())
}

#[test]
fn hue_cycle_starts_on_a_diagonal_gradient() {
    let mut driver = test_driver();
    let program = HueCycle::new(&mut driver);
    assert_eq!(driver.rtc_mask, 0xFFFFFFC0);
    assert_eq!(program.scratch_buffer[0][0], Color::from_rgb(0, 255, 0));
    assert_eq!(program.scratch_buffer[2][3], Color::from_rgb(50, 255, 0));
    assert_eq!(program.scratch_buffer[7][11], Color::from_rgb(180, 255, 0));
}

#[test]
fn hue_cycle_render_writes_adjusted_stepped_colors() {
    let mut driver = test_driver();
    let mut program = HueCycle::new(&mut driver);
    // Pollute an accumulator to see the render reset it.
    driver.framebuffer.front_buffer.bit_current_lines[10][10] = 99;
    program.render(&mut driver.framebuffer);

    // Pixel (0, 0) started at (0, 255, 0); one hue step moves it to
    // (0, 255, 1), displayed with green and blue scaled down.
    assert_eq!(program.scratch_buffer[0][0], Color::from_rgb(0, 255, 1));
    let shown = driver.framebuffer.back_buffer.get_led(0, 0);
    assert_eq!((shown.r, shown.g, shown.b), (0, 147, 0));

    // Every accumulator was reset by the full-panel write.
    for line in 0..24 {
        for x in 0..12 {
            assert_eq!(driver.framebuffer.front_buffer.bit_current_lines[line][x], 0);
        }
    }
}

#[test]
fn rain_starts_empty_and_scrolls() {
    let mut driver = test_driver();
    let mut program = Rain::new(&mut driver, 7);
    assert_eq!(driver.rtc_mask, 0xFFFFFE00);
    assert_eq!(program.line_shift, 0);
    for line in &program.raindrop_lines {
        assert!(line.is_empty());
    }

    program.render(&mut driver.framebuffer);
    assert_eq!(program.line_shift, 1);
    assert!(program.raindrop_lines[1].is_empty());

    for _ in 0..11 {
        let entry_line = program.line_shift;
        assert!(program.raindrop_lines[entry_line].is_empty());
        program.render(&mut driver.framebuffer);
    }
    assert_eq!(program.line_shift, 0);
}

#[test]
fn rain_paints_only_known_colors() {
    let ground = Rain::ground_color();
    let drop_color = Rain::raindrop_color();
    let black = AdjustedColor { r: 0, g: 0, b: 0 };

    let mut driver = test_driver();
    let mut program = Rain::new(&mut driver, 123_456);
    for _ in 0..40 {
        program.render(&mut driver.framebuffer);
        for y in 0..8 {
            for x in 0..12 {
                let shown = driver.framebuffer.back_buffer.get_led(x, y);
                assert!(
                    shown == ground || shown == drop_color || shown == black,
                    "unexpected color at ({x}, {y}): {shown:?}"
                );
            }
        }
        // Every stored drop stays on the panel.
        for line in &program.raindrop_lines {
            for k in 0..line.len() {
                let drop: &Raindrop = line.get(k);
                assert!(drop.y < 8);
                if let RaindropState::Splashing { splash_x, frame } = drop.state {
                    assert!(splash_x < 12);
                    assert!(frame <= 2);
                }
            }
        }
    }
}

#[test]
fn rain_base_frame_has_the_ground_band() {
    let base = Rain::base_frame();
    let ground = Rain::ground_color();
    for y in 0..8 {
        for x in 0..12 {
            let shown = base.get_led(x, y);
            if x >= Rain::GROUND_LEVEL {
                assert_eq!(shown, ground);
            } else {
                assert_eq!(shown, AdjustedColor { r: 0, g: 0, b: 0 });
            }
        }
    }
}

#[test]
fn raindrops_spawn_falling() {
    let drop = Raindrop::new(5);
    assert_eq!(drop.y, 5);
    assert!(matches!(drop.state, RaindropState::Falling));
}

#[test]
fn clock_computes_display_time() {
    let mut driver = test_driver();
    let mut clock = Clock::new(&mut driver);
    assert_eq!(driver.rtc_mask, 0xFFFF8000);

    // Midnight reads as 12, and the source derives its meridiem flag as
    // "hours below twelve".
    assert_eq!(clock.render(0), (12, 0, true));
    // 13:30:59.
    assert_eq!(clock.render(13 * 3600 + 30 * 60 + 59), (1, 30, false));
    // 11:59.
    assert_eq!(clock.render(11 * 3600 + 59 * 60), (11, 59, true));
    // The counter wraps around full days.
    assert_eq!(clock.render(24 * 3600 + 60), (12, 1, true));
}

#[test]
fn glyph_processing_masks_the_stencil() {
    let stencil = vec![vec![1u8, 0, 1], vec![0u8, 7, 0]];
    let color = AdjustedColor { r: 170, g: 98, b: 70 };
    let glyph = process_glyph(&stencil, color);
    let black = AdjustedColor { r: 0, g: 0, b: 0 };
    assert_eq!(glyph[0], vec![color, black, color]);
    assert_eq!(glyph[1], vec![black, color, black]);
}

#[test]
fn rainbow_advances_one_pixel_per_chunk() {
    let mut rainbow = Rainbow::default();
    assert_eq!(rainbow.current_stage, 0);
    assert_eq!(Rainbow::frame_rate(), 512);

    let mut back = BackBuffer::new();
    rainbow.init(&mut back);
    assert_eq!(back.get_led(0, 3), AdjustedColor { r: 0, g: 255, b: 0 });
    assert_eq!(back.get_led(0, 7), AdjustedColor { r: 255, g: 0, b: 0 });

    // Show the seeded band and process the chunk covering pixel (0, 3):
    // stage 36 is row 3, column 0.
    let mut fb = Framebuffer::new();
    fb.replace_back(back);
    fb.flip();
    let front: &FrontBuffer = &fb.front_buffer;
    rainbow.current_stage = 36;
    let mut next = BackBuffer::new();
    rainbow.process_chunk(front, &mut next);
    assert_eq!(rainbow.current_stage, 37);
    // (0, 255, 0) steps to (0, 255, 1), written raw.
    assert_eq!(next.get_led(0, 3), AdjustedColor { r: 0, g: 255, b: 1 });

    // Past the end nothing moves until the frame is finished.
    rainbow.current_stage = 96;
    rainbow.process_chunk(front, &mut next);
    assert_eq!(rainbow.current_stage, 96);
    rainbow.frame_finished();
    assert_eq!(rainbow.current_stage, 0);
}
