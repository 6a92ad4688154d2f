use led_matrix::color::Color;

#[test]
fn adjustment_scales_green_and_blue_only() {
    let adjusted = Color::from_rgb(255, 255, 255).adjust_for_led();
    assert_eq!((adjusted.r, adjusted.g, adjusted.b), (255, 147, 105));

    let adjusted = Color::from_rgb(100, 100, 100).adjust_for_led();
    assert_eq!((adjusted.r, adjusted.g, adjusted.b), (100, 58, 41));

    let adjusted = Color::from_rgb(0, 0, 0).adjust_for_led();
    assert_eq!((adjusted.r, adjusted.g, adjusted.b), (0, 0, 0));

    // The ratios are 29/50 for green and 29/70 for blue, rounded down.
    let adjusted = Color::from_rgb(36, 40, 43).adjust_for_led();
    assert_eq!((adjusted.r, adjusted.g, adjusted.b), (36, 23, 17));
}

#[test]
fn hue_cycle_walks_the_wheel() {
    // Pure red starts moving toward yellow.
    let c = Color::from_rgb(255, 0, 0).cycle_hue();
    assert_eq!((c.r, c.g, c.b), (255, 1, 0));

    // Yellow (red+green saturated) starts shedding red.
    let c = Color::from_rgb(255, 255, 0).cycle_hue();
    assert_eq!((c.r, c.g, c.b), (254, 255, 0));

    // Pure green starts moving toward cyan.
    let c = Color::from_rgb(0, 255, 0).cycle_hue();
    assert_eq!((c.r, c.g, c.b), (0, 255, 1));

    // The walk is periodic: pure red comes back around within one lap of
    // the wheel.
    let start = Color::from_rgb(255, 0, 0);
    let mut c = start.cycle_hue();
    let mut steps = 1u32;
    while c != start && steps < 5_000 {
        c = c.cycle_hue();
        steps += 1;
    }
    assert_eq!(c, start, "hue walk never returned to its start");
    assert!(steps > 1_000, "period {steps} is implausibly short");
}

#[test]
fn from_rgb_keeps_channels() {
    let c = Color::from_rgb(1, 2, 3);
    assert_eq!((c.r, c.g, c.b), (1, 2, 3));
}
