use led_matrix::button::Button;

const WINDOW: u32 = 1_000;

#[test]
fn noisy_signal_fires_exactly_once() {
    let mut button = Button::new(WINDOW);

    // Rapid toggles inside one debounce window: only the first poll of the
    // window is an effective sample (it reads low), the rest are ignored.
    let noisy = [
        (1_000, false),
        (1_001, true),
        (1_002, false),
        (1_500, true),
        (1_999, false),
    ];
    let mut fires = 0u32;
    for (now, raw) in noisy {
        if button.check_if_pressed(now, raw) {
            fires += 1;
        }
    }
    assert_eq!(fires, 0);

    // A stable high held for at least a full window: the first effective
    // sample sees one high read, the second confirms it and fires — once.
    let stable = [(2_000, true), (3_000, true), (4_000, true), (5_000, true)];
    let mut fired_at = None;
    for (now, raw) in stable {
        if button.check_if_pressed(now, raw) {
            fires += 1;
            fired_at = Some(now);
        }
    }
    assert_eq!(fires, 1);
    assert_eq!(fired_at, Some(3_000));

    // Release and press again: exactly one more fire.
    assert!(!button.check_if_pressed(6_000, false));
    assert!(!button.check_if_pressed(7_000, true));
    assert!(button.check_if_pressed(8_000, true));
}

#[test]
fn polls_inside_the_window_are_ignored() {
    let mut button = Button::new(WINDOW);
    assert!(!button.check_if_pressed(1_000, true));
    // These polls fall inside the window and must not even be sampled.
    assert!(!button.check_if_pressed(1_100, true));
    assert!(!button.check_if_pressed(1_900, true));
    assert_eq!(button.last_button_input_time, 1_000);
    // The next effective sample confirms the high level and fires.
    assert!(button.check_if_pressed(2_000, true));
}

#[test]
fn wrapping_cycle_counter_is_handled() {
    let mut button = Button::new(WINDOW);
    assert!(!button.check_if_pressed(u32::MAX - 100, true));
    // 200 cycles later the counter has wrapped past zero.
    assert!(button.check_if_pressed(u32::MAX.wrapping_add(900), true));
}

#[test]
fn single_high_sample_does_not_fire() {
    let mut button = Button::new(WINDOW);
    assert!(!button.check_if_pressed(1_000, true));
    assert!(!button.check_if_pressed(2_000, false));
    assert!(!button.check_if_pressed(3_000, true));
    assert!(!button.check_if_pressed(4_000, false));
}
