use led_matrix::pdm::{pwm_pulse, pwm_pulse_batched, pwm_pulse_line};

fn gcd(a: u32, b: u32) -> u32 {
    if b == 0 { a } else { gcd(b, a % b) }
}

fn bits_for_target(target: u8) -> Vec<bool> {
    let mut current = 0u8;
    let mut bits = Vec::new();
    for _ in 0..256 {
        bits.push(pwm_pulse(&mut current, target));
    }
    bits
}

#[test]
fn duty_cycle_exact_for_all_targets() {
    for target in 0..=255u8 {
        let mut current = 0u8;
        let mut ones = 0u32;
        for _ in 0..256 {
            if pwm_pulse(&mut current, target) {
                ones += 1;
            }
        }
        assert_eq!(ones, target as u32);
        assert_eq!(current, 0);
    }
}

#[test]
fn output_bits_are_evenly_spread() {
    for target in [1u8, 85, 128, 254] {
        let bits = bits_for_target(target);
        let mut max_run = 0usize;
        let mut run = 0usize;
        let mut last = None;
        for &bit in &bits {
            if Some(bit) == last {
                run += 1;
            } else {
                run = 1;
                last = Some(bit);
            }
            max_run = max_run.max(run);
        }
        let g = gcd(target as u32, 256);
        let bound = (256 + g - 1) / g + 1;
        assert!(
            max_run as u32 <= bound,
            "target {target}: run {max_run} exceeds {bound}"
        );
    }
}

#[test]
fn pulse_reports_carry_and_keeps_remainder() {
    let mut current = 200u8;
    assert!(pwm_pulse(&mut current, 100));
    assert_eq!(current, 44);

    let mut current = 10u8;
    assert!(!pwm_pulse(&mut current, 100));
    assert_eq!(current, 110);

    let mut current = 0u8;
    assert!(!pwm_pulse(&mut current, 255));
    assert_eq!(current, 255);
    assert!(pwm_pulse(&mut current, 255));
    assert_eq!(current, 254);
}

#[test]
fn batched_pulse_scatters_carries() {
    let mut currents = vec![200u8, 1, 255, 0];
    let targets = vec![100u8, 255, 1, 0];
    let offsets = vec![0u32, 5, 9, 31];
    let mut out = 1u32 << 30;
    pwm_pulse_batched(&mut currents, &targets, &offsets, &mut out);
    assert_eq!(out, (1 << 30) | 1 | (1 << 5) | (1 << 9));
    assert_eq!(currents, vec![44, 0, 0, 0]);
}

#[test]
fn line_pulse_handles_all_lanes() {
    let mut currents = vec![255u8; 12];
    let targets = vec![1u8; 12];
    let offsets: Vec<u32> = (0..12u32).collect();
    let word = pwm_pulse_line(&mut currents, &targets, &offsets);
    assert_eq!(word, 0xFFF);
    assert_eq!(currents, vec![0u8; 12]);

    let mut currents = vec![0u8; 12];
    let word = pwm_pulse_line(&mut currents, &targets, &offsets);
    assert_eq!(word, 0);
    assert_eq!(currents, vec![1u8; 12]);
}
