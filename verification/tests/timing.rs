use led_matrix::timing::{ns_to_cycles, yield_cycles_plan, DelayPlan, START_LOOP};

#[test]
fn nanoseconds_round_up_to_cycles() {
    // 22 ns at 600 MHz is 13.2 cycles and must round up.
    assert_eq!(ns_to_cycles(22, 600_000_000), 14);
    assert_eq!(ns_to_cycles(25, 600_000_000), 15);
    // Exact multiples do not round.
    assert_eq!(ns_to_cycles(10, 1_000_000_000), 10);
    assert_eq!(ns_to_cycles(0, 600_000_000), 0);
    assert_eq!(ns_to_cycles(1, 1), 1);
}

#[test]
fn short_waits_are_inlined() {
    assert_eq!(yield_cycles_plan(0), DelayPlan::Inline { count: 0 });
    assert_eq!(yield_cycles_plan(1), DelayPlan::Inline { count: 1 });
    assert_eq!(yield_cycles_plan(20), DelayPlan::Inline { count: 20 });
}

#[test]
fn medium_waits_use_one_timer_countdown() {
    assert_eq!(yield_cycles_plan(21), DelayPlan::TimerOnce { reload: 0 });
    assert_eq!(yield_cycles_plan(1_000), DelayPlan::TimerOnce { reload: 979 });
    assert_eq!(
        yield_cycles_plan(START_LOOP - 1),
        DelayPlan::TimerOnce { reload: (START_LOOP - 22) as u32 }
    );
}

#[test]
fn long_waits_are_chunked() {
    assert_eq!(
        yield_cycles_plan(START_LOOP),
        DelayPlan::TimerLoop { full_count: 0, remainder: (START_LOOP - 39) as u32 }
    );
    let two_chunks = 1u64 << 25;
    let wait = two_chunks - 39;
    assert_eq!(
        yield_cycles_plan(two_chunks),
        DelayPlan::TimerLoop {
            full_count: wait >> 24,
            remainder: (wait & 0xFFFFFF) as u32,
        }
    );
}
