use chip8::pacing::{Pacer, CPU_HZ, TIMER_HZ};

#[test]
fn one_second_gives_the_rate() {
    assert_eq!(Pacer::new(TIMER_HZ).advance(1_000_000), 60);
    assert_eq!(Pacer::new(CPU_HZ).advance(1_000_000), 600);
}

#[test]
fn remainder_is_carried_over() {
    let mut pacer = Pacer::new(60);
    // 16 666 us are 999 960 millionths of a period.
    assert_eq!(pacer.advance(16_666), 0);
    // One more microsecond adds 60.
    assert_eq!(pacer.advance(1), 1);
    // 20 millionths are left: 16 666 us do not complete a period now either.
    assert_eq!(pacer.advance(16_666), 0);
    assert_eq!(pacer.advance(1), 1);
    assert_eq!(pacer.advance(0), 0);
}

#[test]
fn slicing_the_time_loses_nothing() {
    let mut pacer = Pacer::new(CPU_HZ);
    let mut total = 0;
    for _ in 0..1000 {
        total += pacer.advance(1_000);
    }
    assert_eq!(total, 600);
    let mut timers = Pacer::new(TIMER_HZ);
    let mut ticks = 0;
    for _ in 0..3 {
        for slice in [7, 9_000, 1, 333_325] {
            ticks += timers.advance(slice);
        }
    }
    // 3 * 342 333 us = 1 026 999 us: 61 periods of 16 666.67 us.
    assert_eq!(ticks, 61);
}

#[test]
fn a_stopped_clock_is_never_due() {
    let mut pacer = Pacer::new(0);
    assert_eq!(pacer.advance(u32::MAX), 0);
    assert_eq!(pacer.advance(1_000_000), 0);
}

#[test]
fn the_largest_report_at_the_highest_rate() {
    let mut pacer = Pacer::new(u32::MAX);
    // (2^32 - 1)^2 = 18 446 744 065 119 617 025.
    assert_eq!(pacer.advance(u32::MAX), 18_446_744_065_119);
    // 617 025 millionths are carried; one microsecond adds 4 294 967 295.
    assert_eq!(pacer.advance(1), 4_295);
}
