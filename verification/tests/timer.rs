use snes_apu::timer::Timer;

fn started(resolution: usize, target: u8) -> Timer {
    let mut timer = Timer::new(resolution);
    timer.set_target(target);
    timer.set_start_stop_bit(true);
    timer
}

fn tick_times(timer: &mut Timer, count: usize) {
    for _ in 0..count {
        timer.tick();
    }
}

#[test]
fn timer_target_wrap() {
    // The cycle after the start fills the accumulator; each of the twelve
    // after it is an internal tick, and twelve internal ticks with target
    // three are four rounds.
    let mut timer = started(1, 3);
    tick_times(&mut timer, 13);
    assert_eq!(timer.read_counter(), 4);
    assert_eq!(timer.read_counter(), 0);
}

#[test]
fn timer_first_cycle_only_fills_the_accumulator() {
    let mut timer = started(1, 3);
    tick_times(&mut timer, 12);
    assert_eq!(timer.read_counter(), 3);
    // The low counter stood at two: one more cycle completes the round.
    timer.tick();
    assert_eq!(timer.read_counter(), 1);
}

#[test]
fn target_zero_semantics() {
    let mut timer = started(1, 0);
    tick_times(&mut timer, 256);
    assert_eq!(timer.read_counter(), 0);
}

#[test]
fn target_zero_never_counts_a_round() {
    let mut timer = started(1, 0);
    tick_times(&mut timer, 5000);
    assert_eq!(timer.read_counter(), 0);
}

#[test]
fn target_takes_effect_after_low_counter_wraps() {
    // 300 internal ticks without a target leave the low counter at 44.
    let mut timer = started(1, 0);
    tick_times(&mut timer, 301);
    timer.set_target(50);
    tick_times(&mut timer, 5);
    assert_eq!(timer.read_counter(), 0);
    timer.tick();
    assert_eq!(timer.read_counter(), 1);
}

#[test]
fn new_timer_is_stopped() {
    let mut timer = Timer::new(1);
    timer.set_target(1);
    tick_times(&mut timer, 100);
    assert_eq!(timer.read_counter(), 0);
}

#[test]
fn stopped_timer_keeps_its_counters() {
    let mut timer = started(1, 2);
    tick_times(&mut timer, 5);
    timer.set_start_stop_bit(false);
    tick_times(&mut timer, 100);
    assert_eq!(timer.read_counter(), 2);
}

#[test]
fn internal_ticks_follow_the_resolution() {
    // With resolution r the internal ticks fall on cycles r + 1, 2r + 1, ...
    let mut timer = started(32, 1);
    tick_times(&mut timer, 32);
    assert_eq!(timer.read_counter(), 0);
    timer.tick();
    assert_eq!(timer.read_counter(), 1);
    tick_times(&mut timer, 31);
    assert_eq!(timer.read_counter(), 0);
    timer.tick();
    assert_eq!(timer.read_counter(), 1);
}

#[test]
fn cycles_callback_counts_whole_internal_ticks() {
    let mut timer = started(256, 1);
    timer.cpu_cycles_callback(256);
    assert_eq!(timer.read_counter(), 0);
    timer.cpu_cycles_callback(1);
    assert_eq!(timer.read_counter(), 1);
    timer.cpu_cycles_callback(256 * 5);
    assert_eq!(timer.read_counter(), 5);
}

#[test]
fn cycles_callback_is_repeated_tick() {
    let mut by_callback = started(3, 2);
    let mut by_tick = started(3, 2);
    by_callback.cpu_cycles_callback(100);
    tick_times(&mut by_tick, 100);
    // 33 internal ticks with target two: 16 rounds, of which four bits show.
    assert_eq!(by_callback.read_counter(), 0);
    assert_eq!(by_tick.read_counter(), 0);
    by_callback.cpu_cycles_callback(3);
    tick_times(&mut by_tick, 3);
    assert_eq!(by_callback.read_counter(), 1);
    assert_eq!(by_tick.read_counter(), 1);
}

#[test]
fn cycles_callback_of_zero_changes_nothing() {
    let mut timer = started(1, 1);
    timer.cpu_cycles_callback(0);
    assert_eq!(timer.read_counter(), 0);
    timer.cpu_cycles_callback(2);
    assert_eq!(timer.read_counter(), 1);
}

#[test]
fn read_returns_low_four_bits() {
    // Target one: every internal tick is a round.
    let mut timer = started(1, 1);
    tick_times(&mut timer, 18);
    assert_eq!(timer.read_counter(), 1);
    tick_times(&mut timer, 15);
    assert_eq!(timer.read_counter(), 15);
    tick_times(&mut timer, 16);
    assert_eq!(timer.read_counter(), 0);
}

#[test]
fn high_counter_wraps_at_256() {
    let mut timer = started(1, 1);
    tick_times(&mut timer, 1 + 256 + 5);
    assert_eq!(timer.read_counter(), 5);
}

#[test]
fn high_counter_grows_between_reads() {
    let mut timer = started(1, 4);
    let mut last: u8 = 0;
    for step in 1..=15u8 {
        tick_times(&mut timer, 4);
        let mut probe = timer;
        let seen = probe.read_counter();
        assert!(seen >= last);
        assert_eq!(seen, if step == 1 { 0 } else { step - 1 });
        last = seen;
    }
}

#[test]
fn rising_edge_clears_low_counter_and_keeps_high_counter() {
    let mut timer = started(1, 3);
    // Five internal ticks: one round, low counter at two.
    tick_times(&mut timer, 6);
    timer.set_start_stop_bit(false);
    timer.set_start_stop_bit(true);
    // A fresh count: three more internal ticks are needed, after one cycle
    // that fills the accumulator.
    tick_times(&mut timer, 3);
    let mut probe = timer;
    assert_eq!(probe.read_counter(), 1);
    timer.tick();
    assert_eq!(timer.read_counter(), 2);
}

#[test]
fn writing_the_start_bit_again_does_not_restart() {
    let mut timer = started(1, 3);
    tick_times(&mut timer, 3);
    timer.set_start_stop_bit(true);
    tick_times(&mut timer, 1);
    assert_eq!(timer.read_counter(), 1);
}

#[test]
fn restarted_timer_runs_as_a_fresh_one() {
    let mut used = started(7, 5);
    tick_times(&mut used, 123);
    used.read_counter();
    used.set_start_stop_bit(false);
    tick_times(&mut used, 40);
    used.set_start_stop_bit(true);
    let mut fresh = started(7, 5);
    for _ in 0..40 {
        tick_times(&mut used, 13);
        tick_times(&mut fresh, 13);
        assert_eq!(used.read_counter(), fresh.read_counter());
    }
}

#[test]
fn set_target_is_not_retroactive() {
    let mut timer = started(1, 10);
    // Four internal ticks: low counter at four.
    tick_times(&mut timer, 5);
    timer.set_target(4);
    assert_eq!(timer.read_counter(), 0);
    // The low counter has to come round to four again.
    tick_times(&mut timer, 255);
    assert_eq!(timer.read_counter(), 0);
    timer.tick();
    assert_eq!(timer.read_counter(), 1);
}
