use riscv_xdevs::pacing::{
    delay_micros, poll, resume_time, target_tick, ticks_to_time, time_to_ticks, Injection, Injector, WaitStep,
};
use riscv_xdevs::port::Port;
use riscv_xdevs::signal::{raise, take};
use std::sync::atomic::AtomicBool;

const FREQ: u64 = 32_768;

#[test]
fn tick_conversions() {
    assert_eq!(time_to_ticks(1_000_000, FREQ), 32_768);
    assert_eq!(time_to_ticks(2_500_000, FREQ), 81_920);
    assert_eq!(time_to_ticks(u64::MAX, u64::MAX), u64::MAX);
    assert_eq!(ticks_to_time(32_768, FREQ), 1_000_000);
    assert_eq!(ticks_to_time(1, FREQ), 30);
    assert_eq!(ticks_to_time(u64::MAX, 1), u64::MAX);
    assert_eq!(target_tick(1_000_000, 3_000_000, FREQ), 65_536);
}

#[test]
fn poll_never_resumes_before_target() {
    assert_eq!(poll(65_535, 65_536, FREQ, None), WaitStep::Wait);
    assert_eq!(poll(0, 65_536, FREQ, Some(0)), WaitStep::Wait);
    assert_eq!(poll(65_536, 65_536, FREQ, Some(0)), WaitStep::Resume { jitter_us: 0 });
    assert_eq!(poll(65_536 + 33, 65_536, FREQ, None), WaitStep::Resume { jitter_us: 1_007 });
}

#[test]
fn poll_reports_excess_jitter() {
    assert_eq!(
        poll(65_536 + 200, 65_536, FREQ, Some(5_000)),
        WaitStep::JitterExceeded { jitter_us: 6_103 }
    );
    assert_eq!(poll(65_536 + 100, 65_536, FREQ, Some(5_000)), WaitStep::Resume { jitter_us: 3_051 });
}

#[test]
fn resume_time_early_and_on_time() {
    assert_eq!(resume_time(0, 3_000_000, 32_768, FREQ), 1_000_000);
    assert_eq!(resume_time(0, 3_000_000, 98_304, FREQ), 3_000_000);
    assert_eq!(resume_time(0, 3_000_000, 120_000, FREQ), 3_000_000);
    assert_eq!(resume_time(500, 3_000_000, 1, FREQ), 530);
}

#[test]
fn injector_debounces_and_counts() {
    let mut inj = Injector::new(FREQ);
    let mut port = Port::<usize>::with_capacity(1);
    assert_eq!(inj.on_signal(10, &mut port), Injection::Injected(0));
    assert_eq!(port.get_values(), &[0]);
    port.clear();
    assert_eq!(inj.on_signal(10 + FREQ, &mut port), Injection::Debounced);
    assert!(port.is_empty());
    assert_eq!(inj.on_signal(11 + FREQ, &mut port), Injection::Injected(1));
    assert_eq!(inj.on_signal(12 + 2 * FREQ, &mut port), Injection::Full(2));
    assert_eq!(inj.count, 2);
    assert_eq!(inj.last, Some(12 + 2 * FREQ));
}

#[test]
fn wake_ends_on_target_or_injection() {
    let mut inj = Injector::new(0);
    let mut port = Port::<usize>::with_capacity(1);
    assert_eq!(inj.wake(100, 100, true, &mut port), (true, None));
    assert!(port.is_empty());
    assert_eq!(inj.wake(50, 100, false, &mut port), (false, None));
    assert_eq!(inj.wake(50, 100, true, &mut port), (true, Some(Injection::Injected(0))));
    assert_eq!(port.get_values(), &[0]);
    assert_eq!(inj.wake(60, 100, true, &mut port), (false, Some(Injection::Full(1))));
    assert_eq!(port.len(), 1);
}

#[test]
fn signal_is_seen_once() {
    let flag = AtomicBool::new(false);
    assert!(!take(&flag));
    raise(&flag);
    assert!(take(&flag));
    assert!(!take(&flag));
    raise(&flag);
    raise(&flag);
    assert!(take(&flag));
    assert!(!take(&flag));
}

#[test]
fn target_tick_rounds_up() {
    assert_eq!(target_tick(0, 1, FREQ), 1);
    assert_eq!(target_tick(0, 0, FREQ), 0);
    assert_eq!(target_tick(0, 31, FREQ), 2);
    assert_eq!(time_to_ticks(31, FREQ), 1);
}

#[test]
fn successive_waits_do_not_go_back() {
    // the same reading of tick 0 for two successive targets
    assert_eq!(resume_time(0, 1, 0, FREQ), 0);
    assert_eq!(resume_time(0, 100, 0, FREQ), 0);
    // the first target reached at tick 1 stands for 30 us
    assert_eq!(resume_time(0, 1, 1, FREQ), 1);
    assert_eq!(resume_time(0, 100, 1, FREQ), 30);
}

#[test]
fn delay_between_events() {
    assert_eq!(delay_micros(1_000_000, 3_500_000, 1), 2_500_000);
    assert_eq!(delay_micros(0, 1_000, 3), 3_000);
    assert_eq!(delay_micros(5, 5, 1), 0);
    assert_eq!(delay_micros(9, 5, 1), 0);
    assert_eq!(delay_micros(0, u64::MAX, 2), u32::MAX);
}
