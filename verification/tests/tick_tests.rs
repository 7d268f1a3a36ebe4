use systick_delay::systick::{SimTimer, TimerEvent};
use systick_delay::tick::{wait_complete, wait_target, MultiDelayController};

const HZ_48MHZ: u32 = 48_000_000;

fn armed_controller() -> MultiDelayController<SimTimer> {
    let mut c = MultiDelayController::new(SimTimer::new(false), HZ_48MHZ);
    c.enable();
    c
}

/// One period-elapsed interrupt: the timer wraps, then the dispatcher runs
/// the handler.
fn inject_period(c: &mut MultiDelayController<SimTimer>) {
    c.syst.pending_wraps += 1;
    c.handle_interrupt();
}

/// An interrupt delivery in which no period had elapsed.
fn inject_spurious(c: &mut MultiDelayController<SimTimer>) {
    c.handle_interrupt();
}

#[test]
fn new_leaves_timer_fully_disabled() {
    let c = MultiDelayController::new(SimTimer::new(false), HZ_48MHZ);
    assert!(!c.syst.counter_on);
    assert!(!c.syst.interrupt_on);
    assert_eq!(c.syst.event_log.len(), 0);
    assert!(c.syst.core_clock_on);
    assert_eq!(c.syst.reload_value, 48_000);
    assert_eq!(c.get_wraps(), 0);
}

#[test]
fn enable_arms_interrupt_then_counter() {
    let c = armed_controller();
    assert!(c.syst.counter_on);
    assert!(c.syst.interrupt_on);
    assert_eq!(
        c.syst.event_log,
        vec![
            TimerEvent::InterruptEnabled,
            TimerEvent::CounterEnabled(48_000),
        ]
    );
}

#[test]
fn minimum_clock_gives_reload_of_one() {
    let c = MultiDelayController::new(SimTimer::new(false), 1000);
    assert_eq!(c.syst.reload_value, 1);
}

#[test]
fn injected_periods_advance_count_exactly() {
    let mut c = armed_controller();
    let n: u32 = 5;
    for i in 0..n {
        inject_spurious(&mut c);
        inject_period(&mut c);
        inject_spurious(&mut c);
        inject_spurious(&mut c);
        assert_eq!(c.get_wraps(), i + 1);
    }
    assert_eq!(c.get_wraps(), n);
}

#[test]
fn spurious_interrupts_leave_count_untouched() {
    let mut c = armed_controller();
    for _ in 0..10 {
        inject_spurious(&mut c);
    }
    assert_eq!(c.get_wraps(), 0);
}

#[test]
fn wait_completes_exactly_on_nth_period() {
    let mut c = armed_controller();
    let baseline = c.get_wraps();
    let num: u32 = 5;
    for _ in 0..num {
        assert!(!c.delay_poll(baseline, num));
        inject_spurious(&mut c);
        inject_period(&mut c);
    }
    assert!(c.delay_poll(baseline, num));
    // One period past the target the modular equality no longer holds: the
    // wait compares by equality, not by an order that a wrapped count breaks.
    inject_period(&mut c);
    assert!(!c.delay_poll(baseline, num));
}

#[test]
fn wait_zero_is_complete_at_once() {
    let c = armed_controller();
    let baseline = c.get_wraps();
    assert!(c.delay_poll(baseline, 0));
    assert!(wait_complete(baseline, 0, baseline.wrapping_add(7)));
}

#[test]
fn wait_crosses_count_overflow() {
    let mut c = armed_controller();
    c.wraps = 0xFFFF_FFFE;
    let baseline = c.get_wraps();
    let num: u32 = 5;
    for _ in 0..num {
        assert!(!c.delay_poll(baseline, num));
        inject_period(&mut c);
    }
    assert!(c.delay_poll(baseline, num));
    assert_eq!(c.get_wraps(), 3);
    assert_eq!(wait_target(baseline, num), 3);
}

#[test]
fn concurrent_waits_unblock_independently() {
    let mut c = armed_controller();
    let baseline = c.get_wraps();
    let first: u32 = 2;
    let second: u32 = 4;
    let mut first_done_at: Option<u32> = None;
    let mut second_done_at: Option<u32> = None;
    for k in 1..=6u32 {
        inject_period(&mut c);
        if first_done_at.is_none() && c.delay_poll(baseline, first) {
            first_done_at = Some(k);
        }
        if second_done_at.is_none() && c.delay_poll(baseline, second) {
            second_done_at = Some(k);
        }
    }
    assert_eq!(first_done_at, Some(2));
    assert_eq!(second_done_at, Some(4));
}

#[test]
fn wait_complete_matches_target_arithmetic() {
    assert_eq!(wait_target(10, 5), 15);
    assert_eq!(wait_target(0xFFFF_FFFF, 1), 0);
    assert!(wait_complete(10, 5, 15));
    assert!(!wait_complete(10, 5, 14));
    assert!(!wait_complete(10, 5, 16));
    assert!(wait_complete(0xFFFF_FFFE, 5, 3));
}

#[test]
fn handler_keeps_timer_configuration() {
    let mut c = armed_controller();
    inject_period(&mut c);
    inject_spurious(&mut c);
    assert!(c.syst.counter_on);
    assert!(c.syst.interrupt_on);
    assert_eq!(c.syst.reload_value, 48_000);
    assert_eq!(c.syst.event_log.len(), 2);
}
