use systick_delay::delay::Delay;
use systick_delay::systick::{SimTimer, TimerEvent, MAX_RELOAD};

const HZ_48MHZ: u32 = 48_000_000;

#[test]
fn new_selects_core_clock_without_starting() {
    let timer = SimTimer::new(true);
    let d = Delay::new(timer, HZ_48MHZ);
    let t = d.free();
    assert!(t.core_clock_on);
    assert!(!t.counter_on);
    assert!(!t.interrupt_on);
    assert_eq!(t.event_log.len(), 0);
}

#[test]
fn delay_us_zero_issues_no_rearm() {
    let timer = SimTimer::new(true);
    let mut d = Delay::new(timer, HZ_48MHZ);
    d.delay_us(0);
    let t = d.free();
    assert_eq!(t.event_log.len(), 0);
    assert!(!t.counter_on);
}

#[test]
fn delay_us_single_chunk() {
    // 1000 us at 48 MHz is 48_000 ticks: one re-arm cycle.
    let timer = SimTimer::new(true);
    let mut d = Delay::new(timer, HZ_48MHZ);
    d.delay_us(1000);
    let t = d.free();
    assert_eq!(t.event_log, vec![TimerEvent::CounterEnabled(48_000)]);
    assert!(!t.counter_on);
}

#[test]
fn delay_us_chunks_large_request() {
    // One second at 48 MHz is 48_000_000 ticks: ceil(48_000_000 / 0xFF_FFFF)
    // is 3 cycles, two full ones and a remainder, summing exactly.
    let timer = SimTimer::new(true);
    let mut d = Delay::new(timer, HZ_48MHZ);
    d.delay_us(1_000_000);
    let t = d.free();
    assert_eq!(
        t.event_log,
        vec![
            TimerEvent::CounterEnabled(MAX_RELOAD),
            TimerEvent::CounterEnabled(MAX_RELOAD),
            TimerEvent::CounterEnabled(48_000_000 - 2 * MAX_RELOAD),
        ]
    );
    let mut sum: u64 = 0;
    for ev in &t.event_log {
        match ev {
            TimerEvent::CounterEnabled(c) => {
                assert!(1 <= *c && *c <= MAX_RELOAD);
                sum += *c as u64;
            }
            TimerEvent::InterruptEnabled => panic!("delay must not enable the interrupt"),
        }
    }
    assert_eq!(sum, 48_000_000);
    assert!(!t.counter_on);
}

#[test]
fn delay_ms_is_thousand_microseconds() {
    let timer = SimTimer::new(true);
    let mut d = Delay::new(timer, HZ_48MHZ);
    d.delay_ms(2);
    let t = d.free();
    assert_eq!(t.event_log, vec![TimerEvent::CounterEnabled(96_000)]);
}

#[test]
fn delay_us_sub_megahertz_clock_rounds_down_to_nothing() {
    // Below 1 MHz the ticks-per-microsecond factor rounds down to zero: the
    // documented precision limitation.
    let timer = SimTimer::new(true);
    let mut d = Delay::new(timer, 500_000);
    d.delay_us(10);
    let t = d.free();
    assert_eq!(t.event_log.len(), 0);
}

#[test]
fn delay_never_touches_interrupt_enable() {
    let timer = SimTimer::new(true);
    let mut d = Delay::new(timer, HZ_48MHZ);
    d.delay_us(70_000_000);
    let t = d.free();
    assert!(!t.interrupt_on);
    for ev in &t.event_log {
        assert!(matches!(ev, TimerEvent::CounterEnabled(_)));
    }
}
