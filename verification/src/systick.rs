//! The countdown-timer register surface, and a simulated timer.
//!
//! The hardware resource is a 24-bit countdown counter with a reload
//! register, a has-wrapped flag that is cleared by reading it, an enable bit,
//! an interrupt-enable bit and a clock-source selector. [`CountdownTimer`]
//! states what each register operation does to that surface; [`SimTimer`] is
//! a verified in-memory implementation of it, usable as a test double.

use vstd::prelude::*;

verus! {

/// The SysTick reload register accepts values between 1 and 0xFF_FFFF.
pub const MAX_RELOAD: u32 = 0xFF_FFFF;

/// A control operation observable on the timer surface: every arming of the
/// counter (with the reload value it was armed with) and every enabling of
/// the interrupt.
#[derive(Clone, Copy, Debug, PartialEq, Eq, Structural)]
pub enum TimerEvent {
    /// The counter was enabled while the reload register held this value.
    CounterEnabled(u32),
    /// The period interrupt was enabled.
    InterruptEnabled,
}

/// The register surface of a 24-bit countdown timer.
///
/// The spec functions model the visible control state; `events` records, in
/// order, every enabling of the counter or of the interrupt, so that a
/// caller's contract can pin down exactly which arm cycles an operation
/// issues. `wrapped_now` is whether the counter has reached zero since the
/// flag was last consumed; reading the flag via `has_wrapped` clears it, and
/// nothing is promised about the flag's value after any operation, since on
/// hardware the counter advances on its own.
pub trait CountdownTimer: Sized {
    /// The value the counter is reloaded with when it reaches zero.
    spec fn reload(&self) -> u32;

    /// Whether the counter is counting.
    spec fn counting(&self) -> bool;

    /// Whether the period interrupt is enabled.
    spec fn interrupt_enabled(&self) -> bool;

    /// Whether the core clock is selected as the timer's input.
    spec fn core_clock(&self) -> bool;

    /// Every counter-enable and interrupt-enable issued so far, in order.
    spec fn events(&self) -> Seq<TimerEvent>;

    /// Whether the counter has wrapped since the flag was last consumed.
    spec fn wrapped_now(&self) -> bool;

    /// Whether a clock is actually driving the counter, so that an enabled
    /// counter is guaranteed to reach zero. On hardware this always holds; a
    /// simulated timer may withhold it.
    spec fn clock_running(&self) -> bool;

    /// A bound on how many consecutive polls of a counting, clock-driven
    /// timer can still observe no wrap; it shrinks with every such poll, so a
    /// poll loop terminates.
    spec fn poll_budget(&self) -> nat;

    /// Program the reload register.
    fn set_reload(&mut self, value: u32)
        requires
            1 <= value <= MAX_RELOAD,
        ensures
            final(self).reload() == value,
            final(self).counting() == old(self).counting(),
            final(self).interrupt_enabled() == old(self).interrupt_enabled(),
            final(self).core_clock() == old(self).core_clock(),
            final(self).events() == old(self).events(),
            final(self).clock_running() == old(self).clock_running(),
    ;

    /// Clear the current count to zero.
    fn clear_current(&mut self)
        ensures
            final(self).reload() == old(self).reload(),
            final(self).counting() == old(self).counting(),
            final(self).interrupt_enabled() == old(self).interrupt_enabled(),
            final(self).core_clock() == old(self).core_clock(),
            final(self).events() == old(self).events(),
            final(self).clock_running() == old(self).clock_running(),
    ;

    /// Start counting; this arms one period with the current reload value.
    fn enable_counter(&mut self)
        ensures
            final(self).reload() == old(self).reload(),
            final(self).counting(),
            final(self).interrupt_enabled() == old(self).interrupt_enabled(),
            final(self).core_clock() == old(self).core_clock(),
            final(self).events() == old(self).events().push(
                TimerEvent::CounterEnabled(old(self).reload()),
            ),
            final(self).clock_running() == old(self).clock_running(),
    ;

    /// Stop counting.
    fn disable_counter(&mut self)
        ensures
            final(self).reload() == old(self).reload(),
            !final(self).counting(),
            final(self).interrupt_enabled() == old(self).interrupt_enabled(),
            final(self).core_clock() == old(self).core_clock(),
            final(self).events() == old(self).events(),
            final(self).clock_running() == old(self).clock_running(),
    ;

    /// Enable the period interrupt.
    fn enable_interrupt(&mut self)
        ensures
            final(self).reload() == old(self).reload(),
            final(self).counting() == old(self).counting(),
            final(self).interrupt_enabled(),
            final(self).core_clock() == old(self).core_clock(),
            final(self).events() == old(self).events().push(TimerEvent::InterruptEnabled),
            final(self).clock_running() == old(self).clock_running(),
    ;

    /// Disable the period interrupt.
    fn disable_interrupt(&mut self)
        ensures
            final(self).reload() == old(self).reload(),
            final(self).counting() == old(self).counting(),
            !final(self).interrupt_enabled(),
            final(self).core_clock() == old(self).core_clock(),
            final(self).events() == old(self).events(),
            final(self).clock_running() == old(self).clock_running(),
    ;

    /// Select the core clock as the counter's input.
    fn select_core_clock(&mut self)
        ensures
            final(self).reload() == old(self).reload(),
            final(self).counting() == old(self).counting(),
            final(self).interrupt_enabled() == old(self).interrupt_enabled(),
            final(self).core_clock(),
            final(self).events() == old(self).events(),
            final(self).clock_running() == old(self).clock_running(),
    ;

    /// Read, and thereby consume, the has-wrapped flag.
    fn has_wrapped(&mut self) -> (wrapped: bool)
        ensures
            wrapped == old(self).wrapped_now(),
            final(self).reload() == old(self).reload(),
            final(self).counting() == old(self).counting(),
            final(self).interrupt_enabled() == old(self).interrupt_enabled(),
            final(self).core_clock() == old(self).core_clock(),
            final(self).events() == old(self).events(),
            final(self).clock_running() == old(self).clock_running(),
            !wrapped && old(self).counting() && old(self).reload() >= 1
                && old(self).clock_running()
                ==> final(self).poll_budget() < old(self).poll_budget(),
    ;
}

/// An in-memory countdown timer: the verified model of the register surface,
/// and the test double for it.
///
/// Elapsed periods are injected by raising `pending_wraps`; each injected
/// period satisfies exactly one `has_wrapped` read. With `instant_wrap` set,
/// every period armed while counting is observed as elapsed on the first
/// poll, which lets a busy-wait delay run to completion without a clock.
pub struct SimTimer {
    /// The reload register.
    pub reload_value: u32,
    /// The counter-enable bit.
    pub counter_on: bool,
    /// The interrupt-enable bit.
    pub interrupt_on: bool,
    /// The clock-source selector: true once the core clock is selected.
    pub core_clock_on: bool,
    /// Injected elapsed periods not yet consumed by `has_wrapped`.
    pub pending_wraps: u32,
    /// If set, a wrap is observed on every poll made while counting.
    pub instant_wrap: bool,
    /// Every counter-enable and interrupt-enable issued so far.
    pub event_log: Vec<TimerEvent>,
}

impl SimTimer {
    /// A timer in its reset state: nothing enabled, nothing logged.
    pub fn new(instant_wrap: bool) -> (t: SimTimer)
        ensures
            t.reload_value == 0,
            !t.counter_on,
            !t.interrupt_on,
            !t.core_clock_on,
            t.pending_wraps == 0,
            t.instant_wrap == instant_wrap,
            t.event_log@ == Seq::<TimerEvent>::empty(),
    {
        SimTimer {
            reload_value: 0,
            counter_on: false,
            interrupt_on: false,
            core_clock_on: false,
            pending_wraps: 0,
            instant_wrap,
            event_log: Vec::new(),
        }
    }
}

impl CountdownTimer for SimTimer {
    open spec fn reload(&self) -> u32 {
        self.reload_value
    }

    open spec fn counting(&self) -> bool {
        self.counter_on
    }

    open spec fn interrupt_enabled(&self) -> bool {
        self.interrupt_on
    }

    open spec fn core_clock(&self) -> bool {
        self.core_clock_on
    }

    open spec fn events(&self) -> Seq<TimerEvent> {
        self.event_log@
    }

    open spec fn wrapped_now(&self) -> bool {
        self.pending_wraps > 0 || (self.instant_wrap && self.counter_on)
    }

    open spec fn clock_running(&self) -> bool {
        self.instant_wrap
    }

    open spec fn poll_budget(&self) -> nat {
        0
    }

    fn set_reload(&mut self, value: u32) {
        self.reload_value = value;
    }

    fn clear_current(&mut self) {
    }

    fn enable_counter(&mut self) {
        let armed = self.reload_value;
        self.event_log.push(TimerEvent::CounterEnabled(armed));
        self.counter_on = true;
    }

    fn disable_counter(&mut self) {
        self.counter_on = false;
    }

    fn enable_interrupt(&mut self) {
        self.event_log.push(TimerEvent::InterruptEnabled);
        self.interrupt_on = true;
    }

    fn disable_interrupt(&mut self) {
        self.interrupt_on = false;
    }

    fn select_core_clock(&mut self) {
        self.core_clock_on = true;
    }

    fn has_wrapped(&mut self) -> (wrapped: bool) {
        if self.pending_wraps > 0 {
            self.pending_wraps = self.pending_wraps - 1;
            true
        } else {
            self.instant_wrap && self.counter_on
        }
    }
}

} // verus!
