//! Interrupt-driven millisecond tick counter.
//!
//! [`MultiDelayController`] configures the countdown timer once for a fixed
//! 1 ms period and thereafter only its interrupt service path touches the
//! timer; foreground callers read a monotonically advancing 32-bit wrap
//! count that overflows silently, so waits compare counts by modular
//! equality against a captured baseline, never by a numeric order.

use vstd::prelude::*;
use vstd::arithmetic::div_mod::{lemma_add_mod_noop_right, lemma_mod_self_0, lemma_small_mod};
use crate::systick::{CountdownTimer, TimerEvent};

verus! {

/// One full revolution of the 32-bit wrap count.
pub const WRAP_MODULUS: u64 = 0x1_0000_0000;

/// 32-bit modular addition: the wrap count `b` steps past `a`.
pub open spec fn wrap_add(a: u32, b: u32) -> u32 {
    if a + b > u32::MAX {
        (a + b - WRAP_MODULUS) as u32
    } else {
        (a + b) as u32
    }
}

/// The wrap count after one call of the interrupt service path: advanced by
/// exactly one if a period had elapsed, untouched otherwise.
pub open spec fn step_wraps(wraps: u32, wrapped: bool) -> u32 {
    if wrapped {
        wrap_add(wraps, 1)
    } else {
        wraps
    }
}

/// The wrap count after a run of interrupt deliveries, each entry telling
/// whether that delivery found an elapsed period.
pub open spec fn wraps_after(wraps: u32, deliveries: Seq<bool>) -> u32
    decreases deliveries.len(),
{
    if deliveries.len() == 0 {
        wraps
    } else {
        wraps_after(step_wraps(wraps, deliveries[0]), deliveries.drop_first())
    }
}

/// How many deliveries of a run found an elapsed period.
pub open spec fn period_count(deliveries: Seq<bool>) -> int
    decreases deliveries.len(),
{
    if deliveries.len() == 0 {
        0int
    } else {
        (if deliveries[0] {
            1int
        } else {
            0int
        }) + period_count(deliveries.drop_first())
    }
}

/// Whether a wait for `num` periods past `baseline` is over when the wrap
/// count reads `current`: a wait for zero periods is over at once, any other
/// exactly when the count equals the target by modular equality. An order
/// comparison would misjudge a count that has overflowed since the baseline
/// was taken; equality on the modular sum does not.
pub open spec fn wait_complete_spec(baseline: u32, num: u32, current: u32) -> bool {
    num == 0 || current == wrap_add(baseline, num)
}

/// Injecting a run of period-elapsed interrupts advances the wrap count by
/// exactly the number of elapsed periods found, modulo the count's width,
/// however many deliveries that found none are interleaved.
pub proof fn lemma_wraps_after(wraps: u32, deliveries: Seq<bool>)
    ensures
        wraps_after(wraps, deliveries) == (wraps + period_count(deliveries)) % (
        WRAP_MODULUS as int),
    decreases deliveries.len(),
{
    let m = WRAP_MODULUS as int;
    lemma_period_count_bounds(deliveries);
    if deliveries.len() == 0 {
        lemma_small_mod(wraps as nat, WRAP_MODULUS as nat);
    } else {
        let w1 = step_wraps(wraps, deliveries[0]);
        let rest = deliveries.drop_first();
        lemma_wraps_after(w1, rest);
        lemma_period_count_bounds(rest);
        if deliveries[0] {
            assert(w1 == (wraps + 1) % m) by {
                if wraps + 1 < m {
                    lemma_small_mod((wraps + 1) as nat, WRAP_MODULUS as nat);
                } else {
                    lemma_mod_self_0(m);
                }
            }
            lemma_add_mod_noop_right(period_count(rest), wraps + 1, m);
            assert((wraps + 1 + period_count(rest)) % m == (wraps + period_count(deliveries)) % m);
        }
    }
}

/// The number of elapsed periods found lies between none and all of the
/// deliveries.
pub proof fn lemma_period_count_bounds(deliveries: Seq<bool>)
    ensures
        0 <= period_count(deliveries) <= deliveries.len(),
    decreases deliveries.len(),
{
    if deliveries.len() > 0 {
        lemma_period_count_bounds(deliveries.drop_first());
    }
}

/// A wait for `num > 0` periods past `baseline` is over exactly when `k`, the
/// periods elapsed since the baseline was captured, equals `num`: never
/// early — not even when the count overflows on the way, as it does for a
/// baseline near the count's maximum — and independently of any other wait's
/// target.
pub proof fn lemma_wait_exact(baseline: u32, num: u32, k: u32)
    requires
        num > 0,
    ensures
        wait_complete_spec(baseline, num, wrap_add(baseline, k)) <==> k == num,
{
}

/// A wait is over exactly when the deliveries since its baseline was
/// captured include `num` elapsed periods — regardless of interleaved empty
/// deliveries, of overflow of the count, and of any other wait running
/// against the same baseline.
pub proof fn lemma_wait_after_deliveries(baseline: u32, num: u32, deliveries: Seq<bool>)
    requires
        num > 0,
        period_count(deliveries) < WRAP_MODULUS,
    ensures
        wait_complete_spec(baseline, num, wraps_after(baseline, deliveries)) <==> period_count(
            deliveries,
        ) == num,
{
    let m = WRAP_MODULUS as int;
    lemma_wraps_after(baseline, deliveries);
    lemma_period_count_bounds(deliveries);
    let k = period_count(deliveries);
    assert((baseline + k) % m == wrap_add(baseline, k as u32)) by {
        if baseline + k < m {
            lemma_small_mod((baseline + k) as nat, WRAP_MODULUS as nat);
        } else {
            lemma_small_mod((baseline + k - m) as nat, WRAP_MODULUS as nat);
            assert((baseline + k) % m == (baseline + k - m) % m) by {
                vstd::arithmetic::div_mod::lemma_mod_sub_multiples_vanish(baseline + k, m);
            }
        }
    }
    lemma_wait_exact(baseline, num, k as u32);
}

/// Static controller for an interrupt-driven system timer (SysTick) with a
/// 1 ms interval.
///
/// Construction programs the period but leaves both the counter and its
/// interrupt disabled; a separate [`MultiDelayController::enable`] arms them,
/// to be called once the instance is installed where the interrupt
/// dispatcher can reach it. Thereafter [`MultiDelayController::handle_interrupt`]
/// is the only path that touches the timer or advances the wrap count.
pub struct MultiDelayController<T: CountdownTimer> {
    /// The owned timer, programmed for one wrap per millisecond.
    pub syst: T,
    /// How many periods have elapsed; increments once per millisecond and
    /// overflows silently at its width.
    pub wraps: u32,
}

impl<T: CountdownTimer> MultiDelayController<T> {
    /// Configures the system timer as a shared delay provider: defensively
    /// disables counting and the interrupt, selects the core clock and
    /// programs a reload of `sysclock / 1000` ticks, one period per
    /// millisecond. Issues no enable of any kind; the timer stays off until
    /// [`MultiDelayController::enable`].
    pub fn new(syst: T, sysclock: u32) -> (c: MultiDelayController<T>)
        requires
            sysclock >= 1000,
        ensures
            c.wraps == 0,
            !c.syst.counting(),
            !c.syst.interrupt_enabled(),
            c.syst.core_clock(),
            c.syst.reload() == sysclock / 1000,
            c.syst.events() == syst.events(),
            c.syst.clock_running() == syst.clock_running(),
    {
        let mut syst = syst;
        syst.disable_counter();
        syst.disable_interrupt();
        syst.select_core_clock();

        let ticks_per_ms = sysclock / 1_000;
        assert(1 <= ticks_per_ms <= crate::systick::MAX_RELOAD) by {
            assert(sysclock / 1000 >= 1);
            assert(sysclock / 1000 <= u32::MAX as int / 1000);
        }
        syst.set_reload(ticks_per_ms);
        syst.clear_current();

        MultiDelayController { syst, wraps: 0 }
    }

    /// Arms the controller: enables the period interrupt, then the counter.
    /// To be called exactly once, after the instance is reachable by the
    /// interrupt dispatcher.
    pub fn enable(&mut self)
        ensures
            final(self).wraps == old(self).wraps,
            final(self).syst.counting(),
            final(self).syst.interrupt_enabled(),
            final(self).syst.reload() == old(self).syst.reload(),
            final(self).syst.core_clock() == old(self).syst.core_clock(),
            final(self).syst.clock_running() == old(self).syst.clock_running(),
            final(self).syst.events() == old(self).syst.events().push(
                TimerEvent::InterruptEnabled,
            ).push(TimerEvent::CounterEnabled(old(self).syst.reload())),
    {
        self.syst.enable_interrupt();
        self.syst.enable_counter();
    }

    /// The interrupt service path, invoked by the hardware dispatcher on any
    /// SysTick interrupt: consumes the has-wrapped flag and, if a period had
    /// elapsed, advances the wrap count by exactly one, wrapping silently at
    /// its width. Safe to invoke when no period has elapsed: the count is
    /// then untouched. Runs in bounded time and never blocks.
    pub fn handle_interrupt(&mut self)
        ensures
            final(self).wraps == step_wraps(old(self).wraps, old(self).syst.wrapped_now()),
            final(self).syst.reload() == old(self).syst.reload(),
            final(self).syst.counting() == old(self).syst.counting(),
            final(self).syst.interrupt_enabled() == old(self).syst.interrupt_enabled(),
            final(self).syst.core_clock() == old(self).syst.core_clock(),
            final(self).syst.clock_running() == old(self).syst.clock_running(),
            final(self).syst.events() == old(self).syst.events(),
    {
        if self.syst.has_wrapped() {
            self.wraps = self.wraps.wrapping_add(1);
        }
    }

    /// A non-blocking read of the wrap count: the number of 1 ms intervals
    /// that have elapsed, modulo the count's width.
    pub fn get_wraps(&self) -> (wraps: u32)
        ensures
            wraps == self.wraps,
    {
        self.wraps
    }

    /// Whether a wait for `num` milliseconds past `baseline` is over at the
    /// current wrap count. A waiter captures `baseline` once, then re-checks
    /// this after every wake-up from its low-power wait, since the processor
    /// wakes on any interrupt, not only the period interrupt.
    pub fn delay_poll(&self, baseline: u32, num: u32) -> (done: bool)
        ensures
            done == wait_complete_spec(baseline, num, self.wraps),
    {
        num == 0 || self.wraps == wait_target(baseline, num)
    }
}

/// The wrap count at which a wait for `num` milliseconds past `baseline`
/// ends: their modular sum.
pub fn wait_target(baseline: u32, num: u32) -> (target: u32)
    ensures
        target == wrap_add(baseline, num),
{
    baseline.wrapping_add(num)
}

/// Whether a wait for `num` milliseconds past `baseline` is over when the
/// wrap count reads `current`. The free-function form of
/// [`MultiDelayController::delay_poll`], for a caller that reads the count
/// through shared storage.
pub fn wait_complete(baseline: u32, num: u32, current: u32) -> (done: bool)
    ensures
        done == wait_complete_spec(baseline, num, current),
{
    num == 0 || current == wait_target(baseline, num)
}

} // verus!
