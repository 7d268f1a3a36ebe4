//! Blocking busy-wait delay with microsecond resolution.
//!
//! [`Delay`] owns the countdown timer exclusively. Each delay request is
//! decomposed into consecutive sub-delays of at most [`MAX_RELOAD`] ticks,
//! so that an arbitrarily large duration can be expressed with the 24-bit
//! reload register; each chunk is programmed, armed, and busy-polled until
//! the has-wrapped flag is observed.

use vstd::prelude::*;
use vstd::arithmetic::div_mod::{lemma_basic_div, lemma_div_plus_one};
use crate::systick::{CountdownTimer, TimerEvent, MAX_RELOAD};

verus! {

/// The ticks of one re-arm cycle for a delay of `total` ticks: all of it if
/// it fits the reload register, else the register's ceiling.
pub open spec fn chunk_of(total: u32) -> u32 {
    if total <= MAX_RELOAD {
        total
    } else {
        MAX_RELOAD
    }
}

/// The reload values of the consecutive re-arm cycles that a delay of
/// `total` ticks issues, in order.
pub open spec fn chunk_seq(total: u32) -> Seq<u32>
    decreases total,
{
    if total == 0 {
        Seq::empty()
    } else {
        seq![chunk_of(total)] + chunk_seq((total - chunk_of(total)) as u32)
    }
}

/// The sum of a sequence of tick counts.
pub open spec fn seq_sum(s: Seq<u32>) -> int
    decreases s.len(),
{
    if s.len() == 0 {
        0
    } else {
        s[0] + seq_sum(s.drop_first())
    }
}

/// The timer events of the re-arm cycles for a delay of `total` ticks.
pub open spec fn arm_events(total: u32) -> Seq<TimerEvent> {
    chunk_seq(total).map_values(|c: u32| TimerEvent::CounterEnabled(c))
}

/// A delay of `total` ticks is decomposed into exactly
/// `ceil(total / MAX_RELOAD)` re-arm cycles; every cycle's reload value is in
/// the legal register range, and the cycles' tick counts sum to `total`
/// exactly.
pub proof fn lemma_chunk_seq(total: u32)
    ensures
        seq_sum(chunk_seq(total)) == total,
        chunk_seq(total).len() == (total + MAX_RELOAD - 1) / (MAX_RELOAD as int),
        forall|i: int|
            0 <= i < chunk_seq(total).len() ==> 1 <= #[trigger] chunk_seq(total)[i] <= MAX_RELOAD,
    decreases total,
{
    let m = MAX_RELOAD as int;
    if total == 0 {
    } else {
        let c = chunk_of(total);
        let rest = (total - c) as u32;
        lemma_chunk_seq(rest);
        assert(chunk_seq(total) == seq![c] + chunk_seq(rest));
        assert(chunk_seq(total).drop_first() == chunk_seq(rest));
        if total <= MAX_RELOAD {
            assert((total + m - 1) / m == 1) by {
                lemma_div_plus_one(total - 1, m);
                lemma_basic_div(total - 1, m);
            }
        } else {
            assert((rest + m - 1) / m + 1 == (total + m - 1) / m) by {
                lemma_div_plus_one(rest + m - 1, m);
            }
        }
        assert forall|i: int| 0 <= i < chunk_seq(total).len() implies 1 <= #[trigger] chunk_seq(
            total,
        )[i] <= MAX_RELOAD by {
            if i > 0 {
                assert(chunk_seq(total)[i] == chunk_seq(rest)[i - 1]);
            }
        }
    }
}

/// Unfolding step for the event form of the decomposition: a nonzero delay's
/// events are the first cycle's arming followed by the rest's.
pub proof fn lemma_arm_events_step(total: u32)
    requires
        total > 0,
    ensures
        arm_events(total) == seq![
            TimerEvent::CounterEnabled(chunk_of(total)),
        ] + arm_events((total - chunk_of(total)) as u32),
{
    let c = chunk_of(total);
    let rest = (total - c) as u32;
    assert(chunk_seq(total) == seq![c] + chunk_seq(rest));
    assert(arm_events(total) =~= seq![TimerEvent::CounterEnabled(c)] + arm_events(rest));
}

/// System timer (SysTick) as a polling-driven delay provider.
///
/// Owns the countdown timer for its whole lifetime; the timer is given back
/// by [`Delay::free`]. The cached clock frequency is assumed constant for
/// the life of the instance.
pub struct Delay<T: CountdownTimer> {
    /// The frequency, in hertz, of the clock driving the counter.
    pub sysclock: u32,
    /// The owned timer.
    pub syst: T,
}

impl<T: CountdownTimer> Delay<T> {
    /// Configures the system timer as a delay provider: selects the core
    /// clock and caches the clock frequency. Does not start counting.
    pub fn new(syst: T, sysclock: u32) -> (d: Delay<T>)
        ensures
            d.sysclock == sysclock,
            d.syst.core_clock(),
            d.syst.reload() == syst.reload(),
            d.syst.counting() == syst.counting(),
            d.syst.interrupt_enabled() == syst.interrupt_enabled(),
            d.syst.events() == syst.events(),
            d.syst.clock_running() == syst.clock_running(),
    {
        let mut syst = syst;
        syst.select_core_clock();
        Delay { syst, sysclock }
    }

    /// Releases the system timer resource.
    pub fn free(self) -> (syst: T)
        ensures
            syst == self.syst,
    {
        self.syst
    }

    /// The total ticks a request of `us` microseconds stands for. The design
    /// assumes the frequency is an integer multiple of 1 MHz; a fractional
    /// remainder is rounded down, a documented precision limitation.
    pub open spec fn ticks_of_us(&self, us: u32) -> int {
        us * (self.sysclock / 1_000_000)
    }

    /// Blocks for `us` microseconds by programming the timer with each chunk
    /// of the decomposition in turn and busy-polling the has-wrapped flag.
    ///
    /// A request of zero ticks issues no re-arm cycle and leaves the timer
    /// untouched. A nonzero request leaves the counter disabled.
    pub fn delay_us(&mut self, us: u32)
        requires
            old(self).syst.clock_running(),
            old(self).ticks_of_us(us) <= u32::MAX,
        ensures
            final(self).syst.clock_running(),
            final(self).sysclock == old(self).sysclock,
            final(self).syst.events() == old(self).syst.events() + arm_events(
                old(self).ticks_of_us(us) as u32,
            ),
            final(self).syst.core_clock() == old(self).syst.core_clock(),
            final(self).syst.interrupt_enabled() == old(self).syst.interrupt_enabled(),
            old(self).ticks_of_us(us) > 0 ==> !final(self).syst.counting(),
            old(self).ticks_of_us(us) == 0 ==> final(self).syst == old(self).syst,
    {
        let ticks_per_us = self.sysclock / 1_000_000;
        let mut total_rvr: u32 = us * ticks_per_us;
        let ghost total0: u32 = total_rvr;
        let ghost base: Seq<TimerEvent> = self.syst.events();
        let ghost start = *self;

        while total_rvr != 0
            invariant
                self.syst.clock_running(),
                self.sysclock == start.sysclock,
                self.syst.core_clock() == start.syst.core_clock(),
                self.syst.interrupt_enabled() == start.syst.interrupt_enabled(),
                total_rvr <= total0,
                self.syst.events() + arm_events(total_rvr) == base + arm_events(total0),
                total_rvr == total0 ==> self.syst == start.syst,
                total_rvr < total0 ==> !self.syst.counting(),
            decreases total_rvr,
        {
            let current_rvr = if total_rvr <= MAX_RELOAD {
                total_rvr
            } else {
                MAX_RELOAD
            };
            proof {
                lemma_arm_events_step(total_rvr);
            }
            let ghost mid_events = self.syst.events().push(
                TimerEvent::CounterEnabled(current_rvr),
            );

            self.syst.set_reload(current_rvr);
            self.syst.clear_current();
            self.syst.enable_counter();

            // Update the tracking variable while we are waiting...
            total_rvr -= current_rvr;

            proof {
                assert(self.syst.events() =~= mid_events);
                assert(mid_events + arm_events(total_rvr) =~= base + arm_events(total0));
            }

            loop
                invariant
                    self.syst.clock_running(),
                    self.syst.counting(),
                    self.syst.reload() >= 1,
                    self.sysclock == start.sysclock,
                    self.syst.core_clock() == start.syst.core_clock(),
                    self.syst.interrupt_enabled() == start.syst.interrupt_enabled(),
                    self.syst.events() + arm_events(total_rvr) == base + arm_events(total0),
                decreases self.syst.poll_budget(),
            {
                if self.syst.has_wrapped() {
                    break;
                }
            }

            self.syst.disable_counter();
        }

        proof {
            assert(self.syst.events() =~= base + arm_events(total0));
        }
    }

    /// Blocks for `ms` milliseconds, as a microsecond delay of `ms * 1000`;
    /// the multiplication not overflowing is a caller responsibility.
    pub fn delay_ms(&mut self, ms: u32)
        requires
            old(self).syst.clock_running(),
            ms * 1000 <= u32::MAX,
            old(self).ticks_of_us((ms * 1000) as u32) <= u32::MAX,
        ensures
            final(self).syst.clock_running(),
            final(self).sysclock == old(self).sysclock,
            final(self).syst.events() == old(self).syst.events() + arm_events(
                old(self).ticks_of_us((ms * 1000) as u32) as u32,
            ),
            final(self).syst.core_clock() == old(self).syst.core_clock(),
            final(self).syst.interrupt_enabled() == old(self).syst.interrupt_enabled(),
            old(self).ticks_of_us((ms * 1000) as u32) > 0 ==> !final(self).syst.counting(),
            old(self).ticks_of_us((ms * 1000) as u32) == 0 ==> final(self).syst == old(self).syst,
    {
        self.delay_us(ms * 1_000);
    }
}

} // verus!
