//! The real SysTick peripheral behind the countdown-timer surface.
//!
//! [`HwSystick`] implements [`CountdownTimer`] for the Cortex-M SysTick
//! peripheral of the `cortex_m` crate. Each register access goes through one
//! trusted wrapper: its body performs one call into `cortex_m`, and its
//! contract — that the hardware control state moves as the ghost model
//! says — is believed, not proved. The trait methods are verified
//! forwarders to those wrappers.

use vstd::prelude::*;
use cortex_m::peripheral::SYST;
use cortex_m::peripheral::syst::SystClkSource;
use crate::systick::{CountdownTimer, TimerEvent, MAX_RELOAD};

verus! {

/// The SysTick peripheral type of the `cortex_m` crate, opaque to the
/// verifier.
#[verifier::external_type_specification]
#[verifier::external_body]
pub struct ExSyst(SYST);

/// The ghost model of the hardware timer's control state, tracked only
/// through the trusted contracts of [`HwSystick`]'s register wrappers.
pub struct HwModel {
    /// The reload register.
    pub reload: u32,
    /// The counter-enable bit.
    pub counting: bool,
    /// The interrupt-enable bit.
    pub interrupt_enabled: bool,
    /// The clock-source selector.
    pub core_clock: bool,
    /// Every counter-enable and interrupt-enable issued so far.
    pub events: Seq<TimerEvent>,
    /// The has-wrapped flag as the next read will find it.
    pub wrapped: bool,
    /// A bound on the polls a busy-wait can still make before an enabled
    /// counter is seen to wrap.
    pub budget: nat,
}

/// The hardware SysTick as a [`CountdownTimer`].
pub struct HwSystick {
    syst: SYST,
    model: Ghost<HwModel>,
}

impl HwSystick {
    /// Takes exclusive ownership of the SysTick peripheral; the timer
    /// arrives in an unknown state, and from here on the event log records
    /// every enable issued through this value.
    #[verifier::external_body]
    pub fn take(syst: SYST) -> (t: HwSystick)
        ensures
            t.events() == Seq::<TimerEvent>::empty(),
    {
        HwSystick { syst, model: Ghost(arbitrary()) }
    }

    /// Releases the SysTick peripheral back to the caller.
    #[verifier::external_body]
    pub fn release(self) -> SYST {
        self.syst
    }

    /// Relies on `cortex_m::peripheral::SYST::set_reload`: writes the reload
    /// value register and touches nothing else.
    #[verifier::external_body]
    fn reg_set_reload(&mut self, value: u32)
        requires
            1 <= value <= MAX_RELOAD,
        ensures
            final(self).reload() == value,
            final(self).counting() == old(self).counting(),
            final(self).interrupt_enabled() == old(self).interrupt_enabled(),
            final(self).core_clock() == old(self).core_clock(),
            final(self).events() == old(self).events(),
    {
        self.syst.set_reload(value);
    }

    /// Relies on `cortex_m::peripheral::SYST::clear_current`: clears the
    /// current value register to zero and touches no control state.
    #[verifier::external_body]
    fn reg_clear_current(&mut self)
        ensures
            final(self).reload() == old(self).reload(),
            final(self).counting() == old(self).counting(),
            final(self).interrupt_enabled() == old(self).interrupt_enabled(),
            final(self).core_clock() == old(self).core_clock(),
            final(self).events() == old(self).events(),
    {
        self.syst.clear_current();
    }

    /// Relies on `cortex_m::peripheral::SYST::enable_counter`: sets the
    /// enable bit of the control and status register, arming one period with
    /// the current reload value.
    #[verifier::external_body]
    fn reg_enable_counter(&mut self)
        ensures
            final(self).reload() == old(self).reload(),
            final(self).counting(),
            final(self).interrupt_enabled() == old(self).interrupt_enabled(),
            final(self).core_clock() == old(self).core_clock(),
            final(self).events() == old(self).events().push(
                TimerEvent::CounterEnabled(old(self).reload()),
            ),
    {
        self.syst.enable_counter();
    }

    /// Relies on `cortex_m::peripheral::SYST::disable_counter`: clears the
    /// enable bit of the control and status register.
    #[verifier::external_body]
    fn reg_disable_counter(&mut self)
        ensures
            final(self).reload() == old(self).reload(),
            !final(self).counting(),
            final(self).interrupt_enabled() == old(self).interrupt_enabled(),
            final(self).core_clock() == old(self).core_clock(),
            final(self).events() == old(self).events(),
    {
        self.syst.disable_counter();
    }

    /// Relies on `cortex_m::peripheral::SYST::enable_interrupt`: sets the
    /// tick-interrupt bit of the control and status register.
    #[verifier::external_body]
    fn reg_enable_interrupt(&mut self)
        ensures
            final(self).reload() == old(self).reload(),
            final(self).counting() == old(self).counting(),
            final(self).interrupt_enabled(),
            final(self).core_clock() == old(self).core_clock(),
            final(self).events() == old(self).events().push(TimerEvent::InterruptEnabled),
    {
        self.syst.enable_interrupt();
    }

    /// Relies on `cortex_m::peripheral::SYST::disable_interrupt`: clears the
    /// tick-interrupt bit of the control and status register.
    #[verifier::external_body]
    fn reg_disable_interrupt(&mut self)
        ensures
            final(self).reload() == old(self).reload(),
            final(self).counting() == old(self).counting(),
            !final(self).interrupt_enabled(),
            final(self).core_clock() == old(self).core_clock(),
            final(self).events() == old(self).events(),
    {
        self.syst.disable_interrupt();
    }

    /// Relies on `cortex_m::peripheral::SYST::set_clock_source`: selects the
    /// core-provided clock in the control and status register.
    #[verifier::external_body]
    fn reg_select_core_clock(&mut self)
        ensures
            final(self).reload() == old(self).reload(),
            final(self).counting() == old(self).counting(),
            final(self).interrupt_enabled() == old(self).interrupt_enabled(),
            final(self).core_clock(),
            final(self).events() == old(self).events(),
    {
        self.syst.set_clock_source(SystClkSource::Core);
    }

    /// Relies on `cortex_m::peripheral::SYST::has_wrapped`: reads the
    /// count-flag bit of the control and status register, which the read
    /// clears. A clock always drives the hardware counter, so while the
    /// counter is enabled with a nonzero reload value it reaches zero after
    /// finitely many polls; the shrinking poll budget stands for that. (A
    /// zero reload value stops the counter at zero and it never wraps.)
    #[verifier::external_body]
    fn reg_has_wrapped(&mut self) -> (wrapped: bool)
        ensures
            wrapped == old(self).wrapped_now(),
            final(self).reload() == old(self).reload(),
            final(self).counting() == old(self).counting(),
            final(self).interrupt_enabled() == old(self).interrupt_enabled(),
            final(self).core_clock() == old(self).core_clock(),
            final(self).events() == old(self).events(),
            !wrapped && old(self).counting() && old(self).reload() >= 1
                ==> final(self).poll_budget() < old(self).poll_budget(),
    {
        self.syst.has_wrapped()
    }
}

impl CountdownTimer for HwSystick {
    closed spec fn reload(&self) -> u32 {
        self.model@.reload
    }

    closed spec fn counting(&self) -> bool {
        self.model@.counting
    }

    closed spec fn interrupt_enabled(&self) -> bool {
        self.model@.interrupt_enabled
    }

    closed spec fn core_clock(&self) -> bool {
        self.model@.core_clock
    }

    closed spec fn events(&self) -> Seq<TimerEvent> {
        self.model@.events
    }

    closed spec fn wrapped_now(&self) -> bool {
        self.model@.wrapped
    }

    open spec fn clock_running(&self) -> bool {
        true
    }

    closed spec fn poll_budget(&self) -> nat {
        self.model@.budget
    }

    fn set_reload(&mut self, value: u32) {
        self.reg_set_reload(value);
    }

    fn clear_current(&mut self) {
        self.reg_clear_current();
    }

    fn enable_counter(&mut self) {
        self.reg_enable_counter();
    }

    fn disable_counter(&mut self) {
        self.reg_disable_counter();
    }

    fn enable_interrupt(&mut self) {
        self.reg_enable_interrupt();
    }

    fn disable_interrupt(&mut self) {
        self.reg_disable_interrupt();
    }

    fn select_core_clock(&mut self) {
        self.reg_select_core_clock();
    }

    fn has_wrapped(&mut self) -> (wrapped: bool) {
        self.reg_has_wrapped()
    }
}

} // verus!
