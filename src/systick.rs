//! The Cortex-M SysTick timer as a source of blocking delays.
//!
//! A delay counts core-clock ticks: the reload value is set to the number of ticks, the counter
//! cleared and started, and the delay is over when the counter has wrapped. The counter is 24 bits
//! wide and a delay does not span several wraps, so a delay whose tick count does not fit is a
//! programming error that the contracts rule out.
use vstd::prelude::*;

use crate::cmu::{FrozenClock, HFCoreClk, HFCORECLK_HZ};

verus! {

/// Control and status register: counter enable.
pub const CSR_ENABLE: u32 = 0x1;
/// Control and status register: clock source is the core clock.
pub const CSR_CLKSOURCE: u32 = 0x4;
/// Number of ticks the 24-bit counter can count; a delay must take fewer.
pub const SYST_TICK_LIMIT: u32 = 0x0100_0000;

/// The registers of the SysTick timer, as the contracts speak of them.
pub struct SystView {
    /// Control and status.
    pub csr: u32,
    /// Reload value.
    pub rvr: u32,
    /// Current value.
    pub cvr: u32,
}

/// Image of the SysTick registers.
pub struct SystRegisters {
    csr: u32,
    rvr: u32,
    cvr: u32,
}

impl View for SystRegisters {
    type V = SystView;

    closed spec fn view(&self) -> SystView {
        SystView { csr: self.csr, rvr: self.rvr, cvr: self.cvr }
    }
}

impl SystRegisters {
    /// The registers as they are after reset: all zero.
    pub fn reset() -> (r: SystRegisters)
        ensures
            r@ == (SystView { csr: 0, rvr: 0, cvr: 0 }),
    {
        SystRegisters { csr: 0, rvr: 0, cvr: 0 }
    }

    /// The registers holding `csr`, `rvr` and `cvr`, as read from the device.
    pub fn from_bits(csr: u32, rvr: u32, cvr: u32) -> (r: SystRegisters)
        ensures
            r@ == (SystView { csr, rvr, cvr }),
    {
        SystRegisters { csr, rvr, cvr }
    }

    /// Control and status register.
    pub fn csr(&self) -> (r: u32)
        ensures
            r == self@.csr,
    {
        self.csr
    }

    /// Reload value register.
    pub fn rvr(&self) -> (r: u32)
        ensures
            r == self@.rvr,
    {
        self.rvr
    }

    /// Current value register.
    pub fn cvr(&self) -> (r: u32)
        ensures
            r == self@.cvr,
    {
        self.cvr
    }
}

/// Turns the raw SysTick registers into a [`Systick`].
pub trait SystickExt {
    fn constrain(self) -> Systick;
}

impl SystickExt for SystRegisters {
    fn constrain(self) -> (r: Systick)
        ensures
            r@ == self@,
    {
        Systick { registerblock: self }
    }
}

/// The SysTick timer, owned by this library.
pub struct Systick {
    registerblock: SystRegisters,
}

impl View for Systick {
    type V = SystView;

    closed spec fn view(&self) -> SystView {
        self.registerblock@
    }
}

/// The number of core-clock ticks that a delay of `us` microseconds takes.
pub open spec fn delay_ticks(us: nat) -> nat {
    (HFCORECLK_HZ / 1_000_000) as nat * us
}

/// Blocking delays counted on the core clock, which stays at its frequency for as long as the
/// delay holds its handle.
pub struct SystickDelay {
    systick: Systick,
    clock: HFCoreClk,
}

impl View for SystickDelay {
    type V = SystView;

    closed spec fn view(&self) -> SystView {
        self.systick@
    }
}

impl SystickDelay {
    /// Selects the core clock as the counter's source and keeps the clock handle.
    pub fn new(systick: Systick, clock: HFCoreClk) -> (r: SystickDelay)
        ensures
            r@ == (SystView { csr: systick@.csr | CSR_CLKSOURCE, ..systick@ }),
    {
        let mut systick = systick;
        systick.registerblock.csr = systick.registerblock.csr | CSR_CLKSOURCE;
        SystickDelay { systick, clock }
    }

    /// The SysTick registers.
    pub fn registers(&self) -> (r: &SystRegisters)
        ensures
            r@ == self@,
    {
        &self.systick.registerblock
    }

    /// The tick count of a delay of `us` microseconds, or `None` where it does not fit the
    /// counter.
    pub fn ticks_for_us(&self, us: u32) -> (r: Option<u32>)
        ensures
            delay_ticks(us as nat) < SYST_TICK_LIMIT ==> r == Some(delay_ticks(us as nat) as u32),
            delay_ticks(us as nat) >= SYST_TICK_LIMIT ==> r is None,
    {
        let factor = self.clock.get_frequency().0 / 1_000_000;
        match factor.checked_mul(us) {
            Some(ticks) => {
                if ticks < SYST_TICK_LIMIT {
                    Some(ticks)
                } else {
                    None
                }
            },
            None => None,
        }
    }

    /// The tick count of a delay of `ms` milliseconds, or `None` where it does not fit the
    /// counter.
    pub fn ticks_for_ms(&self, ms: u16) -> (r: Option<u32>)
        ensures
            delay_ticks(ms as nat * 1000) < SYST_TICK_LIMIT ==> r == Some(delay_ticks(ms as nat * 1000) as u32),
            delay_ticks(ms as nat * 1000) >= SYST_TICK_LIMIT ==> r is None,
    {
        let us: u32 = ms as u32 * 1000;
        self.ticks_for_us(us)
    }

    /// Starts a delay of `us` microseconds: sets the reload value to its tick count, clears the
    /// current value and enables the counter. The delay is over when the counter has wrapped;
    /// then [`SystickDelay::end_delay`] stops the counter.
    pub fn begin_delay_us(&mut self, us: u32)
        requires
            delay_ticks(us as nat) < SYST_TICK_LIMIT,
        ensures
            final(self)@ == (SystView {
                csr: old(self)@.csr | CSR_ENABLE,
                rvr: delay_ticks(us as nat) as u32,
                cvr: 0,
            }),
    {
        let ticks = self.ticks_for_us(us);
        match ticks {
            Some(t) => {
                self.systick.registerblock.rvr = t;
                self.systick.registerblock.cvr = 0;
                self.systick.registerblock.csr = self.systick.registerblock.csr | CSR_ENABLE;
            },
            None => {},
        }
    }

    /// Starts a delay of `ms` milliseconds, as [`SystickDelay::begin_delay_us`] does for
    /// `ms * 1000` microseconds.
    pub fn begin_delay_ms(&mut self, ms: u16)
        requires
            delay_ticks(ms as nat * 1000) < SYST_TICK_LIMIT,
        ensures
            final(self)@ == (SystView {
                csr: old(self)@.csr | CSR_ENABLE,
                rvr: delay_ticks(ms as nat * 1000) as u32,
                cvr: 0,
            }),
    {
        let us: u32 = ms as u32 * 1000;
        self.begin_delay_us(us);
    }

    /// Stops the counter once the delay is over.
    pub fn end_delay(&mut self)
        ensures
            final(self)@ == (SystView { csr: old(self)@.csr & !CSR_ENABLE, ..old(self)@ }),
    {
        self.systick.registerblock.csr = self.systick.registerblock.csr & !CSR_ENABLE;
    }
}

} // verus!
