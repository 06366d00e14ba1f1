//! Watchdog: feeding and disabling.
use vstd::prelude::*;

verus! {

/// Command register value that clears the watchdog counter.
pub const WDOG_CMD_CLEAR: u32 = 1;

/// The watchdog registers, as the contracts speak of them.
pub struct WdogView {
    pub ctrl: u32,
    pub cmd: u32,
}

/// Image of the watchdog registers.
pub struct WdogRegisters {
    ctrl: u32,
    cmd: u32,
}

impl View for WdogRegisters {
    type V = WdogView;

    closed spec fn view(&self) -> WdogView {
        WdogView { ctrl: self.ctrl, cmd: self.cmd }
    }
}

impl WdogRegisters {
    /// The registers holding control value `ctrl`, as read from the device.
    pub fn from_ctrl(ctrl: u32) -> (r: WdogRegisters)
        ensures
            r@ == (WdogView { ctrl, cmd: 0 }),
    {
        WdogRegisters { ctrl, cmd: 0 }
    }

    /// Control register.
    pub fn ctrl(&self) -> (r: u32)
        ensures
            r == self@.ctrl,
    {
        self.ctrl
    }

    /// The last value written to the command register.
    pub fn cmd(&self) -> (r: u32)
        ensures
            r == self@.cmd,
    {
        self.cmd
    }
}

/// The watchdog peripheral.
pub struct Watchdog {
    wdog: WdogRegisters,
}

impl View for Watchdog {
    type V = WdogView;

    closed spec fn view(&self) -> WdogView {
        self.wdog@
    }
}

impl Watchdog {
    /// Takes ownership of the watchdog registers.
    pub fn new(wdog: WdogRegisters) -> (r: Watchdog)
        ensures
            r@ == wdog@,
    {
        Watchdog { wdog }
    }

    /// The watchdog registers.
    pub fn registers(&self) -> (r: &WdogRegisters)
        ensures
            r@ == self@,
    {
        &self.wdog
    }

    /// Gives the registers back.
    pub fn free(self) -> (r: WdogRegisters)
        ensures
            r@ == self@,
    {
        self.wdog
    }

    /// Clears the watchdog counter.
    pub fn feed(&mut self)
        ensures
            final(self)@ == (WdogView { cmd: WDOG_CMD_CLEAR, ..old(self)@ }),
    {
        self.wdog.cmd = WDOG_CMD_CLEAR;
    }

    /// Disables the watchdog by clearing its whole control register.
    pub fn disable(&mut self)
        ensures
            final(self)@ == (WdogView { ctrl: 0, ..old(self)@ }),
    {
        self.wdog.ctrl = 0;
    }
}

} // verus!
