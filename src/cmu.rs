//! CMU (Clock Management Unit).
//!
//! The raw clock-gate register is wrapped into a [`Cmu`], which is split once into one handle per
//! clock domain. Only a handle can set its domain's gate bit, and the peripherals that need a
//! clock keep its handle, so a running peripheral's clock cannot be switched off behind its back.
use vstd::prelude::*;

use crate::time_util::Hertz;
use crate::timer::{Timer0, Timer1, Timer2, TimerInstance};
use core::marker::PhantomData;

verus! {

/// Bit of the peripheral clock-enable register that gates TIMER0; TIMER1 and TIMER2 follow it.
pub const TIMER0_CLOCK_BIT: u32 = 5;
/// Bit of the peripheral clock-enable register that gates I2C0.
pub const I2C0_CLOCK_BIT: u32 = 11;
/// Bit of the peripheral clock-enable register that gates GPIO.
pub const GPIO_CLOCK_BIT: u32 = 13;
/// The core clock frequency after reset, which this library does not change.
pub const HFCORECLK_HZ: u32 = 14_000_000;

/// The value of the clock-enable register once gate bit `bit` has been set.
pub open spec fn with_gate(bits: u32, bit: u32) -> u32 {
    bits | (1u32 << bit)
}

/// Whether gate bit `bit` is set.
pub open spec fn gate_enabled(bits: u32, bit: u32) -> bool {
    (bits >> bit) & 1 == 1
}

/// Image of the CMU's peripheral clock-enable register (HFPERCLKEN0).
pub struct CmuRegisters {
    hfperclken0: u32,
}

impl View for CmuRegisters {
    type V = u32;

    closed spec fn view(&self) -> u32 {
        self.hfperclken0
    }
}

impl CmuRegisters {
    /// The register as it is after reset: every peripheral clock gated off.
    pub fn reset() -> (r: CmuRegisters)
        ensures
            r@ == 0,
    {
        CmuRegisters { hfperclken0: 0 }
    }

    /// The register holding `bits`, as read from the device.
    pub fn from_bits(bits: u32) -> (r: CmuRegisters)
        ensures
            r@ == bits,
    {
        CmuRegisters { hfperclken0: bits }
    }

    /// The current register value, to be written to the device.
    pub fn bits(&self) -> (r: u32)
        ensures
            r == self@,
    {
        self.hfperclken0
    }

    /// Whether gate bit `bit` is set.
    pub fn is_enabled(&self, bit: u32) -> (r: bool)
        requires
            bit < 32,
        ensures
            r == gate_enabled(self@, bit),
    {
        (self.hfperclken0 >> bit) & 1 == 1
    }

    fn set_gate(&mut self, bit: u32)
        requires
            bit < 32,
        ensures
            final(self)@ == with_gate(old(self)@, bit),
    {
        self.hfperclken0 = self.hfperclken0 | (1u32 << bit);
    }
}

/// Turns the raw clock-management registers into a [`Cmu`].
pub trait CMUExt {
    fn constrain(self) -> Cmu;
}

impl CMUExt for CmuRegisters {
    fn constrain(self) -> (r: Cmu)
        ensures
            r@ == self@,
    {
        Cmu { regs: self }
    }
}

/// The clock-management unit before it is split into clock-domain handles.
pub struct Cmu {
    regs: CmuRegisters,
}

impl View for Cmu {
    type V = u32;

    closed spec fn view(&self) -> u32 {
        self.regs@
    }
}

/// A clock whose frequency is fixed for as long as its handle lives.
pub trait FrozenClock {
    spec fn frequency(&self) -> u32;

    fn get_frequency(&self) -> (r: Hertz)
        ensures
            r.0 == self.frequency(),
    ;
}

/// All clock-domain handles, together with the clock-enable register that only they can change.
pub struct Clocks {
    pub hfcoreclk: HFCoreClk,
    pub i2c0: I2C0Clk,
    pub gpio: GPIOClk,
    pub timer0: TIMER0Clk,
    pub timer1: TIMER1Clk,
    pub timer2: TIMER2Clk,
    pub gates: CmuRegisters,
}

/// Permission to enable the I2C0 clock.
pub struct I2C0Clk {
    _private: (),
}

impl I2C0Clk {
    /// Sets the I2C0 gate bit; every other gate bit is left as it was.
    pub fn enable(&mut self, gates: &mut CmuRegisters)
        ensures
            final(gates)@ == with_gate(old(gates)@, I2C0_CLOCK_BIT),
    {
        gates.set_gate(I2C0_CLOCK_BIT);
    }
}

/// Permission to enable the clock of timer `T`.
pub struct TimerClk<T> {
    _timer: PhantomData<T>,
}

pub type TIMER0Clk = TimerClk<Timer0>;

pub type TIMER1Clk = TimerClk<Timer1>;

pub type TIMER2Clk = TimerClk<Timer2>;

/// Gate bit of the timer numbered `index`.
pub open spec fn timer_clock_bit(index: nat) -> u32 {
    (TIMER0_CLOCK_BIT + index) as u32
}

impl<T: TimerInstance> TimerClk<T> {
    /// Sets this timer's gate bit; every other gate bit is left as it was.
    pub fn enable(&mut self, gates: &mut CmuRegisters)
        ensures
            final(gates)@ == with_gate(old(gates)@, timer_clock_bit(T::spec_index())),
    {
        let index = T::index();
        gates.set_gate(TIMER0_CLOCK_BIT + index as u32);
    }
}

/// Permission to enable the GPIO clock.
pub struct GPIOClk {
    _private: (),
}

impl GPIOClk {
    /// Sets the GPIO gate bit; every other gate bit is left as it was.
    pub fn enable(&mut self, gates: &mut CmuRegisters)
        ensures
            final(gates)@ == with_gate(old(gates)@, GPIO_CLOCK_BIT),
    {
        gates.set_gate(GPIO_CLOCK_BIT);
    }
}

impl Cmu {
    /// Splits the unit into one handle per clock domain. The clock-enable register moves into
    /// the result unchanged.
    pub fn split(self) -> (r: Clocks)
        ensures
            r.gates@ == self@,
    {
        Clocks {
            hfcoreclk: HFCoreClk { _private: () },
            i2c0: I2C0Clk { _private: () },
            gpio: GPIOClk { _private: () },
            timer0: TimerClk { _timer: PhantomData },
            timer1: TimerClk { _timer: PhantomData },
            timer2: TimerClk { _timer: PhantomData },
            gates: self.regs,
        }
    }
}

/// The core clock.
pub struct HFCoreClk {
    _private: (),
}

impl FrozenClock for HFCoreClk {
    open spec fn frequency(&self) -> u32 {
        HFCORECLK_HZ
    }

    fn get_frequency(&self) -> (r: Hertz) {
        Hertz(HFCORECLK_HZ)
    }
}

/// Enabling a clock domain is idempotent: a second enable leaves the register as the first did.
pub proof fn lemma_enable_idempotent(bits: u32, bit: u32)
    requires
        bit < 32,
    ensures
        with_gate(with_gate(bits, bit), bit) == with_gate(bits, bit),
        gate_enabled(with_gate(bits, bit), bit),
{
    assert(((bits | (1u32 << bit)) | (1u32 << bit)) == (bits | (1u32 << bit)) && ((bits | (1u32
        << bit)) >> bit) & 1 == 1) by (bit_vector)
        requires
            bit < 32,
    ;
}

} // verus!
