//! GPIO (general purpose input/output).
//!
//! The GPIO register block is split once into one token per pin. A token's type names the pin's
//! configuration; every transition consumes the token, writes the pin's mode field (and, where the
//! hardware couples the pull state to it, the pin's output-data bit) and returns a token of the
//! new type. Output pins are driven through bit-band stores, so that changing one pin never races
//! a change of another pin of the same port.
use vstd::prelude::*;

use crate::bitband::{
    alias_store, bit_of, bitband_alias, change_bit, lemma_alias_store_single_bit, store_through_alias,
    BitbandWrite,
};
use crate::cmu::{with_gate, CmuRegisters, GPIOClk, GPIO_CLOCK_BIT};
use core::marker::PhantomData;

pub mod common;

pub use common::{
    Alternate, Disabled, Floating, Input, Normal, OpenDrain, OpenSource, Output, PullDown, PullUp,
    PushPull, WiredAnd, WiredOr, WithFilter,
};

verus! {

/// Number of GPIO ports (A to F).
pub const NUM_PORTS: u8 = 6;
/// Number of pins per port.
pub const PINS_PER_PORT: u8 = 16;
/// Number of pins of the device.
pub const NUM_PINS: usize = 96;
/// Address of the GPIO register block.
pub const GPIO_BASE: u32 = 0x4000_6000;
/// Distance between the register groups of two neighbouring ports.
pub const PORT_STRIDE: u32 = 0x24;
/// Offset of the data-out register within a port's register group.
pub const DOUT_OFFSET: u32 = 0x0C;

/// Pin mode encodings of the mode registers, four bits per pin.
pub const MODE_DISABLED: u32 = 0x0;
pub const MODE_INPUT: u32 = 0x1;
pub const MODE_INPUTPULL: u32 = 0x2;
pub const MODE_INPUTPULLFILTER: u32 = 0x3;
pub const MODE_PUSHPULL: u32 = 0x4;
pub const MODE_PUSHPULLDRIVE: u32 = 0x5;
pub const MODE_WIREDOR: u32 = 0x6;
pub const MODE_WIREDORPULLDOWN: u32 = 0x7;
pub const MODE_WIREDAND: u32 = 0x8;
pub const MODE_WIREDANDFILTER: u32 = 0x9;
pub const MODE_WIREDANDPULLUP: u32 = 0xA;
pub const MODE_WIREDANDPULLUPFILTER: u32 = 0xB;
pub const MODE_WIREDANDDRIVE: u32 = 0xC;
pub const MODE_WIREDANDDRIVEFILTER: u32 = 0xD;
pub const MODE_WIREDANDDRIVEPULLUP: u32 = 0xE;
pub const MODE_WIREDANDDRIVEPULLUPFILTER: u32 = 0xF;

/// The registers of one port.
#[derive(Clone, Copy, Debug, PartialEq, Eq)]
pub struct PortRegisters {
    /// Port control: drive strength of the alternate drive modes.
    pub ctrl: u32,
    /// Mode fields of pins 0 to 7, four bits each.
    pub model: u32,
    /// Mode fields of pins 8 to 15, four bits each.
    pub modeh: u32,
    /// Output data, one bit per pin.
    pub dout: u32,
    /// Input data, one bit per pin.
    pub din: u32,
}

/// What a transition writes to the pin's output-data bit.
#[derive(Clone, Copy, Debug, PartialEq, Eq)]
pub enum DoutWrite {
    /// Leave the bit as it is.
    Keep,
    /// Clear the bit (through the port's clear register).
    Low,
    /// Set the bit (through the port's set register).
    High,
}

/// Drive strength of a port's alternate drive modes.
#[derive(Clone, Copy, Debug, PartialEq, Eq)]
pub enum DriveMode {
    Standard,
    Lowest,
    High,
    Low,
}

/// The encoding of a drive strength in the port control register.
pub open spec fn drive_code(mode: DriveMode) -> u32 {
    match mode {
        DriveMode::Standard => 0,
        DriveMode::Lowest => 1,
        DriveMode::High => 2,
        DriveMode::Low => 3,
    }
}

impl DriveMode {
    /// The encoding of this drive strength in the port control register.
    pub fn code(self) -> (r: u32)
        ensures
            r == drive_code(self),
    {
        match self {
            DriveMode::Standard => 0,
            DriveMode::Lowest => 1,
            DriveMode::High => 2,
            DriveMode::Low => 3,
        }
    }
}

/// Whether `id` (port, pin index) names a pin of the device.
pub open spec fn pin_ok(id: (nat, nat)) -> bool {
    id.0 < NUM_PORTS && id.1 < PINS_PER_PORT
}

/// The position of pin `id` in the list of all pins, port by port.
pub open spec fn pin_number(id: (nat, nat)) -> nat {
    id.0 * 16 + id.1
}

/// `word` with the four-bit field at `shift` replaced by `value`.
pub open spec fn set_field(word: u32, shift: u32, value: u32) -> u32 {
    (word & !(0xFu32 << shift)) | (value << shift)
}

/// The mode field of pin `index` of port `p`.
pub open spec fn mode_of(p: PortRegisters, index: u32) -> u32 {
    if index < 8 {
        (p.model >> (4 * index) as u32) & 0xF
    } else {
        (p.modeh >> (4 * (index - 8)) as u32) & 0xF
    }
}

/// Port `p` with the mode field of pin `index` set to `mode`.
pub open spec fn with_mode(p: PortRegisters, index: u32, mode: u32) -> PortRegisters {
    if index < 8 {
        PortRegisters { model: set_field(p.model, (4 * index) as u32, mode), ..p }
    } else {
        PortRegisters { modeh: set_field(p.modeh, (4 * (index - 8)) as u32, mode), ..p }
    }
}

/// The output-data word after `dout` has been applied to bit `index`.
pub open spec fn with_dout(word: u32, index: u32, dout: DoutWrite) -> u32 {
    match dout {
        DoutWrite::Keep => word,
        DoutWrite::Low => alias_store(word, index, false),
        DoutWrite::High => alias_store(word, index, true),
    }
}

/// Port `p` after pin `index` has been given mode `mode` and then the output-data write `dout`.
pub open spec fn configured(p: PortRegisters, index: u32, mode: u32, dout: DoutWrite) -> PortRegisters {
    let q = with_mode(p, index, mode);
    PortRegisters { dout: with_dout(q.dout, index, dout), ..q }
}

/// All ports after pin `id` has been given mode `mode` and output-data write `dout`.
pub open spec fn configure(regs: Seq<PortRegisters>, id: (nat, nat), mode: u32, dout: DoutWrite) -> Seq<PortRegisters> {
    regs.update(id.0 as int, configured(regs[id.0 as int], id.1 as u32, mode, dout))
}

/// Whether pin `index` of port `p` has mode `mode` and output-data bit `level`.
pub open spec fn pin_state(p: PortRegisters, index: u32, mode: u32, level: bool) -> bool {
    mode_of(p, index) == mode && bit_of(p.dout, index) == level
}

/// The address of the data-out register of port `port`.
pub open spec fn dout_address(port: nat) -> u32 {
    (GPIO_BASE + port * PORT_STRIDE + DOUT_OFFSET) as u32
}

/// The register block image before it is split into pins.
pub struct GpioRegisters {
    ports: [PortRegisters; 6],
}

impl GpioRegisters {
    /// The registers as they are after reset: every pin disabled, every register zero.
    pub fn reset() -> (r: GpioRegisters)
        ensures
            forall|i: int|
                0 <= i < NUM_PORTS ==> #[trigger] r@[i] == (PortRegisters {
                    ctrl: 0,
                    model: 0,
                    modeh: 0,
                    dout: 0,
                    din: 0,
                }),
    {
        let zero = PortRegisters { ctrl: 0, model: 0, modeh: 0, dout: 0, din: 0 };
        GpioRegisters { ports: [zero, zero, zero, zero, zero, zero] }
    }

    /// The register block holding `ports`, one entry per port, as read from the device.
    pub fn from_ports(ports: [PortRegisters; 6]) -> (r: GpioRegisters)
        ensures
            r@ == ports@,
    {
        GpioRegisters { ports }
    }
}

impl View for GpioRegisters {
    type V = Seq<PortRegisters>;

    closed spec fn view(&self) -> Seq<PortRegisters> {
        self.ports@
    }
}

/// Splits the GPIO register block into per-port configuration and per-pin tokens.
pub trait GPIOExt {
    spec fn spec_ports(&self) -> Seq<PortRegisters>;

    /// Enables the GPIO clock and consumes the register block; further access goes through the
    /// returned [`Ports`] and the pins split from it.
    fn split(self, gpioclk: GPIOClk, gates: &mut CmuRegisters) -> (r: Ports)
        ensures
            r@ == self.spec_ports(),
            final(gates)@ == with_gate(old(gates)@, GPIO_CLOCK_BIT),
    ;
}

impl GPIOExt for GpioRegisters {
    open spec fn spec_ports(&self) -> Seq<PortRegisters> {
        self@
    }

    fn split(self, gpioclk: GPIOClk, gates: &mut CmuRegisters) -> (r: Ports) {
        let mut clock = gpioclk;
        clock.enable(gates);
        Ports { gpio: Gpio { ports: self.ports, clock } }
    }
}

/// The GPIO register block after it has been split: shared by all pin tokens, which each only
/// touch their own pin's fields and bits.
pub struct Gpio {
    ports: [PortRegisters; 6],
    clock: GPIOClk,
}

impl View for Gpio {
    type V = Seq<PortRegisters>;

    closed spec fn view(&self) -> Seq<PortRegisters> {
        self.ports@
    }
}

impl Gpio {
    /// The registers of port `port`.
    pub fn port(&self, port: u8) -> (r: PortRegisters)
        requires
            port < NUM_PORTS,
        ensures
            r == self@[port as int],
            self@.len() == NUM_PORTS,
    {
        self.ports[port as usize]
    }

    /// Records the input-data register of port `port` as sampled from the device.
    pub fn set_input_data(&mut self, port: u8, din: u32)
        requires
            port < NUM_PORTS,
        ensures
            final(self)@ == old(self)@.update(port as int, PortRegisters { din, ..old(self)@[port as int] }),
    {
        let mut p = self.ports[port as usize];
        p.din = din;
        self.ports[port as usize] = p;
    }

    fn configure_pin(&mut self, port: u8, index: u8, mode: u32, dout: DoutWrite)
        requires
            port < NUM_PORTS,
            index < PINS_PER_PORT,
            mode < 16,
        ensures
            final(self)@ == configure(old(self)@, (port as nat, index as nat), mode, dout),
    {
        let mut p = self.ports[port as usize];
        if index < 8 {
            let shift: u32 = 4 * index as u32;
            p.model = (p.model & !(0xFu32 << shift)) | (mode << shift);
        } else {
            let shift: u32 = 4 * (index - 8) as u32;
            p.modeh = (p.modeh & !(0xFu32 << shift)) | (mode << shift);
        }
        match dout {
            DoutWrite::Keep => {},
            DoutWrite::Low => {
                p.dout = store_through_alias(p.dout, index, false);
            },
            DoutWrite::High => {
                p.dout = store_through_alias(p.dout, index, true);
            },
        }
        self.ports[port as usize] = p;
    }

    fn drive_pin(&mut self, port: u8, index: u8, high: bool) -> (w: BitbandWrite)
        requires
            port < NUM_PORTS,
            index < PINS_PER_PORT,
        ensures
            final(self)@ == old(self)@.update(port as int, PortRegisters {
                dout: alias_store(old(self)@[port as int].dout, index as u32, high),
                ..old(self)@[port as int]
            }),
            w.alias == bitband_alias(dout_address(port as nat), index as u32),
            w.value == (if high { 1u32 } else { 0u32 }),
    {
        let address: u32 = GPIO_BASE + port as u32 * PORT_STRIDE + DOUT_OFFSET;
        let w = change_bit(address, index, high);
        let mut p = self.ports[port as usize];
        p.dout = store_through_alias(p.dout, index, high);
        self.ports[port as usize] = p;
        w
    }

    fn set_drive(&mut self, port: u8, mode: DriveMode)
        requires
            port < NUM_PORTS,
        ensures
            final(self)@ == old(self)@.update(port as int, PortRegisters {
                ctrl: drive_code(mode),
                ..old(self)@[port as int]
            }),
    {
        let mut p = self.ports[port as usize];
        p.ctrl = mode.code();
        self.ports[port as usize] = p;
    }
}

/// Exclusive control over one pin, configured as `MODE` says.
pub struct Pin<MODE> {
    port: u8,
    index: u8,
    _mode: PhantomData<MODE>,
}

impl<MODE> View for Pin<MODE> {
    type V = (nat, nat);

    /// The pin's identity: (port, index within the port).
    closed spec fn view(&self) -> (nat, nat) {
        (self.port as nat, self.index as nat)
    }
}

impl<MODE> Pin<MODE> {
    #[verifier::type_invariant]
    spec fn inv(self) -> bool {
        self.port < NUM_PORTS && self.index < PINS_PER_PORT
    }

    /// The pin's port (0 for port A).
    pub fn port(&self) -> (r: u8)
        ensures
            r as nat == self@.0,
            r < NUM_PORTS,
    {
        proof {
            use_type_invariant(self);
        }
        self.port
    }

    /// The pin's index within its port.
    pub fn index(&self) -> (r: u8)
        ensures
            r as nat == self@.1,
            r < PINS_PER_PORT,
    {
        proof {
            use_type_invariant(self);
        }
        self.index
    }

    fn reconfigure<NEW>(self, gpio: &mut Gpio, mode: u32, dout: DoutWrite) -> (r: Pin<NEW>)
        requires
            mode < 16,
        ensures
            r@ == self@,
            final(gpio)@ == configure(old(gpio)@, self@, mode, dout),
    {
        proof {
            use_type_invariant(&self);
        }
        gpio.configure_pin(self.port, self.index, mode, dout);
        Pin { port: self.port, index: self.index, _mode: PhantomData }
    }

    /// Reconfigures the pin as input disabled, output floating.
    pub fn into_disabled(self, gpio: &mut Gpio) -> (r: Pin<Disabled<Floating>>)
        ensures
            r@ == self@,
            final(gpio)@ == configure(old(gpio)@, self@, MODE_DISABLED, DoutWrite::Low),
    {
        self.reconfigure(gpio, MODE_DISABLED, DoutWrite::Low)
    }

    /// Reconfigures the pin as input disabled, output pulled up.
    pub fn into_disabled_pulled_up(self, gpio: &mut Gpio) -> (r: Pin<Disabled<PullUp>>)
        ensures
            r@ == self@,
            final(gpio)@ == configure(old(gpio)@, self@, MODE_DISABLED, DoutWrite::High),
    {
        self.reconfigure(gpio, MODE_DISABLED, DoutWrite::High)
    }

    /// Reconfigures the pin as input without pull resistor.
    pub fn into_input(self, gpio: &mut Gpio) -> (r: Pin<Input<Floating>>)
        ensures
            r@ == self@,
            final(gpio)@ == configure(old(gpio)@, self@, MODE_INPUT, DoutWrite::Low),
    {
        self.reconfigure(gpio, MODE_INPUT, DoutWrite::Low)
    }

    /// Reconfigures the pin as input without pull resistor, with deglitch filter.
    pub fn into_input_with_filter(self, gpio: &mut Gpio) -> (r: Pin<Input<WithFilter<Floating>>>)
        ensures
            r@ == self@,
            final(gpio)@ == configure(old(gpio)@, self@, MODE_INPUT, DoutWrite::High),
    {
        self.reconfigure(gpio, MODE_INPUT, DoutWrite::High)
    }

    /// Reconfigures the pin as input with pull-down.
    pub fn into_input_pulled_down(self, gpio: &mut Gpio) -> (r: Pin<Input<PullDown>>)
        ensures
            r@ == self@,
            final(gpio)@ == configure(old(gpio)@, self@, MODE_INPUTPULL, DoutWrite::Low),
    {
        self.reconfigure(gpio, MODE_INPUTPULL, DoutWrite::Low)
    }

    /// Reconfigures the pin as input with pull-up.
    pub fn into_input_pulled_up(self, gpio: &mut Gpio) -> (r: Pin<Input<PullUp>>)
        ensures
            r@ == self@,
            final(gpio)@ == configure(old(gpio)@, self@, MODE_INPUTPULL, DoutWrite::High),
    {
        self.reconfigure(gpio, MODE_INPUTPULL, DoutWrite::High)
    }

    /// Reconfigures the pin as input with pull-down and deglitch filter.
    pub fn into_input_pulled_down_with_filter(self, gpio: &mut Gpio) -> (r: Pin<Input<WithFilter<PullDown>>>)
        ensures
            r@ == self@,
            final(gpio)@ == configure(old(gpio)@, self@, MODE_INPUTPULLFILTER, DoutWrite::Low),
    {
        self.reconfigure(gpio, MODE_INPUTPULLFILTER, DoutWrite::Low)
    }

    /// Reconfigures the pin as input with pull-up and deglitch filter.
    pub fn into_input_pulled_up_with_filter(self, gpio: &mut Gpio) -> (r: Pin<Input<WithFilter<PullUp>>>)
        ensures
            r@ == self@,
            final(gpio)@ == configure(old(gpio)@, self@, MODE_INPUTPULLFILTER, DoutWrite::High),
    {
        self.reconfigure(gpio, MODE_INPUTPULLFILTER, DoutWrite::High)
    }

    /// Reconfigures the pin as push-pull output.
    pub fn into_pushpull(self, gpio: &mut Gpio) -> (r: Pin<Output<PushPull<Normal>>>)
        ensures
            r@ == self@,
            final(gpio)@ == configure(old(gpio)@, self@, MODE_PUSHPULL, DoutWrite::Keep),
    {
        self.reconfigure(gpio, MODE_PUSHPULL, DoutWrite::Keep)
    }

    /// Reconfigures the pin as push-pull output with the port's alternate drive strength.
    pub fn into_pushpull_alt_drive(self, gpio: &mut Gpio) -> (r: Pin<Output<PushPull<Alternate>>>)
        ensures
            r@ == self@,
            final(gpio)@ == configure(old(gpio)@, self@, MODE_PUSHPULLDRIVE, DoutWrite::Keep),
    {
        self.reconfigure(gpio, MODE_PUSHPULLDRIVE, DoutWrite::Keep)
    }

    /// Reconfigures the pin as open-source output.
    pub fn into_wiredor(self, gpio: &mut Gpio) -> (r: Pin<Output<WiredOr<Floating>>>)
        ensures
            r@ == self@,
            final(gpio)@ == configure(old(gpio)@, self@, MODE_WIREDOR, DoutWrite::Keep),
    {
        self.reconfigure(gpio, MODE_WIREDOR, DoutWrite::Keep)
    }

    /// Reconfigures the pin as open-source output with pull-down.
    pub fn into_wiredor_pulled_down(self, gpio: &mut Gpio) -> (r: Pin<Output<WiredOr<PullDown>>>)
        ensures
            r@ == self@,
            final(gpio)@ == configure(old(gpio)@, self@, MODE_WIREDORPULLDOWN, DoutWrite::Keep),
    {
        self.reconfigure(gpio, MODE_WIREDORPULLDOWN, DoutWrite::Keep)
    }

    /// Reconfigures the pin as open-drain output.
    pub fn into_wiredand(self, gpio: &mut Gpio) -> (r: Pin<Output<WiredAnd<Normal, Floating>>>)
        ensures
            r@ == self@,
            final(gpio)@ == configure(old(gpio)@, self@, MODE_WIREDAND, DoutWrite::Keep),
    {
        self.reconfigure(gpio, MODE_WIREDAND, DoutWrite::Keep)
    }

    /// Reconfigures the pin as open-drain output with pull-up.
    pub fn into_wiredand_pulled_up(self, gpio: &mut Gpio) -> (r: Pin<Output<WiredAnd<Normal, PullUp>>>)
        ensures
            r@ == self@,
            final(gpio)@ == configure(old(gpio)@, self@, MODE_WIREDANDPULLUP, DoutWrite::Keep),
    {
        self.reconfigure(gpio, MODE_WIREDANDPULLUP, DoutWrite::Keep)
    }

    /// Reconfigures the pin as open-drain output with deglitch filter.
    pub fn into_wiredand_with_filter(self, gpio: &mut Gpio) -> (r: Pin<Output<WithFilter<WiredAnd<Normal, Floating>>>>)
        ensures
            r@ == self@,
            final(gpio)@ == configure(old(gpio)@, self@, MODE_WIREDANDFILTER, DoutWrite::Keep),
    {
        self.reconfigure(gpio, MODE_WIREDANDFILTER, DoutWrite::Keep)
    }

    /// Reconfigures the pin as open-drain output with pull-up and deglitch filter.
    pub fn into_wiredand_with_filter_pulled_up(self, gpio: &mut Gpio) -> (r: Pin<Output<WithFilter<WiredAnd<Normal, PullUp>>>>)
        ensures
            r@ == self@,
            final(gpio)@ == configure(old(gpio)@, self@, MODE_WIREDANDPULLUPFILTER, DoutWrite::Keep),
    {
        self.reconfigure(gpio, MODE_WIREDANDPULLUPFILTER, DoutWrite::Keep)
    }

    /// Reconfigures the pin as open-drain output with the port's alternate drive strength.
    pub fn into_wiredand_alt_drive(self, gpio: &mut Gpio) -> (r: Pin<Output<WiredAnd<Alternate, Floating>>>)
        ensures
            r@ == self@,
            final(gpio)@ == configure(old(gpio)@, self@, MODE_WIREDANDDRIVE, DoutWrite::Keep),
    {
        self.reconfigure(gpio, MODE_WIREDANDDRIVE, DoutWrite::Keep)
    }

    /// Reconfigures the pin as open-drain output with alternate drive strength and pull-up.
    pub fn into_wiredand_alt_drive_pulled_up(self, gpio: &mut Gpio) -> (r: Pin<Output<WiredAnd<Alternate, PullUp>>>)
        ensures
            r@ == self@,
            final(gpio)@ == configure(old(gpio)@, self@, MODE_WIREDANDDRIVEPULLUP, DoutWrite::Keep),
    {
        self.reconfigure(gpio, MODE_WIREDANDDRIVEPULLUP, DoutWrite::Keep)
    }

    /// Reconfigures the pin as open-drain output with alternate drive strength and deglitch filter.
    pub fn into_wiredand_alt_drive_with_filter(self, gpio: &mut Gpio) -> (r: Pin<Output<WithFilter<WiredAnd<Alternate, Floating>>>>)
        ensures
            r@ == self@,
            final(gpio)@ == configure(old(gpio)@, self@, MODE_WIREDANDDRIVEFILTER, DoutWrite::Keep),
    {
        self.reconfigure(gpio, MODE_WIREDANDDRIVEFILTER, DoutWrite::Keep)
    }

    /// Reconfigures the pin as open-drain output with alternate drive strength, pull-up and deglitch filter.
    pub fn into_wiredand_alt_drive_with_filter_pulled_up(self, gpio: &mut Gpio) -> (r: Pin<Output<WithFilter<WiredAnd<Alternate, PullUp>>>>)
        ensures
            r@ == self@,
            final(gpio)@ == configure(old(gpio)@, self@, MODE_WIREDANDDRIVEPULLUPFILTER, DoutWrite::Keep),
    {
        self.reconfigure(gpio, MODE_WIREDANDDRIVEPULLUPFILTER, DoutWrite::Keep)
    }

    /// Reconfigures the pin as push-pull output whose input is read as well.
    pub fn into_io_pushpull(self, gpio: &mut Gpio) -> (r: Pin<Input<Output<PushPull<Normal>>>>)
        ensures
            r@ == self@,
            final(gpio)@ == configure(old(gpio)@, self@, MODE_PUSHPULL, DoutWrite::Keep),
    {
        self.reconfigure(gpio, MODE_PUSHPULL, DoutWrite::Keep)
    }

    /// Reconfigures the pin as push-pull output with the port's alternate drive strength whose input is read as well.
    pub fn into_io_pushpull_alt_drive(self, gpio: &mut Gpio) -> (r: Pin<Input<Output<PushPull<Alternate>>>>)
        ensures
            r@ == self@,
            final(gpio)@ == configure(old(gpio)@, self@, MODE_PUSHPULLDRIVE, DoutWrite::Keep),
    {
        self.reconfigure(gpio, MODE_PUSHPULLDRIVE, DoutWrite::Keep)
    }

    /// Reconfigures the pin as open-source output whose input is read as well.
    pub fn into_io_wiredor(self, gpio: &mut Gpio) -> (r: Pin<Input<Output<WiredOr<Floating>>>>)
        ensures
            r@ == self@,
            final(gpio)@ == configure(old(gpio)@, self@, MODE_WIREDOR, DoutWrite::Keep),
    {
        self.reconfigure(gpio, MODE_WIREDOR, DoutWrite::Keep)
    }

    /// Reconfigures the pin as open-source output with pull-down whose input is read as well.
    pub fn into_io_wiredor_pulled_down(self, gpio: &mut Gpio) -> (r: Pin<Input<Output<WiredOr<PullDown>>>>)
        ensures
            r@ == self@,
            final(gpio)@ == configure(old(gpio)@, self@, MODE_WIREDORPULLDOWN, DoutWrite::Keep),
    {
        self.reconfigure(gpio, MODE_WIREDORPULLDOWN, DoutWrite::Keep)
    }

    /// Reconfigures the pin as open-drain output whose input is read as well.
    pub fn into_io_wiredand(self, gpio: &mut Gpio) -> (r: Pin<Input<Output<WiredAnd<Normal, Floating>>>>)
        ensures
            r@ == self@,
            final(gpio)@ == configure(old(gpio)@, self@, MODE_WIREDAND, DoutWrite::Keep),
    {
        self.reconfigure(gpio, MODE_WIREDAND, DoutWrite::Keep)
    }

    /// Reconfigures the pin as open-drain output with pull-up whose input is read as well.
    pub fn into_io_wiredand_pulled_up(self, gpio: &mut Gpio) -> (r: Pin<Input<Output<WiredAnd<Normal, PullUp>>>>)
        ensures
            r@ == self@,
            final(gpio)@ == configure(old(gpio)@, self@, MODE_WIREDANDPULLUP, DoutWrite::Keep),
    {
        self.reconfigure(gpio, MODE_WIREDANDPULLUP, DoutWrite::Keep)
    }

    /// Reconfigures the pin as open-drain output with deglitch filter whose input is read as well.
    pub fn into_io_wiredand_with_filter(self, gpio: &mut Gpio) -> (r: Pin<Input<Output<WithFilter<WiredAnd<Normal, Floating>>>>>)
        ensures
            r@ == self@,
            final(gpio)@ == configure(old(gpio)@, self@, MODE_WIREDANDFILTER, DoutWrite::Keep),
    {
        self.reconfigure(gpio, MODE_WIREDANDFILTER, DoutWrite::Keep)
    }

    /// Reconfigures the pin as open-drain output with pull-up and deglitch filter whose input is read as well.
    pub fn into_io_wiredand_with_filter_pulled_up(self, gpio: &mut Gpio) -> (r: Pin<Input<Output<WithFilter<WiredAnd<Normal, PullUp>>>>>)
        ensures
            r@ == self@,
            final(gpio)@ == configure(old(gpio)@, self@, MODE_WIREDANDPULLUPFILTER, DoutWrite::Keep),
    {
        self.reconfigure(gpio, MODE_WIREDANDPULLUPFILTER, DoutWrite::Keep)
    }

    /// Reconfigures the pin as open-drain output with the port's alternate drive strength whose input is read as well.
    pub fn into_io_wiredand_alt_drive(self, gpio: &mut Gpio) -> (r: Pin<Input<Output<WiredAnd<Alternate, Floating>>>>)
        ensures
            r@ == self@,
            final(gpio)@ == configure(old(gpio)@, self@, MODE_WIREDANDDRIVE, DoutWrite::Keep),
    {
        self.reconfigure(gpio, MODE_WIREDANDDRIVE, DoutWrite::Keep)
    }

    /// Reconfigures the pin as open-drain output with alternate drive strength and pull-up whose input is read as well.
    pub fn into_io_wiredand_alt_drive_pulled_up(self, gpio: &mut Gpio) -> (r: Pin<Input<Output<WiredAnd<Alternate, PullUp>>>>)
        ensures
            r@ == self@,
            final(gpio)@ == configure(old(gpio)@, self@, MODE_WIREDANDDRIVEPULLUP, DoutWrite::Keep),
    {
        self.reconfigure(gpio, MODE_WIREDANDDRIVEPULLUP, DoutWrite::Keep)
    }

    /// Reconfigures the pin as open-drain output with alternate drive strength and deglitch filter whose input is read as well.
    pub fn into_io_wiredand_alt_drive_with_filter(self, gpio: &mut Gpio) -> (r: Pin<Input<Output<WithFilter<WiredAnd<Alternate, Floating>>>>>)
        ensures
            r@ == self@,
            final(gpio)@ == configure(old(gpio)@, self@, MODE_WIREDANDDRIVEFILTER, DoutWrite::Keep),
    {
        self.reconfigure(gpio, MODE_WIREDANDDRIVEFILTER, DoutWrite::Keep)
    }

    /// Reconfigures the pin as open-drain output with alternate drive strength, pull-up and deglitch filter whose input is read as well.
    pub fn into_io_wiredand_alt_drive_with_filter_pulled_up(self, gpio: &mut Gpio) -> (r: Pin<Input<Output<WithFilter<WiredAnd<Alternate, PullUp>>>>>)
        ensures
            r@ == self@,
            final(gpio)@ == configure(old(gpio)@, self@, MODE_WIREDANDDRIVEPULLUPFILTER, DoutWrite::Keep),
    {
        self.reconfigure(gpio, MODE_WIREDANDDRIVEPULLUPFILTER, DoutWrite::Keep)
    }
}

impl<P> Pin<Output<P>> {
    /// Drives the pin low, through the bit-band alias of its output-data bit.
    pub fn set_low(&mut self, gpio: &mut Gpio) -> (w: BitbandWrite)
        ensures
            final(self)@ == old(self)@,
            final(gpio)@ == old(gpio)@.update(old(self)@.0 as int, PortRegisters {
                dout: alias_store(old(gpio)@[old(self)@.0 as int].dout, old(self)@.1 as u32, false),
                ..old(gpio)@[old(self)@.0 as int]
            }),
            w.alias == bitband_alias(dout_address(old(self)@.0), old(self)@.1 as u32),
            w.value == 0,
    {
        proof {
            use_type_invariant(&*self);
        }
        gpio.drive_pin(self.port, self.index, false)
    }

    /// Drives the pin high, through the bit-band alias of its output-data bit.
    pub fn set_high(&mut self, gpio: &mut Gpio) -> (w: BitbandWrite)
        ensures
            final(self)@ == old(self)@,
            final(gpio)@ == old(gpio)@.update(old(self)@.0 as int, PortRegisters {
                dout: alias_store(old(gpio)@[old(self)@.0 as int].dout, old(self)@.1 as u32, true),
                ..old(gpio)@[old(self)@.0 as int]
            }),
            w.alias == bitband_alias(dout_address(old(self)@.0), old(self)@.1 as u32),
            w.value == 1,
    {
        proof {
            use_type_invariant(&*self);
        }
        gpio.drive_pin(self.port, self.index, true)
    }

    /// Whether the level last driven is low.
    pub fn is_set_low(&self, gpio: &Gpio) -> (r: bool)
        ensures
            r == !bit_of(gpio@[self@.0 as int].dout, self@.1 as u32),
    {
        proof {
            use_type_invariant(self);
        }
        let bit: u32 = self.index as u32;
        let set = (gpio.port(self.port).dout >> bit) & 1 == 1;
        !set
    }

    /// Whether the level last driven is high.
    pub fn is_set_high(&self, gpio: &Gpio) -> (r: bool)
        ensures
            r == bit_of(gpio@[self@.0 as int].dout, self@.1 as u32),
    {
        !self.is_set_low(gpio)
    }
}

impl<P> Pin<Input<Output<P>>> {
    /// Drives the pin low, through the bit-band alias of its output-data bit.
    pub fn set_low(&mut self, gpio: &mut Gpio) -> (w: BitbandWrite)
        ensures
            final(self)@ == old(self)@,
            final(gpio)@ == old(gpio)@.update(old(self)@.0 as int, PortRegisters {
                dout: alias_store(old(gpio)@[old(self)@.0 as int].dout, old(self)@.1 as u32, false),
                ..old(gpio)@[old(self)@.0 as int]
            }),
            w.alias == bitband_alias(dout_address(old(self)@.0), old(self)@.1 as u32),
            w.value == 0,
    {
        proof {
            use_type_invariant(&*self);
        }
        gpio.drive_pin(self.port, self.index, false)
    }

    /// Drives the pin high, through the bit-band alias of its output-data bit.
    pub fn set_high(&mut self, gpio: &mut Gpio) -> (w: BitbandWrite)
        ensures
            final(self)@ == old(self)@,
            final(gpio)@ == old(gpio)@.update(old(self)@.0 as int, PortRegisters {
                dout: alias_store(old(gpio)@[old(self)@.0 as int].dout, old(self)@.1 as u32, true),
                ..old(gpio)@[old(self)@.0 as int]
            }),
            w.alias == bitband_alias(dout_address(old(self)@.0), old(self)@.1 as u32),
            w.value == 1,
    {
        proof {
            use_type_invariant(&*self);
        }
        gpio.drive_pin(self.port, self.index, true)
    }

    /// Whether the level last driven is low.
    pub fn is_set_low(&self, gpio: &Gpio) -> (r: bool)
        ensures
            r == !bit_of(gpio@[self@.0 as int].dout, self@.1 as u32),
    {
        proof {
            use_type_invariant(self);
        }
        let bit: u32 = self.index as u32;
        let set = (gpio.port(self.port).dout >> bit) & 1 == 1;
        !set
    }

    /// Whether the level last driven is high.
    pub fn is_set_high(&self, gpio: &Gpio) -> (r: bool)
        ensures
            r == bit_of(gpio@[self@.0 as int].dout, self@.1 as u32),
    {
        !self.is_set_low(gpio)
    }
}

impl<P> Pin<Input<P>> {
    /// Whether the pin's input reads low.
    pub fn is_low(&self, gpio: &Gpio) -> (r: bool)
        ensures
            r == !bit_of(gpio@[self@.0 as int].din, self@.1 as u32),
    {
        proof {
            use_type_invariant(self);
        }
        let bit: u32 = self.index as u32;
        let set = (gpio.port(self.port).din >> bit) & 1 == 1;
        !set
    }

    /// Whether the pin's input reads high.
    pub fn is_high(&self, gpio: &Gpio) -> (r: bool)
        ensures
            r == bit_of(gpio@[self@.0 as int].din, self@.1 as u32),
    {
        !self.is_low(gpio)
    }
}

/// One token per pin of the device, every one disabled.
pub struct Pins {
    pub pa0: Pin<Disabled<Floating>>,
    pub pa1: Pin<Disabled<Floating>>,
    pub pa2: Pin<Disabled<Floating>>,
    pub pa3: Pin<Disabled<Floating>>,
    pub pa4: Pin<Disabled<Floating>>,
    pub pa5: Pin<Disabled<Floating>>,
    pub pa6: Pin<Disabled<Floating>>,
    pub pa7: Pin<Disabled<Floating>>,
    pub pa8: Pin<Disabled<Floating>>,
    pub pa9: Pin<Disabled<Floating>>,
    pub pa10: Pin<Disabled<Floating>>,
    pub pa11: Pin<Disabled<Floating>>,
    pub pa12: Pin<Disabled<Floating>>,
    pub pa13: Pin<Disabled<Floating>>,
    pub pa14: Pin<Disabled<Floating>>,
    pub pa15: Pin<Disabled<Floating>>,
    pub pb0: Pin<Disabled<Floating>>,
    pub pb1: Pin<Disabled<Floating>>,
    pub pb2: Pin<Disabled<Floating>>,
    pub pb3: Pin<Disabled<Floating>>,
    pub pb4: Pin<Disabled<Floating>>,
    pub pb5: Pin<Disabled<Floating>>,
    pub pb6: Pin<Disabled<Floating>>,
    pub pb7: Pin<Disabled<Floating>>,
    pub pb8: Pin<Disabled<Floating>>,
    pub pb9: Pin<Disabled<Floating>>,
    pub pb10: Pin<Disabled<Floating>>,
    pub pb11: Pin<Disabled<Floating>>,
    pub pb12: Pin<Disabled<Floating>>,
    pub pb13: Pin<Disabled<Floating>>,
    pub pb14: Pin<Disabled<Floating>>,
    pub pb15: Pin<Disabled<Floating>>,
    pub pc0: Pin<Disabled<Floating>>,
    pub pc1: Pin<Disabled<Floating>>,
    pub pc2: Pin<Disabled<Floating>>,
    pub pc3: Pin<Disabled<Floating>>,
    pub pc4: Pin<Disabled<Floating>>,
    pub pc5: Pin<Disabled<Floating>>,
    pub pc6: Pin<Disabled<Floating>>,
    pub pc7: Pin<Disabled<Floating>>,
    pub pc8: Pin<Disabled<Floating>>,
    pub pc9: Pin<Disabled<Floating>>,
    pub pc10: Pin<Disabled<Floating>>,
    pub pc11: Pin<Disabled<Floating>>,
    pub pc12: Pin<Disabled<Floating>>,
    pub pc13: Pin<Disabled<Floating>>,
    pub pc14: Pin<Disabled<Floating>>,
    pub pc15: Pin<Disabled<Floating>>,
    pub pd0: Pin<Disabled<Floating>>,
    pub pd1: Pin<Disabled<Floating>>,
    pub pd2: Pin<Disabled<Floating>>,
    pub pd3: Pin<Disabled<Floating>>,
    pub pd4: Pin<Disabled<Floating>>,
    pub pd5: Pin<Disabled<Floating>>,
    pub pd6: Pin<Disabled<Floating>>,
    pub pd7: Pin<Disabled<Floating>>,
    pub pd8: Pin<Disabled<Floating>>,
    pub pd9: Pin<Disabled<Floating>>,
    pub pd10: Pin<Disabled<Floating>>,
    pub pd11: Pin<Disabled<Floating>>,
    pub pd12: Pin<Disabled<Floating>>,
    pub pd13: Pin<Disabled<Floating>>,
    pub pd14: Pin<Disabled<Floating>>,
    pub pd15: Pin<Disabled<Floating>>,
    pub pe0: Pin<Disabled<Floating>>,
    pub pe1: Pin<Disabled<Floating>>,
    pub pe2: Pin<Disabled<Floating>>,
    pub pe3: Pin<Disabled<Floating>>,
    pub pe4: Pin<Disabled<Floating>>,
    pub pe5: Pin<Disabled<Floating>>,
    pub pe6: Pin<Disabled<Floating>>,
    pub pe7: Pin<Disabled<Floating>>,
    pub pe8: Pin<Disabled<Floating>>,
    pub pe9: Pin<Disabled<Floating>>,
    pub pe10: Pin<Disabled<Floating>>,
    pub pe11: Pin<Disabled<Floating>>,
    pub pe12: Pin<Disabled<Floating>>,
    pub pe13: Pin<Disabled<Floating>>,
    pub pe14: Pin<Disabled<Floating>>,
    pub pe15: Pin<Disabled<Floating>>,
    pub pf0: Pin<Disabled<Floating>>,
    pub pf1: Pin<Disabled<Floating>>,
    pub pf2: Pin<Disabled<Floating>>,
    pub pf3: Pin<Disabled<Floating>>,
    pub pf4: Pin<Disabled<Floating>>,
    pub pf5: Pin<Disabled<Floating>>,
    pub pf6: Pin<Disabled<Floating>>,
    pub pf7: Pin<Disabled<Floating>>,
    pub pf8: Pin<Disabled<Floating>>,
    pub pf9: Pin<Disabled<Floating>>,
    pub pf10: Pin<Disabled<Floating>>,
    pub pf11: Pin<Disabled<Floating>>,
    pub pf12: Pin<Disabled<Floating>>,
    pub pf13: Pin<Disabled<Floating>>,
    pub pf14: Pin<Disabled<Floating>>,
    pub pf15: Pin<Disabled<Floating>>,
}

impl Pins {
    /// The identities of all tokens, port by port.
    pub open spec fn ids(&self) -> Seq<(nat, nat)> {
        Seq::new(NUM_PINS as nat, |k: int| self.id_at(k))
    }

    /// The identity of the token at position `k`.
    pub open spec fn id_at(&self, k: int) -> (nat, nat) {
        if k == 0 {
            self.pa0@
        } else if k == 1 {
            self.pa1@
        } else if k == 2 {
            self.pa2@
        } else if k == 3 {
            self.pa3@
        } else if k == 4 {
            self.pa4@
        } else if k == 5 {
            self.pa5@
        } else if k == 6 {
            self.pa6@
        } else if k == 7 {
            self.pa7@
        } else if k == 8 {
            self.pa8@
        } else if k == 9 {
            self.pa9@
        } else if k == 10 {
            self.pa10@
        } else if k == 11 {
            self.pa11@
        } else if k == 12 {
            self.pa12@
        } else if k == 13 {
            self.pa13@
        } else if k == 14 {
            self.pa14@
        } else if k == 15 {
            self.pa15@
        } else if k == 16 {
            self.pb0@
        } else if k == 17 {
            self.pb1@
        } else if k == 18 {
            self.pb2@
        } else if k == 19 {
            self.pb3@
        } else if k == 20 {
            self.pb4@
        } else if k == 21 {
            self.pb5@
        } else if k == 22 {
            self.pb6@
        } else if k == 23 {
            self.pb7@
        } else if k == 24 {
            self.pb8@
        } else if k == 25 {
            self.pb9@
        } else if k == 26 {
            self.pb10@
        } else if k == 27 {
            self.pb11@
        } else if k == 28 {
            self.pb12@
        } else if k == 29 {
            self.pb13@
        } else if k == 30 {
            self.pb14@
        } else if k == 31 {
            self.pb15@
        } else if k == 32 {
            self.pc0@
        } else if k == 33 {
            self.pc1@
        } else if k == 34 {
            self.pc2@
        } else if k == 35 {
            self.pc3@
        } else if k == 36 {
            self.pc4@
        } else if k == 37 {
            self.pc5@
        } else if k == 38 {
            self.pc6@
        } else if k == 39 {
            self.pc7@
        } else if k == 40 {
            self.pc8@
        } else if k == 41 {
            self.pc9@
        } else if k == 42 {
            self.pc10@
        } else if k == 43 {
            self.pc11@
        } else if k == 44 {
            self.pc12@
        } else if k == 45 {
            self.pc13@
        } else if k == 46 {
            self.pc14@
        } else if k == 47 {
            self.pc15@
        } else if k == 48 {
            self.pd0@
        } else if k == 49 {
            self.pd1@
        } else if k == 50 {
            self.pd2@
        } else if k == 51 {
            self.pd3@
        } else if k == 52 {
            self.pd4@
        } else if k == 53 {
            self.pd5@
        } else if k == 54 {
            self.pd6@
        } else if k == 55 {
            self.pd7@
        } else if k == 56 {
            self.pd8@
        } else if k == 57 {
            self.pd9@
        } else if k == 58 {
            self.pd10@
        } else if k == 59 {
            self.pd11@
        } else if k == 60 {
            self.pd12@
        } else if k == 61 {
            self.pd13@
        } else if k == 62 {
            self.pd14@
        } else if k == 63 {
            self.pd15@
        } else if k == 64 {
            self.pe0@
        } else if k == 65 {
            self.pe1@
        } else if k == 66 {
            self.pe2@
        } else if k == 67 {
            self.pe3@
        } else if k == 68 {
            self.pe4@
        } else if k == 69 {
            self.pe5@
        } else if k == 70 {
            self.pe6@
        } else if k == 71 {
            self.pe7@
        } else if k == 72 {
            self.pe8@
        } else if k == 73 {
            self.pe9@
        } else if k == 74 {
            self.pe10@
        } else if k == 75 {
            self.pe11@
        } else if k == 76 {
            self.pe12@
        } else if k == 77 {
            self.pe13@
        } else if k == 78 {
            self.pe14@
        } else if k == 79 {
            self.pe15@
        } else if k == 80 {
            self.pf0@
        } else if k == 81 {
            self.pf1@
        } else if k == 82 {
            self.pf2@
        } else if k == 83 {
            self.pf3@
        } else if k == 84 {
            self.pf4@
        } else if k == 85 {
            self.pf5@
        } else if k == 86 {
            self.pf6@
        } else if k == 87 {
            self.pf7@
        } else if k == 88 {
            self.pf8@
        } else if k == 89 {
            self.pf9@
        } else if k == 90 {
            self.pf10@
        } else if k == 91 {
            self.pf11@
        } else if k == 92 {
            self.pf12@
        } else if k == 93 {
            self.pf13@
        } else if k == 94 {
            self.pf14@
        } else {
            self.pf15@
        }
    }
}

/// Port-wide configuration, available until the pins are split out.
pub struct Ports {
    gpio: Gpio,
}

impl View for Ports {
    type V = Seq<PortRegisters>;

    closed spec fn view(&self) -> Seq<PortRegisters> {
        self.gpio@
    }
}

impl Ports {
    /// Sets the alternate drive strength of port A.
    pub fn pa_drive(self, mode: DriveMode) -> (r: Ports)
        ensures
            r@ == self@.update(0, PortRegisters { ctrl: drive_code(mode), ..self@[0] }),
    {
        let mut gpio = self.gpio;
        gpio.set_drive(0, mode);
        Ports { gpio }
    }

    /// Sets the alternate drive strength of port B.
    pub fn pb_drive(self, mode: DriveMode) -> (r: Ports)
        ensures
            r@ == self@.update(1, PortRegisters { ctrl: drive_code(mode), ..self@[1] }),
    {
        let mut gpio = self.gpio;
        gpio.set_drive(1, mode);
        Ports { gpio }
    }

    /// Sets the alternate drive strength of port C.
    pub fn pc_drive(self, mode: DriveMode) -> (r: Ports)
        ensures
            r@ == self@.update(2, PortRegisters { ctrl: drive_code(mode), ..self@[2] }),
    {
        let mut gpio = self.gpio;
        gpio.set_drive(2, mode);
        Ports { gpio }
    }

    /// Sets the alternate drive strength of port D.
    pub fn pd_drive(self, mode: DriveMode) -> (r: Ports)
        ensures
            r@ == self@.update(3, PortRegisters { ctrl: drive_code(mode), ..self@[3] }),
    {
        let mut gpio = self.gpio;
        gpio.set_drive(3, mode);
        Ports { gpio }
    }

    /// Sets the alternate drive strength of port E.
    pub fn pe_drive(self, mode: DriveMode) -> (r: Ports)
        ensures
            r@ == self@.update(4, PortRegisters { ctrl: drive_code(mode), ..self@[4] }),
    {
        let mut gpio = self.gpio;
        gpio.set_drive(4, mode);
        Ports { gpio }
    }

    /// Sets the alternate drive strength of port F.
    pub fn pf_drive(self, mode: DriveMode) -> (r: Ports)
        ensures
            r@ == self@.update(5, PortRegisters { ctrl: drive_code(mode), ..self@[5] }),
    {
        let mut gpio = self.gpio;
        gpio.set_drive(5, mode);
        Ports { gpio }
    }

    /// Splits the port configuration into one disabled token per pin, and the register block
    /// that the tokens act on.
    pub fn split(self) -> (r: (Gpio, Pins))
        ensures
            r.0@ == self@,
            forall|k: int|
                0 <= k < NUM_PINS ==> pin_ok(#[trigger] r.1.ids()[k]) && pin_number(r.1.ids()[k]) == k,
    {
        let pins = Pins {
            pa0: Pin { port: 0, index: 0, _mode: PhantomData },
            pa1: Pin { port: 0, index: 1, _mode: PhantomData },
            pa2: Pin { port: 0, index: 2, _mode: PhantomData },
            pa3: Pin { port: 0, index: 3, _mode: PhantomData },
            pa4: Pin { port: 0, index: 4, _mode: PhantomData },
            pa5: Pin { port: 0, index: 5, _mode: PhantomData },
            pa6: Pin { port: 0, index: 6, _mode: PhantomData },
            pa7: Pin { port: 0, index: 7, _mode: PhantomData },
            pa8: Pin { port: 0, index: 8, _mode: PhantomData },
            pa9: Pin { port: 0, index: 9, _mode: PhantomData },
            pa10: Pin { port: 0, index: 10, _mode: PhantomData },
            pa11: Pin { port: 0, index: 11, _mode: PhantomData },
            pa12: Pin { port: 0, index: 12, _mode: PhantomData },
            pa13: Pin { port: 0, index: 13, _mode: PhantomData },
            pa14: Pin { port: 0, index: 14, _mode: PhantomData },
            pa15: Pin { port: 0, index: 15, _mode: PhantomData },
            pb0: Pin { port: 1, index: 0, _mode: PhantomData },
            pb1: Pin { port: 1, index: 1, _mode: PhantomData },
            pb2: Pin { port: 1, index: 2, _mode: PhantomData },
            pb3: Pin { port: 1, index: 3, _mode: PhantomData },
            pb4: Pin { port: 1, index: 4, _mode: PhantomData },
            pb5: Pin { port: 1, index: 5, _mode: PhantomData },
            pb6: Pin { port: 1, index: 6, _mode: PhantomData },
            pb7: Pin { port: 1, index: 7, _mode: PhantomData },
            pb8: Pin { port: 1, index: 8, _mode: PhantomData },
            pb9: Pin { port: 1, index: 9, _mode: PhantomData },
            pb10: Pin { port: 1, index: 10, _mode: PhantomData },
            pb11: Pin { port: 1, index: 11, _mode: PhantomData },
            pb12: Pin { port: 1, index: 12, _mode: PhantomData },
            pb13: Pin { port: 1, index: 13, _mode: PhantomData },
            pb14: Pin { port: 1, index: 14, _mode: PhantomData },
            pb15: Pin { port: 1, index: 15, _mode: PhantomData },
            pc0: Pin { port: 2, index: 0, _mode: PhantomData },
            pc1: Pin { port: 2, index: 1, _mode: PhantomData },
            pc2: Pin { port: 2, index: 2, _mode: PhantomData },
            pc3: Pin { port: 2, index: 3, _mode: PhantomData },
            pc4: Pin { port: 2, index: 4, _mode: PhantomData },
            pc5: Pin { port: 2, index: 5, _mode: PhantomData },
            pc6: Pin { port: 2, index: 6, _mode: PhantomData },
            pc7: Pin { port: 2, index: 7, _mode: PhantomData },
            pc8: Pin { port: 2, index: 8, _mode: PhantomData },
            pc9: Pin { port: 2, index: 9, _mode: PhantomData },
            pc10: Pin { port: 2, index: 10, _mode: PhantomData },
            pc11: Pin { port: 2, index: 11, _mode: PhantomData },
            pc12: Pin { port: 2, index: 12, _mode: PhantomData },
            pc13: Pin { port: 2, index: 13, _mode: PhantomData },
            pc14: Pin { port: 2, index: 14, _mode: PhantomData },
            pc15: Pin { port: 2, index: 15, _mode: PhantomData },
            pd0: Pin { port: 3, index: 0, _mode: PhantomData },
            pd1: Pin { port: 3, index: 1, _mode: PhantomData },
            pd2: Pin { port: 3, index: 2, _mode: PhantomData },
            pd3: Pin { port: 3, index: 3, _mode: PhantomData },
            pd4: Pin { port: 3, index: 4, _mode: PhantomData },
            pd5: Pin { port: 3, index: 5, _mode: PhantomData },
            pd6: Pin { port: 3, index: 6, _mode: PhantomData },
            pd7: Pin { port: 3, index: 7, _mode: PhantomData },
            pd8: Pin { port: 3, index: 8, _mode: PhantomData },
            pd9: Pin { port: 3, index: 9, _mode: PhantomData },
            pd10: Pin { port: 3, index: 10, _mode: PhantomData },
            pd11: Pin { port: 3, index: 11, _mode: PhantomData },
            pd12: Pin { port: 3, index: 12, _mode: PhantomData },
            pd13: Pin { port: 3, index: 13, _mode: PhantomData },
            pd14: Pin { port: 3, index: 14, _mode: PhantomData },
            pd15: Pin { port: 3, index: 15, _mode: PhantomData },
            pe0: Pin { port: 4, index: 0, _mode: PhantomData },
            pe1: Pin { port: 4, index: 1, _mode: PhantomData },
            pe2: Pin { port: 4, index: 2, _mode: PhantomData },
            pe3: Pin { port: 4, index: 3, _mode: PhantomData },
            pe4: Pin { port: 4, index: 4, _mode: PhantomData },
            pe5: Pin { port: 4, index: 5, _mode: PhantomData },
            pe6: Pin { port: 4, index: 6, _mode: PhantomData },
            pe7: Pin { port: 4, index: 7, _mode: PhantomData },
            pe8: Pin { port: 4, index: 8, _mode: PhantomData },
            pe9: Pin { port: 4, index: 9, _mode: PhantomData },
            pe10: Pin { port: 4, index: 10, _mode: PhantomData },
            pe11: Pin { port: 4, index: 11, _mode: PhantomData },
            pe12: Pin { port: 4, index: 12, _mode: PhantomData },
            pe13: Pin { port: 4, index: 13, _mode: PhantomData },
            pe14: Pin { port: 4, index: 14, _mode: PhantomData },
            pe15: Pin { port: 4, index: 15, _mode: PhantomData },
            pf0: Pin { port: 5, index: 0, _mode: PhantomData },
            pf1: Pin { port: 5, index: 1, _mode: PhantomData },
            pf2: Pin { port: 5, index: 2, _mode: PhantomData },
            pf3: Pin { port: 5, index: 3, _mode: PhantomData },
            pf4: Pin { port: 5, index: 4, _mode: PhantomData },
            pf5: Pin { port: 5, index: 5, _mode: PhantomData },
            pf6: Pin { port: 5, index: 6, _mode: PhantomData },
            pf7: Pin { port: 5, index: 7, _mode: PhantomData },
            pf8: Pin { port: 5, index: 8, _mode: PhantomData },
            pf9: Pin { port: 5, index: 9, _mode: PhantomData },
            pf10: Pin { port: 5, index: 10, _mode: PhantomData },
            pf11: Pin { port: 5, index: 11, _mode: PhantomData },
            pf12: Pin { port: 5, index: 12, _mode: PhantomData },
            pf13: Pin { port: 5, index: 13, _mode: PhantomData },
            pf14: Pin { port: 5, index: 14, _mode: PhantomData },
            pf15: Pin { port: 5, index: 15, _mode: PhantomData },
        };
        (self.gpio, pins)
    }
}

/// Splitting yields exactly one token per pin: no two tokens name the same pin, and every pin of
/// the device is named by a token.
pub proof fn lemma_split_one_token_per_pin(pins: &Pins)
    requires
        forall|k: int| 0 <= k < NUM_PINS ==> pin_ok(#[trigger] pins.ids()[k]) && pin_number(pins.ids()[k]) == k,
    ensures
        forall|k: int, l: int|
            0 <= k < NUM_PINS && 0 <= l < NUM_PINS && #[trigger] pins.ids()[k] == #[trigger] pins.ids()[l] ==> k == l,
        forall|id: (nat, nat)| pin_ok(id) ==> #[trigger] pins.ids()[pin_number(id) as int] == id,
{
    assert forall|id: (nat, nat)| pin_ok(id) implies #[trigger] pins.ids()[pin_number(id) as int] == id by {
        let k = pin_number(id) as int;
        assert(0 <= k < NUM_PINS);
        let other = pins.ids()[k];
        assert(pin_ok(other) && pin_number(other) == k);
    }
}

/// A mode field written at one position of a word reads back at that position, and the fields at
/// every other position keep their values.
proof fn lemma_set_field(word: u32, shift: u32, other: u32, mode: u32)
    requires
        shift <= 28,
        other <= 28,
        shift % 4 == 0,
        other % 4 == 0,
        mode < 16,
    ensures
        (set_field(word, shift, mode) >> shift) & 0xF == mode,
        other != shift ==> (set_field(word, shift, mode) >> other) & 0xF == (word >> other) & 0xF,
{
    assert((((word & !(0xFu32 << shift)) | (mode << shift)) >> shift) & 0xF == mode) by (bit_vector)
        requires
            shift <= 28,
            mode < 16,
    ;
    if other != shift {
        assert((((word & !(0xFu32 << shift)) | (mode << shift)) >> other) & 0xF == (word >> other) & 0xF)
            by (bit_vector)
            requires
                shift <= 28,
                other <= 28,
                shift % 4 == 0,
                other % 4 == 0,
                mode < 16,
                other != shift,
        ;
    }
}

/// A transition of one pin gives that pin the new mode (and the new output level where it writes
/// one) and leaves the mode field and output-data bit of every other pin of the port unchanged.
pub proof fn lemma_transition_touches_only_its_pin(p: PortRegisters, index: u32, mode: u32, dout: DoutWrite, other: u32)
    requires
        index < 16,
        other < 16,
        mode < 16,
    ensures
        mode_of(configured(p, index, mode, dout), index) == mode,
        dout == DoutWrite::High ==> bit_of(configured(p, index, mode, dout).dout, index),
        dout == DoutWrite::Low ==> !bit_of(configured(p, index, mode, dout).dout, index),
        dout == DoutWrite::Keep ==> configured(p, index, mode, dout).dout == p.dout,
        other != index ==> mode_of(configured(p, index, mode, dout), other) == mode_of(p, other)
            && bit_of(configured(p, index, mode, dout).dout, other) == bit_of(p.dout, other),
{
    if index < 8 {
        let o: u32 = if other < 8 { (4 * other) as u32 } else { 0 };
        lemma_set_field(p.model, (4 * index) as u32, o, mode);
    } else {
        let o: u32 = if other >= 8 { (4 * (other - 8)) as u32 } else { 0 };
        lemma_set_field(p.modeh, (4 * (index - 8)) as u32, o, mode);
    }
    let q = with_mode(p, index, mode);
    assert(q.dout == p.dout);
    match dout {
        DoutWrite::Keep => {},
        DoutWrite::Low => {
            lemma_alias_store_single_bit(q.dout, index, false);
        },
        DoutWrite::High => {
            lemma_alias_store_single_bit(q.dout, index, true);
        },
    }
}

/// Writing a mode into a four-bit field that held zero, and then zero again, restores the word.
proof fn lemma_field_round_trip(word: u32, shift: u32, mode: u32)
    requires
        shift <= 28,
        mode < 16,
        (word >> shift) & 0xF == 0,
    ensures
        set_field(set_field(word, shift, mode), shift, 0) == word,
{
    assert(((((word & !(0xFu32 << shift)) | (mode << shift)) & !(0xFu32 << shift)) | (0u32 << shift)) == word)
        by (bit_vector)
        requires
            shift <= 28,
            mode < 16,
            (word >> shift) & 0xF == 0,
    ;
}

/// Any output-data write followed by the write that restores the bit's original level restores
/// the word.
proof fn lemma_dout_round_trip(word: u32, index: u32, dout: DoutWrite, level: bool)
    requires
        index < 16,
        bit_of(word, index) == level,
    ensures
        with_dout(with_dout(word, index, dout), index, if level { DoutWrite::High } else { DoutWrite::Low }) == word,
{
    let mid = with_dout(word, index, dout);
    if level {
        assert((mid | (1u32 << index)) == word) by (bit_vector)
            requires
                index < 16,
                (word >> index) & 1 == 1,
                mid == word || mid == (word | (1u32 << index)) || mid == (word & !(1u32 << index)),
        ;
    } else {
        assert((mid & !(1u32 << index)) == word) by (bit_vector)
            requires
                index < 16,
                (word >> index) & 1 != 1,
                mid == word || mid == (word | (1u32 << index)) || mid == (word & !(1u32 << index)),
        ;
    }
}

/// A disabled pin that is moved into any configuration and then back into its disabled state
/// (`into_disabled` for a floating pin, `into_disabled_pulled_up` for a pulled-up one) leaves every
/// register of the device exactly as it was before.
pub proof fn lemma_disabled_round_trip(regs: Seq<PortRegisters>, id: (nat, nat), mode: u32, dout: DoutWrite, pulled_up: bool)
    requires
        regs.len() == NUM_PORTS,
        pin_ok(id),
        mode < 16,
        pin_state(regs[id.0 as int], id.1 as u32, MODE_DISABLED, pulled_up),
    ensures
        configure(
            configure(regs, id, mode, dout),
            id,
            MODE_DISABLED,
            if pulled_up { DoutWrite::High } else { DoutWrite::Low },
        ) == regs,
{
    let p = regs[id.0 as int];
    let index = id.1 as u32;
    let back = if pulled_up { DoutWrite::High } else { DoutWrite::Low };
    let q = configured(p, index, mode, dout);
    let r = configured(q, index, MODE_DISABLED, back);
    if index < 8 {
        lemma_field_round_trip(p.model, (4 * index) as u32, mode);
    } else {
        lemma_field_round_trip(p.modeh, (4 * (index - 8)) as u32, mode);
    }
    lemma_dout_round_trip(p.dout, index, dout, pulled_up);
    assert(r == p);
    assert(configure(configure(regs, id, mode, dout), id, MODE_DISABLED, back) =~= regs);
}

} // verus!
