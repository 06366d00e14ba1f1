//! I2C0: setup and blocking master transfers.
//!
//! The setup follows the register layout of the EFR32xG1 series, where each bus line has its own
//! route location (ROUTELOC0) and its own route enable bit (ROUTEPEN); the older EFM32 devices
//! with a single per-peripheral ROUTE register are not covered.
//!
//! The register block is turned into a [`ConfiguredI2C0`] by a chain of calls that enable the
//! clock, check the route of each bus line and configure the pins. A transfer is a state machine
//! that is handed the bus state register, one reading at a time, and answers with the next bus
//! action; whoever drives the hardware performs the action and reads the state again. Every error
//! but a lost arbitration is returned only after a stop condition has brought the bus back to idle.
use vstd::prelude::*;

use crate::cmu::{with_gate, CmuRegisters, I2C0Clk, I2C0_CLOCK_BIT};
use crate::gpio::{
    configure, Disabled, DoutWrite, Floating, Gpio, Normal, Output, Pin, WiredAnd, MODE_WIREDAND,
};

verus! {

/// Clock divider that the bus runs with.
pub const CLKDIV: u32 = 20;
/// Control register: peripheral enable.
pub const CTRL_EN: u32 = 0x1;
/// Command register: abort whatever is going on.
pub const CMD_ABORT: u32 = 0x20;
/// The only route location of the bus lines that this library supports.
pub const ROUTE_LOC: u8 = 15;
/// Route pin enable register: both lines enabled.
pub const ROUTEPEN_BOTH: u32 = 0x3;
/// Port of the clock line's pin (port C).
pub const SCL_PORT: u8 = 2;
/// Index of the clock line's pin (PC11).
pub const SCL_INDEX: u8 = 11;
/// Port of the data line's pin (port C).
pub const SDA_PORT: u8 = 2;
/// Index of the data line's pin (PC10).
pub const SDA_INDEX: u8 = 10;

/// Bus state: start condition sent, ready for the address.
pub const STATE_START_SENT: u32 = 0x57;
/// Bus state: start condition sent, before the peripheral knows it will transmit.
pub const STATE_START_SENT_EARLY: u32 = 0x53;
/// Bus state: address sent and acknowledged (writing).
pub const STATE_ADDR_ACK: u32 = 0x97;
/// Bus state: address sent and not acknowledged (writing).
pub const STATE_ADDR_NACK: u32 = 0x9f;
/// Bus state: data byte sent and acknowledged.
pub const STATE_DATA_ACK: u32 = 0xd7;
/// Bus state: data byte sent and not acknowledged.
pub const STATE_DATA_NACK: u32 = 0xdf;
/// Bus state: address sent and not acknowledged (reading).
pub const STATE_READ_ADDR_NACK: u32 = 0x9b;
/// Bus state: a received byte is waiting in the receive register.
pub const STATE_RX_READY: u32 = 0xb3;
/// Bus state: busy, another master holds the bus.
pub const STATE_BUSY: u32 = 1;

/// Error conditions a read or write operation can end with.
#[derive(Clone, Copy, Debug, PartialEq, Eq)]
pub enum Error {
    /// The bus was neither idle nor busy when the operation started.
    NotReady,
    /// Arbitration was lost during transmission: another master took control of the bus.
    ArbitrationLost,
    /// The address sent was not acknowledged by any recipient.
    AddressNack,
    /// A byte sent was not acknowledged by the recipient.
    DataNack,
}

/// What the hardware is to do next in a transfer.
#[derive(Clone, Copy, Debug, PartialEq, Eq)]
pub enum BusAction {
    /// Send a start condition.
    Start,
    /// Write the byte to the transmit register.
    Transmit(u8),
    /// Acknowledge the byte just received.
    Ack,
    /// Do not acknowledge the byte just received (it was the last one).
    Nack,
    /// Send a stop condition.
    Stop,
    /// Nothing to do; read the state again.
    Wait,
    /// The transfer is over, with this outcome.
    Done(Result<(), Error>),
}

/// Where a transfer stands.
#[derive(Clone, Copy, Debug, PartialEq, Eq)]
pub enum Phase {
    /// Nothing sent yet.
    Begin,
    /// Start condition requested; waiting until it is on the bus.
    AwaitStart,
    /// `n` bytes (writing) or received bytes (reading) done; waiting for the next acknowledgement
    /// or byte.
    AwaitAck(usize),
    /// A stop condition is to be sent next; the transfer then ends with this outcome.
    StopNext(Result<(), Error>),
    /// Stop condition sent; waiting for the bus to become idle.
    Stopping(Result<(), Error>),
    /// Over, with this outcome.
    Finished(Result<(), Error>),
}

/// The phase and action that follow a stop condition, or a finished transfer.
pub open spec fn common_next(phase: Phase, state: u32) -> (Phase, BusAction) {
    match phase {
        Phase::StopNext(res) => (Phase::Stopping(res), BusAction::Stop),
        Phase::Stopping(res) => if state > 1 {
            (Phase::Stopping(res), BusAction::Wait)
        } else {
            (Phase::Finished(res), BusAction::Done(res))
        },
        Phase::Finished(res) => (Phase::Finished(res), BusAction::Done(res)),
        _ => (phase, BusAction::Wait),
    }
}

/// The step of a write transfer of `bytes` to address `addr` in phase `phase`, when the bus
/// state register reads `state`.
pub open spec fn write_next(phase: Phase, addr: u8, bytes: Seq<u8>, state: u32) -> (Phase, BusAction) {
    match phase {
        Phase::Begin => if state > 1 {
            (Phase::Finished(Err(Error::NotReady)), BusAction::Done(Err(Error::NotReady)))
        } else {
            (Phase::AwaitStart, BusAction::Start)
        },
        Phase::AwaitStart => if state == STATE_START_SENT_EARLY || state == STATE_START_SENT {
            (Phase::AwaitAck(0), BusAction::Transmit((addr << 1u8) as u8))
        } else {
            (Phase::AwaitStart, BusAction::Wait)
        },
        Phase::AwaitAck(n) => {
            let nack = if n == 0 { STATE_ADDR_NACK } else { STATE_DATA_NACK };
            let ack = if n == 0 { STATE_ADDR_ACK } else { STATE_DATA_ACK };
            let err = if n == 0 { Error::AddressNack } else { Error::DataNack };
            if state == STATE_BUSY {
                (Phase::Finished(Err(Error::ArbitrationLost)), BusAction::Done(Err(Error::ArbitrationLost)))
            } else if state == nack {
                (Phase::Stopping(Err(err)), BusAction::Stop)
            } else if state == ack {
                if n < bytes.len() {
                    (Phase::AwaitAck((n + 1) as usize), BusAction::Transmit(bytes[n as int]))
                } else {
                    (Phase::Stopping(Ok(())), BusAction::Stop)
                }
            } else {
                (phase, BusAction::Wait)
            }
        },
        _ => common_next(phase, state),
    }
}

/// The step of a read transfer of `len` bytes from address `addr` in phase `phase`, when the bus
/// state register reads `state`.
pub open spec fn read_next(phase: Phase, addr: u8, len: nat, state: u32) -> (Phase, BusAction) {
    match phase {
        Phase::Begin => if state > 1 {
            (Phase::Finished(Err(Error::NotReady)), BusAction::Done(Err(Error::NotReady)))
        } else {
            (Phase::AwaitStart, BusAction::Start)
        },
        Phase::AwaitStart => if state == STATE_START_SENT_EARLY || state == STATE_START_SENT {
            (
                if len == 0 { Phase::StopNext(Ok(())) } else { Phase::AwaitAck(0) },
                BusAction::Transmit(((addr << 1u8) | 1u8) as u8),
            )
        } else {
            (Phase::AwaitStart, BusAction::Wait)
        },
        Phase::AwaitAck(n) => if state == STATE_BUSY {
            (Phase::Finished(Err(Error::ArbitrationLost)), BusAction::Done(Err(Error::ArbitrationLost)))
        } else if state == STATE_READ_ADDR_NACK {
            (Phase::Stopping(Err(Error::AddressNack)), BusAction::Stop)
        } else if state == STATE_RX_READY {
            if n + 1 >= len {
                (Phase::StopNext(Ok(())), BusAction::Nack)
            } else {
                (Phase::AwaitAck((n + 1) as usize), BusAction::Ack)
            }
        } else {
            (phase, BusAction::Wait)
        },
        _ => common_next(phase, state),
    }
}

/// The buffer of a read of `len` bytes after a step in phase `phase` with bus state `state`: the
/// received byte `rxdata` is stored where a byte is waiting.
pub open spec fn read_buffer_next(phase: Phase, data: Seq<u8>, state: u32, rxdata: u8) -> Seq<u8> {
    match phase {
        Phase::AwaitAck(n) => if state == STATE_RX_READY && n < data.len() {
            data.update(n as int, rxdata)
        } else {
            data
        },
        _ => data,
    }
}

/// An error that a transfer reports only once it has stopped and the bus is idle again.
pub open spec fn is_nack(res: Result<(), Error>) -> bool {
    res == Err::<(), Error>(Error::AddressNack) || res == Err::<(), Error>(Error::DataNack)
}

/// The registers of I2C0 that the setup writes, as the contracts speak of them.
pub struct I2cView {
    pub clkdiv: u32,
    pub ctrl: u32,
    pub cmd: u32,
    pub routepen: u32,
    pub routeloc0: u32,
}

/// Image of the I2C0 registers that the setup writes.
pub struct I2cRegisters {
    clkdiv: u32,
    ctrl: u32,
    cmd: u32,
    routepen: u32,
    routeloc0: u32,
}

impl View for I2cRegisters {
    type V = I2cView;

    closed spec fn view(&self) -> I2cView {
        I2cView {
            clkdiv: self.clkdiv,
            ctrl: self.ctrl,
            cmd: self.cmd,
            routepen: self.routepen,
            routeloc0: self.routeloc0,
        }
    }
}

impl I2cRegisters {
    /// The registers as they are after reset: all zero.
    pub fn reset() -> (r: I2cRegisters)
        ensures
            r@ == (I2cView { clkdiv: 0, ctrl: 0, cmd: 0, routepen: 0, routeloc0: 0 }),
    {
        I2cRegisters { clkdiv: 0, ctrl: 0, cmd: 0, routepen: 0, routeloc0: 0 }
    }

    /// Clock divider register.
    pub fn clkdiv(&self) -> (r: u32)
        ensures
            r == self@.clkdiv,
    {
        self.clkdiv
    }

    /// Control register.
    pub fn ctrl(&self) -> (r: u32)
        ensures
            r == self@.ctrl,
    {
        self.ctrl
    }

    /// The last value written to the command register.
    pub fn cmd(&self) -> (r: u32)
        ensures
            r == self@.cmd,
    {
        self.cmd
    }

    /// Route pin enable register.
    pub fn routepen(&self) -> (r: u32)
        ensures
            r == self@.routepen,
    {
        self.routepen
    }

    /// Route location register.
    pub fn routeloc0(&self) -> (r: u32)
        ensures
            r == self@.routeloc0,
    {
        self.routeloc0
    }
}

/// Attaches a clock to an I2C peripheral.
pub trait I2CExt<Clk, WithClock> {
    fn with_clock(self, clock: Clk, gates: &mut CmuRegisters) -> WithClock;
}

impl I2CExt<I2C0Clk, I2C0WithClock> for I2cRegisters {
    /// Enables the clock, sets the clock divider and enables the peripheral.
    fn with_clock(self, clock: I2C0Clk, gates: &mut CmuRegisters) -> (r: I2C0WithClock)
        ensures
            r@ == (I2cView { clkdiv: CLKDIV, ctrl: CTRL_EN, ..self@ }),
            final(gates)@ == with_gate(old(gates)@, I2C0_CLOCK_BIT),
    {
        let mut clock = clock;
        clock.enable(gates);
        let mut reg = self;
        reg.clkdiv = CLKDIV;
        reg.ctrl = CTRL_EN;
        I2C0WithClock { reg, clock }
    }
}

/// I2C0 with its clock running, before its bus lines are routed.
pub struct I2C0WithClock {
    reg: I2cRegisters,
    clock: I2C0Clk,
}

impl View for I2C0WithClock {
    type V = I2cView;

    closed spec fn view(&self) -> I2cView {
        self.reg@
    }
}

impl I2C0WithClock {
    /// Takes the clock line's route location and pin (PC11). Only location 15 is supported; any
    /// other gives `Err`. Nothing is written yet: the route is set once the data line is known.
    pub fn with_scl(self, route: u8, scl: Pin<Disabled<Floating>>) -> (r: Result<I2C0WithScl, ()>)
        requires
            scl@ == (SCL_PORT as nat, SCL_INDEX as nat),
        ensures
            r is Ok <==> route == ROUTE_LOC,
            r matches Ok(w) ==> w@ == self@ && w.scl_route() == route && w.scl_pin() == scl@,
    {
        if route != ROUTE_LOC {
            return Err(());
        }
        Ok(I2C0WithScl { reg: self.reg, clock: self.clock, sclpin: scl, sclroute: route })
    }
}

/// I2C0 with its clock line chosen.
pub struct I2C0WithScl {
    reg: I2cRegisters,
    clock: I2C0Clk,
    sclpin: Pin<Disabled<Floating>>,
    sclroute: u8,
}

impl View for I2C0WithScl {
    type V = I2cView;

    closed spec fn view(&self) -> I2cView {
        self.reg@
    }
}

impl I2C0WithScl {
    pub closed spec fn scl_route(&self) -> u8 {
        self.sclroute
    }

    pub closed spec fn scl_pin(&self) -> (nat, nat) {
        self.sclpin@
    }

    /// Takes the data line's route location and pin (PC10). Only location 15 is supported; any
    /// other gives `Err` and writes nothing. Otherwise both route locations are written and
    /// enabled, both pins become open-drain outputs, and a pending bus operation is aborted.
    pub fn with_sda(self, route: u8, sda: Pin<Disabled<Floating>>, gpio: &mut Gpio) -> (r: Result<ConfiguredI2C0, ()>)
        requires
            sda@ == (SDA_PORT as nat, SDA_INDEX as nat),
        ensures
            r is Ok <==> route == ROUTE_LOC,
            r is Err ==> final(gpio)@ == old(gpio)@,
            r matches Ok(c) ==> c@ == (I2cView {
                routeloc0: (route as u32) | ((self.scl_route() as u32) << 8u32),
                routepen: ROUTEPEN_BOTH,
                cmd: CMD_ABORT,
                ..self@
            }) && final(gpio)@ == configure(
                configure(old(gpio)@, self.scl_pin(), MODE_WIREDAND, DoutWrite::Keep),
                sda@,
                MODE_WIREDAND,
                DoutWrite::Keep,
            ),
    {
        if route != ROUTE_LOC {
            return Err(());
        }
        let mut reg = self.reg;
        reg.routeloc0 = (route as u32) | ((self.sclroute as u32) << 8u32);
        reg.routepen = ROUTEPEN_BOTH;
        let scl = self.sclpin.into_wiredand(gpio);
        let sda = sda.into_wiredand(gpio);
        reg.cmd = CMD_ABORT;
        Ok(ConfiguredI2C0 { reg, clock: self.clock, scl, sda })
    }
}

/// I2C0 ready for transfers; it keeps its clock handle and both bus pins.
pub struct ConfiguredI2C0 {
    reg: I2cRegisters,
    clock: I2C0Clk,
    scl: Pin<Output<WiredAnd<Normal, Floating>>>,
    sda: Pin<Output<WiredAnd<Normal, Floating>>>,
}

impl View for ConfiguredI2C0 {
    type V = I2cView;

    closed spec fn view(&self) -> I2cView {
        self.reg@
    }
}

impl ConfiguredI2C0 {
    /// The registers that the setup wrote.
    pub fn registers(&self) -> (r: &I2cRegisters)
        ensures
            r@ == self@,
    {
        &self.reg
    }
}

fn common_step(phase: Phase, state: u32) -> (r: (Phase, BusAction))
    ensures
        r == common_next(phase, state),
{
    match phase {
        Phase::StopNext(res) => (Phase::Stopping(res), BusAction::Stop),
        Phase::Stopping(res) => if state > 1 {
            (Phase::Stopping(res), BusAction::Wait)
        } else {
            (Phase::Finished(res), BusAction::Done(res))
        },
        Phase::Finished(res) => (Phase::Finished(res), BusAction::Done(res)),
        _ => (phase, BusAction::Wait),
    }
}

/// A write of `bytes` to the device at address `addr`.
pub struct WriteTransfer {
    addr: u8,
    bytes: Vec<u8>,
    phase: Phase,
}

impl WriteTransfer {
    /// A write that has not started yet.
    pub fn new(addr: u8, bytes: &[u8]) -> (r: WriteTransfer)
        ensures
            r.addr() == addr,
            r.bytes() == bytes@,
            r.phase() == Phase::Begin,
    {
        let mut v: Vec<u8> = Vec::new();
        let mut i: usize = 0;
        while i < bytes.len()
            invariant
                i <= bytes@.len(),
                v@ == bytes@.subrange(0, i as int),
            decreases bytes@.len() - i,
        {
            v.push(bytes[i]);
            i = i + 1;
        }
        WriteTransfer { addr, bytes: v, phase: Phase::Begin }
    }

    pub closed spec fn addr(&self) -> u8 {
        self.addr
    }

    pub closed spec fn bytes(&self) -> Seq<u8> {
        self.bytes@
    }

    pub closed spec fn phase(&self) -> Phase {
        self.phase
    }

    /// Where the transfer stands.
    pub fn current_phase(&self) -> (r: Phase)
        ensures
            r == self.phase(),
    {
        self.phase
    }

    /// Advances the transfer by one reading `state` of the bus state register and returns what
    /// the hardware is to do next.
    pub fn step(&mut self, state: u32) -> (r: BusAction)
        ensures
            (final(self).phase(), r) == write_next(old(self).phase(), old(self).addr(), old(self).bytes(), state),
            final(self).addr() == old(self).addr(),
            final(self).bytes() == old(self).bytes(),
            !(old(self).phase() is Finished) ==> (r matches BusAction::Done(res) && is_nack(res) ==> state <= 1),
    {
        let (phase, action) = match self.phase {
            Phase::Begin => if state > 1 {
                (Phase::Finished(Err(Error::NotReady)), BusAction::Done(Err(Error::NotReady)))
            } else {
                (Phase::AwaitStart, BusAction::Start)
            },
            Phase::AwaitStart => if state == STATE_START_SENT_EARLY || state == STATE_START_SENT {
                (Phase::AwaitAck(0), BusAction::Transmit(self.addr << 1u8))
            } else {
                (Phase::AwaitStart, BusAction::Wait)
            },
            Phase::AwaitAck(n) => {
                let nack = if n == 0 { STATE_ADDR_NACK } else { STATE_DATA_NACK };
                let ack = if n == 0 { STATE_ADDR_ACK } else { STATE_DATA_ACK };
                let err = if n == 0 { Error::AddressNack } else { Error::DataNack };
                if state == STATE_BUSY {
                    (Phase::Finished(Err(Error::ArbitrationLost)), BusAction::Done(Err(Error::ArbitrationLost)))
                } else if state == nack {
                    (Phase::Stopping(Err(err)), BusAction::Stop)
                } else if state == ack {
                    if n < self.bytes.len() {
                        (Phase::AwaitAck(n + 1), BusAction::Transmit(self.bytes[n]))
                    } else {
                        (Phase::Stopping(Ok(())), BusAction::Stop)
                    }
                } else {
                    (Phase::AwaitAck(n), BusAction::Wait)
                }
            },
            _ => common_step(self.phase, state),
        };
        self.phase = phase;
        action
    }
}

/// A read of as many bytes as its buffer holds from the device at address `addr`.
pub struct ReadTransfer {
    addr: u8,
    buffer: Vec<u8>,
    phase: Phase,
}

impl ReadTransfer {
    /// A read into a copy of `buffer` that has not started yet. The read fills in the bytes it
    /// receives, in order; every byte that it does not receive keeps its value from `buffer`.
    pub fn new(addr: u8, buffer: &[u8]) -> (r: ReadTransfer)
        ensures
            r.addr() == addr,
            r.data() == buffer@,
            r.phase() == Phase::Begin,
    {
        let mut v: Vec<u8> = Vec::new();
        let mut i: usize = 0;
        while i < buffer.len()
            invariant
                i <= buffer@.len(),
                v@ == buffer@.subrange(0, i as int),
            decreases buffer@.len() - i,
        {
            v.push(buffer[i]);
            i = i + 1;
        }
        ReadTransfer { addr, buffer: v, phase: Phase::Begin }
    }

    pub closed spec fn addr(&self) -> u8 {
        self.addr
    }

    pub closed spec fn data(&self) -> Seq<u8> {
        self.buffer@
    }

    pub closed spec fn phase(&self) -> Phase {
        self.phase
    }

    /// Where the transfer stands.
    pub fn current_phase(&self) -> (r: Phase)
        ensures
            r == self.phase(),
    {
        self.phase
    }

    /// The buffer: the bytes received so far, in order, followed by the bytes of the buffer
    /// handed to [`ReadTransfer::new`] that have not been received.
    pub fn received(&self) -> (r: &[u8])
        ensures
            r@ == self.data(),
    {
        self.buffer.as_slice()
    }

    /// Advances the transfer by one reading `state` of the bus state register, together with the
    /// receive register `rxdata` (which only counts where `state` says a byte is waiting), and
    /// returns what the hardware is to do next.
    pub fn step(&mut self, state: u32, rxdata: u8) -> (r: BusAction)
        ensures
            (final(self).phase(), r) == read_next(old(self).phase(), old(self).addr(), old(self).data().len(), state),
            final(self).addr() == old(self).addr(),
            final(self).data().len() == old(self).data().len(),
            final(self).data() == read_buffer_next(old(self).phase(), old(self).data(), state, rxdata),
            !(old(self).phase() is Finished) ==> (r matches BusAction::Done(res) && is_nack(res) ==> state <= 1),
    {
        let len = self.buffer.len();
        let (phase, action) = match self.phase {
            Phase::Begin => if state > 1 {
                (Phase::Finished(Err(Error::NotReady)), BusAction::Done(Err(Error::NotReady)))
            } else {
                (Phase::AwaitStart, BusAction::Start)
            },
            Phase::AwaitStart => if state == STATE_START_SENT_EARLY || state == STATE_START_SENT {
                (
                    if len == 0 { Phase::StopNext(Ok(())) } else { Phase::AwaitAck(0) },
                    BusAction::Transmit((self.addr << 1u8) | 1u8),
                )
            } else {
                (Phase::AwaitStart, BusAction::Wait)
            },
            Phase::AwaitAck(n) => if state == STATE_BUSY {
                (Phase::Finished(Err(Error::ArbitrationLost)), BusAction::Done(Err(Error::ArbitrationLost)))
            } else if state == STATE_READ_ADDR_NACK {
                (Phase::Stopping(Err(Error::AddressNack)), BusAction::Stop)
            } else if state == STATE_RX_READY {
                if n < len {
                    self.buffer.set(n, rxdata);
                }
                if n >= len || len - n <= 1 {
                    (Phase::StopNext(Ok(())), BusAction::Nack)
                } else {
                    (Phase::AwaitAck(n + 1), BusAction::Ack)
                }
            } else {
                (Phase::AwaitAck(n), BusAction::Wait)
            },
            _ => common_step(self.phase, state),
        };
        self.phase = phase;
        action
    }
}

} // verus!
