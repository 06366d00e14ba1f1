use efm32gg_hal::cmu::{CMUExt, CmuRegisters, I2C0_CLOCK_BIT};
use efm32gg_hal::gpio::{GPIOExt, GpioRegisters};
use efm32gg_hal::i2c::{BusAction, Error, I2CExt, I2cRegisters, Phase, ReadTransfer, WriteTransfer};
use efm32gg_hal::systick::{SystRegisters, SystickDelay, SystickExt};
use efm32gg_hal::watchdog::{Watchdog, WdogRegisters};

fn delay() -> SystickDelay {
    let clocks = CmuRegisters::reset().constrain().split();
    SystickDelay::new(SystRegisters::reset().constrain(), clocks.hfcoreclk)
}

#[test]
fn delay_selects_core_clock() {
    let d = delay();
    assert_eq!(d.registers().csr(), 0x4);
}

#[test]
fn delay_one_second_fits_counter() {
    let d = delay();
    assert_eq!(d.ticks_for_us(1_000_000), Some(14_000_000));
    assert!(14_000_000 < (1u32 << 24));
}

#[test]
fn delay_beyond_counter_is_rejected() {
    let d = delay();
    assert_eq!(d.ticks_for_us(1_200_000), None);
    assert_eq!(d.ticks_for_us(u32::MAX), None);
    assert_eq!(d.ticks_for_us(1_198_373), None);
    assert_eq!(d.ticks_for_us(1_198_372), Some(16_777_208));
}

#[test]
fn delay_milliseconds() {
    let d = delay();
    assert_eq!(d.ticks_for_ms(1000), Some(14_000_000));
    assert_eq!(d.ticks_for_ms(2000), None);
    assert_eq!(d.ticks_for_ms(0), Some(0));
}

#[test]
fn delay_programs_counter() {
    let mut d = delay();
    d.begin_delay_us(10);
    assert_eq!(d.registers().rvr(), 140);
    assert_eq!(d.registers().cvr(), 0);
    assert_eq!(d.registers().csr(), 0x5);
    d.end_delay();
    assert_eq!(d.registers().csr(), 0x4);
    d.begin_delay_ms(2);
    assert_eq!(d.registers().rvr(), 28_000);
}

#[test]
fn i2c_write_one_byte_on_idle_bus() {
    let mut t = WriteTransfer::new(0x50, &[0x42]);
    assert_eq!(t.step(0), BusAction::Start);
    assert_eq!(t.step(0x13), BusAction::Wait);
    assert_eq!(t.step(0x57), BusAction::Transmit(0xA0));
    assert_eq!(t.step(0x57), BusAction::Wait);
    assert_eq!(t.step(0x97), BusAction::Transmit(0x42));
    assert_eq!(t.step(0xd7), BusAction::Stop);
    assert_eq!(t.step(0xd3), BusAction::Wait);
    assert_eq!(t.step(0), BusAction::Done(Ok(())));
    assert_eq!(t.current_phase(), Phase::Finished(Ok(())));
}

#[test]
fn i2c_write_address_nack_stops_bus() {
    let mut t = WriteTransfer::new(0x50, &[0x42]);
    assert_eq!(t.step(0), BusAction::Start);
    assert_eq!(t.step(0x57), BusAction::Transmit(0xA0));
    assert_eq!(t.step(0x9f), BusAction::Stop);
    assert_eq!(t.step(0x9f), BusAction::Wait);
    assert_eq!(t.step(0), BusAction::Done(Err(Error::AddressNack)));
}

#[test]
fn i2c_write_data_nack() {
    let mut t = WriteTransfer::new(0x10, &[1, 2]);
    t.step(0);
    assert_eq!(t.step(0x53), BusAction::Transmit(0x20));
    assert_eq!(t.step(0x97), BusAction::Transmit(1));
    assert_eq!(t.step(0xdf), BusAction::Stop);
    assert_eq!(t.step(1), BusAction::Done(Err(Error::DataNack)));
}

#[test]
fn i2c_write_errors() {
    let mut busy = WriteTransfer::new(0x10, &[1]);
    assert_eq!(busy.step(0x57), BusAction::Done(Err(Error::NotReady)));
    let mut lost = WriteTransfer::new(0x10, &[1]);
    lost.step(0);
    lost.step(0x57);
    assert_eq!(lost.step(1), BusAction::Done(Err(Error::ArbitrationLost)));
}

#[test]
fn i2c_read_two_bytes() {
    let mut t = ReadTransfer::new(0x50, &[0xEE, 0xEE]);
    assert_eq!(t.step(0, 0), BusAction::Start);
    assert_eq!(t.step(0x57, 0), BusAction::Transmit(0xA1));
    assert_eq!(t.step(0x93, 0), BusAction::Wait);
    assert_eq!(t.step(0xb3, 0x11), BusAction::Ack);
    assert_eq!(t.step(0xb3, 0x22), BusAction::Nack);
    assert_eq!(t.step(0xb3, 0), BusAction::Stop);
    assert_eq!(t.step(0, 0), BusAction::Done(Ok(())));
    assert_eq!(t.received(), &[0x11, 0x22]);
}

#[test]
fn i2c_read_address_nack() {
    let mut t = ReadTransfer::new(0x50, &[0x5A]);
    t.step(0, 0);
    t.step(0x57, 0);
    assert_eq!(t.step(0x9b, 0), BusAction::Stop);
    assert_eq!(t.step(0, 0), BusAction::Done(Err(Error::AddressNack)));
    assert_eq!(t.received(), &[0x5A]);
}

#[test]
fn i2c_read_not_ready_keeps_buffer() {
    let mut t = ReadTransfer::new(0x50, &[1, 2, 3]);
    assert_eq!(t.step(0x57, 9), BusAction::Done(Err(Error::NotReady)));
    assert_eq!(t.received(), &[1, 2, 3]);
}

#[test]
fn i2c_read_arbitration_lost_keeps_bytes_not_received() {
    let mut t = ReadTransfer::new(0x50, &[1, 2, 3]);
    t.step(0, 0);
    t.step(0x57, 0);
    assert_eq!(t.step(0xb3, 0x77), BusAction::Ack);
    assert_eq!(t.step(1, 0x99), BusAction::Done(Err(Error::ArbitrationLost)));
    assert_eq!(t.received(), &[0x77, 2, 3]);
}

#[test]
fn i2c_setup_routes_both_lines() {
    let clocks = CmuRegisters::reset().constrain().split();
    let mut gates = clocks.gates;
    let (mut gpio, pins) = GpioRegisters::reset().split(clocks.gpio, &mut gates).split();
    let i2c = I2cRegisters::reset().with_clock(clocks.i2c0, &mut gates);
    assert!(gates.is_enabled(I2C0_CLOCK_BIT));
    let i2c = i2c.with_scl(15, pins.pc11).ok().unwrap();
    let i2c = i2c.with_sda(15, pins.pc10, &mut gpio).ok().unwrap();
    let regs = i2c.registers();
    assert_eq!(regs.clkdiv(), 20);
    assert_eq!(regs.ctrl(), 1);
    assert_eq!(regs.routeloc0(), 15 | (15 << 8));
    assert_eq!(regs.routepen(), 3);
    assert_eq!(regs.cmd(), 1 << 5);
    assert_eq!(gpio.port(2).modeh, (0x8 << 8) | (0x8 << 12));
}

#[test]
fn i2c_setup_rejects_other_routes() {
    let clocks = CmuRegisters::reset().constrain().split();
    let mut gates = clocks.gates;
    let (gpio, pins) = GpioRegisters::reset().split(clocks.gpio, &mut gates).split();
    let i2c = I2cRegisters::reset().with_clock(clocks.i2c0, &mut gates);
    assert!(i2c.with_scl(14, pins.pc11).is_err());
    let _ = gpio;
    let clocks = CmuRegisters::reset().constrain().split();
    let mut gates = clocks.gates;
    let (mut gpio, pins) = GpioRegisters::reset().split(clocks.gpio, &mut gates).split();
    let i2c = I2cRegisters::reset().with_clock(clocks.i2c0, &mut gates);
    let i2c = i2c.with_scl(15, pins.pc11).ok().unwrap();
    assert!(i2c.with_sda(3, pins.pc10, &mut gpio).is_err());
    assert_eq!(gpio.port(2).modeh, 0);
}

#[test]
fn watchdog_feed_and_disable() {
    let mut w = Watchdog::new(WdogRegisters::from_ctrl(0x0F01));
    w.feed();
    w.disable();
    let regs = w.free();
    assert_eq!(regs.cmd(), 1);
    assert_eq!(regs.ctrl(), 0);
}
