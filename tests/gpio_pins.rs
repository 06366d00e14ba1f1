use efm32gg_hal::bitband::ref_to_bitband;
use efm32gg_hal::cmu::{CmuRegisters, CMUExt, GPIO_CLOCK_BIT};
use efm32gg_hal::gpio::{DriveMode, GPIOExt, Gpio, GpioRegisters, PortRegisters, Pins};

fn setup() -> (Gpio, Pins, CmuRegisters) {
    let clocks = CmuRegisters::reset().constrain().split();
    let mut gates = clocks.gates;
    let ports = GpioRegisters::reset().split(clocks.gpio, &mut gates);
    let (gpio, pins) = ports.split();
    (gpio, pins, gates)
}

#[test]
fn split_enables_gpio_clock() {
    let (_gpio, _pins, gates) = setup();
    assert_eq!(gates.bits(), 1 << GPIO_CLOCK_BIT);
}

#[test]
fn split_gives_each_pin_once() {
    let (_gpio, pins, _) = setup();
    let ids = [
        (pins.pa0.port(), pins.pa0.index()),
        (pins.pa15.port(), pins.pa15.index()),
        (pins.pb0.port(), pins.pb0.index()),
        (pins.pc10.port(), pins.pc10.index()),
        (pins.pc11.port(), pins.pc11.index()),
        (pins.pd7.port(), pins.pd7.index()),
        (pins.pe12.port(), pins.pe12.index()),
        (pins.pf15.port(), pins.pf15.index()),
    ];
    assert_eq!(ids, [(0, 0), (0, 15), (1, 0), (2, 10), (2, 11), (3, 7), (4, 12), (5, 15)]);
}

#[test]
fn input_then_disabled_restores_registers() {
    let (mut gpio, pins, _) = setup();
    let before = gpio.port(0);
    let p = pins.pa3.into_input_pulled_up(&mut gpio);
    assert_eq!(gpio.port(0).model, 0x2 << 12);
    assert_eq!(gpio.port(0).dout, 1 << 3);
    let _p = p.into_disabled(&mut gpio);
    assert_eq!(gpio.port(0), before);
}

#[test]
fn pulled_up_disabled_round_trip() {
    let (mut gpio, pins, _) = setup();
    let p = pins.pb9.into_disabled_pulled_up(&mut gpio);
    let before = gpio.port(1);
    assert_eq!(before.dout, 1 << 9);
    let p = p.into_wiredand_alt_drive_with_filter_pulled_up(&mut gpio);
    assert_eq!(gpio.port(1).modeh, 0xF << 4);
    let _p = p.into_disabled_pulled_up(&mut gpio);
    assert_eq!(gpio.port(1), before);
}

#[test]
fn transitions_write_only_their_pin() {
    let (mut gpio, pins, _) = setup();
    let _a = pins.pc0.into_pushpull(&mut gpio);
    let _b = pins.pc9.into_input_pulled_down_with_filter(&mut gpio);
    let _c = pins.pc15.into_io_wiredor_pulled_down(&mut gpio);
    let _d = pins.pc7.into_input_with_filter(&mut gpio);
    let c = gpio.port(2);
    assert_eq!(c.model, 0x4 | (0x1 << 28));
    assert_eq!(c.modeh, (0x3 << 4) | (0x7 << 28));
    assert_eq!(c.dout, 1 << 7);
    assert_eq!(gpio.port(1), PortRegisters { ctrl: 0, model: 0, modeh: 0, dout: 0, din: 0 });
}

#[test]
fn output_set_high_low_through_bitband() {
    let (mut gpio, pins, _) = setup();
    let mut led = pins.pe2.into_pushpull(&mut gpio);
    let w = led.set_high(&mut gpio);
    assert_eq!(w.alias, ref_to_bitband(0x4000_6000 + 4 * 0x24 + 0x0C, 2));
    assert_eq!(w.value, 1);
    assert!(led.is_set_high(&gpio));
    assert_eq!(gpio.port(4).dout, 0x4);
    let w = led.set_low(&mut gpio);
    assert_eq!(w.value, 0);
    assert!(led.is_set_low(&gpio));
    assert_eq!(gpio.port(4).dout, 0);
}

#[test]
fn input_reads_sampled_data() {
    let (mut gpio, pins, _) = setup();
    let button = pins.pd5.into_input(&mut gpio);
    gpio.set_input_data(3, 1 << 5);
    assert!(button.is_high(&gpio));
    gpio.set_input_data(3, !(1u32 << 5));
    assert!(button.is_low(&gpio));
}

#[test]
fn io_pin_reads_and_drives() {
    let (mut gpio, pins, _) = setup();
    let mut line = pins.pa1.into_io_wiredand_pulled_up(&mut gpio);
    assert_eq!(gpio.port(0).model, 0xA << 4);
    line.set_low(&mut gpio);
    assert!(line.is_set_low(&gpio));
    gpio.set_input_data(0, 0x2);
    assert!(line.is_high(&gpio));
}

#[test]
fn port_drive_strength_before_split() {
    let clocks = CmuRegisters::reset().constrain().split();
    let mut gates = clocks.gates;
    let ports = GpioRegisters::reset().split(clocks.gpio, &mut gates);
    let ports = ports.pa_drive(DriveMode::High).pf_drive(DriveMode::Low);
    let (gpio, _pins) = ports.split();
    assert_eq!(gpio.port(0).ctrl, 2);
    assert_eq!(gpio.port(5).ctrl, 3);
    assert_eq!(gpio.port(3).ctrl, 0);
}
