use efm32gg_hal::cmu::{CMUExt, CmuRegisters, TIMER0Clk};
use efm32gg_hal::gpio::{GPIOExt, Gpio, GpioRegisters, Pins};
use efm32gg_hal::routing::{route_pin_of, HasLocForFunction};
use efm32gg_hal::timer::{
    Channel0, Channel1, SplitTimer, Timer0, Timer1, TimerExt, TimerRegisters, CC_MODE_OFF, CC_MODE_PWM,
    IRQ_OF, IRQ_UF,
};

fn setup() -> (Gpio, Pins, TIMER0Clk) {
    let clocks = CmuRegisters::reset().constrain().split();
    let mut gates = clocks.gates;
    let (gpio, pins) = GpioRegisters::reset().split(clocks.gpio, &mut gates).split();
    (gpio, pins, clocks.timer0)
}

#[test]
fn routing_table_lookups() {
    assert_eq!(route_pin_of(0, 0, 0), Some((0, 0)));
    assert_eq!(route_pin_of(0, 0, 2), Some((5, 6)));
    assert_eq!(route_pin_of(0, 1, 4), Some((2, 0)));
    assert_eq!(route_pin_of(1, 2, 3), Some((1, 11)));
    assert_eq!(route_pin_of(2, 2, 2), Some((2, 10)));
    assert_eq!(route_pin_of(1, 0, 0), None);
    assert_eq!(route_pin_of(0, 0, 6), None);
    assert_eq!(route_pin_of(3, 0, 0), None);
}

#[test]
fn pin_routability_checks() {
    let (mut gpio, pins, _) = setup();
    let pa0 = pins.pa0.into_pushpull(&mut gpio);
    assert!(HasLocForFunction::<Timer0, Channel0>::is_routable_at(&pa0, 0));
    assert!(HasLocForFunction::<Timer0, Channel0>::is_routable_at(&pa0, 4));
    assert!(!HasLocForFunction::<Timer0, Channel0>::is_routable_at(&pa0, 2));
    assert!(!HasLocForFunction::<Timer0, Channel1>::is_routable_at(&pa0, 0));
    assert!(!HasLocForFunction::<Timer1, Channel0>::is_routable_at(&pa0, 0));
}

#[test]
fn timer_setup_enables_clock_and_sets_top() {
    let (_gpio, _pins, clock) = setup();
    let mut gates = CmuRegisters::reset();
    let mut timer = TimerRegisters::<Timer0>::reset().with_clock(clock, &mut gates);
    assert_eq!(gates.bits(), 1 << 5);
    timer.set_top(1000);
    timer.preroute(2);
    timer.start();
    assert_eq!(timer.registers().top(), 1000);
    assert_eq!(timer.registers().route(), 2 << 16);
    assert_eq!(timer.registers().cmd(), 1);
}

#[test]
fn pwm_duty_round_trip() {
    let (mut gpio, pins, clock) = setup();
    let mut gates = CmuRegisters::reset();
    let mut timer = TimerRegisters::<Timer0>::reset().with_clock(clock, &mut gates);
    timer.set_top(0xFFFF);
    timer.preroute(2);
    let (channels, mut shared): (_, SplitTimer<Timer0>) = timer.split();
    let pin = pins.pf6.into_pushpull(&mut gpio);
    let mut pwm = channels.channel0.route(pin, &mut shared);
    assert_eq!(shared.registers().route() & 1, 1);
    pwm.enable(&mut shared);
    assert_eq!(shared.registers().cc(0).ctrl & 3, CC_MODE_PWM);
    let max = pwm.get_max_duty(&shared);
    assert_eq!(max, 0xFFFF);
    for d in [0u16, 1, 0x7FFF, 0xFFFE, max] {
        pwm.set_duty(&mut shared, d);
        assert_eq!(pwm.get_duty(&shared), d);
    }
    pwm.set_inverted(&mut shared, true);
    assert_eq!(shared.registers().cc(0).ctrl, CC_MODE_PWM | 4);
}

#[test]
fn duty_outside_pwm_goes_to_unbuffered_compare() {
    let (mut gpio, pins, clock) = setup();
    let mut gates = CmuRegisters::reset();
    let timer = TimerRegisters::<Timer0>::reset().with_clock(clock, &mut gates);
    let (channels, mut shared) = timer.split();
    let pin = pins.pa1.into_pushpull(&mut gpio);
    let mut ch = channels.channel1.route(pin, &mut shared);
    ch.set_duty(&mut shared, 300);
    assert_eq!(shared.registers().cc(1).ccv, 300);
    assert_eq!(shared.registers().cc(1).ccvb, 0);
    assert_eq!(ch.get_duty(&shared), 300);
}

#[test]
fn duty_round_trip_after_disable() {
    let (mut gpio, pins, clock) = setup();
    let mut gates = CmuRegisters::reset();
    let timer = TimerRegisters::<Timer0>::reset().with_clock(clock, &mut gates);
    let (channels, mut shared) = timer.split();
    let pin = pins.pa0.into_pushpull(&mut gpio);
    let mut ch = channels.channel0.route(pin, &mut shared);
    ch.enable(&mut shared);
    ch.set_duty(&mut shared, 40);
    ch.disable(&mut shared);
    for d in [5u16, 0, 0xFFFF] {
        ch.set_duty(&mut shared, d);
        assert_eq!(ch.get_duty(&shared), d);
    }
    assert_eq!(shared.registers().cc(0).ccvb, 40);
}

#[test]
fn route_then_unroute_leaves_channel_off_whatever_siblings_did() {
    let (mut gpio, pins, clock) = setup();
    let mut gates = CmuRegisters::reset();
    let timer = TimerRegisters::<Timer0>::reset().with_clock(clock, &mut gates);
    let (channels, mut shared) = timer.split();
    // A sibling channel is routed and left running.
    let pa1 = pins.pa1.into_pushpull(&mut gpio);
    let mut sibling = channels.channel1.route(pa1, &mut shared);
    sibling.enable(&mut shared);
    let pa0 = pins.pa0.into_pushpull(&mut gpio);
    let mut ch0 = channels.channel0.route(pa0, &mut shared);
    ch0.enable(&mut shared);
    let (_ch0, pa0) = ch0.unroute(&mut shared);
    let regs = shared.registers();
    assert_eq!(regs.cc(0).ctrl & 3, CC_MODE_OFF);
    assert_eq!(regs.route() & 1, 0);
    assert_eq!(regs.route() & 2, 2);
    assert_eq!(regs.cc(1).ctrl & 3, CC_MODE_PWM);
    assert_eq!((pa0.port(), pa0.index()), (0, 0));
}

#[test]
fn channel_interrupts() {
    let (_gpio, _pins, clock) = setup();
    let mut gates = CmuRegisters::reset();
    let timer = TimerRegisters::<Timer0>::reset().with_clock(clock, &mut gates);
    let (channels, mut shared) = timer.split();
    channels.channel2.prepare_interrupts(&mut shared, 500);
    let regs = shared.registers();
    assert_eq!(regs.ien(), 1 << 6);
    assert_eq!(regs.cc(2).ccvb, 500);
    assert_eq!(regs.cc(2).ctrl & 3, 2);
    shared.set_interrupt_flags(0x41);
    assert!(efm32gg_hal::timer::TimerChannel::<Timer0, efm32gg_hal::timer::Channel2>::interrupt_is_pending(&shared));
    efm32gg_hal::timer::TimerChannel::<Timer0, efm32gg_hal::timer::Channel2>::interrupt_unpend(&mut shared);
    assert_eq!(shared.registers().flags(), 0x01);
    let mut ch1 = channels.channel1;
    ch1.interrupt_enable(&mut shared);
    assert_eq!(shared.registers().ien(), (1 << 6) | (1 << 5));
}

#[test]
fn timer_wide_interrupt_mask() {
    let (_gpio, _pins, clock) = setup();
    let mut gates = CmuRegisters::reset();
    let mut timer = TimerRegisters::<Timer0>::reset().with_clock(clock, &mut gates);
    timer.interrupt_enable(IRQ_OF | (1 << 9) | (1 << 31));
    assert_eq!(timer.registers().ien(), 0x201);
    timer.set_interrupt_flags(IRQ_UF | IRQ_OF);
    assert!(timer.interrupt_is_pending(IRQ_UF));
    timer.interrupt_unpend(IRQ_UF);
    assert!(!timer.interrupt_is_pending(IRQ_UF));
    assert!(timer.interrupt_is_pending(IRQ_OF | IRQ_UF));
}
