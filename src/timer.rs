//! TIMER (timer/counter peripheral) and its compare/capture channels.
//!
//! A timer is split into its compare/capture channels. A channel can be routed to a pin that the
//! routing table allows; the routed channel owns the pin and offers PWM control, and unrouting
//! hands both back.
use vstd::prelude::*;

use crate::bitband::bit_of;
use crate::cmu::{timer_clock_bit, with_gate, CmuRegisters, TimerClk};
use crate::routing::HasLocForFunction;
use core::marker::PhantomData;

verus! {

/// Channel mode: off.
pub const CC_MODE_OFF: u32 = 0;
/// Channel mode: input capture.
pub const CC_MODE_INPUTCAPTURE: u32 = 1;
/// Channel mode: output compare.
pub const CC_MODE_OUTPUTCOMPARE: u32 = 2;
/// Channel mode: pulse-width modulation.
pub const CC_MODE_PWM: u32 = 3;
/// Mask of the mode field in a channel's control register.
pub const CC_MODE_MASK: u32 = 0x3;
/// Bit of a channel's control register that inverts its output.
pub const CC_OUTINV_BIT: u32 = 2;
/// Bit of the route register where the route location field starts (three bits wide).
pub const ROUTE_LOCATION_SHIFT: u32 = 16;
/// Bit of the interrupt registers that belongs to channel 0's compare/capture event; channels 1
/// and 2 follow it.
pub const IRQ_CC0_BIT: u32 = 4;
/// Interrupt flag: counter overflow.
pub const IRQ_OF: u32 = 0x1;
/// Interrupt flag: counter underflow.
pub const IRQ_UF: u32 = 0x2;
/// Bit of the interrupt registers that belongs to channel 0's input-capture buffer overflow;
/// channels 1 and 2 follow it.
pub const IRQ_ICBOF0_BIT: u32 = 8;
/// All interrupt flags of a timer: overflow, underflow, and per channel compare/capture and
/// input-capture buffer overflow.
pub const IRQ_ALL: u32 = 0x773;
/// Value of the command register that starts the timer.
pub const CMD_START: u32 = 1;

/// A timer instance, identified by its index.
pub trait TimerInstance {
    spec fn spec_index() -> nat;

    fn index() -> (r: u8)
        ensures
            r as nat == Self::spec_index(),
            r < 3,
    ;
}

/// Marker for TIMER0.
pub struct Timer0 {}

/// Marker for TIMER1.
pub struct Timer1 {}

/// Marker for TIMER2.
pub struct Timer2 {}

impl TimerInstance for Timer0 {
    open spec fn spec_index() -> nat {
        0
    }

    fn index() -> (r: u8) {
        0
    }
}

impl TimerInstance for Timer1 {
    open spec fn spec_index() -> nat {
        1
    }

    fn index() -> (r: u8) {
        1
    }
}

impl TimerInstance for Timer2 {
    open spec fn spec_index() -> nat {
        2
    }

    fn index() -> (r: u8) {
        2
    }
}

/// A compare/capture channel, identified by its index.
pub trait ChannelInstance {
    spec fn spec_index() -> nat;

    fn index() -> (r: u8)
        ensures
            r as nat == Self::spec_index(),
            r < 3,
    ;
}

/// Marker for compare/capture channel 0 of whichever timer.
pub struct Channel0 {}

/// Marker for compare/capture channel 1 of whichever timer.
pub struct Channel1 {}

/// Marker for compare/capture channel 2 of whichever timer.
pub struct Channel2 {}

impl ChannelInstance for Channel0 {
    open spec fn spec_index() -> nat {
        0
    }

    fn index() -> (r: u8) {
        0
    }
}

impl ChannelInstance for Channel1 {
    open spec fn spec_index() -> nat {
        1
    }

    fn index() -> (r: u8) {
        1
    }
}

impl ChannelInstance for Channel2 {
    open spec fn spec_index() -> nat {
        2
    }

    fn index() -> (r: u8) {
        2
    }
}

/// The registers of one compare/capture channel.
#[derive(Clone, Copy, Debug, PartialEq, Eq)]
pub struct CcRegisters {
    /// Control: mode (bits 0-1) and output inversion (bit 2), among others.
    pub ctrl: u32,
    /// Compare value, used at once.
    pub ccv: u32,
    /// Buffered compare value, taken over at the next period.
    pub ccvb: u32,
}

/// The registers of a timer, as the contracts speak of them.
pub struct TimerView {
    pub top: u32,
    pub route: u32,
    pub ien: u32,
    pub flags: u32,
    pub cmd: u32,
    pub cc: Seq<CcRegisters>,
}

/// Image of the registers of timer `T`.
pub struct TimerRegisters<T> {
    top: u32,
    route: u32,
    ien: u32,
    flags: u32,
    cmd: u32,
    cc: [CcRegisters; 3],
    _timer: PhantomData<T>,
}

impl<T> View for TimerRegisters<T> {
    type V = TimerView;

    closed spec fn view(&self) -> TimerView {
        TimerView {
            top: self.top,
            route: self.route,
            ien: self.ien,
            flags: self.flags,
            cmd: self.cmd,
            cc: self.cc@,
        }
    }
}

/// The mode of channel `c`.
pub open spec fn cc_mode(s: TimerView, c: nat) -> u32 {
    s.cc[c as int].ctrl & CC_MODE_MASK
}

/// The duty value of channel `c`: its buffered compare value while the channel runs PWM, its
/// compare value otherwise.
pub open spec fn duty_of(s: TimerView, c: nat) -> u16 {
    if cc_mode(s, c) == CC_MODE_PWM {
        (s.cc[c as int].ccvb & 0xFFFF) as u16
    } else {
        (s.cc[c as int].ccv & 0xFFFF) as u16
    }
}

/// The route location that the route register selects.
pub open spec fn route_location(route: u32) -> nat {
    ((route >> ROUTE_LOCATION_SHIFT) & 0x7) as nat
}

/// The registers with channel `c`'s registers replaced by `cc`.
pub open spec fn with_cc(s: TimerView, c: nat, cc: CcRegisters) -> TimerView {
    TimerView { cc: s.cc.update(c as int, cc), ..s }
}

/// `word` with its low 16 bits replaced by `value`.
pub open spec fn with_low16(word: u32, value: u16) -> u32 {
    (word & 0xFFFF_0000) | (value as u32)
}

/// The registers after channel `c`'s mode has been set to `mode`.
pub open spec fn with_cc_mode(s: TimerView, c: nat, mode: u32) -> TimerView {
    with_cc(s, c, CcRegisters { ctrl: (s.cc[c as int].ctrl & !CC_MODE_MASK) | mode, ..s.cc[c as int] })
}

/// The registers after `value` has been written to channel `c`'s buffered compare value.
pub open spec fn with_ccvb(s: TimerView, c: nat, value: u16) -> TimerView {
    with_cc(s, c, CcRegisters { ccvb: with_low16(s.cc[c as int].ccvb, value), ..s.cc[c as int] })
}

/// The registers after `value` has been written to channel `c`'s compare value.
pub open spec fn with_ccv(s: TimerView, c: nat, value: u16) -> TimerView {
    with_cc(s, c, CcRegisters { ccv: with_low16(s.cc[c as int].ccv, value), ..s.cc[c as int] })
}

/// The registers after the duty of channel `c` has been set to `duty`: buffered while the channel
/// runs PWM, so the running period is not cut short; written at once otherwise.
pub open spec fn with_duty(s: TimerView, c: nat, duty: u16) -> TimerView {
    if cc_mode(s, c) == CC_MODE_PWM {
        with_ccvb(s, c, duty)
    } else {
        with_ccv(s, c, duty)
    }
}

/// The registers after channel `c`'s pin output has been enabled (`on`) or disabled.
pub open spec fn with_route_enable(s: TimerView, c: nat, on: bool) -> TimerView {
    TimerView {
        route: if on {
            s.route | (1u32 << c as u32)
        } else {
            s.route & !(1u32 << c as u32)
        },
        ..s
    }
}

/// The interrupt bit of channel `c`'s compare/capture event.
pub open spec fn cc_irq_mask(c: nat) -> u32 {
    1u32 << (IRQ_CC0_BIT + c) as u32
}

impl<T> TimerRegisters<T> {
    /// The registers as they are after reset: all zero.
    pub fn reset() -> (r: TimerRegisters<T>)
        ensures
            r@.top == 0 && r@.route == 0 && r@.ien == 0 && r@.flags == 0 && r@.cmd == 0,
            r@.cc.len() == 3,
            forall|c: int| 0 <= c < 3 ==> #[trigger] r@.cc[c] == (CcRegisters { ctrl: 0, ccv: 0, ccvb: 0 }),
    {
        let zero = CcRegisters { ctrl: 0, ccv: 0, ccvb: 0 };
        TimerRegisters { top: 0, route: 0, ien: 0, flags: 0, cmd: 0, cc: [zero, zero, zero], _timer: PhantomData }
    }

    /// The counter top value register.
    pub fn top(&self) -> (r: u32)
        ensures
            r == self@.top,
    {
        self.top
    }

    /// The route register.
    pub fn route(&self) -> (r: u32)
        ensures
            r == self@.route,
    {
        self.route
    }

    /// The interrupt-enable register.
    pub fn ien(&self) -> (r: u32)
        ensures
            r == self@.ien,
    {
        self.ien
    }

    /// The interrupt-flag register.
    pub fn flags(&self) -> (r: u32)
        ensures
            r == self@.flags,
    {
        self.flags
    }

    /// The last value written to the command register.
    pub fn cmd(&self) -> (r: u32)
        ensures
            r == self@.cmd,
    {
        self.cmd
    }

    /// The registers of channel `c`.
    pub fn cc(&self, c: u8) -> (r: CcRegisters)
        requires
            c < 3,
        ensures
            r == self@.cc[c as int],
            self@.cc.len() == 3,
    {
        self.cc[c as usize]
    }

    fn set_cc(&mut self, c: u8, cc: CcRegisters)
        requires
            c < 3,
        ensures
            final(self)@ == with_cc(old(self)@, c as nat, cc),
    {
        self.cc[c as usize] = cc;
    }
}

/// Attaches a clock to a timer's registers: enables the clock and keeps its handle.
pub trait TimerExt<Clk, Timer> {
    fn with_clock(self, clock: Clk, gates: &mut CmuRegisters) -> Timer;
}

impl<T: TimerInstance> TimerExt<TimerClk<T>, Timer<T>> for TimerRegisters<T> {
    fn with_clock(self, clock: TimerClk<T>, gates: &mut CmuRegisters) -> (r: Timer<T>)
        ensures
            r@ == self@,
            final(gates)@ == with_gate(old(gates)@, timer_clock_bit(T::spec_index())),
    {
        Timer::new(self, clock, gates)
    }
}

/// A timer with its clock enabled, before it is split into channels.
pub struct Timer<T> {
    regs: TimerRegisters<T>,
    clock: TimerClk<T>,
}

impl<T> View for Timer<T> {
    type V = TimerView;

    closed spec fn view(&self) -> TimerView {
        self.regs@
    }
}

impl<T: TimerInstance> Timer<T> {
    /// Enables the timer's clock and takes ownership of its registers and of the clock handle.
    pub fn new(regs: TimerRegisters<T>, clock: TimerClk<T>, gates: &mut CmuRegisters) -> (r: Timer<T>)
        ensures
            r@ == regs@,
            final(gates)@ == with_gate(old(gates)@, timer_clock_bit(T::spec_index())),
    {
        let mut clock = clock;
        clock.enable(gates);
        Timer { regs, clock }
    }

    /// The timer's registers.
    pub fn registers(&self) -> (r: &TimerRegisters<T>)
        ensures
            r@ == self@,
    {
        &self.regs
    }

    /// Sets the counter top value, which also bounds the PWM duty.
    pub fn set_top(&mut self, top: u16)
        ensures
            final(self)@ == (TimerView { top: with_low16(old(self)@.top, top), ..old(self)@ }),
    {
        self.regs.top = (self.regs.top & 0xFFFF_0000) | (top as u32);
    }

    /// Starts the counter.
    pub fn start(&mut self)
        ensures
            final(self)@ == (TimerView { cmd: CMD_START, ..old(self)@ }),
    {
        self.regs.cmd = CMD_START;
    }

    /// Enables the interrupts named in `mask` (an OR of `IRQ_OF`, `IRQ_UF` and the per-channel
    /// bits); bits that name no interrupt are ignored, and enabled interrupts stay enabled.
    pub fn interrupt_enable(&mut self, mask: u32)
        ensures
            final(self)@ == (TimerView { ien: old(self)@.ien | (mask & IRQ_ALL), ..old(self)@ }),
    {
        self.regs.ien = self.regs.ien | (mask & IRQ_ALL);
    }

    /// Whether any of the interrupts named in `mask` is pending.
    pub fn interrupt_is_pending(&self, mask: u32) -> (r: bool)
        ensures
            r == (self@.flags & mask != 0),
    {
        self.regs.flags & mask != 0
    }

    /// Clears the pending interrupts named in `mask`; other flags stay as they are.
    pub fn interrupt_unpend(&mut self, mask: u32)
        ensures
            final(self)@ == (TimerView { flags: old(self)@.flags & !mask, ..old(self)@ }),
    {
        self.regs.flags = self.regs.flags & !mask;
    }

    /// Records the interrupt-flag register as read from the device.
    pub fn set_interrupt_flags(&mut self, flags: u32)
        ensures
            final(self)@ == (TimerView { flags, ..old(self)@ }),
    {
        self.regs.flags = flags;
    }

    /// Selects the route location of all channels. The pins stay disabled until a channel is
    /// routed; routing then requires the pin of this location.
    pub fn preroute(&mut self, location: u8)
        requires
            location < 8,
        ensures
            final(self)@ == (TimerView {
                route: (old(self)@.route & !(0x7u32 << ROUTE_LOCATION_SHIFT)) | ((location as u32) << ROUTE_LOCATION_SHIFT),
                ..old(self)@
            }),
            route_location(final(self)@.route) == location,
    {
        let loc = location as u32;
        let old_route = self.regs.route;
        let new_route = (old_route & !(0x7u32 << ROUTE_LOCATION_SHIFT)) | (loc << ROUTE_LOCATION_SHIFT);
        assert(((new_route >> 16u32) & 0x7) == loc) by (bit_vector)
            requires
                loc < 8,
                new_route == (old_route & !(0x7u32 << 16u32)) | (loc << 16u32),
        ;
        self.regs.route = new_route;
    }

    /// Splits the timer into its channels and the register block they share.
    pub fn split(self) -> (r: (Channels<T>, SplitTimer<T>))
        ensures
            r.1@ == self@,
    {
        let channels = Channels {
            channel0: TimerChannel { _phantom: PhantomData },
            channel1: TimerChannel { _phantom: PhantomData },
            channel2: TimerChannel { _phantom: PhantomData },
        };
        (channels, SplitTimer { regs: self.regs, clock: self.clock })
    }
}

/// The channels of a timer.
pub struct Channels<T> {
    pub channel0: TimerChannel<T, Channel0>,
    pub channel1: TimerChannel<T, Channel1>,
    pub channel2: TimerChannel<T, Channel2>,
}

/// The registers of a timer after it has been split; each channel token only changes its own
/// channel's fields and bits.
pub struct SplitTimer<T> {
    regs: TimerRegisters<T>,
    clock: TimerClk<T>,
}

impl<T> View for SplitTimer<T> {
    type V = TimerView;

    closed spec fn view(&self) -> TimerView {
        self.regs@
    }
}

impl<T> SplitTimer<T> {
    /// The timer's registers.
    pub fn registers(&self) -> (r: &TimerRegisters<T>)
        ensures
            r@ == self@,
    {
        &self.regs
    }

    /// Records the interrupt-flag register as read from the device.
    pub fn set_interrupt_flags(&mut self, flags: u32)
        ensures
            final(self)@ == (TimerView { flags, ..old(self)@ }),
    {
        self.regs.flags = flags;
    }
}

/// Compare/capture channel `C` of timer `T`.
pub struct TimerChannel<T, C> {
    _phantom: PhantomData<(T, C)>,
}

impl<T: TimerInstance, C: ChannelInstance> TimerChannel<T, C> {
    fn set_mode(&mut self, timer: &mut SplitTimer<T>, mode: u32)
        requires
            mode <= CC_MODE_PWM,
        ensures
            final(timer)@ == with_cc_mode(old(timer)@, C::spec_index(), mode),
            cc_mode(final(timer)@, C::spec_index()) == mode,
            final(timer)@.cc.len() == 3,
    {
        let c = C::index();
        let mut cc = timer.regs.cc(c);
        let old_ctrl = cc.ctrl;
        cc.ctrl = (cc.ctrl & !CC_MODE_MASK) | mode;
        assert(((old_ctrl & !3u32) | mode) & 3u32 == mode) by (bit_vector)
            requires
                mode <= 3,
        ;
        timer.regs.set_cc(c, cc);
    }

    fn get_mode(&self, timer: &SplitTimer<T>) -> (r: u32)
        ensures
            r == cc_mode(timer@, C::spec_index()),
    {
        timer.regs.cc(C::index()).ctrl & CC_MODE_MASK
    }

    fn set_compare_buffered(&mut self, timer: &mut SplitTimer<T>, compare: u16)
        ensures
            final(timer)@ == with_ccvb(old(timer)@, C::spec_index(), compare),
    {
        let c = C::index();
        let mut cc = timer.regs.cc(c);
        cc.ccvb = (cc.ccvb & 0xFFFF_0000) | (compare as u32);
        timer.regs.set_cc(c, cc);
    }

    fn set_compare_unbuffered(&mut self, timer: &mut SplitTimer<T>, compare: u16)
        ensures
            final(timer)@ == with_ccv(old(timer)@, C::spec_index(), compare),
    {
        let c = C::index();
        let mut cc = timer.regs.cc(c);
        cc.ccv = (cc.ccv & 0xFFFF_0000) | (compare as u32);
        timer.regs.set_cc(c, cc);
    }

    fn get_compare(&self, timer: &SplitTimer<T>) -> (r: u16)
        ensures
            r == duty_of(timer@, C::spec_index()),
    {
        let cc = timer.regs.cc(C::index());
        if cc.ctrl & CC_MODE_MASK == CC_MODE_PWM {
            (cc.ccvb & 0xFFFF) as u16
        } else {
            (cc.ccv & 0xFFFF) as u16
        }
    }

    /// Uses the channel as a source of interrupts that fire whenever the counter reaches
    /// `compare`: sets the compare value, puts the channel in output-compare mode and enables its
    /// interrupt.
    pub fn prepare_interrupts(self, timer: &mut SplitTimer<T>, compare: u16)
        ensures
            final(timer)@ == (TimerView {
                ien: old(timer)@.ien | cc_irq_mask(C::spec_index()),
                ..with_cc_mode(with_ccvb(old(timer)@, C::spec_index(), compare), C::spec_index(), CC_MODE_OUTPUTCOMPARE)
            }),
    {
        let mut channel = self;
        channel.set_compare_buffered(timer, compare);
        channel.set_mode(timer, CC_MODE_OUTPUTCOMPARE);
        channel.interrupt_enable(timer);
    }

    /// Enables the channel's compare/capture interrupt; the other enable bits stay as they are.
    pub fn interrupt_enable(&mut self, timer: &mut SplitTimer<T>)
        ensures
            final(timer)@ == (TimerView { ien: old(timer)@.ien | cc_irq_mask(C::spec_index()), ..old(timer)@ }),
    {
        let bit: u32 = IRQ_CC0_BIT + C::index() as u32;
        timer.regs.ien = timer.regs.ien | (1u32 << bit);
    }

    /// Whether the channel's compare/capture interrupt is pending.
    pub fn interrupt_is_pending(timer: &SplitTimer<T>) -> (r: bool)
        ensures
            r == bit_of(timer@.flags, (IRQ_CC0_BIT + C::spec_index()) as u32),
    {
        let bit: u32 = IRQ_CC0_BIT + C::index() as u32;
        (timer.regs.flags >> bit) & 1 == 1
    }

    /// Clears the channel's pending compare/capture interrupt; other flags stay as they are.
    pub fn interrupt_unpend(timer: &mut SplitTimer<T>)
        ensures
            final(timer)@ == (TimerView { flags: old(timer)@.flags & !cc_irq_mask(C::spec_index()), ..old(timer)@ }),
    {
        let bit: u32 = IRQ_CC0_BIT + C::index() as u32;
        timer.regs.flags = timer.regs.flags & !(1u32 << bit);
    }

    /// Routes the channel to `pin`, which must be the pin of the route location that the timer
    /// was prerouted to, and enables the channel's pin output. Whether the output runs PWM or is
    /// off is then set through the routed channel.
    pub fn route<P: HasLocForFunction<T, C>>(self, pin: P, timer: &mut SplitTimer<T>) -> (r: RoutedTimerChannel<T, C, P>)
        requires
            pin.routable_at(route_location(old(timer)@.route)),
        ensures
            r.pin() == pin,
            final(timer)@ == with_route_enable(old(timer)@, C::spec_index(), true),
            bit_of(final(timer)@.route, C::spec_index() as u32),
    {
        let bit: u32 = C::index() as u32;
        let old_route = timer.regs.route;
        assert(((old_route | (1u32 << bit)) >> bit) & 1u32 == 1u32) by (bit_vector)
            requires
                bit < 3,
        ;
        timer.regs.route = timer.regs.route | (1u32 << bit);
        RoutedTimerChannel { pin, channel: self }
    }
}

/// A channel routed to a pin; it owns both until it is unrouted.
pub struct RoutedTimerChannel<T, C, P> {
    pin: P,
    channel: TimerChannel<T, C>,
}

impl<T: TimerInstance, C: ChannelInstance, P> RoutedTimerChannel<T, C, P> {
    /// The routed pin.
    pub closed spec fn pin(&self) -> P {
        self.pin
    }

    /// Switches the channel to PWM.
    pub fn enable(&mut self, timer: &mut SplitTimer<T>)
        ensures
            final(self).pin() == old(self).pin(),
            final(timer)@ == with_cc_mode(old(timer)@, C::spec_index(), CC_MODE_PWM),
            cc_mode(final(timer)@, C::spec_index()) == CC_MODE_PWM,
    {
        self.channel.set_mode(timer, CC_MODE_PWM);
    }

    /// Switches the channel off.
    pub fn disable(&mut self, timer: &mut SplitTimer<T>)
        ensures
            final(self).pin() == old(self).pin(),
            final(timer)@ == with_cc_mode(old(timer)@, C::spec_index(), CC_MODE_OFF),
            cc_mode(final(timer)@, C::spec_index()) == CC_MODE_OFF,
    {
        self.channel.set_mode(timer, CC_MODE_OFF);
    }

    /// The current duty: the buffered compare value while the channel runs PWM, the compare
    /// value otherwise.
    pub fn get_duty(&self, timer: &SplitTimer<T>) -> (r: u16)
        ensures
            r == duty_of(timer@, C::spec_index()),
    {
        self.channel.get_compare(timer)
    }

    /// The largest duty: the timer's top value, shared by all its channels.
    pub fn get_max_duty(&self, timer: &SplitTimer<T>) -> (r: u16)
        ensures
            r == (timer@.top & 0xFFFF) as u16,
    {
        (timer.regs.top & 0xFFFF) as u16
    }

    /// Sets the duty; buffered while the channel runs PWM, written at once otherwise.
    pub fn set_duty(&mut self, timer: &mut SplitTimer<T>, duty: u16)
        ensures
            final(self).pin() == old(self).pin(),
            final(timer)@ == with_duty(old(timer)@, C::spec_index(), duty),
            cc_mode(final(timer)@, C::spec_index()) == cc_mode(old(timer)@, C::spec_index()),
            duty_of(final(timer)@, C::spec_index()) == duty,
    {
        let c = C::index();
        proof {
            lemma_duty_round_trip(timer@, c as nat, duty);
        }
        if self.channel.get_mode(timer) == CC_MODE_PWM {
            self.channel.set_compare_buffered(timer, duty);
        } else {
            self.channel.set_compare_unbuffered(timer, duty);
        }
    }

    /// Sets whether the output is inverted (a low duty then keeps the line high most of the
    /// time, and the line is high while the timer is halted).
    pub fn set_inverted(&mut self, timer: &mut SplitTimer<T>, inverted: bool)
        ensures
            final(self).pin() == old(self).pin(),
            final(timer)@ == with_cc(old(timer)@, C::spec_index(), CcRegisters {
                ctrl: if inverted {
                    old(timer)@.cc[C::spec_index() as int].ctrl | (1u32 << CC_OUTINV_BIT)
                } else {
                    old(timer)@.cc[C::spec_index() as int].ctrl & !(1u32 << CC_OUTINV_BIT)
                },
                ..old(timer)@.cc[C::spec_index() as int]
            }),
    {
        let c = C::index();
        let mut cc = timer.regs.cc(c);
        if inverted {
            cc.ctrl = cc.ctrl | (1u32 << CC_OUTINV_BIT);
        } else {
            cc.ctrl = cc.ctrl & !(1u32 << CC_OUTINV_BIT);
        }
        timer.regs.set_cc(c, cc);
    }

    /// Switches the channel off, disables its pin output and hands back the channel and the pin.
    /// The route location is left as it is: it does not matter while the output is disabled.
    pub fn unroute(self, timer: &mut SplitTimer<T>) -> (r: (TimerChannel<T, C>, P))
        ensures
            r.1 == self.pin(),
            final(timer)@ == with_route_enable(with_cc_mode(old(timer)@, C::spec_index(), CC_MODE_OFF), C::spec_index(), false),
            cc_mode(final(timer)@, C::spec_index()) == CC_MODE_OFF,
            !bit_of(final(timer)@.route, C::spec_index() as u32),
    {
        let mut channel = self.channel;
        channel.set_mode(timer, CC_MODE_OFF);
        let bit: u32 = C::index() as u32;
        let old_route = timer.regs.route;
        assert(((old_route & !(1u32 << bit)) >> bit) & 1u32 != 1u32) by (bit_vector)
            requires
                bit < 3,
        ;
        timer.regs.route = timer.regs.route & !(1u32 << bit);
        (channel, self.pin)
    }
}

/// Routing a channel and unrouting it again leaves that channel off and its pin output disabled,
/// whatever the timer's registers held before: the outcome does not depend on how sibling channels
/// were routed or unrouted earlier. Sibling channels, their route enable bits and the timer-wide
/// registers are left exactly as they were.
pub proof fn lemma_route_unroute(s1: TimerView, s2: TimerView, c: nat)
    requires
        c < 3,
        s1.cc.len() == 3,
        s2.cc.len() == 3,
    ensures
        ({
            let u1 = with_route_enable(with_cc_mode(with_route_enable(s1, c, true), c, CC_MODE_OFF), c, false);
            let u2 = with_route_enable(with_cc_mode(with_route_enable(s2, c, true), c, CC_MODE_OFF), c, false);
            &&& cc_mode(u1, c) == CC_MODE_OFF
            &&& !bit_of(u1.route, c as u32)
            &&& cc_mode(u1, c) == cc_mode(u2, c)
            &&& bit_of(u1.route, c as u32) == bit_of(u2.route, c as u32)
            &&& u1.top == s1.top && u1.ien == s1.ien && u1.flags == s1.flags && u1.cmd == s1.cmd
            &&& u1.cc.len() == 3
            &&& forall|j: int| 0 <= j < 3 && j != c ==> #[trigger] u1.cc[j] == s1.cc[j]
            &&& forall|j: u32| j < 32 && j != c ==> #[trigger] bit_of(u1.route, j) == bit_of(s1.route, j)
        }),
{
    let cu = c as u32;
    let r1 = s1.route | (1u32 << cu);
    let r2 = s2.route | (1u32 << cu);
    let ctrl1 = s1.cc[c as int].ctrl;
    let ctrl2 = s2.cc[c as int].ctrl;
    assert(((r1 & !(1u32 << cu)) >> cu) & 1 != 1 && ((r2 & !(1u32 << cu)) >> cu) & 1 != 1) by (bit_vector)
        requires
            cu < 3,
    ;
    assert(((ctrl1 & !3u32) | 0u32) & 3u32 == 0 && ((ctrl2 & !3u32) | 0u32) & 3u32 == 0) by (bit_vector);
    let w = s1.route;
    assert forall|j: u32| j < 32 && j != cu implies ((((w | (1u32 << cu)) & !(1u32 << cu)) >> j) & 1 == 1)
        == ((w >> j) & 1 == 1) by {
        assert((((w | (1u32 << cu)) & !(1u32 << cu)) >> j) & 1 == (w >> j) & 1) by (bit_vector)
            requires
                cu < 3,
                j < 32,
                j != cu,
        ;
    }
}

/// In every channel mode, reading the duty back after setting it gives exactly the value set, for
/// every duty value; setting the duty does not change the mode.
pub proof fn lemma_duty_round_trip(s: TimerView, c: nat, duty: u16)
    requires
        c < 3,
        s.cc.len() == 3,
    ensures
        cc_mode(with_duty(s, c, duty), c) == cc_mode(s, c),
        duty_of(with_duty(s, c, duty), c) == duty,
{
    let b = s.cc[c as int].ccvb;
    let v = s.cc[c as int].ccv;
    assert((((b & 0xFFFF_0000) | (duty as u32)) & 0xFFFF) as u16 == duty) by (bit_vector);
    assert((((v & 0xFFFF_0000) | (duty as u32)) & 0xFFFF) as u16 == duty) by (bit_vector);
}

} // verus!
