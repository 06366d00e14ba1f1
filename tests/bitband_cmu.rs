use efm32gg_hal::bitband::{change_bit, ref_to_bitband, store_through_alias, BitbandWrite};
use efm32gg_hal::cmu::{CMUExt, CmuRegisters, FrozenClock, GPIO_CLOCK_BIT, I2C0_CLOCK_BIT};
use efm32gg_hal::time_util::Hertz;

fn formula(a: u32, bit: u32) -> u32 {
    ((a & 0xF000_0000) + 0x0200_0000) + ((a & 0x0FFF_FFFF) * 32) + bit * 4
}

#[test]
fn bitband_alias_of_gpio_dout() {
    // Port A data-out register, pin 3.
    assert_eq!(ref_to_bitband(0x4000_600C, 3), 0x420C_018C);
}

#[test]
fn bitband_alias_matches_formula_across_both_regions() {
    for &a in &[0x2000_0000u32, 0x2000_1234, 0x200F_FFFC, 0x4000_0000, 0x4008_1000, 0x400F_FFFF] {
        for bit in 0..32u8 {
            assert_eq!(ref_to_bitband(a, bit), formula(a, bit as u32));
        }
    }
}

#[test]
fn bitband_alias_of_sram_start() {
    assert_eq!(ref_to_bitband(0x2000_0000, 0), 0x2200_0000);
    assert_eq!(ref_to_bitband(0x2000_0000, 31), 0x2200_007C);
}

#[test]
fn change_bit_yields_alias_and_value() {
    assert_eq!(change_bit(0x4000_6030, 7, true), BitbandWrite { alias: formula(0x4000_6030, 7), value: 1 });
    assert_eq!(change_bit(0x4000_6030, 7, false), BitbandWrite { alias: formula(0x4000_6030, 7), value: 0 });
}

#[test]
fn alias_store_sets_then_clears_one_bit_only() {
    let word: u32 = 0xA5A5_0F0F;
    for bit in 0..32u8 {
        let set = store_through_alias(word, bit, true);
        assert_eq!(set, word | (1 << bit));
        let cleared = store_through_alias(set, bit, false);
        assert_eq!(cleared, word & !(1u32 << bit));
        assert_eq!(set ^ word, if word & (1 << bit) == 0 { 1 << bit } else { 0 });
    }
}

#[test]
fn cmu_split_keeps_register_and_handles_enable_their_bits() {
    let cmu = CmuRegisters::from_bits(0x1).constrain();
    let mut clocks = cmu.split();
    assert_eq!(clocks.gates.bits(), 0x1);
    clocks.i2c0.enable(&mut clocks.gates);
    assert_eq!(clocks.gates.bits(), 0x1 | (1 << I2C0_CLOCK_BIT));
    clocks.gpio.enable(&mut clocks.gates);
    clocks.gpio.enable(&mut clocks.gates);
    assert_eq!(clocks.gates.bits(), 0x1 | (1 << I2C0_CLOCK_BIT) | (1 << GPIO_CLOCK_BIT));
    clocks.timer0.enable(&mut clocks.gates);
    clocks.timer2.enable(&mut clocks.gates);
    assert_eq!(clocks.gates.bits(), 0x1 | 0x800 | 0x2000 | 0x20 | 0x80);
    assert!(clocks.gates.is_enabled(7));
    assert!(!clocks.gates.is_enabled(6));
}

#[test]
fn core_clock_frequency_is_fixed() {
    let clocks = CmuRegisters::reset().constrain().split();
    let Hertz(f) = clocks.hfcoreclk.get_frequency();
    assert_eq!(f, 14_000_000);
}
