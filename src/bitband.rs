//! Bit-band access for peripheral and SRAM words.
//!
//! On Cortex-M3/M4 every bit of a word in one of the two bit-band regions also appears as a whole
//! word in an alias region. Writing 0 or 1 to that alias word clears or sets exactly that one bit,
//! without a read-modify-write cycle.
use vstd::prelude::*;

verus! {

/// First address of the SRAM bit-band region.
pub const SRAM_BITBAND_START: u32 = 0x2000_0000;
/// Last address of the SRAM bit-band region.
pub const SRAM_BITBAND_END: u32 = 0x200F_FFFF;
/// First address of the peripheral bit-band region.
pub const PERIPH_BITBAND_START: u32 = 0x4000_0000;
/// Last address of the peripheral bit-band region.
pub const PERIPH_BITBAND_END: u32 = 0x400F_FFFF;

/// Whether `address` lies in one of the two regions whose bits have alias words.
pub open spec fn in_bitband_region(address: u32) -> bool {
    (SRAM_BITBAND_START <= address && address <= SRAM_BITBAND_END) || (PERIPH_BITBAND_START
        <= address && address <= PERIPH_BITBAND_END)
}

/// The alias word of bit `bit` of the word at `address`.
pub open spec fn bitband_alias(address: u32, bit: u32) -> int {
    ((address & 0xF000_0000) + 0x0200_0000) + ((address & 0x0FFF_FFFF) * 32) + bit * 4
}

/// Bit `bit` of `word`.
pub open spec fn bit_of(word: u32, bit: u32) -> bool {
    (word >> bit) & 1 == 1
}

/// The word at the aliased address after `value` has been written to the alias of bit `bit`.
pub open spec fn alias_store(word: u32, bit: u32, value: bool) -> u32 {
    if value {
        word | (1u32 << bit)
    } else {
        word & !(1u32 << bit)
    }
}

/// A single store to a bit-band alias word: `value` (0 or 1) written to `alias`.
#[derive(Clone, Copy, Debug, PartialEq, Eq)]
pub struct BitbandWrite {
    pub alias: u32,
    pub value: u32,
}

/// The address of the alias word of bit `bit` of the word at `address`.
pub fn ref_to_bitband(address: u32, bit: u8) -> (r: u32)
    requires
        in_bitband_region(address),
        bit < 32,
    ensures
        r == bitband_alias(address, bit as u32),
{
    let prefix = address & 0xF000_0000;
    let byte_offset = address & 0x0FFF_FFFF;
    assert(byte_offset <= 0x000F_FFFF && prefix <= 0x4000_0000) by (bit_vector)
        requires
            byte_offset == address & 0x0FFF_FFFF,
            prefix == address & 0xF000_0000,
            (0x2000_0000 <= address && address <= 0x200F_FFFF) || (0x4000_0000 <= address
                && address <= 0x400F_FFFF),
    ;
    let bit_word_offset = (byte_offset * 32) + (bit as u32 * 4);
    bit_word_offset + prefix + 0x0200_0000
}

/// The store that sets (`value`) or clears (`!value`) bit `bit` of the word at `address` in one
/// write, through its bit-band alias.
pub fn change_bit(address: u32, bit: u8, value: bool) -> (w: BitbandWrite)
    requires
        in_bitband_region(address),
        bit < 32,
    ensures
        w.alias == bitband_alias(address, bit as u32),
        w.value == (if value { 1u32 } else { 0u32 }),
{
    let alias = ref_to_bitband(address, bit);
    BitbandWrite { alias, value: if value { 1 } else { 0 } }
}

/// The new value of a word after `value` has been stored to the alias of its bit `bit`.
pub fn store_through_alias(word: u32, bit: u8, value: bool) -> (r: u32)
    requires
        bit < 32,
    ensures
        r == alias_store(word, bit as u32, value),
{
    let mask: u32 = 1u32 << bit;
    if value {
        word | mask
    } else {
        word & !mask
    }
}

/// A store through the alias of bit `bit` sets or clears that bit and leaves every other bit of
/// the word as it was.
pub proof fn lemma_alias_store_single_bit(word: u32, bit: u32, value: bool)
    requires
        bit < 32,
    ensures
        bit_of(alias_store(word, bit, value), bit) == value,
        forall|j: u32|
            j < 32 && j != bit ==> bit_of(#[trigger] alias_store(word, bit, value), j) == bit_of(
                word,
                j,
            ),
{
    if value {
        assert(bit_of(word | (1u32 << bit), bit)) by (bit_vector)
            requires
                bit < 32,
        ;
        assert forall|j: u32| j < 32 && j != bit implies bit_of(word | (1u32 << bit), j)
            == bit_of(word, j) by {
            assert(((word | (1u32 << bit)) >> j) & 1 == (word >> j) & 1) by (bit_vector)
                requires
                    j < 32,
                    bit < 32,
                    j != bit,
            ;
        }
    } else {
        assert(!bit_of(word & !(1u32 << bit), bit)) by (bit_vector)
            requires
                bit < 32,
        ;
        assert forall|j: u32| j < 32 && j != bit implies bit_of(word & !(1u32 << bit), j)
            == bit_of(word, j) by {
            assert(((word & !(1u32 << bit)) >> j) & 1 == (word >> j) & 1) by (bit_vector)
                requires
                    j < 32,
                    bit < 32,
                    j != bit,
            ;
        }
    }
}

/// Writing 1 and then 0 to the alias of bit `bit` first sets and then clears exactly that bit of
/// the aliased word; every other bit keeps its original value throughout.
pub proof fn lemma_bitband_set_then_clear(word: u32, bit: u32)
    requires
        bit < 32,
    ensures
        bit_of(alias_store(word, bit, true), bit),
        !bit_of(alias_store(alias_store(word, bit, true), bit, false), bit),
        forall|j: u32|
            j < 32 && j != bit ==> bit_of(alias_store(word, bit, true), j) == bit_of(word, j)
                && bit_of(alias_store(alias_store(word, bit, true), bit, false), j) == bit_of(
                word,
                j,
            ),
{
    lemma_alias_store_single_bit(word, bit, true);
    lemma_alias_store_single_bit(alias_store(word, bit, true), bit, false);
}

} // verus!
