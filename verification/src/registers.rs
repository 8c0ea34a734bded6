//! The flash option-control registers of the STM32F76x/F77x family and the
//! NDBANK bit inside them.

use vstd::prelude::*;
use crate::bits::{
    bit_is_set, bit_value, lemma_other_bits_kept, lemma_written_bit_reads_back, set_bit_value,
    with_bit,
};

verus! {

/// Position of NDBANK inside OPTCR.
pub const FLASH_OPTCR_NDBANK_BIT: u8 = 29;

/// Where the flash algorithm expects the new OPTCR value.
pub const FLASH_ALGORITHM_OPTCR_ADDR: u64 = 0x1FFF_0000;

/// Where the flash algorithm expects the new OPTCR1 value.
pub const FLASH_ALGORITHM_OPTCR1_ADDR: u64 = 0x1FFF_0004;

/// Address of FLASH.OPTCR in the memory map of the device.
pub open spec fn optcr_address() -> u64 {
    0x4002_3C14
}

/// Address of FLASH.OPTCR1 in the memory map of the device.
pub open spec fn optcr1_address() -> u64 {
    0x4002_3C18
}

/// `stm32_metapac::FLASH.optcr().as_ptr()`, taken as an integer. Built for
/// the STM32F767, the peripheral crate places the FLASH block at 0x4002_3C00
/// and OPTCR at offset 0x14 of it, so the pointer it hands out is 0x4002_3C14.
#[verifier::external_body]
fn metapac_optcr_address() -> (address: u64)
    ensures
        address == optcr_address(),
{
    stm32_metapac::FLASH.optcr().as_ptr() as u64
}

/// `stm32_metapac::FLASH.optcr1().as_ptr()`, taken as an integer. OPTCR1
/// sits at offset 0x18 of the same FLASH block, so the pointer is 0x4002_3C18.
#[verifier::external_body]
fn metapac_optcr1_address() -> (address: u64)
    ensures
        address == optcr1_address(),
{
    stm32_metapac::FLASH.optcr1().as_ptr() as u64
}

/// One of the two option-control registers.
#[derive(Clone, Copy, Debug, PartialEq, Eq)]
pub enum OptionRegister {
    Optcr,
    Optcr1,
}

impl OptionRegister {
    /// The register's address, as a specification value.
    pub open spec fn spec_address(self) -> u64 {
        match self {
            OptionRegister::Optcr => optcr_address(),
            OptionRegister::Optcr1 => optcr1_address(),
        }
    }

    /// The absolute address at which the probe reads this register.
    pub fn address(self) -> (address: u64)
        ensures
            address == self.spec_address(),
    {
        match self {
            OptionRegister::Optcr => metapac_optcr_address(),
            OptionRegister::Optcr1 => metapac_optcr1_address(),
        }
    }
}

/// A snapshot of the two option-control registers, taken at the start of a
/// write and changed in one bit before it is written back.
#[derive(Clone, Copy, Debug, PartialEq, Eq)]
pub struct FlashCr {
    pub optcr: u32,
    pub optcr1: u32,
}

impl FlashCr {
    /// The snapshot with NDBANK forced to `value`; OPTCR1 passes through.
    pub open spec fn spec_with_ndbank(self, value: bool) -> FlashCr {
        FlashCr { optcr: with_bit(self.optcr, FLASH_OPTCR_NDBANK_BIT, value), optcr1: self.optcr1 }
    }

    /// Sets or clears NDBANK in the OPTCR copy and leaves OPTCR1 as it was read.
    pub fn with_ndbank(self, value: bool) -> (regs: FlashCr)
        ensures
            regs == self.spec_with_ndbank(value),
    {
        let mut regs = self;
        set_bit_value(&mut regs.optcr, FLASH_OPTCR_NDBANK_BIT, value);
        regs
    }
}

/// The NDBANK bit of a raw OPTCR value.
pub open spec fn ndbank_of(optcr: u32) -> bool {
    bit_is_set(optcr, FLASH_OPTCR_NDBANK_BIT)
}

/// Extracts NDBANK from a raw OPTCR value.
pub fn read_ndbank(optcr: u32) -> (value: bool)
    ensures
        value == ndbank_of(optcr),
{
    bit_value(optcr, FLASH_OPTCR_NDBANK_BIT)
}

/// NDBANK is bit 29 of OPTCR and nothing else: two raw values that agree in
/// that bit report the same NDBANK, however they differ elsewhere.
pub proof fn lemma_ndbank_is_bit_29(optcr: u32, other: u32)
    ensures
        ndbank_of(optcr) == (optcr & 0x2000_0000u32 != 0u32),
        optcr & 0x2000_0000u32 == other & 0x2000_0000u32 ==> ndbank_of(optcr) == ndbank_of(other),
{
    assert(((optcr >> 29u8) & 1u32 != 0u32) == (optcr & 0x2000_0000u32 != 0u32)) by (bit_vector);
    assert(((other >> 29u8) & 1u32 != 0u32) == (other & 0x2000_0000u32 != 0u32)) by (bit_vector);
}

/// After NDBANK was written into a snapshot, it reads back as written,
/// whatever the snapshot held before, and no other bit of OPTCR has moved.
pub proof fn lemma_ndbank_round_trip(regs: FlashCr, value: bool)
    ensures
        ndbank_of(regs.spec_with_ndbank(value).optcr) == value,
        regs.spec_with_ndbank(value).optcr1 == regs.optcr1,
        forall|bit: u8|
            bit < 32 && bit != FLASH_OPTCR_NDBANK_BIT ==> #[trigger] bit_is_set(
                regs.spec_with_ndbank(value).optcr,
                bit,
            ) == bit_is_set(regs.optcr, bit),
{
    lemma_written_bit_reads_back(regs.optcr, FLASH_OPTCR_NDBANK_BIT, value);
    assert forall|bit: u8| bit < 32 && bit != FLASH_OPTCR_NDBANK_BIT implies #[trigger] bit_is_set(
        regs.spec_with_ndbank(value).optcr,
        bit,
    ) == bit_is_set(regs.optcr, bit) by {
        lemma_other_bits_kept(regs.optcr, FLASH_OPTCR_NDBANK_BIT, value, bit);
    }
}

} // verus!
