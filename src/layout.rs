//! Flash geometry and the fixed placement of every region of the image.

use vstd::prelude::*;

verus! {

/// Page size in single-bank mode.
pub const SINGLE_BANK_PAGE_SIZE: u32 = 0x2000;

/// Page size in dual-bank mode.
pub const DUAL_BANK_PAGE_SIZE: u32 = 0x1000;

/// The larger of the two page sizes.
pub const MAX_PAGE_SIZE: u32 = SINGLE_BANK_PAGE_SIZE;

/// The smaller of the two page sizes.
pub const MIN_PAGE_SIZE: u32 = DUAL_BANK_PAGE_SIZE;

/// Number of firmware slots.
pub const NUMBER_OF_IMAGES: usize = 3;

/// Size of the internal flash: 2 MiB.
pub const FLASH_SIZE: u32 = 0x20_0000;

/// Size of one firmware slot: 63 of the largest pages (504 KiB).
pub const SLOT_SIZE: u32 = 63 * MAX_PAGE_SIZE;

/// First metadata copy, on the page after the bootloader.
pub const METADATA_1_ADDR: u32 = MAX_PAGE_SIZE;

/// Second metadata copy, on the page after the first.
pub const METADATA_2_ADDR: u32 = 2 * MAX_PAGE_SIZE;

/// Start of RAM, where the chosen image is copied and run.
pub const RAM_ADDR: u32 = 0x2000_0000;

/// Size of RAM: 640 KiB.
pub const RAM_SIZE: u32 = 0xA_0000;

/// Initial stack pointer handed to a booted image.
pub const RAM_STACK_TOP: u32 = 0x2005_0000;

/// Start of slot 0.
pub const SLOT_1_ADDR: u32 = 3 * MAX_PAGE_SIZE;

/// Start of slot 1.
pub const SLOT_2_ADDR: u32 = SLOT_1_ADDR + SLOT_SIZE;

/// Start of slot 2.
pub const SLOT_3_ADDR: u32 = SLOT_2_ADDR + SLOT_SIZE;

/// Offset of the per-image records inside a metadata block.
pub const METADATA_IMAGE_DATA_OFFSET: u32 = 12;

/// Size of an encoded `ImageMetadata`.
pub const IMAGE_METADATA_SIZE: usize = 16;

/// Size of an encoded `Metadata`.
pub const METADATA_SIZE: usize = 64;

/// Bytes of a metadata block covered by its checksum (all but the last field).
pub const METADATA_WITHOUT_CRC_SIZE: usize = 60;

/// Start address of each slot, by index.
pub open spec fn slot_addr_spec(i: int) -> u32 {
    if i == 0 {
        SLOT_1_ADDR
    } else if i == 1 {
        SLOT_2_ADDR
    } else {
        SLOT_3_ADDR
    }
}

/// Start address of slot `i`.
pub fn slot_addr(i: usize) -> (r: u32)
    requires
        i < NUMBER_OF_IMAGES,
    ensures
        r == slot_addr_spec(i as int),
{
    if i == 0 {
        SLOT_1_ADDR
    } else if i == 1 {
        SLOT_2_ADDR
    } else {
        SLOT_3_ADDR
    }
}

/// The larger of two integers.
pub fn max(a: u32, b: u32) -> (r: u32)
    ensures
        r >= a,
        r >= b,
        r == a || r == b,
{
    if a > b {
        a
    } else {
        b
    }
}

/// The smaller of two integers.
pub fn min(a: u32, b: u32) -> (r: u32)
    ensures
        r <= a,
        r <= b,
        r == a || r == b,
{
    if a < b {
        a
    } else {
        b
    }
}

/// The regions of the flash image do not overlap, fit in flash, and every
/// page-sized boundary agrees under both bank modes.
pub proof fn lemma_layout_is_consistent()
    ensures
        MAX_PAGE_SIZE == if SINGLE_BANK_PAGE_SIZE > DUAL_BANK_PAGE_SIZE {
            SINGLE_BANK_PAGE_SIZE
        } else {
            DUAL_BANK_PAGE_SIZE
        },
        MIN_PAGE_SIZE == if SINGLE_BANK_PAGE_SIZE < DUAL_BANK_PAGE_SIZE {
            SINGLE_BANK_PAGE_SIZE
        } else {
            DUAL_BANK_PAGE_SIZE
        },
        MAX_PAGE_SIZE % MIN_PAGE_SIZE == 0,
        MIN_PAGE_SIZE < MAX_PAGE_SIZE,
        MIN_PAGE_SIZE > METADATA_SIZE,
        METADATA_1_ADDR >= MAX_PAGE_SIZE,
        METADATA_1_ADDR + METADATA_SIZE <= METADATA_2_ADDR,
        METADATA_2_ADDR + METADATA_SIZE <= SLOT_1_ADDR,
        SLOT_1_ADDR - METADATA_2_ADDR >= MAX_PAGE_SIZE,
        SLOT_1_ADDR + SLOT_SIZE <= SLOT_2_ADDR,
        SLOT_2_ADDR + SLOT_SIZE <= SLOT_3_ADDR,
        SLOT_3_ADDR + SLOT_SIZE <= FLASH_SIZE,
        SLOT_1_ADDR % MIN_PAGE_SIZE == 0,
        SLOT_2_ADDR % MIN_PAGE_SIZE == 0,
        SLOT_3_ADDR % MIN_PAGE_SIZE == 0,
        SLOT_SIZE % MIN_PAGE_SIZE == 0,
        SLOT_SIZE % MAX_PAGE_SIZE == 0,
        METADATA_IMAGE_DATA_OFFSET as int + IMAGE_METADATA_SIZE * NUMBER_OF_IMAGES + 4
            == METADATA_SIZE,
        RAM_STACK_TOP <= RAM_ADDR + RAM_SIZE,
{
}

/// Conversion of a 32-bit flash quantity to a host index.
pub trait U32Ext {
    fn to_usize(self) -> usize;
}

impl U32Ext for u32 {
    /// Convert a `u32` to a `usize`; every `u32` fits on the targets this
    /// library builds for.
    fn to_usize(self) -> (r: usize)
        ensures
            r == self,
    {
        self as usize
    }
}

} // verus!
