//! The fixed address map of the machine and the decoding of a CPU address
//! into the device that answers it.

use vstd::prelude::*;

verus! {

/// Size of the RAM backing store (the whole 24-bit address space).
pub const RAM_SIZE: usize = 0x1000000;

/// Size of the ROM image.
pub const ROM_SIZE: usize = 0x10000;

/// Offset in RAM of the 1-bit-per-pixel screen buffer.
pub const VIDEO_BASE: usize = 0x1A700;

/// Address at which the ROM is always visible.
pub const ROM_BASE: u32 = 0x400000;

/// Last address of the fixed ROM alias.
pub const ROM_END: u32 = 0x40FFFF;

/// First (24-bit) address of the disk-controller window.
pub const IWM_BASE: u32 = 0xDFE1FF;

/// Length of the disk-controller window.
pub const IWM_WINDOW: u32 = 0x2000;

/// The device that answers an access, in the order in which the windows are
/// tested.
#[derive(Clone, Copy, Debug, PartialEq, Eq, Structural)]
pub enum Region {
    /// Disk controller registers.
    Iwm,
    /// Serial controller, read window (trapped, not modelled).
    SerialRead,
    /// Serial controller, write window (trapped, not modelled).
    SerialWrite,
    /// VIA registers.
    Via,
    /// ROM seen at address zero while the overlay is active.
    RomAtZero,
    /// ROM seen at its fixed high alias.
    RomAlias,
    /// Plain RAM.
    Ram,
    /// Nothing answers.
    Unmapped,
}

pub open spec fn in_iwm_window(addr: u32) -> bool {
    IWM_BASE <= (addr & 0xFFFFFF) < IWM_BASE + IWM_WINDOW
}

pub open spec fn in_serial_read_window(addr: u32) -> bool {
    addr & 0xF00000 == 0x900000
}

pub open spec fn in_serial_write_window(addr: u32) -> bool {
    addr & 0xF00000 == 0xB00000
}

pub open spec fn in_via_window(addr: u32) -> bool {
    addr & 0xE80000 == 0xE80000
}

/// The region that answers `addr`: the first window, in the fixed priority
/// order, that contains it.
pub open spec fn region_of(addr: u32, rom_overlay: bool) -> Region {
    if in_iwm_window(addr) {
        Region::Iwm
    } else if in_serial_read_window(addr) {
        Region::SerialRead
    } else if in_serial_write_window(addr) {
        Region::SerialWrite
    } else if in_via_window(addr) {
        Region::Via
    } else if rom_overlay && addr < ROM_SIZE {
        Region::RomAtZero
    } else if ROM_BASE <= addr < ROM_BASE + ROM_SIZE {
        Region::RomAlias
    } else if addr < RAM_SIZE {
        Region::Ram
    } else {
        Region::Unmapped
    }
}

/// Decodes `addr` into the region that answers it.
pub fn decode(addr: u32, rom_overlay: bool) -> (r: Region)
    ensures
        r == region_of(addr, rom_overlay),
{
    let low24 = addr & 0xFFFFFF;
    if IWM_BASE <= low24 && low24 < IWM_BASE + IWM_WINDOW {
        Region::Iwm
    } else if addr & 0xF00000 == 0x900000 {
        Region::SerialRead
    } else if addr & 0xF00000 == 0xB00000 {
        Region::SerialWrite
    } else if addr & 0xE80000 == 0xE80000 {
        Region::Via
    } else if rom_overlay && addr < ROM_SIZE as u32 {
        Region::RomAtZero
    } else if ROM_BASE <= addr && addr < ROM_BASE + ROM_SIZE as u32 {
        Region::RomAlias
    } else if addr < RAM_SIZE as u32 {
        Region::Ram
    } else {
        Region::Unmapped
    }
}

/// Index of the chip register selected by an address inside a VIA or IWM
/// window: address bits 9 to 12.
pub open spec fn reg_index(addr: u32) -> int {
    ((addr >> 9) & 0xf) as int
}

/// Every address selects one of sixteen registers.
pub proof fn lemma_reg_index_bounds(addr: u32)
    ensures
        0 <= reg_index(addr) < 16,
{
    assert((addr >> 9) & 0xf < 16) by (bit_vector);
}

/// Computes the register index selected by `addr`.
pub fn register_index(addr: u32) -> (r: usize)
    ensures
        r as int == reg_index(addr),
        r < 16,
{
    assert((addr >> 9) & 0xf < 16) by (bit_vector);
    ((addr >> 9) & 0xf) as usize
}

} // verus!
