//! The machine's memory bus: ROM, RAM and the overlay flag, the chips behind
//! it, and the byte, word and long accesses that the CPU core makes.
//!
//! Every access is decoded by [`decode`] and answered by exactly one device.
//! Words and longs are split into single-byte accesses, most significant byte
//! first, each decoded on its own. No access fails: what nothing answers
//! reads as all ones and drops writes. Accesses that need the operator's
//! attention (the serial controller, writes to ROM) are recorded as [`Trap`]s
//! for the host to present.

use vstd::prelude::*;
use crate::address_map::{
    decode,
    reg_index,
    region_of,
    Region,
    RAM_SIZE,
    ROM_BASE,
    ROM_SIZE,
};
use crate::debug::{is_single_step_reply, wants_single_step, Trap, TrapKind};
use crate::iwm::{iwm_read_value, Iwm};
use crate::via::{
    via_after_read,
    via_after_write,
    via_read_value,
    Via,
    ViaEvent,
    ViaModel,
};

verus! {

/// Why a ROM image was refused.
#[derive(Clone, Copy, Debug, PartialEq, Eq, Structural)]
pub enum RomError {
    /// The image does not have the size of the ROM.
    InvalidSize { expected: usize, got: usize },
}

/// Mathematical state of the machine.
pub struct MachineModel {
    pub rom: Seq<u8>,
    pub ram: Seq<u8>,
    pub rom_overlay: bool,
    pub via: Option<ViaModel>,
    pub iwm: Seq<u8>,
    pub single_step: bool,
    pub traps: Seq<Trap>,
}

impl MachineModel {
    pub open spec fn wf(self) -> bool {
        &&& self.rom.len() == ROM_SIZE
        &&& self.ram.len() == RAM_SIZE
        &&& self.iwm.len() == 16
        &&& self.via matches Some(v) ==> v.wf()
    }

    pub open spec fn trapped(self, kind: TrapKind, addr: u32) -> MachineModel {
        MachineModel { traps: self.traps.push(Trap { kind, addr }), ..self }
    }
}

/// The byte that a read of `addr` returns.
pub open spec fn read_byte_value(s: MachineModel, addr: u32) -> u8 {
    match region_of(addr, s.rom_overlay) {
        Region::Iwm => iwm_read_value(s.iwm, reg_index(addr)),
        Region::Via => match s.via {
            Some(v) => via_read_value(v, addr),
            None => 0xff,
        },
        Region::RomAtZero => s.rom[addr as int],
        Region::RomAlias => s.rom[addr - ROM_BASE],
        Region::Ram => s.ram[addr as int],
        _ => 0xff,
    }
}

/// The machine after a read of `addr`.
pub open spec fn after_read_byte(s: MachineModel, addr: u32) -> MachineModel {
    match region_of(addr, s.rom_overlay) {
        Region::SerialRead => s.trapped(TrapKind::SerialReadWindowRead, addr),
        Region::SerialWrite => s.trapped(TrapKind::SerialWriteWindowRead, addr),
        Region::Via => match s.via {
            Some(v) => MachineModel { via: Some(via_after_read(v, addr)), ..s },
            None => s,
        },
        _ => s,
    }
}

/// The machine after a write of `val` at `addr`.
pub open spec fn after_write_byte(s: MachineModel, addr: u32, val: u8) -> MachineModel {
    match region_of(addr, s.rom_overlay) {
        Region::Iwm => MachineModel { iwm: s.iwm.update(reg_index(addr), val), ..s },
        Region::SerialRead => s.trapped(TrapKind::SerialReadWindowWrite, addr),
        Region::SerialWrite => s.trapped(TrapKind::SerialWriteWindowWrite, addr),
        Region::Via => match s.via {
            Some(v) => MachineModel { via: Some(via_after_write(v, addr, val)), ..s },
            None => s,
        },
        Region::RomAtZero => s.trapped(TrapKind::RomWriteAtZero, addr),
        Region::RomAlias => s.trapped(TrapKind::RomWriteAtAlias, addr),
        Region::Ram => MachineModel { ram: s.ram.update(addr as int, val), ..s },
        Region::Unmapped => s,
    }
}

/// A word read: the byte at `addr` is the high half, the byte at the next
/// address, read afterwards, the low half.
pub open spec fn read_word_value(s: MachineModel, addr: u32) -> u16 {
    let hi = read_byte_value(s, addr);
    let lo = read_byte_value(after_read_byte(s, addr), addr.wrapping_add(1));
    ((hi as u16) << 8u16) | (lo as u16)
}

pub open spec fn after_read_word(s: MachineModel, addr: u32) -> MachineModel {
    after_read_byte(after_read_byte(s, addr), addr.wrapping_add(1))
}

/// A long read: the word at `addr` is the high half, the word two bytes on,
/// read afterwards, the low half.
pub open spec fn read_long_value(s: MachineModel, addr: u32) -> u32 {
    let hi = read_word_value(s, addr);
    let lo = read_word_value(after_read_word(s, addr), addr.wrapping_add(2));
    ((hi as u32) << 16u32) | (lo as u32)
}

pub open spec fn after_read_long(s: MachineModel, addr: u32) -> MachineModel {
    after_read_word(after_read_word(s, addr), addr.wrapping_add(2))
}

/// A word write: high byte at `addr`, then low byte at the next address.
pub open spec fn after_write_word(s: MachineModel, addr: u32, val: u16) -> MachineModel {
    after_write_byte(
        after_write_byte(s, addr, (val >> 8u16) as u8),
        addr.wrapping_add(1),
        val as u8,
    )
}

/// A long write: high word at `addr`, then low word two bytes on.
pub open spec fn after_write_long(s: MachineModel, addr: u32, val: u32) -> MachineModel {
    after_write_word(
        after_write_word(s, addr, (val >> 16u32) as u16),
        addr.wrapping_add(2),
        val as u16,
    )
}

/// The whole machine context: memories, overlay flag, chips, debug state.
pub struct Machine {
    rom: Vec<u8>,
    ram: Vec<u8>,
    rom_overlay: bool,
    via: Option<Via>,
    iwm: Iwm,
    single_step: bool,
    traps: Vec<Trap>,
}

impl View for Machine {
    type V = MachineModel;

    closed spec fn view(&self) -> MachineModel {
        MachineModel {
            rom: self.rom@,
            ram: self.ram@,
            rom_overlay: self.rom_overlay,
            via: match self.via {
                Some(v) => Some(v@),
                None => None,
            },
            iwm: self.iwm@,
            single_step: self.single_step,
            traps: self.traps@,
        }
    }
}

impl Machine {
    /// A machine before bring-up: ROM and RAM zero, ROM overlaid at address
    /// zero, no VIA yet, disk-controller registers zero, single-stepping off,
    /// no trap.
    pub fn new() -> (r: Self)
        ensures
            r@.wf(),
            r@.rom == Seq::new(ROM_SIZE as nat, |i: int| 0u8),
            r@.ram == Seq::new(RAM_SIZE as nat, |i: int| 0u8),
            r@.rom_overlay,
            r@.via is None,
            r@.iwm == Seq::new(16, |i: int| 0u8),
            !r@.single_step,
            r@.traps == Seq::<Trap>::empty(),
    {
        let rom = vec![0u8; ROM_SIZE];
        let ram = vec![0u8; RAM_SIZE];
        let iwm = Iwm::new();
        proof {
            iwm.lemma_len();
        }
        let r = Machine {
            rom,
            ram,
            rom_overlay: true,
            via: None,
            iwm,
            single_step: false,
            traps: Vec::new(),
        };
        assert(r@.rom =~= Seq::new(ROM_SIZE as nat, |i: int| 0u8));
        assert(r@.ram =~= Seq::new(RAM_SIZE as nat, |i: int| 0u8));
        r
    }

    /// The RAM contents.
    pub fn ram(&self) -> (r: &Vec<u8>)
        ensures
            r@ == self@.ram,
    {
        &self.ram
    }

    /// Whether single-stepping is armed.
    pub fn single_step_armed(&self) -> (r: bool)
        ensures
            r == self@.single_step,
    {
        self.single_step
    }

    /// Applies the operator's reply to a trap: the single-step command arms
    /// single-stepping and answers `false` (no full continue); any other reply
    /// disarms it and answers `true`.
    pub fn operator_reply(&mut self, reply: &str) -> (r: bool)
        ensures
            r == !is_single_step_reply(reply@),
            final(self)@ == (MachineModel { single_step: !r, ..old(self)@ }),
    {
        let step = wants_single_step(reply);
        self.single_step = step;
        !step
    }

    /// Hands over the traps recorded so far and forgets them.
    pub fn take_traps(&mut self) -> (r: Vec<Trap>)
        ensures
            r@ == old(self)@.traps,
            final(self)@ == (MachineModel { traps: Seq::empty(), ..old(self)@ }),
    {
        let mut taken = Vec::new();
        std::mem::swap(&mut taken, &mut self.traps);
        taken
    }

    /// Hands over the events the VIA signalled so far (none without a VIA).
    pub fn take_via_events(&mut self) -> (r: Vec<ViaEvent>)
        requires
            old(self)@.wf(),
        ensures
            final(self)@.wf(),
            r@ == (match old(self)@.via {
                Some(v) => v.events,
                None => Seq::empty(),
            }),
            final(self)@ == (match old(self)@.via {
                Some(v) => MachineModel {
                    via: Some(ViaModel { events: Seq::empty(), ..v }),
                    ..old(self)@
                },
                None => old(self)@,
            }),
    {
        match &mut self.via {
            Some(v) => v.take_events(),
            None => Vec::new(),
        }
    }

    /// Latches the levels on the VIA's input ports (nothing without a VIA).
    pub fn set_via_inputs(&mut self, a: u8, b: u8)
        requires
            old(self)@.wf(),
        ensures
            final(self)@.wf(),
            final(self)@ == (match old(self)@.via {
                Some(v) => MachineModel {
                    via: Some(ViaModel { port_a_in: a, port_b_in: b, ..v }),
                    ..old(self)@
                },
                None => old(self)@,
            }),
    {
        match &mut self.via {
            Some(v) => v.set_port_inputs(a, b),
            None => {},
        }
    }
}

/// Installs a ROM image of exactly the ROM's size and overlays it at address
/// zero; an image of any other size is refused and the machine left as it was.
pub fn load_rom(m: &mut Machine, rom_data: Vec<u8>) -> (r: Result<(), RomError>)
    requires
        old(m)@.wf(),
    ensures
        final(m)@.wf(),
        rom_data@.len() == ROM_SIZE ==> r is Ok && final(m)@ == (MachineModel {
            rom: rom_data@,
            rom_overlay: true,
            ..old(m)@
        }),
        rom_data@.len() != ROM_SIZE ==> r == Err::<(), RomError>(
            RomError::InvalidSize { expected: ROM_SIZE, got: rom_data@.len() as usize },
        ) && final(m)@ == old(m)@,
{
    if rom_data.len() != ROM_SIZE {
        return Err(RomError::InvalidSize { expected: ROM_SIZE, got: rom_data.len() });
    }
    m.rom = rom_data;
    m.rom_overlay = true;
    Ok(())
}

/// Removes the ROM overlay: from now on RAM answers at address zero.
pub fn remap_rom(m: &mut Machine)
    ensures
        final(m)@ == (MachineModel { rom_overlay: false, ..old(m)@ }),
{
    m.rom_overlay = false;
}

/// Attaches the VIA to the bus, replacing any earlier one.
pub fn set_via(m: &mut Machine, chip: Via)
    requires
        old(m)@.wf(),
        chip@.wf(),
    ensures
        final(m)@.wf(),
        final(m)@ == (MachineModel { via: Some(chip@), ..old(m)@ }),
{
    m.via = Some(chip);
}

/// Reads the byte at `addr` from whichever device answers it.
pub fn read_u8(m: &mut Machine, addr: u32) -> (r: u8)
    requires
        old(m)@.wf(),
    ensures
        r == read_byte_value(old(m)@, addr),
        final(m)@ == after_read_byte(old(m)@, addr),
        final(m)@.wf(),
{
    match decode(addr, m.rom_overlay) {
        Region::Iwm => m.iwm.read(addr),
        Region::SerialRead => {
            m.traps.push(Trap { kind: TrapKind::SerialReadWindowRead, addr });
            0xff
        },
        Region::SerialWrite => {
            m.traps.push(Trap { kind: TrapKind::SerialWriteWindowRead, addr });
            0xff
        },
        Region::Via => match &mut m.via {
            Some(v) => v.read(addr),
            None => 0xff,
        },
        Region::RomAtZero => m.rom[addr as usize],
        Region::RomAlias => m.rom[(addr - ROM_BASE) as usize],
        Region::Ram => m.ram[addr as usize],
        Region::Unmapped => 0xff,
    }
}

/// Writes `value` at `addr` to whichever device answers it.
pub fn write_u8(m: &mut Machine, addr: u32, value: u8)
    requires
        old(m)@.wf(),
    ensures
        final(m)@ == after_write_byte(old(m)@, addr, value),
        final(m)@.wf(),
{
    match decode(addr, m.rom_overlay) {
        Region::Iwm => {
            proof {
                m.iwm.lemma_len();
            }
            m.iwm.write(addr, value);
        },
        Region::SerialRead => {
            m.traps.push(Trap { kind: TrapKind::SerialReadWindowWrite, addr });
        },
        Region::SerialWrite => {
            m.traps.push(Trap { kind: TrapKind::SerialWriteWindowWrite, addr });
        },
        Region::Via => match &mut m.via {
            Some(v) => v.write(addr, value),
            None => {},
        },
        Region::RomAtZero => {
            m.traps.push(Trap { kind: TrapKind::RomWriteAtZero, addr });
        },
        Region::RomAlias => {
            m.traps.push(Trap { kind: TrapKind::RomWriteAtAlias, addr });
        },
        Region::Ram => {
            m.ram.set(addr as usize, value);
        },
        Region::Unmapped => {},
    }
}

/// Reads the big-endian word at `addr`, one byte access after the other.
pub fn read_u16(m: &mut Machine, addr: u32) -> (r: u16)
    requires
        old(m)@.wf(),
    ensures
        r == read_word_value(old(m)@, addr),
        final(m)@ == after_read_word(old(m)@, addr),
        final(m)@.wf(),
{
    let high = read_u8(m, addr) as u16;
    let low = read_u8(m, addr.wrapping_add(1)) as u16;
    (high << 8u16) | low
}

/// Writes `value` as a big-endian word at `addr`.
pub fn write_u16(m: &mut Machine, addr: u32, value: u16)
    requires
        old(m)@.wf(),
    ensures
        final(m)@ == after_write_word(old(m)@, addr, value),
        final(m)@.wf(),
{
    write_u8(m, addr, (value >> 8u16) as u8);
    write_u8(m, addr.wrapping_add(1), value as u8);
}

/// Reads the big-endian long at `addr`, one word access after the other.
pub fn read_u32(m: &mut Machine, addr: u32) -> (r: u32)
    requires
        old(m)@.wf(),
    ensures
        r == read_long_value(old(m)@, addr),
        final(m)@ == after_read_long(old(m)@, addr),
        final(m)@.wf(),
{
    let high = read_u16(m, addr) as u32;
    let low = read_u16(m, addr.wrapping_add(2)) as u32;
    (high << 16u32) | low
}

/// Writes `value` as a big-endian long at `addr`.
pub fn write_u32(m: &mut Machine, addr: u32, value: u32)
    requires
        old(m)@.wf(),
    ensures
        final(m)@ == after_write_long(old(m)@, addr, value),
        final(m)@.wf(),
{
    write_u16(m, addr, (value >> 16u32) as u16);
    write_u16(m, addr.wrapping_add(2), value as u16);
}

/// The ROM overlay: below the ROM's size, a read gives the ROM byte at that
/// offset while the overlay is active, and the RAM byte at that offset once
/// [`remap_rom`] has removed it.
pub proof fn lemma_overlay_read(s: MachineModel, a: u32)
    requires
        s.wf(),
        a < ROM_SIZE,
    ensures
        s.rom_overlay ==> read_byte_value(s, a) == s.rom[a as int],
        read_byte_value(MachineModel { rom_overlay: false, ..s }, a) == s.ram[a as int],
{
    assert((a & 0xFFFFFF) < 0xDFE1FF && a & 0xF00000 == 0 && a & 0xE80000 == 0) by (bit_vector)
        requires
            a < 0x10000u32,
    ;
}

} // verus!
