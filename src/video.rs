//! The screen: a 1-bit-per-pixel bitmap in RAM, most significant bit
//! leftmost, a set bit black, turned into an RGBA surface.

use vstd::prelude::*;
use vstd::arithmetic::div_mod::lemma_fundamental_div_mod_converse;
use crate::address_map::{region_of, Region, RAM_SIZE, VIDEO_BASE};
use crate::memory::{write_u8, Machine, MachineModel};

verus! {

/// Screen width in pixels.
pub const SCREEN_WIDTH: usize = 512;

/// Screen height in pixels.
pub const SCREEN_HEIGHT: usize = 342;

/// Bytes of bitmap per screen row.
pub const ROW_BYTES: usize = 64;

/// Bytes of an RGBA frame.
pub const FRAME_BYTES: usize = 700416;

/// Whether the pixel at column `x`, row `y` is set in the bitmap.
pub open spec fn pixel_lit(ram: Seq<u8>, x: int, y: int) -> bool {
    let byte = ram[VIDEO_BASE + y * ROW_BYTES + x / 8];
    (byte >> ((7 - x % 8) as u8)) & 1 != 0
}

/// Byte `n` of the RGBA frame: pixels row by row, four bytes each; a set
/// pixel is black, a clear one white, and alpha is always opaque.
pub open spec fn frame_byte(ram: Seq<u8>, n: int) -> u8 {
    let p = n / 4;
    if n % 4 == 3 {
        0xff
    } else if pixel_lit(ram, p % SCREEN_WIDTH as int, p / SCREEN_WIDTH as int) {
        0
    } else {
        0xff
    }
}

/// Renders the screen bitmap of `m`'s RAM as an RGBA frame.
pub fn frame_rgba(m: &Machine) -> (r: Vec<u8>)
    requires
        m@.wf(),
    ensures
        r@ == Seq::new(FRAME_BYTES as nat, |n: int| frame_byte(m@.ram, n)),
{
    let ram = m.ram();
    let mut frame: Vec<u8> = Vec::with_capacity(FRAME_BYTES);
    let mut p: usize = 0;
    while p < SCREEN_WIDTH * SCREEN_HEIGHT
        invariant
            ram@ == m@.ram,
            ram@.len() == RAM_SIZE,
            p <= SCREEN_WIDTH * SCREEN_HEIGHT,
            frame@.len() == 4 * p,
            forall|n: int| 0 <= n < frame@.len() ==> #[trigger] frame@[n] == frame_byte(ram@, n),
        decreases SCREEN_WIDTH * SCREEN_HEIGHT - p,
    {
        let x = p % SCREEN_WIDTH;
        let y = p / SCREEN_WIDTH;
        assert(y < SCREEN_HEIGHT && x < SCREEN_WIDTH) by (nonlinear_arith)
            requires
                p < 512 * 342,
                x == p % 512,
                y == p / 512,
        ;
        let byte = ram[VIDEO_BASE + y * ROW_BYTES + x / 8];
        let bit = (7 - x % 8) as u8;
        let color: u8 = if (byte >> bit) & 1 != 0 {
            0
        } else {
            0xff
        };
        proof {
            lemma_fundamental_div_mod_converse(4 * p + 0, 4, p as int, 0);
            lemma_fundamental_div_mod_converse(4 * p + 1, 4, p as int, 1);
            lemma_fundamental_div_mod_converse(4 * p + 2, 4, p as int, 2);
            lemma_fundamental_div_mod_converse(4 * p + 3, 4, p as int, 3);
        }
        let ghost before = frame@;
        frame.push(color);
        frame.push(color);
        frame.push(color);
        frame.push(0xff);
        assert forall|n: int| 0 <= n < frame@.len() implies #[trigger] frame@[n] == frame_byte(
            ram@,
            n,
        ) by {
            if n >= before.len() {
                assert(n / 4 == p as int);
            }
        }
        p += 1;
    }
    assert(frame@ =~= Seq::new(FRAME_BYTES as nat, |n: int| frame_byte(m@.ram, n)));
    frame
}

/// Byte `offset` of the start-up test pattern: alternating black and white
/// squares of 8 by 8 pixels, the top-left one black.
pub open spec fn test_pattern_byte(offset: int) -> u8 {
    let x = offset % ROW_BYTES as int;
    let y = offset / ROW_BYTES as int;
    if (x / 8 + y / 8) % 2 == 0 {
        0xff
    } else {
        0
    }
}

/// Draws the start-up test pattern into the screen bitmap through the bus;
/// nothing else in the machine changes.
pub fn fill_test_pattern(m: &mut Machine)
    requires
        old(m)@.wf(),
    ensures
        final(m)@.wf(),
        final(m)@ == (MachineModel { ram: final(m)@.ram, ..old(m)@ }),
        forall|o: int|
            0 <= o < SCREEN_HEIGHT * ROW_BYTES ==> #[trigger] final(m)@.ram[VIDEO_BASE + o]
                == test_pattern_byte(o),
        forall|i: int|
            0 <= i < RAM_SIZE && !(VIDEO_BASE <= i < VIDEO_BASE + SCREEN_HEIGHT * ROW_BYTES)
                ==> #[trigger] final(m)@.ram[i] == old(m)@.ram[i],
{
    let mut o: usize = 0;
    while o < SCREEN_HEIGHT * ROW_BYTES
        invariant
            o <= SCREEN_HEIGHT * ROW_BYTES,
            m@.wf(),
            m@ == (MachineModel { ram: m@.ram, ..old(m)@ }),
            forall|j: int| 0 <= j < o ==> #[trigger] m@.ram[VIDEO_BASE + j] == test_pattern_byte(j),
            forall|i: int|
                0 <= i < RAM_SIZE && !(VIDEO_BASE <= i < VIDEO_BASE + o) ==> #[trigger] m@.ram[i]
                    == old(m)@.ram[i],
        decreases SCREEN_HEIGHT * ROW_BYTES - o,
    {
        let x = o % ROW_BYTES;
        let y = o / ROW_BYTES;
        let value: u8 = if (x / 8 + y / 8) % 2 == 0 {
            0xff
        } else {
            0
        };
        let addr = (VIDEO_BASE + o) as u32;
        assert(region_of(addr, m@.rom_overlay) == Region::Ram) by {
            assert((addr & 0xFFFFFF) < 0xDFE1FF && addr & 0xF00000 == 0 && addr & 0xE80000 == 0)
                by (bit_vector)
                requires
                    0x1A700u32 <= addr < 0x20000u32,
            ;
        }
        write_u8(m, addr, value);
        o += 1;
    }
}

} // verus!
