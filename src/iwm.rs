//! Register shell of the disk controller (IWM): sixteen byte registers, two of
//! which read back fixed sense-line patterns.

use vstd::prelude::*;
use crate::address_map::{lemma_reg_index_bounds, reg_index, register_index};

verus! {

/// Register whose sense lines always read as all ones.
pub const IWM_SENSE_ALL_ONES: usize = 8;

/// Register whose sense lines read as a fixed pattern.
pub const IWM_SENSE_PATTERN: usize = 14;

/// What a read of register `r` returns, given the stored registers.
pub open spec fn iwm_read_value(regs: Seq<u8>, r: int) -> u8 {
    if r == IWM_SENSE_ALL_ONES {
        0xff
    } else if r == IWM_SENSE_PATTERN {
        0x1f
    } else {
        regs[r]
    }
}

/// The disk-controller register file.
pub struct Iwm {
    regs: [u8; 16],
}

impl View for Iwm {
    type V = Seq<u8>;

    closed spec fn view(&self) -> Seq<u8> {
        self.regs@
    }
}

impl Iwm {
    /// A register file with every register at zero.
    pub fn new() -> (r: Self)
        ensures
            r@ == Seq::new(16, |i: int| 0u8),
    {
        let r = Iwm { regs: [0u8; 16] };
        assert(r@ =~= Seq::new(16, |i: int| 0u8));
        r
    }

    /// The view always has one entry per register.
    pub proof fn lemma_len(&self)
        ensures
            self@.len() == 16,
    {
    }

    /// Stores `val` into the register selected by `addr`, whatever its index.
    pub fn write(&mut self, addr: u32, val: u8)
        ensures
            final(self)@ == old(self)@.update(reg_index(addr), val),
            final(self)@.len() == 16,
    {
        let r = register_index(addr);
        self.regs[r] = val;
    }

    /// Reads the register selected by `addr`: the two sense registers give
    /// their fixed patterns, every other register its stored value.
    pub fn read(&self, addr: u32) -> (r: u8)
        ensures
            r == iwm_read_value(self@, reg_index(addr)),
    {
        let r = register_index(addr);
        if r == IWM_SENSE_ALL_ONES {
            0xff
        } else if r == IWM_SENSE_PATTERN {
            0x1f
        } else {
            self.regs[r]
        }
    }
}

/// Reading back the disk controller: the two sense registers give their fixed
/// patterns whatever was written to them; any other register gives the last
/// value written to it, and zero on a fresh register file.
pub proof fn lemma_iwm_read_back(regs: Seq<u8>, waddr: u32, val: u8, raddr: u32)
    requires
        regs.len() == 16,
    ensures
        ({
            let after = regs.update(reg_index(waddr), val);
            let r = reg_index(raddr);
            &&& r == IWM_SENSE_ALL_ONES ==> iwm_read_value(after, r) == 0xff
            &&& r == IWM_SENSE_PATTERN ==> iwm_read_value(after, r) == 0x1f
            &&& r != IWM_SENSE_ALL_ONES && r != IWM_SENSE_PATTERN && r == reg_index(waddr)
                ==> iwm_read_value(after, r) == val
            &&& r != IWM_SENSE_ALL_ONES && r != IWM_SENSE_PATTERN && r != reg_index(waddr)
                ==> iwm_read_value(after, r) == iwm_read_value(regs, r)
            &&& r != IWM_SENSE_ALL_ONES && r != IWM_SENSE_PATTERN ==> iwm_read_value(
                Seq::new(16, |i: int| 0u8),
                r,
            ) == 0
        }),
{
    lemma_reg_index_bounds(waddr);
    lemma_reg_index_bounds(raddr);
}

} // verus!
