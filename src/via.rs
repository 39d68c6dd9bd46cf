//! The versatile interface adapter (VIA): two parallel ports with data
//! direction masks, a shift register with a one-byte transmit protocol, and
//! interrupt aggregation with an edge-triggered output line.
//!
//! The chip does not call its host directly. What a hardware VIA signals on
//! its pins (a port output that changed, a byte shifted out, a change of the
//! interrupt line) is appended, in order, to an outbox of [`ViaEvent`]s that
//! the host drains with [`Via::take_events`]. The levels on the port input
//! pins are latched with [`Via::set_port_inputs`].

use vstd::prelude::*;
use crate::address_map::{lemma_reg_index_bounds, reg_index, register_index};

verus! {

/// Output register B.
pub const VIA_RB: usize = 0;
/// Output register A.
pub const VIA_RA: usize = 1;
/// Data direction register B.
pub const VIA_DDRB: usize = 2;
/// Data direction register A.
pub const VIA_DDRA: usize = 3;
/// Shift register.
pub const VIA_SR: usize = 10;
/// Auxiliary control register.
pub const VIA_ACR: usize = 11;
/// Interrupt flag register.
pub const VIA_IFR: usize = 13;
/// Interrupt enable register.
pub const VIA_IER: usize = 14;
/// Output register A, second address (no handshake).
pub const VIA_RA_ALT: usize = 15;

/// Interrupt source: edge on control line 1.
pub const VIA_IRQ_CA: u8 = 0x01;
/// Interrupt source: edge on control line 2.
pub const VIA_IRQ_CB: u8 = 0x02;
/// Interrupt source: shift register.
pub const VIA_IRQ_SR: u8 = 0x04;

/// Bits of the auxiliary control register that select the shift mode.
pub const SR_MODE_MASK: u8 = 0x1c;
/// Shift mode: shift out under the system clock.
pub const SR_MODE_SHIFT_OUT: u8 = 0x1c;
/// Shift mode: shifting stopped, register cleared on a write.
pub const SR_MODE_DISABLED: u8 = 0x18;
/// Shift mode: shift in under an external clock.
pub const SR_MODE_SHIFT_IN_EXT: u8 = 0x0c;

/// Something the chip signals to its host.
#[derive(Clone, Copy, Debug, PartialEq, Eq, Structural)]
pub enum ViaEvent {
    /// Output register A was written with a new value.
    PortA(u8),
    /// Output register B was written with a new value.
    PortB(u8),
    /// A queued byte was released for transmission.
    ShiftOut(u8),
    /// The interrupt line changed to the given level.
    Irq(bool),
}

/// Mathematical state of the chip.
pub struct ViaModel {
    pub regs: Seq<u8>,
    pub irq_active: u8,
    pub irq_enable: u8,
    pub irq_status: bool,
    pub sr_pending: Option<u8>,
    pub port_a_in: u8,
    pub port_b_in: u8,
    pub events: Seq<ViaEvent>,
}

/// Level of the aggregate interrupt line.
pub open spec fn irq_line(enable: u8, active: u8) -> bool {
    enable & active & 0x7f != 0
}

/// A port as read: driven bits from the output register, the others from the
/// input pins.
pub open spec fn port_value(ddr: u8, out: u8, input: u8) -> u8 {
    (ddr & out) | (!ddr & input)
}

impl ViaModel {
    /// Sixteen registers, and the last level signalled is the current one.
    pub open spec fn wf(self) -> bool {
        &&& self.regs.len() == 16
        &&& self.irq_status == irq_line(self.irq_enable, self.irq_active)
    }

    pub open spec fn line(self) -> bool {
        irq_line(self.irq_enable, self.irq_active)
    }

    pub open spec fn sr_mode(self) -> u8 {
        self.regs[VIA_ACR as int] & SR_MODE_MASK
    }
}

/// The bytes released for transmission, in order, in an event sequence.
pub open spec fn transmitted(evs: Seq<ViaEvent>) -> Seq<u8>
    decreases evs.len(),
{
    if evs.len() == 0 {
        seq![]
    } else {
        let rest = transmitted(evs.drop_last());
        match evs.last() {
            ViaEvent::ShiftOut(b) => rest.push(b),
            _ => rest,
        }
    }
}

/// The interrupt levels signalled, in order, in an event sequence.
pub open spec fn irq_levels(evs: Seq<ViaEvent>) -> Seq<bool>
    decreases evs.len(),
{
    if evs.len() == 0 {
        seq![]
    } else {
        let rest = irq_levels(evs.drop_last());
        match evs.last() {
            ViaEvent::Irq(l) => rest.push(l),
            _ => rest,
        }
    }
}

/// Brings the signalled interrupt level up to date, signalling a change.
pub open spec fn assessed(s: ViaModel) -> ViaModel {
    if s.line() != s.irq_status {
        ViaModel { irq_status: s.line(), events: s.events.push(ViaEvent::Irq(s.line())), ..s }
    } else {
        s
    }
}

/// Effect of writing `data` to output register A (either address).
pub open spec fn write_port_a(s: ViaModel, data: u8) -> ViaModel {
    ViaModel {
        regs: s.regs.update(VIA_RA as int, data),
        events: if s.regs[VIA_RA as int] != data {
            s.events.push(ViaEvent::PortA(data))
        } else {
            s.events
        },
        ..s
    }
}

/// Effect of writing `data` to output register B.
pub open spec fn write_port_b(s: ViaModel, data: u8) -> ViaModel {
    ViaModel {
        regs: s.regs.update(VIA_RB as int, data),
        events: if s.regs[VIA_RB as int] != data {
            s.events.push(ViaEvent::PortB(data))
        } else {
            s.events
        },
        ..s
    }
}

/// Effect of writing `data` to the shift register: queue it in shift-out mode,
/// clear the register in disabled mode, nothing otherwise.
pub open spec fn write_shift(s: ViaModel, data: u8) -> ViaModel {
    if s.sr_mode() == SR_MODE_SHIFT_OUT {
        ViaModel { sr_pending: Some(data), irq_active: s.irq_active | VIA_IRQ_SR, ..s }
    } else if s.sr_mode() == SR_MODE_DISABLED {
        ViaModel { regs: s.regs.update(VIA_SR as int, 0), ..s }
    } else {
        s
    }
}

/// New enable mask after writing `data` to the enable register.
pub open spec fn enable_after(enable: u8, data: u8) -> u8 {
    if data & 0x80 != 0 {
        enable | (data & 0x7f)
    } else {
        enable & !(data & 0x7f)
    }
}

/// Effect of writing `data` to the flag register: clear the acknowledged
/// sources, and release the pending byte when the shift source is among them.
pub open spec fn write_flags(s: ViaModel, data: u8) -> ViaModel {
    let acked = s.irq_active & data;
    let cleared = ViaModel {
        regs: s.regs.update(VIA_IFR as int, data),
        irq_active: s.irq_active & !data,
        ..s
    };
    if acked & VIA_IRQ_SR != 0 {
        match s.sr_pending {
            Some(b) => ViaModel {
                sr_pending: None,
                events: s.events.push(ViaEvent::ShiftOut(b)),
                ..cleared
            },
            None => cleared,
        }
    } else {
        cleared
    }
}

/// Effect of a write of `data` to register `r`, before the interrupt line is
/// reassessed.
pub open spec fn write_reg(s: ViaModel, r: int, data: u8) -> ViaModel {
    if r == VIA_RA || r == VIA_RA_ALT {
        write_port_a(s, data)
    } else if r == VIA_RB {
        write_port_b(s, data)
    } else if r == VIA_SR {
        write_shift(s, data)
    } else if r == VIA_IER {
        ViaModel {
            regs: s.regs.update(r, data),
            irq_enable: enable_after(s.irq_enable, data),
            ..s
        }
    } else if r == VIA_IFR {
        write_flags(s, data)
    } else {
        ViaModel { regs: s.regs.update(r, data), ..s }
    }
}

/// State after a write of `data` at `addr`.
pub open spec fn via_after_write(s: ViaModel, addr: u32, data: u8) -> ViaModel {
    assessed(write_reg(s, reg_index(addr), data))
}

/// Value of the flag register as read.
pub open spec fn flags_value(s: ViaModel) -> u8 {
    s.irq_active | if s.line() {
        0x80u8
    } else {
        0u8
    }
}

/// Value returned by a read of register `r`.
pub open spec fn read_reg_value(s: ViaModel, r: int) -> u8 {
    if r == VIA_RA || r == VIA_RA_ALT {
        port_value(s.regs[VIA_DDRA as int], s.regs[VIA_RA as int], s.port_a_in)
    } else if r == VIA_RB {
        port_value(s.regs[VIA_DDRB as int], s.regs[VIA_RB as int], s.port_b_in)
    } else if r == VIA_IER {
        0x80 | s.irq_enable
    } else if r == VIA_IFR {
        flags_value(s)
    } else {
        s.regs[r]
    }
}

/// Value returned by a read at `addr`.
pub open spec fn via_read_value(s: ViaModel, addr: u32) -> u8 {
    read_reg_value(s, reg_index(addr))
}

/// State after a read at `addr`: reading the shift register clears its
/// interrupt source.
pub open spec fn via_after_read(s: ViaModel, addr: u32) -> ViaModel {
    if reg_index(addr) == VIA_SR {
        assessed(ViaModel { irq_active: s.irq_active & !VIA_IRQ_SR, ..s })
    } else {
        assessed(s)
    }
}

/// State after an edge on control line `ca` (1 or 2; other values latch
/// nothing).
pub open spec fn via_after_edge(s: ViaModel, ca: u8) -> ViaModel {
    if ca == 1 {
        assessed(ViaModel { irq_active: s.irq_active | VIA_IRQ_CA, ..s })
    } else if ca == 2 {
        assessed(ViaModel { irq_active: s.irq_active | VIA_IRQ_CB, ..s })
    } else {
        assessed(s)
    }
}

/// State after a byte arrives on the serial input: taken only in external
/// shift-in mode.
pub open spec fn via_after_receive(s: ViaModel, val: u8) -> ViaModel {
    if s.sr_mode() == SR_MODE_SHIFT_IN_EXT {
        assessed(
            ViaModel {
                regs: s.regs.update(VIA_SR as int, val),
                irq_active: s.irq_active | VIA_IRQ_SR,
                ..s
            },
        )
    } else {
        s
    }
}

/// Interrupt levels in an event sequence grown by one event.
proof fn lemma_irq_levels_push(evs: Seq<ViaEvent>, e: ViaEvent)
    ensures
        irq_levels(evs.push(e)) == (match e {
            ViaEvent::Irq(l) => irq_levels(evs).push(l),
            _ => irq_levels(evs),
        }),
{
    assert(evs.push(e).drop_last() =~= evs);
}

/// Transmitted bytes in an event sequence grown by one event.
proof fn lemma_transmitted_push(evs: Seq<ViaEvent>, e: ViaEvent)
    ensures
        transmitted(evs.push(e)) == (match e {
            ViaEvent::ShiftOut(b) => transmitted(evs).push(b),
            _ => transmitted(evs),
        }),
{
    assert(evs.push(e).drop_last() =~= evs);
}

/// Reassessing signals the new level exactly when it differs from the last
/// one signalled, and releases no byte.
proof fn lemma_assessed_events(t: ViaModel)
    ensures
        irq_levels(assessed(t).events) == (if t.line() != t.irq_status {
            irq_levels(t.events).push(t.line())
        } else {
            irq_levels(t.events)
        }),
        transmitted(assessed(t).events) == transmitted(t.events),
        assessed(t).line() == t.line(),
        assessed(t).irq_status == t.line(),
{
    lemma_irq_levels_push(t.events, ViaEvent::Irq(t.line()));
    lemma_transmitted_push(t.events, ViaEvent::Irq(t.line()));
}

/// A register write, before reassessment, signals no interrupt level and
/// leaves the last level signalled alone.
proof fn lemma_write_reg_levels(s: ViaModel, r: int, data: u8)
    ensures
        irq_levels(write_reg(s, r, data).events) == irq_levels(s.events),
        write_reg(s, r, data).irq_status == s.irq_status,
{
    lemma_irq_levels_push(s.events, ViaEvent::PortA(data));
    lemma_irq_levels_push(s.events, ViaEvent::PortB(data));
    if let Some(b) = s.sr_pending {
        lemma_irq_levels_push(s.events, ViaEvent::ShiftOut(b));
    }
}

/// Setting enable bits and reading the enable register back: a write with
/// bit 7 set adds its low seven bits to the enable mask, and the register
/// reads as that mask with bit 7 set.
pub proof fn lemma_enable_set_read_back(s: ViaModel, waddr: u32, data: u8, raddr: u32)
    requires
        s.wf(),
        reg_index(waddr) == VIA_IER,
        reg_index(raddr) == VIA_IER,
        data & 0x80 != 0,
    ensures
        via_read_value(via_after_write(s, waddr, data), raddr) == 0x80 | (s.irq_enable | (data
            & 0x7f)),
{
}

/// The shift-out protocol: a byte queued in shift-out mode is released for
/// transmission exactly once, by the first acknowledgement of the shift
/// interrupt source; a second acknowledgement releases nothing.
pub proof fn lemma_shift_out_released_once(
    s: ViaModel,
    sr_addr: u32,
    b: u8,
    ifr_addr: u32,
    ack1: u8,
    ack2: u8,
)
    requires
        s.wf(),
        s.sr_mode() == SR_MODE_SHIFT_OUT,
        reg_index(sr_addr) == VIA_SR,
        reg_index(ifr_addr) == VIA_IFR,
        ack1 & VIA_IRQ_SR != 0,
        ack2 & VIA_IRQ_SR != 0,
    ensures
        ({
            let s1 = via_after_write(s, sr_addr, b);
            let s2 = via_after_write(s1, ifr_addr, ack1);
            let s3 = via_after_write(s2, ifr_addr, ack2);
            &&& transmitted(s1.events) == transmitted(s.events)
            &&& transmitted(s2.events) == transmitted(s.events).push(b)
            &&& transmitted(s3.events) == transmitted(s2.events)
        }),
{
    let q = write_reg(s, VIA_SR as int, b);
    let s1 = via_after_write(s, sr_addr, b);
    lemma_assessed_events(q);
    let a0 = s.irq_active;
    let active1 = a0 | VIA_IRQ_SR;
    assert(active1 & ack1 & VIA_IRQ_SR != 0) by (bit_vector)
        requires
            active1 == a0 | 4u8,
            ack1 & 4u8 != 0,
    ;
    assert(s1.irq_active == active1);
    assert(s1.sr_pending == Some(b));
    let f1 = write_flags(s1, ack1);
    lemma_transmitted_push(s1.events, ViaEvent::ShiftOut(b));
    assert(transmitted(f1.events) == transmitted(s.events).push(b));
    lemma_assessed_events(f1);
    let s2 = via_after_write(s1, ifr_addr, ack1);
    assert(s2.sr_pending is None);
    lemma_assessed_events(write_flags(s2, ack2));
}

/// Every operation on the chip signals the interrupt line edge-triggered:
/// the new level exactly once when the line changed, nothing otherwise.
pub proof fn lemma_irq_edge_triggered(s: ViaModel, addr: u32, data: u8, ca: u8)
    requires
        s.wf(),
    ensures
        signals_edge(s, via_after_write(s, addr, data)),
        signals_edge(s, via_after_read(s, addr)),
        signals_edge(s, via_after_edge(s, ca)),
        signals_edge(s, via_after_receive(s, data)),
        via_after_write(s, addr, data).wf(),
        via_after_read(s, addr).wf(),
        via_after_edge(s, ca).wf(),
        via_after_receive(s, data).wf(),
{
    lemma_reg_index_bounds(addr);
    lemma_write_reg_levels(s, reg_index(addr), data);
    lemma_assessed_events(write_reg(s, reg_index(addr), data));
    lemma_assessed_events(ViaModel { irq_active: s.irq_active & !VIA_IRQ_SR, ..s });
    lemma_assessed_events(s);
    lemma_assessed_events(ViaModel { irq_active: s.irq_active | VIA_IRQ_CA, ..s });
    lemma_assessed_events(ViaModel { irq_active: s.irq_active | VIA_IRQ_CB, ..s });
    lemma_assessed_events(
        ViaModel {
            regs: s.regs.update(VIA_SR as int, data),
            irq_active: s.irq_active | VIA_IRQ_SR,
            ..s
        },
    );
}

/// `t` follows `s` with the interrupt level signalled once if the line
/// changed, and not at all otherwise.
pub open spec fn signals_edge(s: ViaModel, t: ViaModel) -> bool {
    irq_levels(t.events) == if t.line() != s.line() {
        irq_levels(s.events).push(t.line())
    } else {
        irq_levels(s.events)
    }
}

/// The VIA chip.
pub struct Via {
    regs: [u8; 16],
    irq_active: u8,
    irq_enable: u8,
    irq_status: bool,
    sr_tx_pending: Option<u8>,
    port_a_in: u8,
    port_b_in: u8,
    events: Vec<ViaEvent>,
}

impl View for Via {
    type V = ViaModel;

    closed spec fn view(&self) -> ViaModel {
        ViaModel {
            regs: self.regs@,
            irq_active: self.irq_active,
            irq_enable: self.irq_enable,
            irq_status: self.irq_status,
            sr_pending: self.sr_tx_pending,
            port_a_in: self.port_a_in,
            port_b_in: self.port_b_in,
            events: self.events@,
        }
    }
}

impl Via {
    /// A chip at power-up: all registers zero but output register A, which
    /// holds the overlay-control bit; no interrupt enabled or latched, no byte
    /// pending, input pins low, no event.
    pub fn new() -> (r: Self)
        ensures
            r@.wf(),
            r@.regs == Seq::new(16, |i: int| 0u8).update(VIA_RA as int, 0x10u8),
            r@.irq_active == 0,
            r@.irq_enable == 0,
            !r@.irq_status,
            r@.sr_pending is None,
            r@.port_a_in == 0,
            r@.port_b_in == 0,
            r@.events == Seq::<ViaEvent>::empty(),
    {
        let mut regs = [0u8; 16];
        regs[VIA_RA] = 0x10;
        let r = Via {
            regs,
            irq_active: 0,
            irq_enable: 0,
            irq_status: false,
            sr_tx_pending: None,
            port_a_in: 0,
            port_b_in: 0,
            events: Vec::new(),
        };
        assert(r@.regs =~= Seq::new(16, |i: int| 0u8).update(VIA_RA as int, 0x10u8));
        assert(0u8 & 0u8 & 0x7f == 0) by (bit_vector);
        r
    }

    fn update_rega(&mut self, data: u8)
        ensures
            final(self)@ == (ViaModel { regs: old(self)@.regs, ..write_port_a(old(self)@, data) }),
    {
        if self.regs[VIA_RA] != data {
            self.events.push(ViaEvent::PortA(data));
        }
    }

    fn update_regb(&mut self, data: u8)
        ensures
            final(self)@ == (ViaModel { regs: old(self)@.regs, ..write_port_b(old(self)@, data) }),
    {
        if self.regs[VIA_RB] != data {
            self.events.push(ViaEvent::PortB(data));
        }
    }

    fn update_sr(&mut self, data: u8)
        ensures
            final(self)@ == write_shift(old(self)@, data),
    {
        let mode = self.regs[VIA_ACR] & SR_MODE_MASK;
        if mode == SR_MODE_SHIFT_OUT {
            self.sr_tx_pending = Some(data);
            self.irq_active = self.irq_active | VIA_IRQ_SR;
        } else if mode == SR_MODE_DISABLED {
            self.regs[VIA_SR] = 0;
        }
    }

    fn sr_done(&mut self)
        ensures
            final(self)@ == (match old(self)@.sr_pending {
                Some(b) => ViaModel {
                    sr_pending: None,
                    events: old(self)@.events.push(ViaEvent::ShiftOut(b)),
                    ..old(self)@
                },
                None => old(self)@,
            }),
    {
        if let Some(data) = self.sr_tx_pending {
            self.sr_tx_pending = None;
            self.events.push(ViaEvent::ShiftOut(data));
        }
    }

    fn assess_irq(&mut self)
        ensures
            final(self)@ == assessed(old(self)@),
    {
        let active = self.irq_enable & self.irq_active & 0x7f;
        let irq = active != 0;
        if irq != self.irq_status {
            self.events.push(ViaEvent::Irq(irq));
            self.irq_status = irq;
        }
    }

    /// Writes `data` to the register selected by `addr`, then reassesses the
    /// interrupt line.
    pub fn write(&mut self, addr: u32, data: u8)
        requires
            old(self)@.wf(),
        ensures
            final(self)@ == via_after_write(old(self)@, addr, data),
            final(self)@.wf(),
    {
        let mut r = register_index(addr);
        let mut dowrite = true;
        if r == VIA_RA || r == VIA_RA_ALT {
            self.update_rega(data);
            r = VIA_RA;
        } else if r == VIA_RB {
            self.update_regb(data);
        } else if r == VIA_SR {
            self.update_sr(data);
            dowrite = false;
        } else if r == VIA_IER {
            if data & 0x80 != 0 {
                self.irq_enable = self.irq_enable | (data & 0x7f);
            } else {
                self.irq_enable = self.irq_enable & !(data & 0x7f);
            }
        } else if r == VIA_IFR {
            let acked = self.irq_active & data;
            self.irq_active = self.irq_active & !data;
            if acked & VIA_IRQ_SR != 0 {
                self.sr_done();
            }
        }
        if dowrite {
            self.regs[r] = data;
        }
        assert(self@ == write_reg(old(self)@, reg_index(addr), data));
        self.assess_irq();
    }

    fn read_ifr(&self) -> (r: u8)
        ensures
            r == flags_value(self@),
    {
        let active = self.irq_enable & self.irq_active & 0x7f;
        self.irq_active | if active != 0 {
            0x80
        } else {
            0
        }
    }

    fn read_reg(&self, reg: usize) -> (r: u8)
        requires
            reg < 16,
        ensures
            r == read_reg_value(self@, reg as int),
    {
        if reg == VIA_RA || reg == VIA_RA_ALT {
            let ddr = self.regs[VIA_DDRA];
            (ddr & self.regs[VIA_RA]) | (!ddr & self.port_a_in)
        } else if reg == VIA_RB {
            let ddr = self.regs[VIA_DDRB];
            (ddr & self.regs[VIA_RB]) | (!ddr & self.port_b_in)
        } else if reg == VIA_IER {
            0x80 | self.irq_enable
        } else if reg == VIA_IFR {
            self.read_ifr()
        } else {
            self.regs[reg]
        }
    }

    /// Reads the register selected by `addr`, then reassesses the interrupt
    /// line.
    pub fn read(&mut self, addr: u32) -> (r: u8)
        requires
            old(self)@.wf(),
        ensures
            r == via_read_value(old(self)@, addr),
            final(self)@ == via_after_read(old(self)@, addr),
            final(self)@.wf(),
    {
        let reg = register_index(addr);
        let val = self.read_reg(reg);
        if reg == VIA_SR {
            self.irq_active = self.irq_active & !VIA_IRQ_SR;
        }
        self.assess_irq();
        val
    }

    /// Advances the timers; they are not modelled, so nothing changes.
    pub fn tick(&mut self, _time_us: u64)
        ensures
            final(self)@ == old(self)@,
    {
    }

    /// An edge on control line `ca`: line 1 latches the first source, line 2
    /// the second.
    pub fn ca_event(&mut self, ca: u8)
        requires
            old(self)@.wf(),
        ensures
            final(self)@ == via_after_edge(old(self)@, ca),
            final(self)@.wf(),
    {
        if ca == 1 {
            self.irq_active = self.irq_active | VIA_IRQ_CA;
        } else if ca == 2 {
            self.irq_active = self.irq_active | VIA_IRQ_CB;
        }
        self.assess_irq();
    }

    /// A byte arrives on the serial input.
    pub fn sr_rx(&mut self, val: u8)
        requires
            old(self)@.wf(),
        ensures
            final(self)@ == via_after_receive(old(self)@, val),
            final(self)@.wf(),
    {
        if (self.regs[VIA_ACR] & SR_MODE_MASK) == SR_MODE_SHIFT_IN_EXT {
            self.regs[VIA_SR] = val;
            self.irq_active = self.irq_active | VIA_IRQ_SR;
            self.assess_irq();
        }
    }

    /// Latches the levels on the two input ports.
    pub fn set_port_inputs(&mut self, a: u8, b: u8)
        ensures
            final(self)@ == (ViaModel { port_a_in: a, port_b_in: b, ..old(self)@ }),
    {
        self.port_a_in = a;
        self.port_b_in = b;
    }

    /// Hands over the events signalled so far and empties the outbox.
    pub fn take_events(&mut self) -> (r: Vec<ViaEvent>)
        ensures
            r@ == old(self)@.events,
            final(self)@ == (ViaModel { events: Seq::empty(), ..old(self)@ }),
    {
        let mut taken = Vec::new();
        std::mem::swap(&mut taken, &mut self.events);
        taken
    }
}

} // verus!
