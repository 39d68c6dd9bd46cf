use mac128k::via::{Via, ViaEvent};

// Register addresses: the register index sits in address bits 9 to 12.
fn reg(r: u32) -> u32 {
    0xEFE1FE | (r << 9)
}

const RB: u32 = 0;
const RA: u32 = 1;
const DDRB: u32 = 2;
const DDRA: u32 = 3;
const SR: u32 = 10;
const ACR: u32 = 11;
const IFR: u32 = 13;
const IER: u32 = 14;
const RA_ALT: u32 = 15;

#[test]
fn power_up_state() {
    let mut via = Via::new();
    assert_eq!(via.read(reg(RA)), 0x00);
    assert_eq!(via.read(reg(DDRA)), 0x00);
    assert_eq!(via.read(reg(IER)), 0x80);
    assert_eq!(via.read(reg(IFR)), 0x00);
    assert!(via.take_events().is_empty());
}

#[test]
fn enable_set_then_read_back() {
    let mut via = Via::new();
    via.write(reg(IER), 0x80 | 0x02);
    assert_eq!(via.read(reg(IER)), 0x82);
    via.write(reg(IER), 0x80 | 0x05);
    assert_eq!(via.read(reg(IER)), 0x80 | (0x02 | 0x05));
}

#[test]
fn enable_clear_bits() {
    let mut via = Via::new();
    via.write(reg(IER), 0xFF);
    assert_eq!(via.read(reg(IER)), 0xFF);
    via.write(reg(IER), 0x05);
    assert_eq!(via.read(reg(IER)), 0xFA);
}

#[test]
fn port_a_direction_composition() {
    let mut via = Via::new();
    via.write(reg(DDRA), 0x10);
    via.write(reg(DDRA), 0x00);
    via.write(reg(RA), 0xFF);
    // No pin is driven: every bit comes from the (low) input lines.
    assert_eq!(via.read(reg(RA)), 0x00);
}

#[test]
fn port_a_mixed_direction() {
    let mut via = Via::new();
    via.set_port_inputs(0x0F, 0x00);
    via.write(reg(DDRA), 0xF0);
    via.write(reg(RA), 0xA5);
    assert_eq!(via.read(reg(RA)), (0xF0 & 0xA5) | (0x0F & 0x0F));
    assert_eq!(via.read(reg(RA_ALT)), 0xAF);
}

#[test]
fn port_b_direction_composition() {
    let mut via = Via::new();
    via.set_port_inputs(0x00, 0x3C);
    via.write(reg(DDRB), 0x81);
    via.write(reg(RB), 0xFF);
    assert_eq!(via.read(reg(RB)), 0x81 | 0x3C);
}

#[test]
fn port_change_events_only_on_change() {
    let mut via = Via::new();
    via.write(reg(RA), 0x10);
    via.write(reg(RA), 0x20);
    via.write(reg(RA_ALT), 0x20);
    via.write(reg(RB), 0x00);
    via.write(reg(RB), 0x07);
    assert_eq!(
        via.take_events(),
        vec![ViaEvent::PortA(0x20), ViaEvent::PortB(0x07)]
    );
    assert!(via.take_events().is_empty());
}

#[test]
fn shift_out_released_once_on_ack() {
    let mut via = Via::new();
    via.write(reg(ACR), 0x1C);
    via.write(reg(SR), 0x5A);
    assert!(via.take_events().is_empty());
    assert_eq!(via.read(reg(IFR)) & 0x04, 0x04);
    via.write(reg(IFR), 0x04);
    assert_eq!(via.take_events(), vec![ViaEvent::ShiftOut(0x5A)]);
    via.write(reg(IFR), 0x04);
    assert!(via.take_events().is_empty());
}

#[test]
fn shift_out_overwrite_while_pending() {
    let mut via = Via::new();
    via.write(reg(ACR), 0x1C);
    via.write(reg(SR), 0x11);
    via.write(reg(SR), 0x22);
    via.write(reg(IFR), 0x7F);
    assert_eq!(via.take_events(), vec![ViaEvent::ShiftOut(0x22)]);
}

#[test]
fn shift_disabled_clears_register() {
    let mut via = Via::new();
    via.write(reg(ACR), 0x0C);
    via.sr_rx(0x99);
    assert_eq!(via.read(reg(SR)), 0x99);
    via.write(reg(ACR), 0x18);
    via.write(reg(SR), 0x42);
    assert_eq!(via.read(reg(SR)), 0x00);
}

#[test]
fn shift_other_mode_is_noop() {
    let mut via = Via::new();
    via.write(reg(ACR), 0x04);
    via.write(reg(SR), 0x42);
    assert_eq!(via.read(reg(SR)), 0x00);
    assert_eq!(via.read(reg(IFR)), 0x00);
    assert!(via.take_events().is_empty());
}

#[test]
fn receive_only_in_external_shift_in_mode() {
    let mut via = Via::new();
    via.sr_rx(0x33);
    assert_eq!(via.read(reg(SR)), 0x00);
    via.write(reg(ACR), 0x0C);
    via.sr_rx(0x33);
    assert_eq!(via.read(reg(IFR)), 0x04);
}

#[test]
fn reading_shift_register_clears_its_source() {
    let mut via = Via::new();
    via.write(reg(ACR), 0x0C);
    via.write(reg(IER), 0x84);
    via.sr_rx(0x77);
    assert_eq!(via.take_events(), vec![ViaEvent::Irq(true)]);
    assert_eq!(via.read(reg(SR)), 0x77);
    assert_eq!(via.take_events(), vec![ViaEvent::Irq(false)]);
    assert_eq!(via.read(reg(IFR)), 0x00);
}

#[test]
fn irq_fires_once_per_edge() {
    let mut via = Via::new();
    via.write(reg(IER), 0x81);
    assert!(via.take_events().is_empty());
    via.ca_event(1);
    via.ca_event(1);
    via.write(reg(IER), 0x83);
    via.ca_event(2);
    assert_eq!(via.take_events(), vec![ViaEvent::Irq(true)]);
    assert_eq!(via.read(reg(IFR)), 0x80 | 0x03);
    via.write(reg(IFR), 0x01);
    assert!(via.take_events().is_empty());
    via.write(reg(IFR), 0x02);
    assert_eq!(via.take_events(), vec![ViaEvent::Irq(false)]);
    via.write(reg(IFR), 0x02);
    assert!(via.take_events().is_empty());
}

#[test]
fn irq_lowered_by_disabling() {
    let mut via = Via::new();
    via.ca_event(1);
    assert!(via.take_events().is_empty());
    assert_eq!(via.read(reg(IFR)), 0x01);
    via.write(reg(IER), 0x81);
    assert_eq!(via.take_events(), vec![ViaEvent::Irq(true)]);
    via.write(reg(IER), 0x01);
    assert_eq!(via.take_events(), vec![ViaEvent::Irq(false)]);
}

#[test]
fn edge_on_unknown_line_latches_nothing() {
    let mut via = Via::new();
    via.ca_event(3);
    assert_eq!(via.read(reg(IFR)), 0x00);
}

#[test]
fn ifr_write_clears_only_acknowledged() {
    let mut via = Via::new();
    via.ca_event(1);
    via.ca_event(2);
    via.write(reg(IFR), 0x01);
    assert_eq!(via.read(reg(IFR)), 0x02);
}

#[test]
fn tick_changes_nothing() {
    let mut via = Via::new();
    via.write(reg(IER), 0x81);
    via.tick(1000);
    assert_eq!(via.read(reg(IER)), 0x81);
}

#[test]
fn plain_register_stores() {
    let mut via = Via::new();
    via.write(reg(4), 0x12);
    assert_eq!(via.read(reg(4)), 0x12);
}
