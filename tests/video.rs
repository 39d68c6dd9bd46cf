use mac128k::address_map::VIDEO_BASE;
use mac128k::memory::{remap_rom, write_u8, Machine};
use mac128k::memory::read_u8;
use mac128k::video::{fill_test_pattern, frame_rgba, FRAME_BYTES};

#[test]
fn blank_screen_is_white() {
    let m = Machine::new();
    let frame = frame_rgba(&m);
    assert_eq!(frame.len(), FRAME_BYTES);
    assert!(frame.iter().all(|&b| b == 0xFF));
}

#[test]
fn set_bits_are_black_pixels() {
    let mut m = Machine::new();
    remap_rom(&mut m);
    // Row 0: leftmost pixel set. Row 1, byte 2: bit 0 set, the pixel at x = 23.
    write_u8(&mut m, VIDEO_BASE as u32, 0x80);
    write_u8(&mut m, (VIDEO_BASE + 64 + 2) as u32, 0x01);
    let frame = frame_rgba(&m);
    assert_eq!(&frame[0..8], &[0x00, 0x00, 0x00, 0xFF, 0xFF, 0xFF, 0xFF, 0xFF]);
    let p = (512 + 23) * 4;
    assert_eq!(&frame[p..p + 4], &[0x00, 0x00, 0x00, 0xFF]);
    assert_eq!(&frame[p - 4..p], &[0xFF, 0xFF, 0xFF, 0xFF]);
    let black = frame.chunks(4).filter(|px| px[0] == 0).count();
    assert_eq!(black, 2);
}

#[test]
fn last_pixel_of_screen() {
    let mut m = Machine::new();
    write_u8(&mut m, (VIDEO_BASE + 342 * 64 - 1) as u32, 0x01);
    let frame = frame_rgba(&m);
    assert_eq!(&frame[FRAME_BYTES - 4..], &[0x00, 0x00, 0x00, 0xFF]);
}

#[test]
fn test_pattern_alternates_squares() {
    let mut m = Machine::new();
    fill_test_pattern(&mut m);
    let base = VIDEO_BASE as u32;
    assert_eq!(read_u8(&mut m, base), 0xFF);
    assert_eq!(read_u8(&mut m, base + 7), 0xFF);
    assert_eq!(read_u8(&mut m, base + 8), 0x00);
    assert_eq!(read_u8(&mut m, base + 7 * 64), 0xFF);
    assert_eq!(read_u8(&mut m, base + 8 * 64), 0x00);
    assert_eq!(read_u8(&mut m, base + 8 * 64 + 8), 0xFF);
    assert_eq!(read_u8(&mut m, base + 341 * 64 + 63), 0x00);
    assert_eq!(read_u8(&mut m, base - 1), 0x00);
    assert_eq!(read_u8(&mut m, base + 342 * 64), 0x00);
    assert!(m.take_traps().is_empty());
    let frame = frame_rgba(&m);
    assert_eq!(&frame[0..4], &[0x00, 0x00, 0x00, 0xFF]);
    assert_eq!(&frame[64 * 4..64 * 4 + 4], &[0xFF, 0xFF, 0xFF, 0xFF]);
}
