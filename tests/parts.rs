use robust::addr::Addr;
use robust::apu::{mask, ControllerButton, ControllerState, APU};
use robust::font::{BitmapFontHeader, ColorMode, Font, FontError};
use robust::opcode::{cpu_sub, rot_left, rot_right, shift_left, shift_right};
use robust::screen::Screen;
use robust::util::{carrying_add, Toggle};

#[test]
fn addr_helpers() {
    let a = Addr::from_bytes(0x12, 0x34);
    assert_eq!(a.0, 0x1234);
    assert_eq!(a.msb(), 0x12);
    assert_eq!(a.lsb(), 0x34);
    assert!(a.same_page_as(Addr(0x12ff)));
    assert!(!a.same_page_as(Addr(0x1300)));
    assert_eq!(Addr::from_zero(0xff).0, 0x00ff);
    assert_eq!(Addr(0xffff).offset(2).0, 1);
    assert_eq!(Addr(0x0000).displace(-1).0, 0xffff);
    assert_eq!(Addr(0xc0fe).displace(4).0, 0xc102);
}

#[test]
fn carrying_add_carries() {
    assert_eq!(carrying_add(0xff, 0x01, false), (0x00, true));
    assert_eq!(carrying_add(0x10, 0x20, true), (0x31, false));
    assert_eq!(carrying_add(0xff, 0xff, true), (0xff, true));
}

#[test]
fn shifts_and_rotates() {
    assert_eq!(shift_left(0x81), (0x02, true));
    assert_eq!(shift_right(0x81), (0x40, true));
    assert_eq!(rot_left(0x80, true), (0x01, true));
    assert_eq!(rot_right(0x01, true), (0x80, true));
    assert_eq!(rot_right(0x02, false), (0x01, false));
}

#[test]
fn subtract_sets_flags() {
    let mut cpu = robust::cpu::CPU::init();
    cpu.a = 0x50;
    cpu.carry = true;
    cpu_sub(&mut cpu, 0xb0);
    assert_eq!(cpu.a, 0xa0);
    assert!(!cpu.carry);
    assert!(cpu.overflow);
}

#[test]
fn controller_buttons() {
    let mut c = ControllerState::new();
    c.set_right(true);
    c.set_a(true);
    assert!(c.right() && c.a() && !c.left() && !c.b());
    assert_eq!(c.buttons, 0b1000_0001);
    c.set_button(ControllerButton::Select, true);
    assert!(c.select());
    c.set_button(ControllerButton::Right, false);
    assert!(!c.right());
    assert_eq!(c.get(2), true);
    assert_eq!(mask(3), 8);
    c.set_up(true);
    c.set_down(true);
    c.set_left(true);
    c.set_start(true);
    c.set_b(true);
    c.set_select(false);
    assert!(c.up() && c.down() && c.left() && c.start() && c.b() && !c.select());
}

#[test]
fn controller_poll_wraps_after_eight() {
    let mut c = ControllerState { buttons: 0, latch: 0b0000_0101, step: 0 };
    let bits: Vec<bool> = (0..9).map(|_| c.poll()).collect();
    assert_eq!(bits, vec![true, false, true, false, false, false, false, false, true]);
}

#[test]
fn apu_registers_store_writes() {
    let mut apu = APU::init();
    apu.write_register(0x00, 0x3f);
    assert_eq!(apu.read_register(0x00), 0x3f);
    apu.set_controller_button(1, ControllerButton::B, true);
    assert!(apu.controller2.b());
}

fn font_bytes(mode: u8, width: u8) -> Vec<u8> {
    let mut b = vec![b'B', b'M', b'F', 1, width, 18, 1, mode];
    for i in 0..(10 * 32 * 18 * 4) {
        b.push((i % 251) as u8);
    }
    b
}

#[test]
fn font_header_round_trip() {
    let h = BitmapFontHeader::try_from_iter(&font_bytes(1, 10)).unwrap();
    assert_eq!(h.color_mode, ColorMode::Outlined);
    assert_eq!(h.to_bytes(), [b'B', b'M', b'F', 1, 10, 18, 1, 1]);
    assert_eq!(BitmapFontHeader::try_from_iter(b"BM"), Err(FontError::TooSmall));
    assert_eq!(BitmapFontHeader::try_from_iter(b"XMF\x01\x0a\x12\x01\x01"), Err(FontError::BadMagic));
    assert_eq!(BitmapFontHeader::try_from_iter(b"BMF\x01"), Err(FontError::MissingField));
    assert_eq!(ColorMode::try_from(7), Err(FontError::UnsupportedColorMode(7)));
}

#[test]
fn font_loads_and_reads_pixels() {
    let bytes = font_bytes(1, 10);
    let font = Font::try_from_bytes(&bytes).unwrap();
    assert_eq!(font.width, 10);
    assert_eq!(font.height, 18);
    // Glyph 33, pixel (2, 3): row 1*18+3 = 21, column 1*10+2 = 12.
    let idx = 21 * 320 + 12;
    assert_eq!(font.get_pixel(33, 2, 3), (idx % 251) as u8);
    assert_eq!(font.char_index('A'), 65);
    assert_eq!(font.char_index('\u{2588}'), 0x1f);
    assert_eq!(Font::try_from_bytes(&font_bytes(0, 10)).err(), Some(FontError::UnsupportedColorMode(0)));
    assert_eq!(Font::try_from_bytes(&font_bytes(1, 9)).err(), Some(FontError::UnsupportedSize));
    assert_eq!(Font::try_from_bytes(&bytes[..100]).err(), Some(FontError::Truncated));
}

#[test]
fn screen_pixels_and_text() {
    let mut s = Screen::new(40, 30, 7);
    assert_eq!(s.buffer.len(), 1200);
    s.set_pixel(2, 3, 9);
    assert_eq!(s.buffer[2 * 40 + 3], 9);
    s.set_pixel(30, 0, 1);
    s.set_pixel(0, 40, 1);
    assert_eq!(s.buffer.iter().filter(|p| **p == 1).count(), 0);
    let mut bytes = vec![b'B', b'M', b'F', 1, 10, 18, 1, 1];
    bytes.extend(vec![0u8; 10 * 32 * 18 * 4]);
    // Glyph 'A' (65): row 2 of the sheet, column 1; make its pixel (0, 0) white.
    bytes[8 + (2 * 18) * 320 + 10] = 0xff;
    let font = Font::try_from_bytes(&bytes).unwrap();
    let text: Vec<char> = "A".chars().collect();
    s.draw_text(&font, 1, 1, &text, 0);
    assert_eq!(s.buffer[40 + 1], 0xffffff);
    s.draw_text(&font, 1, 1, &text, 1);
    assert_eq!(s.buffer[40 + 1], 0xff000000);
}

#[test]
fn toggle_flips() {
    let mut b = false;
    b.toggle();
    assert!(b);
    b.toggle();
    assert!(!b);
}
