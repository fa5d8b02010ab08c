use robust::addr::Addr;
use robust::cart::Header;
use robust::cpu::{AddressMode, Register};
use robust::error::EmuError;
use robust::execute::MAX_INSTRUCTION_CYCLES;
use robust::mappers::CartMapper;
use robust::opcode::OpCode;
use robust::opcode_map::{decode, format_op_byte, load};
use robust::options::Options;
use robust::ppu::tick;
use robust::system::System;

/// A fixed-mapper image with 32 KiB of program ROM (`prg`, placed at $8000) and
/// 8 KiB of character ROM.
fn nrom_image(prg: &[u8]) -> Vec<u8> {
    let mut img = vec![0x4e, 0x45, 0x53, 0x1a, 2, 1, 0, 0, 0, 0, 0, 0, 0, 0, 0, 0];
    let mut rom = vec![0u8; 0x8000];
    rom[..prg.len()].copy_from_slice(prg);
    img.extend_from_slice(&rom);
    img.extend_from_slice(&vec![0u8; 0x2000]);
    img
}

/// Program ROM with `code` at $C000 and the three vectors at the end.
fn rom_with(code: &[(u16, u8)], nmi: u16, reset: u16, irq: u16) -> Vec<u8> {
    let mut rom = vec![0xeau8; 0x8000];
    for &(addr, b) in code {
        rom[(addr - 0x8000) as usize] = b;
    }
    let n = rom.len();
    rom[n - 6] = nmi as u8;
    rom[n - 5] = (nmi >> 8) as u8;
    rom[n - 4] = reset as u8;
    rom[n - 3] = (reset >> 8) as u8;
    rom[n - 2] = irq as u8;
    rom[n - 1] = (irq >> 8) as u8;
    rom
}

fn machine_with(rom: &[u8]) -> System {
    let mut sys = System::new(Options::default());
    sys.load_cart(&nrom_image(rom)).expect("cartridge loads");
    sys
}

fn step(sys: &mut System) -> u64 {
    let (op, am) = load(sys).expect("opcode decodes");
    op.execute(sys, &am).expect("instruction runs")
}

#[test]
fn reset_reads_vector() {
    let mut rom = vec![0u8; 0x8000];
    let n = rom.len();
    rom[n - 6..].copy_from_slice(&[0x00, 0x00, 0x00, 0xc0, 0x00, 0x80]);
    let mut sys = machine_with(&rom);
    sys.reset().unwrap();
    assert_eq!(sys.cpu.pc.0, 0xc000);
}

#[test]
fn indirect_jump_wraps_within_page() {
    let rom = rom_with(&[(0xc000, 0x6c), (0xc001, 0xff), (0xc002, 0x02)], 0, 0xc000, 0);
    let mut sys = machine_with(&rom);
    sys.reset().unwrap();
    sys.write_byte(Addr(0x02ff), 0x40).unwrap();
    sys.write_byte(Addr(0x0200), 0x80).unwrap();
    sys.write_byte(Addr(0x0300), 0x11).unwrap();
    let cycles = step(&mut sys);
    assert_eq!(sys.cpu.pc.0, 0x8040);
    assert_eq!(cycles, 5);
}

#[test]
fn adc_sets_overflow() {
    let mut sys = System::new(Options::default());
    sys.write_byte(Addr(0x0000), 0x69).unwrap();
    sys.write_byte(Addr(0x0001), 0x50).unwrap();
    sys.cpu.pc = Addr(0);
    sys.cpu.a = 0x50;
    sys.cpu.carry = false;
    let cycles = step(&mut sys);
    assert_eq!(sys.cpu.a, 0xa0);
    assert!(!sys.cpu.carry);
    assert!(sys.cpu.overflow);
    assert!(sys.cpu.sign);
    assert!(!sys.cpu.zero);
    assert_eq!(cycles, 2);
    assert_eq!(sys.cpu.pc.0, 2);
}

#[test]
fn sbc_borrows() {
    let mut sys = System::new(Options::default());
    sys.write_byte(Addr(0x0000), 0xe9).unwrap();
    sys.write_byte(Addr(0x0001), 0x01).unwrap();
    sys.cpu.pc = Addr(0);
    sys.cpu.a = 0x00;
    sys.cpu.carry = true;
    step(&mut sys);
    assert_eq!(sys.cpu.a, 0xff);
    assert!(!sys.cpu.carry);
    assert!(sys.cpu.sign);
    assert!(!sys.cpu.overflow);
}

#[test]
fn branch_taken_across_page() {
    let rom = rom_with(&[(0xc0fe, 0xb0), (0xc0ff, 0x04)], 0, 0xc0fe, 0);
    let mut sys = machine_with(&rom);
    sys.reset().unwrap();
    sys.cpu.carry = true;
    let cycles = step(&mut sys);
    assert_eq!(sys.cpu.pc.0, 0xc104);
    assert_eq!(cycles, 4);
}

#[test]
fn branch_not_taken_costs_two() {
    let rom = rom_with(&[(0xc0fe, 0xb0), (0xc0ff, 0x04)], 0, 0xc0fe, 0);
    let mut sys = machine_with(&rom);
    sys.reset().unwrap();
    sys.cpu.carry = false;
    assert_eq!(step(&mut sys), 2);
    assert_eq!(sys.cpu.pc.0, 0xc100);
}

#[test]
fn vblank_nmi_is_taken_next() {
    // JMP $C000 forever; the NMI handler at $C100 is a NOP.
    let rom = rom_with(&[(0xc000, 0x4c), (0xc001, 0x00), (0xc002, 0xc0)], 0xc100, 0xc000, 0);
    let mut sys = machine_with(&rom);
    sys.reset().unwrap();
    sys.write_byte(Addr(0x2000), 0x80).unwrap();
    let sp = sys.cpu.sp;
    sys.run_cycle().unwrap();
    assert!(sys.ppu.scan_row >= 241);
    assert!(sys.nmi);
    assert!(sys.ppu.status.vertical_blank);
    let pc_before = sys.cpu.pc.0;
    let (trace, _) = sys.step_instruction().unwrap();
    assert_eq!(trace.cpu.pc.0, 0xc100);
    assert!(!sys.nmi);
    let stack = |off: u8| sys.ram[0x100 + sp.wrapping_sub(off) as usize];
    assert_eq!(stack(0), (pc_before >> 8) as u8);
    assert_eq!(stack(1), pc_before as u8);
    assert_eq!(stack(2) & 0x10, 0);
    assert_eq!(stack(2) & 0x20, 0x20);
}

#[test]
fn no_nmi_when_disabled() {
    let rom = rom_with(&[(0xc000, 0x4c), (0xc001, 0x00), (0xc002, 0xc0)], 0xc100, 0xc000, 0);
    let mut sys = machine_with(&rom);
    sys.reset().unwrap();
    sys.run_cycle().unwrap();
    assert!(!sys.nmi);
    assert!(sys.ppu.status.vertical_blank);
}

fn mmc1_image(banks: u8) -> Vec<u8> {
    let mut img = vec![0x4e, 0x45, 0x53, 0x1a, banks, 1, 0x10, 0, 0, 0, 0, 0, 0, 0, 0, 0];
    for b in 0..banks {
        img.extend_from_slice(&vec![b; 0x4000]);
    }
    img.extend_from_slice(&vec![0u8; 0x2000]);
    img
}

#[test]
fn mmc1_program_bank_switch() {
    let mut sys = System::new(Options::default());
    sys.load_cart(&mmc1_image(4)).unwrap();
    match &sys.cart.as_ref().unwrap().mapper {
        CartMapper::Mmc1(m) => assert_eq!(m.regs.control, 0b01100),
        _ => panic!("expected mapper 1"),
    }
    // Bits of 1, lowest first, into the program-bank register ($E000).
    for v in [0x01u8, 0x00, 0x00, 0x00, 0x00] {
        sys.write_byte(Addr(0xe000), v).unwrap();
    }
    assert_eq!(sys.read_byte(Addr(0x8000)).unwrap(), 1);
    assert_eq!(sys.read_byte(Addr(0xbfff)).unwrap(), 1);
    assert_eq!(sys.read_byte(Addr(0xc000)).unwrap(), 3);
    assert_eq!(sys.read_byte(Addr(0xffff)).unwrap(), 3);
}

#[test]
fn mmc1_shift_register_returns_to_empty() {
    let mut sys = System::new(Options::default());
    sys.load_cart(&mmc1_image(2)).unwrap();
    let shift = |s: &System| match &s.cart.as_ref().unwrap().mapper {
        CartMapper::Mmc1(m) => m.regs.shift,
        _ => panic!("expected mapper 1"),
    };
    assert_eq!(shift(&sys), 0x10);
    for (i, v) in [1u8, 0, 1, 1, 0].iter().enumerate() {
        sys.write_byte(Addr(0xa000), *v).unwrap();
        if i < 4 {
            assert_ne!(shift(&sys), 0x10);
        }
    }
    assert_eq!(shift(&sys), 0x10);
    match &sys.cart.as_ref().unwrap().mapper {
        CartMapper::Mmc1(m) => assert_eq!(m.regs.chr_bank0, 0b01101),
        _ => panic!("expected mapper 1"),
    }
    sys.write_byte(Addr(0x8000), 1).unwrap();
    sys.write_byte(Addr(0x8000), 1).unwrap();
    assert_ne!(shift(&sys), 0x10);
    sys.write_byte(Addr(0x8000), 0x80).unwrap();
    assert_eq!(shift(&sys), 0x10);
}

#[test]
fn ram_write_read_and_mirrors() {
    let mut sys = System::new(Options::default());
    sys.write_byte(Addr(0x0123), 0xab).unwrap();
    assert_eq!(sys.read_byte(Addr(0x0123)).unwrap(), 0xab);
    assert_eq!(sys.read_byte(Addr(0x0923)).unwrap(), 0xab);
    assert_eq!(sys.read_byte(Addr(0x1923)).unwrap(), 0xab);
    sys.write_byte(Addr(0x1fff), 0x5a).unwrap();
    assert_eq!(sys.read_byte(Addr(0x07ff)).unwrap(), 0x5a);
}

#[test]
fn word_round_trip_in_ram() {
    let mut sys = System::new(Options::default());
    sys.write_word(Addr(0x07ff), 0xbeef).unwrap();
    assert_eq!(sys.read_word(Addr(0x07ff)).unwrap(), 0xbeef);
    assert_eq!(sys.ram[0x07ff], 0xef);
    assert_eq!(sys.ram[0x0000], 0xbe);
    assert_eq!(sys.read_addr(Addr(0x07ff)).unwrap().0, 0xbeef);
}

#[test]
fn zero_page_word_wraps() {
    let mut sys = System::new(Options::default());
    sys.write_byte(Addr(0x00ff), 0x34).unwrap();
    sys.write_byte(Addr(0x0000), 0x12).unwrap();
    sys.write_byte(Addr(0x0100), 0x99).unwrap();
    assert_eq!(sys.read_zero_word(0xff).unwrap(), 0x1234);
    assert_eq!(sys.read_zero_addr(0xff).0, 0x1234);
}

#[test]
fn ppudata_reads_are_buffered() {
    let mut sys = System::new(Options::default());
    sys.write_byte(Addr(0x2006), 0x21).unwrap();
    sys.write_byte(Addr(0x2006), 0x08).unwrap();
    sys.write_byte(Addr(0x2007), 0x77).unwrap();
    sys.write_byte(Addr(0x2006), 0x21).unwrap();
    sys.write_byte(Addr(0x2006), 0x08).unwrap();
    assert_eq!(sys.read_byte(Addr(0x2007)).unwrap(), 0x00);
    assert_eq!(sys.read_byte(Addr(0x2007)).unwrap(), 0x77);
}

#[test]
fn ppudata_increment_by_32() {
    let mut sys = System::new(Options::default());
    sys.write_byte(Addr(0x2000), 0x04).unwrap();
    sys.write_byte(Addr(0x2006), 0x20).unwrap();
    sys.write_byte(Addr(0x2006), 0x00).unwrap();
    sys.write_byte(Addr(0x2007), 1).unwrap();
    assert_eq!(sys.ppu.addr, 0x2020);
}

#[test]
fn palette_mirrors() {
    let mut sys = System::new(Options::default());
    sys.write_byte(Addr(0x2006), 0x3f).unwrap();
    sys.write_byte(Addr(0x2006), 0x10).unwrap();
    sys.write_byte(Addr(0x2007), 0x2a).unwrap();
    assert_eq!(sys.ppu.palette[0], 0x2a);
    assert_eq!(sys.dump_palette()[0], 0x2a);
}

#[test]
fn status_read_clears_vblank_and_toggles() {
    let mut sys = System::new(Options::default());
    sys.ppu.status.vertical_blank = true;
    sys.ppu.status.sprite_zero_hit = true;
    sys.write_byte(Addr(0x2005), 7).unwrap();
    assert!(sys.ppu.scroll_second);
    let v = sys.read_byte(Addr(0x2002)).unwrap();
    assert_eq!(v, 0xc0);
    assert!(!sys.ppu.status.vertical_blank);
    assert!(!sys.ppu.scroll_second);
    assert_eq!(sys.read_byte(Addr(0x2002)).unwrap(), 0x40);
}

#[test]
fn oam_dma_rotates_by_latch() {
    let mut sys = System::new(Options::default());
    for i in 0..256u16 {
        sys.write_byte(Addr(0x0300 + i), i as u8).unwrap();
    }
    sys.write_byte(Addr(0x2003), 0x10).unwrap();
    let before = sys.cycles;
    sys.write_byte(Addr(0x4014), 0x03).unwrap();
    assert_eq!(sys.cycles, before + 513);
    let (oam, latch) = sys.dump_oam();
    assert_eq!(latch, 0x10);
    for i in 0..256usize {
        assert_eq!(oam[(0x10 + i) % 256], i as u8);
    }
}

#[test]
fn oam_data_write_moves_latch() {
    let mut sys = System::new(Options::default());
    sys.write_byte(Addr(0x2003), 0xff).unwrap();
    sys.write_byte(Addr(0x2004), 0x42).unwrap();
    assert_eq!(sys.oam[0xff], 0x42);
    assert_eq!(sys.ppu.oam_addr, 0);
}

#[test]
fn stack_round_trips() {
    let mut sys = System::new(Options::default());
    let sp = sys.cpu.sp;
    robust::cpu::CPU::stack_push_byte(&mut sys, 0x5c);
    assert_eq!(sys.cpu.sp, sp - 1);
    assert_eq!(robust::cpu::CPU::stack_pull_byte(&mut sys), 0x5c);
    assert_eq!(sys.cpu.sp, sp);
    robust::cpu::CPU::stack_push_word(&mut sys, 0xc0de);
    assert_eq!(sys.ram[0x100 + sp as usize], 0xc0);
    assert_eq!(robust::cpu::CPU::stack_pull_word(&mut sys), 0xc0de);
    assert_eq!(sys.cpu.sp, sp);
}

#[test]
fn stack_pointer_wraps() {
    let mut sys = System::new(Options::default());
    sys.cpu.sp = 0;
    robust::cpu::CPU::stack_push_word(&mut sys, 0x1234);
    assert_eq!(sys.cpu.sp, 0xfe);
    assert_eq!(robust::cpu::CPU::stack_pull_word(&mut sys), 0x1234);
    assert_eq!(sys.cpu.sp, 0);
}

#[test]
fn jsr_rts_round_trip() {
    let rom = rom_with(&[(0xc000, 0x20), (0xc001, 0x00), (0xc002, 0xd0), (0xd000, 0x60)], 0, 0xc000, 0);
    let mut sys = machine_with(&rom);
    sys.reset().unwrap();
    assert_eq!(step(&mut sys), 6);
    assert_eq!(sys.cpu.pc.0, 0xd000);
    assert_eq!(step(&mut sys), 6);
    assert_eq!(sys.cpu.pc.0, 0xc003);
    assert_eq!(sys.cpu.sp, 0xfd);
}

#[test]
fn php_plp_break_flag_quirk() {
    let mut sys = System::new(Options::default());
    for (i, b) in [0x08u8, 0x28].iter().enumerate() {
        sys.write_byte(Addr(i as u16), *b).unwrap();
    }
    sys.cpu.pc = Addr(0);
    assert_eq!(step(&mut sys), 3);
    assert_eq!(sys.ram[0x1fd] & 0x30, 0x30);
    assert_eq!(step(&mut sys), 4);
    assert!(!sys.cpu.soft_break);
    assert_eq!(sys.cpu.status() & 0x10, 0);
}

#[test]
fn page_cross_penalty_on_indexed_load() {
    let mut sys = System::new(Options::default());
    for (i, b) in [0xbdu8, 0xff, 0x00].iter().enumerate() {
        sys.write_byte(Addr(i as u16), *b).unwrap();
    }
    sys.write_byte(Addr(0x0100), 0x33).unwrap();
    sys.cpu.pc = Addr(0);
    sys.cpu.x = 1;
    assert_eq!(step(&mut sys), 5);
    assert_eq!(sys.cpu.a, 0x33);
}

#[test]
fn undocumented_dcp_decrements_and_compares() {
    let mut sys = System::new(Options::default());
    for (i, b) in [0xc7u8, 0x10].iter().enumerate() {
        sys.write_byte(Addr(i as u16), *b).unwrap();
    }
    sys.write_byte(Addr(0x0010), 0x41).unwrap();
    sys.cpu.pc = Addr(0);
    sys.cpu.a = 0x40;
    assert_eq!(step(&mut sys), 5);
    assert_eq!(sys.ram[0x10], 0x40);
    assert!(sys.cpu.zero);
    assert!(sys.cpu.carry);
}

#[test]
fn tick_advances_beam() {
    let mut sys = System::new(Options::default());
    sys.ppu.scan_row = 10;
    sys.ppu.scan_line = 339;
    tick(&mut sys);
    assert_eq!((sys.ppu.scan_row, sys.ppu.scan_line), (10, 340));
    tick(&mut sys);
    assert_eq!((sys.ppu.scan_row, sys.ppu.scan_line), (11, 0));
    sys.ppu.scan_row = 261;
    sys.ppu.scan_line = 340;
    tick(&mut sys);
    assert_eq!((sys.ppu.scan_row, sys.ppu.scan_line), (0, 0));
}

#[test]
fn frame_keeps_three_dots_per_cycle() {
    let rom = rom_with(&[(0xc000, 0x4c), (0xc001, 0x00), (0xc002, 0xc0)], 0xc100, 0xc000, 0);
    let mut sys = machine_with(&rom);
    sys.reset().unwrap();
    let mut last = sys.cycles;
    for _ in 0..3 {
        sys.run_cycle().unwrap();
        assert!(sys.cycles >= last);
        last = sys.cycles;
        let dot = sys.ppu.scan_row as u64 * 341 + sys.ppu.scan_line as u64;
        assert_eq!(dot, (sys.cycles * 3) % (341 * 262));
    }
}

#[test]
fn history_ring_keeps_newest() {
    let rom = rom_with(&[(0xc000, 0x4c), (0xc001, 0x00), (0xc002, 0xc0)], 0xc100, 0xc000, 0);
    let mut sys = System::new(Options { dump_ops: false, history_len: 4, sprite_order_overlay: false });
    sys.load_cart(&nrom_image(&rom)).unwrap();
    sys.reset().unwrap();
    for _ in 0..6 {
        sys.step_instruction().unwrap();
    }
    assert_eq!(sys.history.len(), 4);
    assert!(sys.history_pos < 4);
    let newest = &sys.history[(sys.history_pos + 3) % 4];
    assert_eq!(newest.pc_bytes, vec![0x4c, 0x00, 0xc0]);
}

#[test]
fn controller_shifts_latched_buttons() {
    let mut sys = System::new(Options::default());
    sys.apu.set_controller_button(0, robust::apu::ControllerButton::A, true);
    sys.apu.set_controller_button(0, robust::apu::ControllerButton::Start, true);
    sys.write_byte(Addr(0x4016), 1).unwrap();
    assert_eq!(sys.read_byte(Addr(0x4016)).unwrap(), 1);
    assert_eq!(sys.read_byte(Addr(0x4016)).unwrap(), 1);
    sys.write_byte(Addr(0x4016), 0).unwrap();
    let bits: Vec<u8> = (0..9).map(|_| sys.read_byte(Addr(0x4016)).unwrap()).collect();
    assert_eq!(bits, vec![1, 0, 0, 1, 0, 0, 0, 0, 1]);
    assert_eq!(sys.read_byte(Addr(0x4017)).unwrap(), 0);
}

#[test]
fn decode_table_shapes() {
    assert_eq!(decode(0x6c), Some((OpCode::Jump, AddressMode::Indirect(None))));
    assert_eq!(decode(0xb1), Some((OpCode::Load(Register::A), AddressMode::Indirect(Some(Register::Y)))));
    assert_eq!(decode(0x02), None);
    assert_eq!(format_op_byte(0xa9), "LDA");
    assert_eq!(format_op_byte(0x02), "XXX");
}

#[test]
fn errors() {
    let mut sys = System::new(Options::default());
    assert_eq!(sys.read_byte(Addr(0x8000)), Err(EmuError::NoCartridge));
    assert_eq!(sys.write_byte(Addr(0x8000), 1), Err(EmuError::NoCartridge));
    assert_eq!(sys.read_byte(Addr(0x4018)), Err(EmuError::UnmappedRead { addr: 0x4018 }));
    assert_eq!(sys.write_byte(Addr(0x401f), 1), Err(EmuError::UnmappedWrite { addr: 0x401f }));
    assert_eq!(sys.read_byte(Addr(0x2000)), Err(EmuError::WriteOnlyRead { addr: 0x2000 }));
    assert_eq!(sys.read_byte(Addr(0x4014)), Err(EmuError::WriteOnlyRead { addr: 0x4014 }));
    assert_eq!(sys.peek_byte(Addr(0x2002)), Err(EmuError::UnmappedRead { addr: 0x2002 }));
    sys.write_byte(Addr(0x0000), 0x02).unwrap();
    sys.cpu.pc = Addr(0);
    assert_eq!(load(&mut sys).err(), Some(EmuError::UnknownOpcode { pc: 0, opcode: 0x02 }));
    sys.cycles = robust::system::CYCLE_LIMIT;
    assert_eq!(sys.run_cycle().err(), Some(EmuError::ClockLimit));
    assert!(MAX_INSTRUCTION_CYCLES == 520);
}

#[test]
fn cartridge_errors() {
    let mut sys = System::new(Options::default());
    let good = nrom_image(&[]);
    let mut bad = good.clone();
    bad[0] = b'X';
    assert_eq!(sys.load_cart(&bad), Err(EmuError::CartBadMagic));
    assert_eq!(sys.load_cart(&good[..10]), Err(EmuError::CartTooShort));
    assert_eq!(sys.load_cart(&good[..100]), Err(EmuError::CartTooShort));
    let mut nes2 = good.clone();
    nes2[7] = 0x08;
    assert_eq!(sys.load_cart(&nes2), Err(EmuError::CartNes2Unsupported));
    let mut mapper = good.clone();
    mapper[6] = 0x40;
    assert_eq!(sys.load_cart(&mapper), Err(EmuError::UnsupportedMapper { id: 4 }));
    let mut empty = good.clone();
    empty[4] = 0;
    assert_eq!(sys.load_cart(&empty), Err(EmuError::CartNoProgram));
    assert!(!sys.has_cartridge());
    sys.load_cart(&good).unwrap();
    assert!(sys.has_cartridge());
}

#[test]
fn header_fields() {
    let mut img = nrom_image(&[]);
    img[6] = 0b0001_0111;
    img[7] = 0b0010_0000;
    img[8] = 0;
    let h = Header::from_bytes(&img).unwrap();
    assert!(h.vertical_mirroring && h.battery_ram && h.trainer && !h.no_mirror);
    assert_eq!(h.mapper_id, 0x21);
    assert_eq!(h.prg_rom_size, 32768);
    assert_eq!(h.chr_rom_size, 8192);
    assert_eq!(h.prg_ram_size, 8192);
}

#[test]
fn trainer_is_skipped() {
    let mut img = vec![0x4e, 0x45, 0x53, 0x1a, 1, 0, 0b0100, 0, 0, 0, 0, 0, 0, 0, 0, 0];
    img.extend_from_slice(&vec![0xffu8; 512]);
    let mut prg = vec![0u8; 0x4000];
    prg[0] = 0x5a;
    img.extend_from_slice(&prg);
    let mut sys = System::new(Options::default());
    sys.load_cart(&img).unwrap();
    assert_eq!(sys.read_byte(Addr(0x8000)).unwrap(), 0x5a);
    assert_eq!(sys.read_byte(Addr(0xc000)).unwrap(), 0x5a);
    // No character ROM: 8 KiB of character RAM, writable through PPUDATA.
    sys.write_byte(Addr(0x2006), 0x00).unwrap();
    sys.write_byte(Addr(0x2006), 0x10).unwrap();
    sys.write_byte(Addr(0x2007), 0x66).unwrap();
    match &sys.cart.as_ref().unwrap().mapper {
        CartMapper::Nrom(m) => assert_eq!(m.chr[0x10], 0x66),
        _ => panic!("expected mapper 0"),
    }
}

#[test]
fn uxrom_bank_select() {
    let mut img = vec![0x4e, 0x45, 0x53, 0x1a, 4, 0, 0x20, 0, 0, 0, 0, 0, 0, 0, 0, 0];
    for b in 0..4u8 {
        img.extend_from_slice(&vec![b + 10; 0x4000]);
    }
    let mut sys = System::new(Options::default());
    sys.load_cart(&img).unwrap();
    assert_eq!(sys.read_byte(Addr(0x8000)).unwrap(), 10);
    assert_eq!(sys.read_byte(Addr(0xc000)).unwrap(), 13);
    sys.write_byte(Addr(0x8000), 2).unwrap();
    assert_eq!(sys.read_byte(Addr(0x8000)).unwrap(), 12);
    sys.write_byte(Addr(0xffff), 9).unwrap();
    assert_eq!(sys.read_byte(Addr(0x8000)).unwrap(), 12);
    assert_eq!(sys.read_byte(Addr(0x6000)), Err(EmuError::UnmappedRead { addr: 0x6000 }));
}

#[test]
fn rendering_draws_backdrop_and_tiles() {
    let mut img = vec![0x4e, 0x45, 0x53, 0x1a, 2, 1, 0, 0, 0, 0, 0, 0, 0, 0, 0, 0];
    img.extend_from_slice(&rom_with(&[(0xc000, 0x4c), (0xc001, 0x00), (0xc002, 0xc0)], 0, 0xc000, 0));
    let mut chr = vec![0u8; 0x2000];
    // Tile 1: every pixel colour 1 (low plane set).
    for r in 0..8 {
        chr[16 + r] = 0xff;
    }
    img.extend_from_slice(&chr);
    let mut sys = System::new(Options::default());
    sys.load_cart(&img).unwrap();
    sys.reset().unwrap();
    // Palette: backdrop $0F, colour 1 of palette 0 is $30.
    sys.write_byte(Addr(0x2006), 0x3f).unwrap();
    sys.write_byte(Addr(0x2006), 0x00).unwrap();
    sys.write_byte(Addr(0x2007), 0x0f).unwrap();
    sys.write_byte(Addr(0x2007), 0x30).unwrap();
    // Nametable entry (0, 0) shows tile 1.
    sys.write_byte(Addr(0x2006), 0x20).unwrap();
    sys.write_byte(Addr(0x2006), 0x00).unwrap();
    sys.write_byte(Addr(0x2007), 0x01).unwrap();
    sys.write_byte(Addr(0x2001), 0x0a).unwrap();
    sys.run_cycle().unwrap();
    sys.run_cycle().unwrap();
    let frame = sys.get_frame();
    assert_eq!(frame.len(), 256 * 240);
    assert_eq!(frame[0], 0xeceeec);
    assert_eq!(frame[8], 0x000000);
    assert_eq!(frame[7 * 256 + 7], 0xeceeec);
}

#[test]
fn cartridge_tile_rows() {
    let mut img = vec![0x4e, 0x45, 0x53, 0x1a, 1, 1, 0, 0, 0, 0, 0, 0, 0, 0, 0, 0];
    img.extend_from_slice(&vec![0u8; 0x4000]);
    let mut chr = vec![0u8; 0x2000];
    chr[0x123] = 0xaa;
    chr[0x12b] = 0x55;
    img.extend_from_slice(&chr);
    let mut sys = System::new(Options::default());
    sys.load_cart(&img).unwrap();
    let cart = sys.cart.as_ref().unwrap();
    assert_eq!(cart.get_tile(0x123), (0xaa, 0x55));
    assert!(!cart.is_empty());
    assert_eq!(sys.dump_vram().len(), 0x4000);
    assert_eq!(sys.dump_stack().0.len(), 256);
    assert_eq!(sys.dump_zero_page().len(), 256);
}

#[test]
fn mnemonics() {
    assert_eq!(format_op_byte(0x00), "BRK");
    assert_eq!(format_op_byte(0x6c), "JMP");
    assert_eq!(format_op_byte(0xa9), "LDA");
    assert_eq!(format_op_byte(0xb0), "BCS");
    assert_eq!(format_op_byte(0xeb), "SBC");
    assert_eq!(format_op_byte(0xa3), "LAX");
}

#[test]
fn word_read_errors_propagate() {
    let mut sys = System::new(Options::default());
    assert_eq!(sys.read_word(Addr(0x4018)), Err(EmuError::UnmappedRead { addr: 0x4018 }));
    assert_eq!(sys.read_addr(Addr(0x1fff)).err(), Some(EmuError::WriteOnlyRead { addr: 0x2000 }));
}

#[test]
fn take_nmi_pushes_pc_and_status() {
    let rom = rom_with(&[], 0xc100, 0xc000, 0);
    let mut sys = machine_with(&rom);
    sys.reset().unwrap();
    sys.cpu.carry = true;
    sys.nmi = true;
    sys.take_nmi().unwrap();
    assert!(!sys.nmi);
    assert_eq!(sys.cpu.pc.0, 0xc100);
    assert_eq!(sys.cpu.sp, 0xfa);
    assert_eq!(sys.ram[0x1fd], 0xc0);
    assert_eq!(sys.ram[0x1fc], 0x00);
    assert_eq!(sys.ram[0x1fb], 0b0010_0101);
}

#[test]
fn instructions_run_their_dots_before_the_next_fetch() {
    let rom = rom_with(&[(0xc000, 0x4c), (0xc001, 0x00), (0xc002, 0xc0)], 0xc100, 0xc000, 0);
    let mut sys = System::new(Options { dump_ops: false, history_len: 8, sprite_order_overlay: false });
    sys.load_cart(&nrom_image(&rom)).unwrap();
    sys.reset().unwrap();
    let mut last = sys.cycles;
    for _ in 0..20 {
        let dots = sys.ppu.dots;
        let (trace, _) = sys.run_instruction().unwrap();
        assert_eq!(trace.cycles, last);
        assert_eq!(sys.ppu.dots - dots, 3 * (sys.cycles - last));
        assert_eq!(sys.cycles - last, 3);
        last = sys.cycles;
    }
    sys.run_cycle().unwrap();
    let n = sys.history.len();
    let ordered: Vec<u64> = (0..n).map(|i| sys.history[(sys.history_pos + i) % n].cycles).collect();
    assert!(ordered.windows(2).all(|w| w[0] <= w[1]));
}

#[test]
fn frame_pixels_are_palette_colours() {
    let rom = rom_with(&[(0xc000, 0x4c), (0xc001, 0x00), (0xc002, 0xc0)], 0, 0xc000, 0);
    let mut sys = machine_with(&rom);
    sys.reset().unwrap();
    sys.write_byte(Addr(0x2001), 0x1e).unwrap();
    sys.run_cycle().unwrap();
    sys.run_cycle().unwrap();
    let frame = sys.get_frame();
    assert_eq!(frame.len(), 256 * 240);
    assert!(frame.iter().all(|p| *p <= 0xffffff));
}
