use robust::cpu::{AddressMode, Register, CPU};
use robust::error::EmuError;

#[test]
fn cpu_flags_roundtrip() {
    let cases: [u8; 4] = [0b1111_1111, 0b0010_0000, 0b0010_1111, 0b1010_1010];
    for sent in cases {
        let mut cpu = CPU::init();
        cpu.set_status(sent);
        let actual = cpu.status();
        let expected = sent & 0b1110_1111;
        assert_eq!(expected, actual, "{expected:08b} != {actual:08b}");
    }
}

#[test]
fn status_without_bit_five_reads_back_with_it() {
    let mut cpu = CPU::init();
    cpu.set_status(0b1101_1111);
    assert_eq!(cpu.status(), 0b1110_1111);
    cpu.set_status(0);
    assert_eq!(cpu.status(), 0b0010_0000);
}

#[test]
fn power_up_state() {
    let cpu = CPU::init();
    assert_eq!(cpu.sp, 0xfd);
    assert!(cpu.interrupt);
    assert_eq!(cpu.pc.0, 0);
    assert_eq!(cpu.status(), 0b0010_0100);
}

#[test]
fn operand_syntax() {
    let m = |s: &str, bc: usize| {
        let cs: Vec<char> = s.chars().collect();
        AddressMode::from_str_with_bc(&cs, bc)
    };
    assert_eq!(m("$C5F5    ", 3), Ok(AddressMode::Absolute(None)));
    assert_eq!(m("$0300,X @ 0300", 3), Ok(AddressMode::Absolute(Some(Register::X))));
    assert_eq!(m("$0300,Y @ 0300", 3), Ok(AddressMode::Absolute(Some(Register::Y))));
    assert_eq!(m("$C72C", 2), Ok(AddressMode::Relative));
    assert_eq!(m("#$00", 2), Ok(AddressMode::Immediate));
    assert_eq!(m("$00 = 00", 2), Ok(AddressMode::Zero(None)));
    assert_eq!(m("$78,X @ 78", 2), Ok(AddressMode::Zero(Some(Register::X))));
    assert_eq!(m("($0200) = DB7E", 3), Ok(AddressMode::Indirect(None)));
    assert_eq!(m("($80,X) @ 80", 2), Ok(AddressMode::Indirect(Some(Register::X))));
    assert_eq!(m("($89),Y = 0300", 2), Ok(AddressMode::Indirect(Some(Register::Y))));
    assert_eq!(m("A", 1), Ok(AddressMode::Register(Register::A)));
    assert_eq!(m("    ", 1), Ok(AddressMode::Implied));
    assert_eq!(m("?", 1), Err(EmuError::OperandSyntax));
    assert_eq!(m("$C5F5", 1), Err(EmuError::OperandSyntax));
}
