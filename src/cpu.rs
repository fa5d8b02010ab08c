use vstd::prelude::*;

use crate::addr::Addr;
use crate::error::EmuError;

verus! {

/// The four registers an instruction can name.
#[derive(Clone, Copy, PartialEq, Eq, Structural, Debug)]
pub enum Register {
    A,
    X,
    Y,
    SP,
}

/// The status flags an instruction can test or set.
#[derive(Clone, Copy, PartialEq, Eq, Structural, Debug)]
pub enum Flag {
    Carry,
    Zero,
    Interrupt,
    Decimal,
    Break,
    Overflow,
    Negative,
}

/// How an instruction finds its operand.
#[derive(Clone, Copy, PartialEq, Eq, Structural, Debug)]
pub enum AddressMode {
    Absolute(Option<Register>),
    Zero(Option<Register>),
    Indirect(Option<Register>),
    Relative,
    Immediate,
    Implied,
    Register(Register),
}

/// Character `i` of `s`, if there is one.
pub open spec fn char_at(s: Seq<char>, i: int) -> Option<char> {
    if 0 <= i < s.len() {
        Some(s[i])
    } else {
        None
    }
}

pub open spec fn is_hex_upper(c: char) -> bool {
    ('0' <= c && c <= '9') || ('A' <= c && c <= 'F')
}

/// The addressing mode that the operand column of a disassembly line shows, given
/// the instruction's byte count `bc`: blank (implied), "A", "#..", "(..,X)", "(..),Y",
/// "(....)", "$.." (zero page), "$..,X" / "$..,Y", "$...." (absolute, or relative when
/// `bc` is 2) and "$....,X" / "$....,Y".
pub open spec fn operand_mode(s: Seq<char>, bc: usize) -> Result<AddressMode, EmuError> {
    let c0 = char_at(s, 0);
    let c3 = char_at(s, 3);
    if c0 == Some(' ') {
        Ok(AddressMode::Implied)
    } else if c0 == Some('A') {
        Ok(AddressMode::Register(Register::A))
    } else if c0 == Some('#') {
        Ok(AddressMode::Immediate)
    } else if c0 == Some('(') {
        if char_at(s, 5) == Some('X') {
            Ok(AddressMode::Indirect(Some(Register::X)))
        } else if char_at(s, 6) == Some('Y') {
            Ok(AddressMode::Indirect(Some(Register::Y)))
        } else if char_at(s, 6) == Some(')') {
            Ok(AddressMode::Indirect(None))
        } else {
            Err(EmuError::OperandSyntax)
        }
    } else if c0 == Some('$') && c3 is Some {
        let c = c3->Some_0;
        if c == ' ' {
            Ok(AddressMode::Zero(None))
        } else if is_hex_upper(c) {
            if bc == 3 {
                if char_at(s, 5) == Some(' ') {
                    Ok(AddressMode::Absolute(None))
                } else if char_at(s, 5) == Some(',') && char_at(s, 6) == Some('X') {
                    Ok(AddressMode::Absolute(Some(Register::X)))
                } else if char_at(s, 5) == Some(',') && char_at(s, 6) == Some('Y') {
                    Ok(AddressMode::Absolute(Some(Register::Y)))
                } else {
                    Err(EmuError::OperandSyntax)
                }
            } else if bc == 2 {
                Ok(AddressMode::Relative)
            } else {
                Err(EmuError::OperandSyntax)
            }
        } else if c == ',' {
            if char_at(s, 4) == Some('X') {
                Ok(AddressMode::Zero(Some(Register::X)))
            } else if char_at(s, 4) == Some('Y') {
                Ok(AddressMode::Zero(Some(Register::Y)))
            } else {
                Err(EmuError::OperandSyntax)
            }
        } else {
            Err(EmuError::OperandSyntax)
        }
    } else {
        Err(EmuError::OperandSyntax)
    }
}

fn at(s: &[char], i: usize) -> (r: Option<char>)
    ensures
        r == char_at(s@, i as int),
{
    if i < s.len() {
        Some(s[i])
    } else {
        None
    }
}

impl AddressMode {
    /// Reads the addressing mode from the operand column of a disassembly line.
    pub fn from_str_with_bc(s: &[char], bc: usize) -> (r: Result<Self, EmuError>)
        ensures
            r == operand_mode(s@, bc),
    {
        let c0 = at(s, 0);
        let c3 = at(s, 3);
        if c0 == Some(' ') {
            Ok(AddressMode::Implied)
        } else if c0 == Some('A') {
            Ok(AddressMode::Register(Register::A))
        } else if c0 == Some('#') {
            Ok(AddressMode::Immediate)
        } else if c0 == Some('(') {
            if at(s, 5) == Some('X') {
                Ok(AddressMode::Indirect(Some(Register::X)))
            } else if at(s, 6) == Some('Y') {
                Ok(AddressMode::Indirect(Some(Register::Y)))
            } else if at(s, 6) == Some(')') {
                Ok(AddressMode::Indirect(None))
            } else {
                Err(EmuError::OperandSyntax)
            }
        } else if c0 == Some('$') && c3.is_some() {
            let c = c3.unwrap();
            if c == ' ' {
                Ok(AddressMode::Zero(None))
            } else if ('0' <= c && c <= '9') || ('A' <= c && c <= 'F') {
                if bc == 3 {
                    if at(s, 5) == Some(' ') {
                        Ok(AddressMode::Absolute(None))
                    } else if at(s, 5) == Some(',') && at(s, 6) == Some('X') {
                        Ok(AddressMode::Absolute(Some(Register::X)))
                    } else if at(s, 5) == Some(',') && at(s, 6) == Some('Y') {
                        Ok(AddressMode::Absolute(Some(Register::Y)))
                    } else {
                        Err(EmuError::OperandSyntax)
                    }
                } else if bc == 2 {
                    Ok(AddressMode::Relative)
                } else {
                    Err(EmuError::OperandSyntax)
                }
            } else if c == ',' {
                if at(s, 4) == Some('X') {
                    Ok(AddressMode::Zero(Some(Register::X)))
                } else if at(s, 4) == Some('Y') {
                    Ok(AddressMode::Zero(Some(Register::Y)))
                } else {
                    Err(EmuError::OperandSyntax)
                }
            } else {
                Err(EmuError::OperandSyntax)
            }
        } else {
            Err(EmuError::OperandSyntax)
        }
    }

    pub open spec fn bytes_spec(self) -> usize {
        match self {
            AddressMode::Implied => 0,
            AddressMode::Register(_) => 0,
            AddressMode::Indirect(None) => 2,
            AddressMode::Absolute(_) => 2,
            _ => 1,
        }
    }

    /// Number of operand bytes after the opcode byte.
    pub fn bytes(&self) -> (r: usize)
        ensures
            r == self.bytes_spec(),
            r <= 2,
    {
        match self {
            AddressMode::Implied => 0,
            AddressMode::Zero(_) => 1,
            AddressMode::Indirect(Some(_)) => 1,
            AddressMode::Indirect(None) => 2,
            AddressMode::Absolute(_) => 2,
            AddressMode::Immediate => 1,
            AddressMode::Relative => 1,
            AddressMode::Register(_) => 0,
        }
    }
}

/// The processor's registers and flags.
#[derive(Clone, Copy, PartialEq, Eq, Structural, Debug)]
pub struct CPU {
    pub pc: Addr,
    pub sp: u8,
    pub x: u8,
    pub y: u8,
    pub a: u8,
    pub carry: bool,
    pub zero: bool,
    pub interrupt: bool,
    pub decimal: bool,
    pub soft_break: bool,
    pub overflow: bool,
    pub sign: bool,
}

/// The stack pointer at power-up.
pub const SP_START: u8 = 0xfd;

/// First byte of the stack page.
pub const STACK_BOT: u16 = 0x0100;

/// The packed status byte: flags in bits 0-4 and 6-7, bit 5 always set.
pub open spec fn status_byte(c: CPU) -> u8 {
    (if c.carry { 1u8 } else { 0u8 }) | (if c.zero { 2u8 } else { 0u8 }) | (if c.interrupt {
        4u8
    } else {
        0u8
    }) | (if c.decimal { 8u8 } else { 0u8 }) | (if c.soft_break { 16u8 } else { 0u8 }) | 32u8 | (
    if c.overflow { 64u8 } else { 0u8 }) | (if c.sign { 128u8 } else { 0u8 })
}

/// The processor after restoring flags from a status byte; the break bit and bit 5
/// are not restored.
pub open spec fn with_status(c: CPU, flags: u8) -> CPU {
    CPU {
        carry: flags & 1 != 0,
        zero: flags & 2 != 0,
        interrupt: flags & 4 != 0,
        decimal: flags & 8 != 0,
        overflow: flags & 64 != 0,
        sign: flags & 128 != 0,
        ..c
    }
}

/// The processor with zero and negative set from `v`.
pub open spec fn with_nz(c: CPU, v: u8) -> CPU {
    CPU { zero: v == 0, sign: v >= 128, ..c }
}

pub open spec fn reg_value(c: CPU, r: Register) -> u8 {
    match r {
        Register::A => c.a,
        Register::X => c.x,
        Register::Y => c.y,
        Register::SP => c.sp,
    }
}

pub open spec fn with_reg(c: CPU, r: Register, v: u8) -> CPU {
    match r {
        Register::A => CPU { a: v, ..c },
        Register::X => CPU { x: v, ..c },
        Register::Y => CPU { y: v, ..c },
        Register::SP => CPU { sp: v, ..c },
    }
}

pub open spec fn flag_value(c: CPU, f: Flag) -> bool {
    match f {
        Flag::Carry => c.carry,
        Flag::Zero => c.zero,
        Flag::Interrupt => c.interrupt,
        Flag::Decimal => c.decimal,
        Flag::Break => c.soft_break,
        Flag::Overflow => c.overflow,
        Flag::Negative => c.sign,
    }
}

/// The processor at power-up: interrupts disabled, stack pointer at $FD.
pub open spec fn power_up_cpu() -> CPU {
    CPU {
        pc: Addr(0),
        sp: SP_START,
        x: 0,
        y: 0,
        a: 0,
        carry: false,
        zero: false,
        interrupt: true,
        decimal: false,
        soft_break: false,
        overflow: false,
        sign: false,
    }
}

impl CPU {
    pub fn init() -> (r: Self)
        ensures
            r == power_up_cpu(),
    {
        CPU {
            pc: Addr(0),
            sp: SP_START,
            x: 0,
            y: 0,
            a: 0,
            carry: false,
            zero: false,
            interrupt: true,
            decimal: false,
            soft_break: false,
            overflow: false,
            sign: false,
        }
    }

    /// `base` moved on by index register X or Y, wrapping past $FFFF.
    pub fn index_reg(&self, base: Addr, reg: &Option<Register>) -> (r: Addr)
        requires
            *reg != Some(Register::A) && *reg != Some(Register::SP),
        ensures
            r.0 == match *reg {
                Some(rg) => crate::addr::wrap16(base.0 + reg_value(*self, rg)),
                None => base.0,
            },
    {
        match reg {
            None => base,
            Some(Register::X) => base.offset(self.x as u16),
            Some(_) => base.offset(self.y as u16),
        }
    }

    pub fn set_reg(&mut self, register: &Register, value: u8)
        ensures
            *final(self) == with_reg(*old(self), *register, value),
    {
        match register {
            Register::X => self.x = value,
            Register::Y => self.y = value,
            Register::A => self.a = value,
            Register::SP => self.sp = value,
        }
    }

    pub fn get_reg(&self, register: &Register) -> (r: u8)
        ensures
            r == reg_value(*self, *register),
    {
        match register {
            Register::X => self.x,
            Register::Y => self.y,
            Register::A => self.a,
            Register::SP => self.sp,
        }
    }

    pub fn get_flag(&self, flag: &Flag) -> (r: bool)
        ensures
            r == flag_value(*self, *flag),
    {
        match flag {
            Flag::Carry => self.carry,
            Flag::Zero => self.zero,
            Flag::Interrupt => self.interrupt,
            Flag::Decimal => self.decimal,
            Flag::Break => self.soft_break,
            Flag::Overflow => self.overflow,
            Flag::Negative => self.sign,
        }
    }

    /// The packed status byte.
    pub fn status(&self) -> (r: u8)
        ensures
            r == status_byte(*self),
    {
        (if self.carry {
            1u8
        } else {
            0u8
        }) | (if self.zero {
            2u8
        } else {
            0u8
        }) | (if self.interrupt {
            4u8
        } else {
            0u8
        }) | (if self.decimal {
            8u8
        } else {
            0u8
        }) | (if self.soft_break {
            16u8
        } else {
            0u8
        }) | 32u8 | (if self.overflow {
            64u8
        } else {
            0u8
        }) | (if self.sign {
            128u8
        } else {
            0u8
        })
    }

    /// Restores the flags from a status byte, leaving the break flag alone.
    pub fn set_status(&mut self, flags: u8)
        ensures
            *final(self) == with_status(*old(self), flags),
    {
        self.carry = flags & 1 != 0;
        self.zero = flags & 2 != 0;
        self.interrupt = flags & 4 != 0;
        self.decimal = flags & 8 != 0;
        self.overflow = flags & 64 != 0;
        self.sign = flags & 128 != 0;
    }

    /// Sets zero and negative from `value`.
    pub fn update_flags(&mut self, value: u8)
        ensures
            *final(self) == with_nz(*old(self), value),
    {
        self.zero = value == 0;
        self.sign = value >= 128;
    }

    /// The RAM address of stack slot `sp`.
    pub fn addr_stack(sp: u8) -> (r: Addr)
        ensures
            r.0 == STACK_BOT + sp,
    {
        Addr(STACK_BOT + sp as u16)
    }
}

/// Restoring the status from a byte and reading it back gives the byte with bit 5
/// set and bit 4 clear, as long as the break flag is clear (no instruction sets it).
pub proof fn lemma_status_round_trip(c: CPU, flags: u8)
    requires
        !c.soft_break,
    ensures
        status_byte(with_status(c, flags)) == (flags | 0x20) & 0xef,
{
    let d = with_status(c, flags);
    let b0 = flags & 1 != 0;
    let b1 = flags & 2 != 0;
    let b2 = flags & 4 != 0;
    let b3 = flags & 8 != 0;
    let b6 = flags & 64 != 0;
    let b7 = flags & 128 != 0;
    assert(((if b0 { 1u8 } else { 0u8 }) | (if b1 { 2u8 } else { 0u8 }) | (if b2 { 4u8 } else { 0u8 })
        | (if b3 { 8u8 } else { 0u8 }) | 0u8 | 32u8 | (if b6 { 64u8 } else { 0u8 }) | (if b7 {
        128u8
    } else {
        0u8
    })) == (flags | 0x20) & 0xef) by (bit_vector)
        requires
            b0 == (flags & 1 != 0),
            b1 == (flags & 2 != 0),
            b2 == (flags & 4 != 0),
            b3 == (flags & 8 != 0),
            b6 == (flags & 64 != 0),
            b7 == (flags & 128 != 0),
    ;
}

} // verus!
