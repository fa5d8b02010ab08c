use vstd::prelude::*;

use crate::addr::{high_byte, low_byte, word_of, wrap16, Addr};
use crate::bus::peek_spec;
use crate::cpu::{reg_value, AddressMode, Register, CPU};
use crate::error::EmuError;
use crate::system::System;

verus! {

/// An operand's effective address, and whether indexing crossed into another page.
#[derive(Clone, Copy, PartialEq, Eq, Structural, Debug)]
pub struct AddrLookup {
    pub addr: Addr,
    pub crossed_page: bool,
}

/// The machine with the program counter at `pc`.
pub open spec fn with_pc(s: &System, pc: u16) -> System {
    System { cpu: CPU { pc: Addr(pc), ..s.cpu }, ..*s }
}

/// Holds when `t` differs from `s` at most in the program counter.
pub open spec fn only_pc_moved(s: &System, t: &System) -> bool {
    *t == with_pc(s, t.cpu.pc.0)
}

/// The value an index register adds: none, X, or Y.
pub open spec fn index_of(c: CPU, reg: Option<Register>) -> u8 {
    match reg {
        None => 0,
        Some(r) => reg_value(c, r),
    }
}

/// The word at `ptr` read the way the indirect jump reads it: the high byte comes from
/// the same page, so a pointer at $xxFF takes its high byte from $xx00.
pub open spec fn page_wrapped_next(ptr: u16) -> u16 {
    word_of(high_byte(ptr), ((low_byte(ptr) + 1) % 256) as u8)
}

/// The zero-page word at `p`, high byte at `p + 1` within page zero.
pub open spec fn zero_word(s: &System, p: u8) -> u16 {
    word_of(s.ram@[((p + 1) % 256) as int], s.ram@[p as int])
}

/// Zero-page operand: the byte at PC plus the index, within page zero.
pub open spec fn resolve_zero(s: &System, reg: Option<Register>) -> Result<(u16, AddrLookup), EmuError> {
    match peek_spec(s, s.cpu.pc.0) {
        Err(e) => Err(e),
        Ok(b) => Ok(
            (
                wrap16(s.cpu.pc.0 + 1),
                AddrLookup { addr: Addr(((b + index_of(s.cpu, reg)) % 256) as u16), crossed_page: false },
            ),
        ),
    }
}

/// Absolute operand: the word at PC plus the index, wrapping past $FFFF; a page is
/// crossed when the high byte changed.
pub open spec fn resolve_absolute(s: &System, reg: Option<Register>) -> Result<(u16, AddrLookup), EmuError> {
    let pc = s.cpu.pc.0;
    match (peek_spec(s, pc), peek_spec(s, wrap16(pc + 1))) {
        (Err(e), _) => Err(e),
        (_, Err(e)) => Err(e),
        (Ok(lo), Ok(hi)) => {
            let base = word_of(hi, lo);
            let eff = wrap16(base + index_of(s.cpu, reg));
            Ok((wrap16(pc + 2), AddrLookup { addr: Addr(eff), crossed_page: high_byte(eff) != high_byte(base) }))
        },
    }
}

/// Indirect operand. Without an index: the word at the pointer that follows the
/// opcode, its high byte taken from the pointer's own page. Indexed by Y: the
/// zero-page word at the operand byte, plus Y. Indexed otherwise (X): the zero-page
/// word at the operand byte plus X, within page zero.
pub open spec fn resolve_indirect(s: &System, reg: Option<Register>) -> Result<(u16, AddrLookup), EmuError> {
    let pc = s.cpu.pc.0;
    match reg {
        None => match (peek_spec(s, pc), peek_spec(s, wrap16(pc + 1))) {
            (Err(e), _) => Err(e),
            (_, Err(e)) => Err(e),
            (Ok(lo), Ok(hi)) => {
                let ptr = word_of(hi, lo);
                match (peek_spec(s, ptr), peek_spec(s, page_wrapped_next(ptr))) {
                    (Err(e), _) => Err(e),
                    (_, Err(e)) => Err(e),
                    (Ok(tlo), Ok(thi)) => Ok(
                        (wrap16(pc + 2), AddrLookup { addr: Addr(word_of(thi, tlo)), crossed_page: false }),
                    ),
                }
            },
        },
        Some(Register::Y) => match peek_spec(s, pc) {
            Err(e) => Err(e),
            Ok(b) => {
                let base = zero_word(s, b);
                let eff = wrap16(base + s.cpu.y);
                Ok((wrap16(pc + 1), AddrLookup { addr: Addr(eff), crossed_page: high_byte(eff) != high_byte(base) }))
            },
        },
        Some(r) => match peek_spec(s, pc) {
            Err(e) => Err(e),
            Ok(b) => Ok(
                (
                    wrap16(pc + 1),
                    AddrLookup {
                        addr: Addr(zero_word(s, ((b + reg_value(s.cpu, r)) % 256) as u8)),
                        crossed_page: false,
                    },
                ),
            ),
        },
    }
}

/// The program counter after the operand bytes, and the operand's effective address,
/// or the error met while fetching operand bytes or pointers.
pub open spec fn resolve_spec(s: &System, am: AddressMode) -> Result<(u16, AddrLookup), EmuError> {
    let pc = s.cpu.pc.0;
    match am {
        AddressMode::Immediate => Ok((wrap16(pc + 1), AddrLookup { addr: Addr(pc), crossed_page: false })),
        AddressMode::Zero(reg) => resolve_zero(s, reg),
        AddressMode::Absolute(reg) => resolve_absolute(s, reg),
        AddressMode::Indirect(reg) => resolve_indirect(s, reg),
        _ => Ok((pc, AddrLookup { addr: Addr(pc), crossed_page: false })),
    }
}

/// The base cycle count of an addressing mode, given whether indexing crossed a page.
pub open spec fn default_cycles_spec(am: AddressMode, xp: bool) -> u64 {
    match am {
        AddressMode::Register(_) => 0,
        AddressMode::Immediate => 2,
        AddressMode::Zero(None) => 3,
        AddressMode::Absolute(Some(_)) => if xp { 5 } else { 4 },
        AddressMode::Indirect(Some(Register::Y)) => if xp { 6 } else { 5 },
        AddressMode::Indirect(Some(_)) => 6,
        _ => 4,
    }
}

pub fn default_cycles(address_mode: &AddressMode, xp: bool) -> (r: u64)
    ensures
        r == default_cycles_spec(*address_mode, xp),
        r <= 6,
{
    match address_mode {
        AddressMode::Register(_) => 0,
        AddressMode::Immediate => 2,
        AddressMode::Zero(None) => 3,
        AddressMode::Absolute(Some(_)) => if xp {
            5
        } else {
            4
        },
        AddressMode::Indirect(Some(Register::Y)) => if xp {
            6
        } else {
            5
        },
        AddressMode::Indirect(Some(_)) => 6,
        _ => 4,
    }
}

/// Reads the byte at the program counter and moves past it.
pub fn shift_pc(sys: &mut System) -> (r: Result<u8, EmuError>)
    requires
        old(sys).wf(),
    ensures
        final(sys).wf(),
        match peek_spec(old(sys), old(sys).cpu.pc.0) {
            Err(e) => r == Err::<u8, EmuError>(e) && *final(sys) == *old(sys),
            Ok(b) => r == Ok::<u8, EmuError>(b) && *final(sys) == with_pc(
                old(sys),
                wrap16(old(sys).cpu.pc.0 + 1),
            ),
        },
{
    let val = match sys.peek_byte(sys.cpu.pc) {
        Ok(v) => v,
        Err(e) => return Err(e),
    };
    sys.cpu.pc = sys.cpu.pc.offset(1);
    Ok(val)
}

/// Reads a little-endian address at the program counter and moves past it.
pub fn shift_pc_addr(sys: &mut System) -> (r: Result<Addr, EmuError>)
    requires
        old(sys).wf(),
    ensures
        final(sys).wf(),
        only_pc_moved(old(sys), final(sys)),
        match (
            peek_spec(old(sys), old(sys).cpu.pc.0),
            peek_spec(old(sys), wrap16(old(sys).cpu.pc.0 + 1)),
        ) {
            (Ok(lo), Ok(hi)) => r == Ok::<Addr, EmuError>(Addr(word_of(hi, lo))) && *final(sys)
                == with_pc(old(sys), wrap16(old(sys).cpu.pc.0 + 2)),
            (Err(e), _) => r == Err::<Addr, EmuError>(e),
            (_, Err(e)) => r == Err::<Addr, EmuError>(e),
        },
{
    let lsb = match shift_pc(sys) {
        Ok(v) => v,
        Err(e) => return Err(e),
    };
    let msb = match shift_pc(sys) {
        Ok(v) => v,
        Err(e) => return Err(e),
    };
    Ok(Addr::from_bytes(msb, lsb))
}

/// The signed branch displacement at the program counter.
pub fn addr_relative(sys: &mut System) -> (r: Result<i8, EmuError>)
    requires
        old(sys).wf(),
    ensures
        final(sys).wf(),
        match peek_spec(old(sys), old(sys).cpu.pc.0) {
            Err(e) => r == Err::<i8, EmuError>(e) && *final(sys) == *old(sys),
            Ok(b) => r == Ok::<i8, EmuError>(b as i8) && *final(sys) == with_pc(
                old(sys),
                wrap16(old(sys).cpu.pc.0 + 1),
            ),
        },
{
    match shift_pc(sys) {
        Ok(b) => Ok(b as i8),
        Err(e) => Err(e),
    }
}

pub fn addr_immediate(sys: &mut System) -> (r: AddrLookup)
    requires
        old(sys).wf(),
    ensures
        final(sys).wf(),
        Ok::<(u16, AddrLookup), EmuError>((final(sys).cpu.pc.0, r)) == resolve_spec(
            old(sys),
            AddressMode::Immediate,
        ),
        only_pc_moved(old(sys), final(sys)),
{
    let addr = sys.cpu.pc;
    sys.cpu.pc = sys.cpu.pc.offset(1);
    AddrLookup { addr, crossed_page: false }
}

#[verifier::spinoff_prover]
#[verifier::rlimit(30)]
pub fn addr_zero(sys: &mut System, reg: &Option<Register>) -> (r: Result<AddrLookup, EmuError>)
    requires
        old(sys).wf(),
    ensures
        final(sys).wf(),
        only_pc_moved(old(sys), final(sys)),
        match resolve_zero(old(sys), *reg) {
            Ok((pc, l)) => r == Ok::<AddrLookup, EmuError>(l) && final(sys).cpu.pc.0 == pc,
            Err(e) => r == Err::<AddrLookup, EmuError>(e),
        },
{
    let offset = match reg {
        None => 0,
        Some(r) => sys.cpu.get_reg(r),
    };
    let base = match shift_pc(sys) {
        Ok(b) => b,
        Err(e) => return Err(e),
    };
    Ok(AddrLookup { addr: Addr::from_zero(base.wrapping_add(offset)), crossed_page: false })
}

pub fn addr_absolute(sys: &mut System, reg: &Option<Register>) -> (r: Result<AddrLookup, EmuError>)
    requires
        old(sys).wf(),
    ensures
        final(sys).wf(),
        only_pc_moved(old(sys), final(sys)),
        match resolve_absolute(old(sys), *reg) {
            Ok((pc, l)) => r == Ok::<AddrLookup, EmuError>(l) && final(sys).cpu.pc.0 == pc,
            Err(e) => r == Err::<AddrLookup, EmuError>(e),
        },
{
    let base = match shift_pc_addr(sys) {
        Ok(b) => b,
        Err(e) => return Err(e),
    };
    let offset: u16 = match reg {
        None => 0,
        Some(r) => sys.cpu.get_reg(r) as u16,
    };
    let addr = base.offset(offset);
    Ok(AddrLookup { addr, crossed_page: !addr.same_page_as(base) })
}

pub fn addr_indirect(sys: &mut System, reg: &Option<Register>) -> (r: Result<AddrLookup, EmuError>)
    requires
        old(sys).wf(),
    ensures
        final(sys).wf(),
        only_pc_moved(old(sys), final(sys)),
        match resolve_indirect(old(sys), *reg) {
            Ok((pc, l)) => r == Ok::<AddrLookup, EmuError>(l) && final(sys).cpu.pc.0 == pc,
            Err(e) => r == Err::<AddrLookup, EmuError>(e),
        },
{
    match reg {
        None => indirect_pointer(sys),
        Some(Register::Y) => indirect_post_indexed(sys),
        Some(r) => indirect_pre_indexed(sys, r),
    }
}

/// (pointer): the target's high byte never carries into the next page.
fn indirect_pointer(sys: &mut System) -> (r: Result<AddrLookup, EmuError>)
    requires
        old(sys).wf(),
    ensures
        final(sys).wf(),
        only_pc_moved(old(sys), final(sys)),
        match resolve_indirect(old(sys), None) {
            Ok((pc, l)) => r == Ok::<AddrLookup, EmuError>(l) && final(sys).cpu.pc.0 == pc,
            Err(e) => r == Err::<AddrLookup, EmuError>(e),
        },
{
    let ptr = match shift_pc_addr(sys) {
        Ok(p) => p,
        Err(e) => return Err(e),
    };
    let lo = match sys.peek_byte(ptr) {
        Ok(v) => v,
        Err(e) => return Err(e),
    };
    let next = Addr::from_bytes(ptr.msb(), ptr.lsb().wrapping_add(1));
    let hi = match sys.peek_byte(next) {
        Ok(v) => v,
        Err(e) => return Err(e),
    };
    Ok(AddrLookup { addr: Addr::from_bytes(hi, lo), crossed_page: false })
}

/// (zero page),Y.
fn indirect_post_indexed(sys: &mut System) -> (r: Result<AddrLookup, EmuError>)
    requires
        old(sys).wf(),
    ensures
        final(sys).wf(),
        only_pc_moved(old(sys), final(sys)),
        match resolve_indirect(old(sys), Some(Register::Y)) {
            Ok((pc, l)) => r == Ok::<AddrLookup, EmuError>(l) && final(sys).cpu.pc.0 == pc,
            Err(e) => r == Err::<AddrLookup, EmuError>(e),
        },
{
    let zp = match shift_pc(sys) {
        Ok(b) => b,
        Err(e) => return Err(e),
    };
    let base = sys.read_zero_addr(zp);
    let addr = base.offset(sys.cpu.y as u16);
    Ok(AddrLookup { addr, crossed_page: !addr.same_page_as(base) })
}

/// (zero page,X).
fn indirect_pre_indexed(sys: &mut System, r: &Register) -> (res: Result<AddrLookup, EmuError>)
    requires
        old(sys).wf(),
        *r != Register::Y,
    ensures
        final(sys).wf(),
        only_pc_moved(old(sys), final(sys)),
        match resolve_indirect(old(sys), Some(*r)) {
            Ok((pc, l)) => res == Ok::<AddrLookup, EmuError>(l) && final(sys).cpu.pc.0 == pc,
            Err(e) => res == Err::<AddrLookup, EmuError>(e),
        },
{
    let idx = sys.cpu.get_reg(r);
    let zp = match shift_pc(sys) {
        Ok(b) => b,
        Err(e) => return Err(e),
    };
    let addr = sys.read_zero_addr(zp.wrapping_add(idx));
    Ok(AddrLookup { addr, crossed_page: false })
}

/// Resolves an operand's effective address, moving the program counter past the
/// operand bytes. Reads of operand bytes and pointers have no side effects.
pub fn get_addr_ro(sys: &mut System, address_mode: &AddressMode) -> (r: Result<AddrLookup, EmuError>)
    requires
        old(sys).wf(),
    ensures
        final(sys).wf(),
        only_pc_moved(old(sys), final(sys)),
        match resolve_spec(old(sys), *address_mode) {
            Ok((pc, l)) => r == Ok::<AddrLookup, EmuError>(l) && final(sys).cpu.pc.0 == pc,
            Err(e) => r == Err::<AddrLookup, EmuError>(e),
        },
{
    match address_mode {
        AddressMode::Zero(reg) => addr_zero(sys, reg),
        AddressMode::Absolute(reg) => addr_absolute(sys, reg),
        AddressMode::Immediate => Ok(addr_immediate(sys)),
        AddressMode::Indirect(reg) => addr_indirect(sys, reg),
        _ => Ok(AddrLookup { addr: sys.cpu.pc, crossed_page: false }),
    }
}

/// Resolves an operand and charges the mode's cycles, with the page-cross penalty
/// when indexing crossed a page.
pub fn resolve_addr(sys: &mut System, address_mode: &AddressMode) -> (r: Result<Addr, EmuError>)
    requires
        old(sys).wf(),
        old(sys).cycles < 2 * crate::system::CYCLE_LIMIT,
    ensures
        final(sys).wf(),
        match resolve_spec(old(sys), *address_mode) {
            Ok((pc, l)) => r == Ok::<Addr, EmuError>(l.addr) && *final(sys) == (System {
                cycles: (old(sys).cycles + default_cycles_spec(*address_mode, l.crossed_page)) as u64,
                ..with_pc(old(sys), pc)
            }),
            Err(e) => r == Err::<Addr, EmuError>(e) && only_pc_moved(old(sys), final(sys)),
        },
{
    let lookup = match get_addr_ro(sys, address_mode) {
        Ok(l) => l,
        Err(e) => return Err(e),
    };
    sys.cycles = sys.cycles + default_cycles(address_mode, lookup.crossed_page);
    Ok(lookup.addr)
}

/// Resolves an operand and charges the mode's cycles as if indexing had crossed a
/// page, as stores and read-modify-write instructions always pay.
pub fn resolve_addr_with_xp(sys: &mut System, address_mode: &AddressMode, xp: bool) -> (r: Result<Addr, EmuError>)
    requires
        old(sys).wf(),
        old(sys).cycles < 2 * crate::system::CYCLE_LIMIT,
    ensures
        final(sys).wf(),
        match resolve_spec(old(sys), *address_mode) {
            Ok((pc, l)) => r == Ok::<Addr, EmuError>(l.addr) && *final(sys) == (System {
                cycles: (old(sys).cycles + default_cycles_spec(*address_mode, xp)) as u64,
                ..with_pc(old(sys), pc)
            }),
            Err(e) => r == Err::<Addr, EmuError>(e) && only_pc_moved(old(sys), final(sys)),
        },
{
    let lookup = match get_addr_ro(sys, address_mode) {
        Ok(l) => l,
        Err(e) => return Err(e),
    };
    sys.cycles = sys.cycles + default_cycles(address_mode, xp);
    Ok(lookup.addr)
}

} // verus!
