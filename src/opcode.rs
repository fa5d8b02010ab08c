use vstd::prelude::*;

use crate::cpu::{flag_value, reg_value, with_nz, with_reg, AddressMode, Flag, Register, CPU};

verus! {

/// What an instruction does, apart from where its operand comes from.
#[derive(Clone, Copy, PartialEq, Eq, Structural, Debug)]
pub enum OpCode {
    Break,
    NoOp,
    Or,
    And,
    ExOr,
    Add,
    Sub,
    Compare(Register),
    Dec(Option<Register>),
    Inc(Option<Register>),
    ShiftLeft,
    RotateLeft,
    ShiftRight,
    RotateRight,
    Load(Register),
    Store(Register),
    Transfer(Register, Register),
    PushAcc,
    PushFlags,
    PullAcc,
    PullFlags,
    Jump,
    JumpSub,
    BranchIf(Flag, bool),
    ReturnInt,
    ReturnSub,
    SetFlag(Flag, bool),
    Bit,
    LoadHack(Register, Register),
    StoreHack(Register, Register),
    DecCmpHack,
    IncSubHack,
    ShiftLeftOrHack,
    RotLeftAndHack,
    ShiftRightOrHack,
    RotRightAddHack,
}

/// The carry flag as 0 or 1.
pub open spec fn carry_in(c: CPU) -> int {
    if c.carry { 1 } else { 0 }
}

/// Add with carry: A + M + C into A, carry out of bit 7, two's-complement overflow,
/// zero and negative from the result. The decimal flag plays no part.
pub open spec fn adc_spec(c: CPU, m: u8) -> CPU {
    let sum = c.a + m + carry_in(c);
    let result = (sum % 256) as u8;
    with_nz(
        CPU {
            a: result,
            carry: sum > 255,
            overflow: (c.a ^ result) & (m ^ result) & 0x80 != 0,
            ..c
        },
        result,
    )
}

/// Subtract with borrow: add with carry of M's complement.
pub open spec fn sbc_spec(c: CPU, m: u8) -> CPU {
    adc_spec(c, m ^ 0xff)
}

/// Compare register value `r` with `m`: carry when r >= m, zero when equal, negative
/// from bit 7 of r - m.
pub open spec fn compare_spec(c: CPU, r: u8, m: u8) -> CPU {
    CPU { carry: r >= m, zero: r == m, sign: ((r - m + 256) % 256) >= 128, ..c }
}

pub open spec fn shl(v: u8) -> u8 {
    ((v * 2) % 256) as u8
}

pub open spec fn shr(v: u8) -> u8 {
    (v / 2) as u8
}

pub open spec fn rol(v: u8, carry: bool) -> u8 {
    ((v * 2) % 256 + if carry { 1int } else { 0int }) as u8
}

pub open spec fn ror(v: u8, carry: bool) -> u8 {
    (v / 2 + if carry { 128int } else { 0int }) as u8
}

/// A with `v`, zero and negative set from it.
pub open spec fn load_a(c: CPU, v: u8) -> CPU {
    with_nz(CPU { a: v, ..c }, v)
}

/// What an operation does to the processor given operand `m`, and the byte that a
/// read-modify-write operation writes back (for the others, `m` itself).
pub open spec fn operate_spec(op: OpCode, c: CPU, m: u8) -> (CPU, u8) {
    match op {
        OpCode::Load(r) => (with_nz(with_reg(c, r, m), m), m),
        OpCode::LoadHack(r1, r2) => (with_nz(with_reg(with_reg(c, r1, m), r2, m), m), m),
        OpCode::And => (load_a(c, c.a & m), m),
        OpCode::Or => (load_a(c, c.a | m), m),
        OpCode::ExOr => (load_a(c, c.a ^ m), m),
        OpCode::Add => (adc_spec(c, m), m),
        OpCode::Sub => (sbc_spec(c, m), m),
        OpCode::Compare(r) => (compare_spec(c, reg_value(c, r), m), m),
        OpCode::Bit => (CPU { zero: c.a & m == 0, overflow: m & 0x40 != 0, sign: m & 0x80 != 0, ..c }, m),
        OpCode::ShiftLeft => (with_nz(CPU { carry: m >= 128, ..c }, shl(m)), shl(m)),
        OpCode::ShiftRight => (with_nz(CPU { carry: m % 2 == 1, ..c }, shr(m)), shr(m)),
        OpCode::RotateLeft => (with_nz(CPU { carry: m >= 128, ..c }, rol(m, c.carry)), rol(m, c.carry)),
        OpCode::RotateRight => (
            with_nz(CPU { carry: m % 2 == 1, ..c }, ror(m, c.carry)),
            ror(m, c.carry),
        ),
        OpCode::Inc(_) => (with_nz(c, ((m + 1) % 256) as u8), ((m + 1) % 256) as u8),
        OpCode::Dec(_) => (with_nz(c, ((m + 255) % 256) as u8), ((m + 255) % 256) as u8),
        OpCode::DecCmpHack => {
            let w = ((m + 255) % 256) as u8;
            (compare_spec(c, c.a, w), w)
        },
        OpCode::IncSubHack => {
            let w = ((m + 1) % 256) as u8;
            (sbc_spec(c, w), w)
        },
        OpCode::ShiftLeftOrHack => {
            let w = shl(m);
            (load_a(CPU { carry: m >= 128, ..c }, c.a | w), w)
        },
        OpCode::RotLeftAndHack => {
            let w = rol(m, c.carry);
            (load_a(CPU { carry: m >= 128, ..c }, c.a & w), w)
        },
        OpCode::ShiftRightOrHack => {
            let w = shr(m);
            (load_a(CPU { carry: m % 2 == 1, ..c }, c.a ^ w), w)
        },
        OpCode::RotRightAddHack => {
            let w = ror(m, c.carry);
            (adc_spec(CPU { carry: m % 2 == 1, ..c }, w), w)
        },
        _ => (c, m),
    }
}

/// What an operation without a memory operand does to the processor.
pub open spec fn register_op_spec(op: OpCode, c: CPU) -> CPU {
    match op {
        OpCode::Transfer(src, dst) => {
            let v = reg_value(c, src);
            if dst == Register::SP {
                with_reg(c, dst, v)
            } else {
                with_nz(with_reg(c, dst, v), v)
            }
        },
        OpCode::Inc(Some(r)) => {
            let v = ((reg_value(c, r) + 1) % 256) as u8;
            with_nz(with_reg(c, r, v), v)
        },
        OpCode::Dec(Some(r)) => {
            let v = ((reg_value(c, r) + 255) % 256) as u8;
            with_nz(with_reg(c, r, v), v)
        },
        OpCode::SetFlag(f, b) => match f {
            Flag::Carry => CPU { carry: b, ..c },
            Flag::Decimal => CPU { decimal: b, ..c },
            Flag::Interrupt => CPU { interrupt: b, ..c },
            Flag::Overflow => CPU { overflow: b, ..c },
            _ => c,
        },
        OpCode::ShiftLeft | OpCode::ShiftRight | OpCode::RotateLeft | OpCode::RotateRight => {
            let (c2, w) = operate_spec(op, c, c.a);
            CPU { a: w, ..c2 }
        },
        _ => c,
    }
}

pub fn shift_right(v: u8) -> (r: (u8, bool))
    ensures
        r == (shr(v), v % 2 == 1),
{
    (v / 2, v % 2 == 1)
}

pub fn shift_left(v: u8) -> (r: (u8, bool))
    ensures
        r == (shl(v), v >= 128),
{
    ((v % 128) * 2, v >= 128)
}

pub fn rot_right(v: u8, carry: bool) -> (r: (u8, bool))
    ensures
        r == (ror(v, carry), v % 2 == 1),
{
    let (value, c) = shift_right(v);
    (if carry {
        value + 128
    } else {
        value
    }, c)
}

pub fn rot_left(v: u8, carry: bool) -> (r: (u8, bool))
    ensures
        r == (rol(v, carry), v >= 128),
{
    let (value, c) = shift_left(v);
    (if carry {
        value + 1
    } else {
        value
    }, c)
}

/// Add with carry into A.
pub fn cpu_add(cpu: &mut CPU, m: u8)
    ensures
        *final(cpu) == adc_spec(*old(cpu), m),
{
    let sum: u16 = cpu.a as u16 + m as u16 + if cpu.carry {
        1u16
    } else {
        0u16
    };
    let result = (sum % 256) as u8;
    cpu.overflow = (cpu.a ^ result) & (m ^ result) & 0x80 != 0;
    cpu.carry = sum > 255;
    cpu.a = result;
    cpu.update_flags(result);
}

/// Subtract with borrow from A.
pub fn cpu_sub(cpu: &mut CPU, m: u8)
    ensures
        *final(cpu) == sbc_spec(*old(cpu), m),
{
    cpu_add(cpu, m ^ 0xff);
}

fn compare(cpu: &mut CPU, r: u8, m: u8)
    ensures
        *final(cpu) == compare_spec(*old(cpu), r, m),
{
    cpu.carry = r >= m;
    cpu.zero = r == m;
    cpu.sign = r.wrapping_sub(m) >= 128;
}

fn set_a(cpu: &mut CPU, v: u8)
    ensures
        *final(cpu) == load_a(*old(cpu), v),
{
    cpu.a = v;
    cpu.update_flags(v);
}

/// Applies an operation to the processor with operand `m`; returns the byte that a
/// read-modify-write operation writes back.
pub fn operate(op: &OpCode, cpu: &mut CPU, m: u8) -> (w: u8)
    ensures
        (*final(cpu), w) == operate_spec(*op, *old(cpu), m),
{
    match op {
        OpCode::ShiftLeft | OpCode::ShiftRight | OpCode::RotateLeft | OpCode::RotateRight => {
            operate_shift(op, cpu, m)
        },
        OpCode::Inc(_) => {
            let w = m.wrapping_add(1);
            cpu.update_flags(w);
            w
        },
        OpCode::Dec(_) => {
            let w = m.wrapping_sub(1);
            cpu.update_flags(w);
            w
        },
        OpCode::DecCmpHack | OpCode::IncSubHack | OpCode::ShiftLeftOrHack | OpCode::RotLeftAndHack
        | OpCode::ShiftRightOrHack | OpCode::RotRightAddHack => operate_combined(op, cpu, m),
        OpCode::Load(_) | OpCode::LoadHack(_, _) | OpCode::And | OpCode::Or | OpCode::ExOr
        | OpCode::Add | OpCode::Sub | OpCode::Compare(_) | OpCode::Bit => operate_read(op, cpu, m),
        _ => m,
    }
}

/// The operations that only read their operand.
#[verifier::spinoff_prover]
#[verifier::rlimit(30)]
fn operate_read(op: &OpCode, cpu: &mut CPU, m: u8) -> (w: u8)
    requires
        matches!(*op, OpCode::Load(_) | OpCode::LoadHack(_, _) | OpCode::And | OpCode::Or | OpCode::ExOr | OpCode::Add | OpCode::Sub | OpCode::Compare(_) | OpCode::Bit),
    ensures
        (*final(cpu), w) == operate_spec(*op, *old(cpu), m),
{
    match op {
        OpCode::Load(r) => {
            cpu.set_reg(r, m);
            cpu.update_flags(m);
            m
        },
        OpCode::LoadHack(r1, r2) => {
            cpu.set_reg(r1, m);
            cpu.set_reg(r2, m);
            cpu.update_flags(m);
            m
        },
        OpCode::And => {
            let v = cpu.a & m;
            set_a(cpu, v);
            m
        },
        OpCode::Or => {
            let v = cpu.a | m;
            set_a(cpu, v);
            m
        },
        OpCode::ExOr => {
            let v = cpu.a ^ m;
            set_a(cpu, v);
            m
        },
        OpCode::Add => {
            cpu_add(cpu, m);
            m
        },
        OpCode::Sub => {
            cpu_sub(cpu, m);
            m
        },
        OpCode::Compare(r) => {
            let rv = cpu.get_reg(r);
            compare(cpu, rv, m);
            m
        },
        OpCode::Bit => {
            cpu.zero = cpu.a & m == 0;
            cpu.overflow = m & 0x40 != 0;
            cpu.sign = m & 0x80 != 0;
            m
        },
        _ => m,
    }
}

/// Shifts, rotates, increments and decrements of the operand.
#[verifier::spinoff_prover]
#[verifier::rlimit(80)]
fn operate_shift(op: &OpCode, cpu: &mut CPU, m: u8) -> (w: u8)
    requires
        matches!(*op, OpCode::ShiftLeft | OpCode::ShiftRight | OpCode::RotateLeft | OpCode::RotateRight),
    ensures
        (*final(cpu), w) == operate_spec(*op, *old(cpu), m),
{
    match op {
        OpCode::ShiftLeft => {
            let (w, c) = shift_left(m);
            cpu.carry = c;
            cpu.update_flags(w);
            w
        },
        OpCode::ShiftRight => {
            let (w, c) = shift_right(m);
            cpu.carry = c;
            cpu.update_flags(w);
            w
        },
        OpCode::RotateLeft => {
            let (w, c) = rot_left(m, cpu.carry);
            cpu.carry = c;
            cpu.update_flags(w);
            w
        },
        OpCode::RotateRight => {
            let (w, c) = rot_right(m, cpu.carry);
            cpu.carry = c;
            cpu.update_flags(w);
            w
        },
        _ => m,
    }
}

/// The undocumented operations that modify the operand and then combine it with A.
#[verifier::spinoff_prover]
#[verifier::rlimit(30)]
fn operate_combined(op: &OpCode, cpu: &mut CPU, m: u8) -> (w: u8)
    requires
        matches!(*op, OpCode::DecCmpHack | OpCode::IncSubHack | OpCode::ShiftLeftOrHack | OpCode::RotLeftAndHack | OpCode::ShiftRightOrHack | OpCode::RotRightAddHack),
    ensures
        (*final(cpu), w) == operate_spec(*op, *old(cpu), m),
{
    match op {
        OpCode::DecCmpHack => {
            let w = m.wrapping_sub(1);
            let a = cpu.a;
            compare(cpu, a, w);
            w
        },
        OpCode::IncSubHack => {
            let w = m.wrapping_add(1);
            cpu_sub(cpu, w);
            w
        },
        OpCode::ShiftLeftOrHack => {
            let (w, c) = shift_left(m);
            cpu.carry = c;
            let v = cpu.a | w;
            set_a(cpu, v);
            w
        },
        OpCode::RotLeftAndHack => {
            let (w, c) = rot_left(m, cpu.carry);
            cpu.carry = c;
            let v = cpu.a & w;
            set_a(cpu, v);
            w
        },
        OpCode::ShiftRightOrHack => {
            let (w, c) = shift_right(m);
            cpu.carry = c;
            let v = cpu.a ^ w;
            set_a(cpu, v);
            w
        },
        OpCode::RotRightAddHack => {
            let (w, c) = rot_right(m, cpu.carry);
            cpu.carry = c;
            cpu_add(cpu, w);
            w
        },
        _ => m,
    }
}

/// Applies an operation that has no memory operand.
pub fn operate_register(op: &OpCode, cpu: &mut CPU)
    ensures
        *final(cpu) == register_op_spec(*op, *old(cpu)),
{
    match op {
        OpCode::Transfer(src, dst) => {
            let v = cpu.get_reg(src);
            cpu.set_reg(dst, v);
            match dst {
                Register::SP => {},
                _ => cpu.update_flags(v),
            }
        },
        OpCode::Inc(Some(r)) => {
            let v = cpu.get_reg(r).wrapping_add(1);
            cpu.set_reg(r, v);
            cpu.update_flags(v);
        },
        OpCode::Dec(Some(r)) => {
            let v = cpu.get_reg(r).wrapping_sub(1);
            cpu.set_reg(r, v);
            cpu.update_flags(v);
        },
        OpCode::SetFlag(f, b) => match f {
            Flag::Carry => cpu.carry = *b,
            Flag::Decimal => cpu.decimal = *b,
            Flag::Interrupt => cpu.interrupt = *b,
            Flag::Overflow => cpu.overflow = *b,
            _ => {},
        },
        OpCode::ShiftLeft | OpCode::ShiftRight | OpCode::RotateLeft | OpCode::RotateRight => {
            let a = cpu.a;
            let w = operate(op, cpu, a);
            cpu.a = w;
        },
        _ => {},
    }
}

} // verus!
