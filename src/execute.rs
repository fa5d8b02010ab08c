use vstd::prelude::*;

use crate::addr::{high_byte, low_byte, word_of, wrap16, Addr};
use crate::addressing::{
    default_cycles, default_cycles_spec, get_addr_ro, only_pc_moved, resolve_spec, with_pc,
};
use crate::bus::{peek_word, read_post, write_post, DMA_CYCLES};
use crate::cpu::{flag_value, reg_value, status_byte, with_status, AddressMode, Register, CPU};
use crate::error::EmuError;
use crate::opcode::{load_a, operate, operate_register, operate_spec, register_op_spec, OpCode};
use crate::stack::{push_byte_post, slot, sp_dec, sp_inc};
use crate::system::{System, CYCLE_LIMIT};

verus! {

/// Where the break instruction finds its handler.
pub const BREAK_VECTOR: u16 = 0xfffe;

/// Longest an instruction can take: seven cycles, plus an OAM-DMA.
pub const MAX_INSTRUCTION_CYCLES: u64 = 7 + DMA_CYCLES;

/// The byte a store operation writes.
pub open spec fn store_value(op: OpCode, c: CPU) -> u8 {
    match op {
        OpCode::Store(r) => reg_value(c, r),
        OpCode::StoreHack(r1, r2) => reg_value(c, r1) & reg_value(c, r2),
        _ => 0,
    }
}

/// Operations that read their operand from memory and change only the processor.
pub open spec fn reads_operand(op: OpCode) -> bool {
    matches!(op, OpCode::Load(_) | OpCode::LoadHack(_, _) | OpCode::And | OpCode::Or | OpCode::ExOr
        | OpCode::Add | OpCode::Sub | OpCode::Compare(_) | OpCode::Bit)
}

/// Operations that read their operand, change it, and write it back.
pub open spec fn modifies_operand(op: OpCode, am: AddressMode) -> bool {
    match op {
        OpCode::ShiftLeft | OpCode::ShiftRight | OpCode::RotateLeft | OpCode::RotateRight => !(
        am is Register),
        OpCode::Inc(None) | OpCode::Dec(None) => true,
        OpCode::DecCmpHack | OpCode::IncSubHack | OpCode::ShiftLeftOrHack | OpCode::RotLeftAndHack
        | OpCode::ShiftRightOrHack | OpCode::RotRightAddHack => true,
        _ => false,
    }
}

/// Operations that work on registers and flags alone.
pub open spec fn register_only(op: OpCode, am: AddressMode) -> bool {
    match op {
        OpCode::ShiftLeft | OpCode::ShiftRight | OpCode::RotateLeft | OpCode::RotateRight => am is Register,
        OpCode::Inc(Some(_)) | OpCode::Dec(Some(_)) | OpCode::Transfer(_, _) | OpCode::SetFlag(_, _) => true,
        OpCode::NoOp => am is Implied,
        _ => false,
    }
}

/// Read operations: the operand is read through the bus (with the read's side
/// effects), the processor is updated from it, and the mode's cycles are charged,
/// page-cross penalty included.
#[verifier::opaque]
pub open spec fn read_op_post(s: &System, t: &System, op: OpCode, am: AddressMode, r: Result<u64, EmuError>) -> bool {
    match resolve_spec(s, am) {
        Err(e) => r == Err::<u64, EmuError>(e) && only_pc_moved(s, t),
        Ok((pc, l)) => {
            let s1 = with_pc(s, pc);
            let cost = default_cycles_spec(am, l.crossed_page);
            exists|m: System, rv: Result<u8, EmuError>|
                #[trigger] read_post(&s1, &m, l.addr.0, rv) && match rv {
                    Err(e) => r == Err::<u64, EmuError>(e) && *t == m,
                    Ok(v) => r == Ok::<u64, EmuError>(cost) && *t == (System {
                        cpu: operate_spec(op, s1.cpu, v).0,
                        cycles: (s.cycles + cost) as u64,
                        ..m
                    }),
                }
        },
    }
}

/// Store operations: the value goes out through the bus; the mode's cycles are
/// charged as if a page had been crossed.
#[verifier::opaque]
pub open spec fn store_op_post(s: &System, t: &System, op: OpCode, am: AddressMode, r: Result<u64, EmuError>) -> bool {
    match resolve_spec(s, am) {
        Err(e) => r == Err::<u64, EmuError>(e) && only_pc_moved(s, t),
        Ok((pc, l)) => {
            let s1 = with_pc(s, pc);
            let cost = default_cycles_spec(am, true);
            exists|m: System, rw: Result<(), EmuError>|
                #[trigger] write_post(&s1, &m, l.addr.0, store_value(op, s.cpu), rw) && match rw {
                    Err(e) => r == Err::<u64, EmuError>(e) && *t == m,
                    Ok(_) => *t == (System { cycles: (m.cycles + cost) as u64, ..m }) && r == Ok::<
                        u64,
                        EmuError,
                    >((t.cycles - s.cycles) as u64),
                }
        },
    }
}

/// Read-modify-write operations: read the operand, write back the changed byte,
/// update the processor, and charge the mode's cycles plus two.
#[verifier::opaque]
pub open spec fn modify_op_post(s: &System, t: &System, op: OpCode, am: AddressMode, r: Result<u64, EmuError>) -> bool {
    match resolve_spec(s, am) {
        Err(e) => r == Err::<u64, EmuError>(e) && only_pc_moved(s, t),
        Ok((pc, l)) => {
            let s1 = with_pc(s, pc);
            let cost = (default_cycles_spec(am, true) + 2) as u64;
            exists|m1: System, rv: Result<u8, EmuError>|
                #[trigger] read_post(&s1, &m1, l.addr.0, rv) && match rv {
                    Err(e) => r == Err::<u64, EmuError>(e) && *t == m1,
                    Ok(v) => exists|m2: System, rw: Result<(), EmuError>|
                        #[trigger] write_post(&m1, &m2, l.addr.0, operate_spec(op, s1.cpu, v).1, rw)
                            && match rw {
                            Err(e) => r == Err::<u64, EmuError>(e) && *t == m2,
                            Ok(_) => *t == (System {
                                cpu: operate_spec(op, s1.cpu, v).0,
                                cycles: (m2.cycles + cost) as u64,
                                ..m2
                            }) && r == Ok::<u64, EmuError>((t.cycles - s.cycles) as u64),
                        },
                }
        },
    }
}

/// The machine after an instruction that takes `cost` cycles and leaves the processor
/// as `c`.
pub open spec fn stepped(s: &System, c: CPU, cost: u64) -> System {
    System { cpu: c, cycles: (s.cycles + cost) as u64, ..*s }
}

/// The word on the stack just above the stack pointer, low byte first.
pub open spec fn stack_word(s: &System, sp: u8) -> u16 {
    word_of(s.ram@[slot(sp_inc(sp_inc(sp)))], s.ram@[slot(sp_inc(sp))])
}

/// RAM after pushing the return address `pc` and then the status byte `status`.
pub open spec fn interrupt_ram(s: &System, pc: u16, status: u8) -> Seq<u8> {
    let sp = s.cpu.sp;
    s.ram@.update(slot(sp), high_byte(pc)).update(slot(sp_dec(sp)), low_byte(pc)).update(
        slot(sp_dec(sp_dec(sp))),
        status,
    )
}

/// Holds of the machine before and after entering an interrupt handler through
/// `vector`: PC and `status` pushed, PC loaded from the vector; `disable` also sets
/// the interrupt-disable flag. Nothing changes when the vector cannot be read.
pub open spec fn interrupt_post(s: &System, t: &System, vector: u16, status: u8, disable: bool, r: Result<(), EmuError>) -> bool {
    match peek_word(s, vector) {
        Err(e) => r == Err::<(), EmuError>(e) && *t == *s,
        Ok(handler) => {
            &&& r is Ok
            &&& t.ram@ == interrupt_ram(s, s.cpu.pc.0, status)
            &&& *t == (System {
                ram: t.ram,
                cpu: CPU {
                    pc: Addr(handler),
                    sp: sp_dec(sp_dec(sp_dec(s.cpu.sp))),
                    interrupt: s.cpu.interrupt || disable,
                    ..s.cpu
                },
                ..*s
            })
        },
    }
}

/// Jumps: PC takes the effective address; 3 cycles, or 5 through a pointer.
#[verifier::opaque]
pub open spec fn jump_post(s: &System, t: &System, am: AddressMode, r: Result<u64, EmuError>) -> bool {
    match resolve_spec(s, am) {
        Err(e) => r == Err::<u64, EmuError>(e) && only_pc_moved(s, t),
        Ok((_, l)) => {
            let cost: u64 = if am is Indirect { 5 } else { 3 };
            r == Ok::<u64, EmuError>(cost) && *t == stepped(s, CPU { pc: l.addr, ..s.cpu }, cost)
        },
    }
}

/// Jump to subroutine: the address of the operand's last byte is pushed, high byte
/// first, and PC takes the target; 6 cycles.
#[verifier::opaque]
pub open spec fn jsr_post(s: &System, t: &System, am: AddressMode, r: Result<u64, EmuError>) -> bool {
    let sp = s.cpu.sp;
    match resolve_spec(s, am) {
        Err(e) => r == Err::<u64, EmuError>(e) && only_pc_moved(s, t),
        Ok((pc, l)) => {
            let ret = wrap16(pc + 65535);
            &&& r == Ok::<u64, EmuError>(6)
            &&& t.ram@ == s.ram@.update(slot(sp), high_byte(ret)).update(slot(sp_dec(sp)), low_byte(ret))
            &&& *t == (System {
                ram: t.ram,
                ..stepped(s, CPU { pc: l.addr, sp: sp_dec(sp_dec(sp)), ..s.cpu }, 6)
            })
        },
    }
}

/// Branches: the displacement is read; when the flag has the wanted value, PC moves
/// by it from the next instruction (3 cycles, 4 when the target lies on another page
/// than the branch instruction itself), otherwise 2 cycles.
#[verifier::opaque]
pub open spec fn branch_post(s: &System, t: &System, f: crate::cpu::Flag, want: bool, r: Result<u64, EmuError>) -> bool {
    match crate::bus::peek_spec(s, s.cpu.pc.0) {
        Err(e) => r == Err::<u64, EmuError>(e) && *t == *s,
        Ok(b) => {
            let here = wrap16(s.cpu.pc.0 + 65535);
            let next = wrap16(s.cpu.pc.0 + 1);
            let target = wrap16(next + (b as i8) + 65536);
            if flag_value(s.cpu, f) == want {
                let cost: u64 = if high_byte(target) == high_byte(here) { 3 } else { 4 };
                r == Ok::<u64, EmuError>(cost) && *t == stepped(s, CPU { pc: Addr(target), ..s.cpu }, cost)
            } else {
                r == Ok::<u64, EmuError>(2) && *t == stepped(s, CPU { pc: Addr(next), ..s.cpu }, 2)
            }
        },
    }
}

/// A no-op with an operand: the operand is resolved, not read; the mode's cycles are
/// charged.
#[verifier::opaque]
pub open spec fn nop_post(s: &System, t: &System, am: AddressMode, r: Result<u64, EmuError>) -> bool {
    match resolve_spec(s, am) {
        Err(e) => r == Err::<u64, EmuError>(e) && only_pc_moved(s, t),
        Ok((pc, l)) => {
            let cost = default_cycles_spec(am, l.crossed_page);
            r == Ok::<u64, EmuError>(cost) && *t == stepped(s, CPU { pc: Addr(pc), ..s.cpu }, cost)
        },
    }
}

/// Returns, pushes, pulls and the software break.
#[verifier::opaque]
pub open spec fn stack_op_post(s: &System, t: &System, op: OpCode, r: Result<u64, EmuError>) -> bool {
    let sp = s.cpu.sp;
    match op {
        OpCode::ReturnSub => r == Ok::<u64, EmuError>(6) && *t == stepped(
            s,
            CPU { pc: Addr(wrap16(stack_word(s, sp) + 1)), sp: sp_inc(sp_inc(sp)), ..s.cpu },
            6,
        ),
        OpCode::ReturnInt => {
            let flags = s.ram@[slot(sp_inc(sp))];
            r == Ok::<u64, EmuError>(6) && *t == stepped(
                s,
                CPU {
                    pc: Addr(stack_word(s, sp_inc(sp))),
                    sp: sp_inc(sp_inc(sp_inc(sp))),
                    ..with_status(s.cpu, flags)
                },
                6,
            )
        },
        OpCode::PushAcc => r == Ok::<u64, EmuError>(3) && t.cycles == s.cycles + 3 && push_byte_post(
            s,
            &System { cycles: s.cycles, ..*t },
            s.cpu.a,
        ),
        OpCode::PushFlags => r == Ok::<u64, EmuError>(3) && t.cycles == s.cycles + 3
            && push_byte_post(s, &System { cycles: s.cycles, ..*t }, status_byte(s.cpu) | 0x10),
        OpCode::PullAcc => r == Ok::<u64, EmuError>(4) && *t == stepped(
            s,
            load_a(CPU { sp: sp_inc(sp), ..s.cpu }, s.ram@[slot(sp_inc(sp))]),
            4,
        ),
        OpCode::PullFlags => r == Ok::<u64, EmuError>(4) && *t == stepped(
            s,
            with_status(CPU { sp: sp_inc(sp), ..s.cpu }, s.ram@[slot(sp_inc(sp))]),
            4,
        ),
        OpCode::Break => match peek_word(s, BREAK_VECTOR) {
            Err(e) => r == Err::<u64, EmuError>(e) && *t == *s,
            Ok(_) => r == Ok::<u64, EmuError>(7) && t.cycles == s.cycles + 7 && interrupt_post(
                s,
                &System { cycles: s.cycles, ..*t },
                BREAK_VECTOR,
                status_byte(s.cpu) | 0x10,
                true,
                Ok(()),
            ),
        },
        _ => false,
    }
}

/// Control-flow and stack operations.
pub open spec fn control_op_post(s: &System, t: &System, op: OpCode, am: AddressMode, r: Result<u64, EmuError>) -> bool {
    match op {
        OpCode::Jump => jump_post(s, t, am, r),
        OpCode::JumpSub => jsr_post(s, t, am, r),
        OpCode::BranchIf(f, want) => branch_post(s, t, f, want, r),
        OpCode::NoOp => nop_post(s, t, am, r),
        _ => stack_op_post(s, t, op, r),
    }
}

/// What executing `op` with mode `am` does, the opcode byte already fetched.
pub open spec fn execute_post(s: &System, t: &System, op: OpCode, am: AddressMode, r: Result<u64, EmuError>) -> bool {
    if reads_operand(op) {
        read_op_post(s, t, op, am, r)
    } else if op is Store || op is StoreHack {
        store_op_post(s, t, op, am, r)
    } else if modifies_operand(op, am) {
        modify_op_post(s, t, op, am, r)
    } else if register_only(op, am) {
        r == Ok::<u64, EmuError>(2) && *t == stepped(s, register_op_spec(op, s.cpu), 2)
    } else {
        control_op_post(s, t, op, am, r)
    }
}

/// The handler address stored at `vector`, read without side effects.
fn vector_at(sys: &System, vector: u16) -> (r: Result<Addr, EmuError>)
    requires
        sys.wf(),
    ensures
        match peek_word(sys, vector) {
            Ok(w) => r == Ok::<Addr, EmuError>(Addr(w)),
            Err(e) => r == Err::<Addr, EmuError>(e),
        },
{
    let lo = match sys.peek_byte(Addr(vector)) {
        Ok(b) => b,
        Err(e) => return Err(e),
    };
    let hi = match sys.peek_byte(Addr(vector).offset(1)) {
        Ok(b) => b,
        Err(e) => return Err(e),
    };
    Ok(Addr::from_bytes(hi, lo))
}

/// Pushes PC and `status`, then jumps through `vector`; `disable` also sets the
/// interrupt-disable flag.
pub fn enter_interrupt(sys: &mut System, vector: u16, status: u8, disable: bool) -> (r: Result<(), EmuError>)
    requires
        old(sys).wf(),
    ensures
        final(sys).wf(),
        interrupt_post(old(sys), final(sys), vector, status, disable, r),
{
    let handler = match vector_at(sys, vector) {
        Ok(h) => h,
        Err(e) => return Err(e),
    };
    let pc = sys.cpu.pc.0;
    CPU::stack_push_word(sys, pc);
    CPU::stack_push_byte(sys, status);
    sys.cpu.pc = handler;
    if disable {
        sys.cpu.interrupt = true;
    }
    Ok(())
}

fn exec_read(sys: &mut System, op: &OpCode, am: &AddressMode) -> (r: Result<u64, EmuError>)
    requires
        old(sys).wf(),
        old(sys).cycles < CYCLE_LIMIT,
        reads_operand(*op),
    ensures
        final(sys).wf(),
        read_op_post(old(sys), final(sys), *op, *am, r),
        r is Ok ==> final(sys).cycles == old(sys).cycles + r->Ok_0 && r->Ok_0 <= MAX_INSTRUCTION_CYCLES
            && (r->Ok_0 >= 2 || *am is Register),
        final(sys).ppu.scan_row == old(sys).ppu.scan_row && final(sys).ppu.scan_line == old(
            sys,
        ).ppu.scan_line,
        r is Err ==> final(sys).cycles == old(sys).cycles,
{
    reveal(read_op_post);
    let l = match get_addr_ro(sys, am) {
        Ok(l) => l,
        Err(e) => return Err(e),
    };
    let ghost s1 = *sys;
    let rv = sys.read_byte(l.addr);
    let ghost m = *sys;
    assert(read_post(&s1, &m, l.addr.0, rv));
    match rv {
        Err(e) => Err(e),
        Ok(v) => {
            let cost = default_cycles(am, l.crossed_page);
            operate(op, &mut sys.cpu, v);
            sys.cycles = sys.cycles + cost;
            Ok(cost)
        },
    }
}

#[verifier::spinoff_prover]
#[verifier::rlimit(50)]
fn exec_store(sys: &mut System, op: &OpCode, am: &AddressMode) -> (r: Result<u64, EmuError>)
    requires
        old(sys).wf(),
        old(sys).cycles < CYCLE_LIMIT,
        *op is Store || *op is StoreHack,
    ensures
        final(sys).wf(),
        store_op_post(old(sys), final(sys), *op, *am, r),
        r is Ok ==> final(sys).cycles == old(sys).cycles + r->Ok_0 && r->Ok_0 <= MAX_INSTRUCTION_CYCLES
            && (r->Ok_0 >= 2 || *am is Register),
        final(sys).ppu.scan_row == old(sys).ppu.scan_row && final(sys).ppu.scan_line == old(
            sys,
        ).ppu.scan_line,
        r is Err ==> final(sys).cycles == old(sys).cycles,
{
    reveal(store_op_post);
    let value = match op {
        OpCode::StoreHack(r1, r2) => sys.cpu.get_reg(r1) & sys.cpu.get_reg(r2),
        OpCode::Store(reg) => sys.cpu.get_reg(reg),
        _ => 0,
    };
    let l = match get_addr_ro(sys, am) {
        Ok(l) => l,
        Err(e) => return Err(e),
    };
    let ghost s1 = *sys;
    let start = sys.cycles;
    let rw = sys.write_byte(l.addr, value);
    let ghost m = *sys;
    assert(value == store_value(*op, old(sys).cpu));
    assert(write_post(&s1, &m, l.addr.0, store_value(*op, old(sys).cpu), rw));
    match rw {
        Err(e) => Err(e),
        Ok(()) => {
            sys.cycles = sys.cycles + default_cycles(am, true);
            Ok(sys.cycles - start)
        },
    }
}

fn exec_modify(sys: &mut System, op: &OpCode, am: &AddressMode) -> (r: Result<u64, EmuError>)
    requires
        old(sys).wf(),
        old(sys).cycles < CYCLE_LIMIT,
        modifies_operand(*op, *am),
    ensures
        final(sys).wf(),
        modify_op_post(old(sys), final(sys), *op, *am, r),
        r is Ok ==> final(sys).cycles == old(sys).cycles + r->Ok_0 && r->Ok_0 <= MAX_INSTRUCTION_CYCLES
            && (r->Ok_0 >= 2 || *am is Register),
        final(sys).ppu.scan_row == old(sys).ppu.scan_row && final(sys).ppu.scan_line == old(
            sys,
        ).ppu.scan_line,
        r is Err ==> final(sys).cycles == old(sys).cycles,
{
    reveal(modify_op_post);
    let l = match get_addr_ro(sys, am) {
        Ok(l) => l,
        Err(e) => return Err(e),
    };
    let ghost s1 = *sys;
    let start = sys.cycles;
    let rv = sys.read_byte(l.addr);
    let ghost m1 = *sys;
    assert(read_post(&s1, &m1, l.addr.0, rv));
    match rv {
        Err(e) => Err(e),
        Ok(v) => {
            let mut c = sys.cpu;
            let w = operate(op, &mut c, v);
            let rw = sys.write_byte(l.addr, w);
            let ghost m2 = *sys;
            assert(write_post(&m1, &m2, l.addr.0, operate_spec(*op, s1.cpu, v).1, rw));
            match rw {
                Err(e) => Err(e),
                Ok(()) => {
                    sys.cpu = c;
                    sys.cycles = sys.cycles + default_cycles(am, true) + 2;
                    Ok(sys.cycles - start)
                },
            }
        },
    }
}

fn exec_jump(sys: &mut System, am: &AddressMode) -> (r: Result<u64, EmuError>)
    requires
        old(sys).wf(),
        old(sys).cycles < CYCLE_LIMIT,
    ensures
        final(sys).wf(),
        jump_post(old(sys), final(sys), *am, r),
        r is Ok ==> final(sys).cycles == old(sys).cycles + r->Ok_0 && r->Ok_0 <= MAX_INSTRUCTION_CYCLES
            && (r->Ok_0 >= 2 || *am is Register),
        final(sys).ppu.scan_row == old(sys).ppu.scan_row && final(sys).ppu.scan_line == old(
            sys,
        ).ppu.scan_line,
        r is Err ==> final(sys).cycles == old(sys).cycles,
{
    reveal(jump_post);
    let l = match get_addr_ro(sys, am) {
        Ok(l) => l,
        Err(e) => return Err(e),
    };
    let cost: u64 = match am {
        AddressMode::Indirect(_) => 5,
        _ => 3,
    };
    sys.cpu.pc = l.addr;
    sys.cycles = sys.cycles + cost;
    Ok(cost)
}

/// Pushes the return address `ret`, high byte first, and jumps to `target`.
fn call_subroutine(sys: &mut System, ret: u16, target: Addr)
    requires
        old(sys).wf(),
    ensures
        final(sys).wf(),
        final(sys).ram@ == old(sys).ram@.update(slot(old(sys).cpu.sp), high_byte(ret)).update(
            slot(sp_dec(old(sys).cpu.sp)),
            low_byte(ret),
        ),
        *final(sys) == (System {
            ram: final(sys).ram,
            cpu: CPU { pc: target, sp: sp_dec(sp_dec(old(sys).cpu.sp)), ..old(sys).cpu },
            ..*old(sys)
        }),
{
    CPU::stack_push_word(sys, ret);
    sys.cpu.pc = target;
}

#[verifier::spinoff_prover]
#[verifier::rlimit(100)]
fn exec_jsr(sys: &mut System, am: &AddressMode) -> (r: Result<u64, EmuError>)
    requires
        old(sys).wf(),
        old(sys).cycles < CYCLE_LIMIT,
    ensures
        final(sys).wf(),
        jsr_post(old(sys), final(sys), *am, r),
        r is Ok ==> final(sys).cycles == old(sys).cycles + r->Ok_0 && r->Ok_0 <= MAX_INSTRUCTION_CYCLES
            && (r->Ok_0 >= 2 || *am is Register),
        final(sys).ppu.scan_row == old(sys).ppu.scan_row && final(sys).ppu.scan_line == old(
            sys,
        ).ppu.scan_line,
        r is Err ==> final(sys).cycles == old(sys).cycles,
{
    reveal(jsr_post);
    let ghost s0 = *old(sys);
    let l = match get_addr_ro(sys, am) {
        Ok(l) => l,
        Err(e) => return Err(e),
    };
    let ghost s1 = *sys;
    let pc = sys.cpu.pc.0;
    let ret: u16 = if pc == 0 {
        0xffff
    } else {
        pc - 1
    };
    proof {
        assert(s1 == with_pc(&s0, pc));
        assert(ret == wrap16(pc + 65535));
        assert(s1.ram == s0.ram && s1.cpu.sp == s0.cpu.sp);
    }
    call_subroutine(sys, ret, l.addr);
    sys.cycles = sys.cycles + 6;
    proof {
        let sp = s0.cpu.sp;
        assert(sys.ram@ == s0.ram@.update(slot(sp), high_byte(ret)).update(slot(sp_dec(sp)), low_byte(ret)));
        assert(*sys == (System {
            ram: sys.ram,
            ..stepped(&s0, CPU { pc: l.addr, sp: sp_dec(sp_dec(sp)), ..s0.cpu }, 6)
        }));
    }
    Ok(6)
}

fn exec_nop(sys: &mut System, am: &AddressMode) -> (r: Result<u64, EmuError>)
    requires
        old(sys).wf(),
        old(sys).cycles < CYCLE_LIMIT,
    ensures
        final(sys).wf(),
        nop_post(old(sys), final(sys), *am, r),
        r is Ok ==> final(sys).cycles == old(sys).cycles + r->Ok_0 && r->Ok_0 <= MAX_INSTRUCTION_CYCLES
            && (r->Ok_0 >= 2 || *am is Register),
        final(sys).ppu.scan_row == old(sys).ppu.scan_row && final(sys).ppu.scan_line == old(
            sys,
        ).ppu.scan_line,
        r is Err ==> final(sys).cycles == old(sys).cycles,
{
    reveal(nop_post);
    let l = match get_addr_ro(sys, am) {
        Ok(l) => l,
        Err(e) => return Err(e),
    };
    let cost = default_cycles(am, l.crossed_page);
    sys.cycles = sys.cycles + cost;
    Ok(cost)
}

fn exec_branch(sys: &mut System, flag: crate::cpu::Flag, want: bool) -> (r: Result<u64, EmuError>)
    requires
        old(sys).wf(),
        old(sys).cycles < CYCLE_LIMIT,
    ensures
        final(sys).wf(),
        branch_post(old(sys), final(sys), flag, want, r),
        r is Ok ==> final(sys).cycles == old(sys).cycles + r->Ok_0 && 2 <= r->Ok_0 <= MAX_INSTRUCTION_CYCLES,
        final(sys).ppu.scan_row == old(sys).ppu.scan_row && final(sys).ppu.scan_line == old(
            sys,
        ).ppu.scan_line,
        r is Err ==> final(sys).cycles == old(sys).cycles,
{
    reveal(branch_post);
    let here = sys.cpu.pc.displace(-1);
    let b = match crate::addressing::shift_pc(sys) {
        Ok(b) => b,
        Err(e) => return Err(e),
    };
    if sys.cpu.get_flag(&flag) == want {
        let next = sys.cpu.pc;
        let target = next.displace(b as i8);
        let cost: u64 = if target.same_page_as(here) {
            3
        } else {
            4
        };
        sys.cpu.pc = target;
        sys.cycles = sys.cycles + cost;
        Ok(cost)
    } else {
        sys.cycles = sys.cycles + 2;
        Ok(2)
    }
}

fn exec_stack(sys: &mut System, op: &OpCode) -> (r: Result<u64, EmuError>)
    requires
        old(sys).wf(),
        old(sys).cycles < CYCLE_LIMIT,
        *op is ReturnSub || *op is ReturnInt || *op is PushAcc || *op is PushFlags || *op is PullAcc
            || *op is PullFlags || *op is Break,
    ensures
        final(sys).wf(),
        stack_op_post(old(sys), final(sys), *op, r),
        r is Ok ==> final(sys).cycles == old(sys).cycles + r->Ok_0 && 2 <= r->Ok_0 <= MAX_INSTRUCTION_CYCLES,
        final(sys).ppu.scan_row == old(sys).ppu.scan_row && final(sys).ppu.scan_line == old(
            sys,
        ).ppu.scan_line,
        r is Err ==> final(sys).cycles == old(sys).cycles,
{
    reveal(stack_op_post);
    match op {
        OpCode::ReturnSub => {
            let w = CPU::stack_pull_word(sys);
            sys.cpu.pc = Addr(w).offset(1);
            sys.cycles = sys.cycles + 6;
            Ok(6)
        },
        OpCode::ReturnInt => {
            let flags = CPU::stack_pull_byte(sys);
            sys.cpu.set_status(flags);
            let w = CPU::stack_pull_word(sys);
            sys.cpu.pc = Addr(w);
            sys.cycles = sys.cycles + 6;
            Ok(6)
        },
        OpCode::PushAcc => {
            let a = sys.cpu.a;
            CPU::stack_push_byte(sys, a);
            sys.cycles = sys.cycles + 3;
            Ok(3)
        },
        OpCode::PushFlags => {
            let flags = sys.cpu.status() | 0x10;
            CPU::stack_push_byte(sys, flags);
            sys.cycles = sys.cycles + 3;
            Ok(3)
        },
        OpCode::PullAcc => {
            let v = CPU::stack_pull_byte(sys);
            sys.cpu.a = v;
            sys.cpu.update_flags(v);
            sys.cycles = sys.cycles + 4;
            Ok(4)
        },
        OpCode::PullFlags => {
            let v = CPU::stack_pull_byte(sys);
            sys.cpu.set_status(v);
            sys.cycles = sys.cycles + 4;
            Ok(4)
        },
        _ => {
            let flags = sys.cpu.status() | 0x10;
            match enter_interrupt(sys, BREAK_VECTOR, flags, true) {
                Ok(()) => {},
                Err(e) => return Err(e),
            }
            sys.cycles = sys.cycles + 7;
            Ok(7)
        },
    }
}

impl OpCode {
    /// Executes this operation with addressing mode `am`, the opcode byte already
    /// fetched; returns the cycles it took, OAM-DMA included.
    pub fn execute(&self, sys: &mut System, am: &AddressMode) -> (r: Result<u64, EmuError>)
        requires
            old(sys).wf(),
            old(sys).cycles < CYCLE_LIMIT,
        ensures
            final(sys).wf(),
            execute_post(old(sys), final(sys), *self, *am, r),
        r is Ok ==> final(sys).cycles == old(sys).cycles + r->Ok_0 && r->Ok_0 <= MAX_INSTRUCTION_CYCLES
            && (r->Ok_0 >= 2 || *am is Register),
        final(sys).ppu.scan_row == old(sys).ppu.scan_row && final(sys).ppu.scan_line == old(
            sys,
        ).ppu.scan_line,
        r is Err ==> final(sys).cycles == old(sys).cycles,
    {
        if reads_operand_exec(self) {
            exec_read(sys, self, am)
        } else if matches!(self, OpCode::Store(_) | OpCode::StoreHack(_, _)) {
            exec_store(sys, self, am)
        } else if modifies_operand_exec(self, am) {
            exec_modify(sys, self, am)
        } else if register_only_exec(self, am) {
            operate_register(self, &mut sys.cpu);
            sys.cycles = sys.cycles + 2;
            Ok(2)
        } else {
            match self {
                OpCode::Jump => exec_jump(sys, am),
                OpCode::JumpSub => exec_jsr(sys, am),
                OpCode::BranchIf(f, want) => exec_branch(sys, *f, *want),
                OpCode::NoOp => exec_nop(sys, am),
                _ => exec_stack(sys, self),
            }
        }
    }
}

fn reads_operand_exec(op: &OpCode) -> (r: bool)
    ensures
        r == reads_operand(*op),
{
    matches!(op, OpCode::Load(_) | OpCode::LoadHack(_, _) | OpCode::And | OpCode::Or | OpCode::ExOr
        | OpCode::Add | OpCode::Sub | OpCode::Compare(_) | OpCode::Bit)
}

fn modifies_operand_exec(op: &OpCode, am: &AddressMode) -> (r: bool)
    ensures
        r == modifies_operand(*op, *am),
{
    match op {
        OpCode::ShiftLeft | OpCode::ShiftRight | OpCode::RotateLeft | OpCode::RotateRight => !matches!(am, AddressMode::Register(_)),
        OpCode::Inc(None) | OpCode::Dec(None) => true,
        OpCode::DecCmpHack | OpCode::IncSubHack | OpCode::ShiftLeftOrHack | OpCode::RotLeftAndHack
        | OpCode::ShiftRightOrHack | OpCode::RotRightAddHack => true,
        _ => false,
    }
}

fn register_only_exec(op: &OpCode, am: &AddressMode) -> (r: bool)
    ensures
        r == register_only(*op, *am),
{
    match op {
        OpCode::ShiftLeft | OpCode::ShiftRight | OpCode::RotateLeft | OpCode::RotateRight => matches!(am, AddressMode::Register(_)),
        OpCode::Inc(Some(_)) | OpCode::Dec(Some(_)) | OpCode::Transfer(_, _) | OpCode::SetFlag(_, _) => true,
        OpCode::NoOp => matches!(am, AddressMode::Implied),
        _ => false,
    }
}

/// PLP restores the flags from the pulled byte with bit 5 set and the break bit
/// dropped, moves SP up by one, and takes 4 cycles; A, X, Y and PC stay.
pub proof fn lemma_pull_flags(s: &System, t: &System, r: Result<u64, EmuError>)
    requires
        s.wf(),
        execute_post(s, t, OpCode::PullFlags, AddressMode::Implied, r),
    ensures
        r == Ok::<u64, EmuError>(4),
        crate::cpu::status_byte(t.cpu) == (s.ram@[slot(sp_inc(s.cpu.sp))] | 0x20) & 0xef,
        t.cpu.sp == sp_inc(s.cpu.sp),
        t.cpu.a == s.cpu.a && t.cpu.x == s.cpu.x && t.cpu.y == s.cpu.y && t.cpu.pc == s.cpu.pc,
{
    reveal(stack_op_post);
    let b = s.ram@[slot(sp_inc(s.cpu.sp))];
    crate::cpu::lemma_status_round_trip(CPU { sp: sp_inc(s.cpu.sp), ..s.cpu }, b);
}

} // verus!
