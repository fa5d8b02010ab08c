use vstd::prelude::*;

use crate::addr::word_of;
use crate::cpu::{STACK_BOT, CPU};
use crate::system::System;

verus! {

/// The stack pointer after a push: one lower, wrapping.
pub open spec fn sp_dec(sp: u8) -> u8 {
    ((sp + 255) % 256) as u8
}

/// The stack pointer before a pull: one higher, wrapping.
pub open spec fn sp_inc(sp: u8) -> u8 {
    ((sp + 1) % 256) as u8
}

/// The RAM offset of stack slot `sp`.
pub open spec fn slot(sp: u8) -> int {
    STACK_BOT + sp
}

/// Holds of the machine before and after pushing `v`: it lands at $0100 + SP, and SP
/// moves down by one.
pub open spec fn push_byte_post(s: &System, t: &System, v: u8) -> bool {
    &&& t.ram@ == s.ram@.update(slot(s.cpu.sp), v)
    &&& *t == (System { ram: t.ram, cpu: CPU { sp: sp_dec(s.cpu.sp), ..s.cpu }, ..*s })
}

/// Holds of the machine before and after a pull that returned `r`: SP moves up by one
/// and the byte there is read.
pub open spec fn pull_byte_post(s: &System, t: &System, r: u8) -> bool {
    &&& r == s.ram@[slot(sp_inc(s.cpu.sp))]
    &&& *t == (System { cpu: CPU { sp: sp_inc(s.cpu.sp), ..s.cpu }, ..*s })
}

/// Pushing a word: high byte first, so the high byte sits at the higher address.
pub open spec fn push_word_post(s: &System, t: &System, v: u16) -> bool {
    &&& t.ram@ == s.ram@.update(slot(s.cpu.sp), (v / 256) as u8).update(
        slot(sp_dec(s.cpu.sp)),
        (v % 256) as u8,
    )
    &&& *t == (System { ram: t.ram, cpu: CPU { sp: sp_dec(sp_dec(s.cpu.sp)), ..s.cpu }, ..*s })
}

/// Pulling a word: low byte first, then high byte.
pub open spec fn pull_word_post(s: &System, t: &System, r: u16) -> bool {
    &&& r == word_of(s.ram@[slot(sp_inc(sp_inc(s.cpu.sp)))], s.ram@[slot(sp_inc(s.cpu.sp))])
    &&& *t == (System { cpu: CPU { sp: sp_inc(sp_inc(s.cpu.sp)), ..s.cpu }, ..*s })
}

impl CPU {
    pub fn stack_push_byte(sys: &mut System, value: u8)
        requires
            old(sys).wf(),
        ensures
            final(sys).wf(),
            push_byte_post(old(sys), final(sys), value),
    {
        let addr = CPU::addr_stack(sys.cpu.sp);
        sys.ram.set(addr.0 as usize, value);
        sys.cpu.sp = sys.cpu.sp.wrapping_sub(1);
    }

    pub fn stack_push_word(sys: &mut System, value: u16)
        requires
            old(sys).wf(),
        ensures
            final(sys).wf(),
            push_word_post(old(sys), final(sys), value),
    {
        Self::stack_push_byte(sys, (value / 256) as u8);
        Self::stack_push_byte(sys, (value % 256) as u8);
    }

    pub fn stack_pull_byte(sys: &mut System) -> (r: u8)
        requires
            old(sys).wf(),
        ensures
            final(sys).wf(),
            pull_byte_post(old(sys), final(sys), r),
    {
        sys.cpu.sp = sys.cpu.sp.wrapping_add(1);
        let addr = CPU::addr_stack(sys.cpu.sp);
        sys.ram[addr.0 as usize]
    }

    pub fn stack_pull_word(sys: &mut System) -> (r: u16)
        requires
            old(sys).wf(),
        ensures
            final(sys).wf(),
            pull_word_post(old(sys), final(sys), r),
    {
        let lo = Self::stack_pull_byte(sys);
        let hi = Self::stack_pull_byte(sys);
        crate::addr::Addr::from_bytes(hi, lo).0
    }
}

/// A byte pushed and then pulled comes back, with the stack pointer where it was.
pub proof fn lemma_stack_byte_round_trip(s: &System, t: &System, u: &System, v: u8, r: u8)
    requires
        s.wf(),
        push_byte_post(s, t, v),
        pull_byte_post(t, u, r),
    ensures
        r == v,
        u.cpu == s.cpu,
{
}

/// A word pushed and then pulled comes back, with the stack pointer where it was.
pub proof fn lemma_stack_word_round_trip(s: &System, t: &System, u: &System, v: u16, r: u16)
    requires
        s.wf(),
        push_word_post(s, t, v),
        pull_word_post(t, u, r),
    ensures
        r == v,
        u.cpu == s.cpu,
{
    assert(slot(sp_dec(s.cpu.sp)) != slot(s.cpu.sp));
    assert(word_of((v / 256) as u8, (v % 256) as u8) == v);
}

} // verus!
