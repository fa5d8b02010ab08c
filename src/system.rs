use vstd::prelude::*;

use crate::addr::{wrap16, Addr};
use crate::addressing::with_pc;
use crate::apu::APU;
use crate::bus::{peek_spec, peek_word};
use crate::cart::{cart_built, cart_error, cart_ok, Cart};
use crate::cpu::{status_byte, AddressMode, CPU};
use crate::error::EmuError;
use crate::execute::{enter_interrupt, execute_post, interrupt_ram, MAX_INSTRUCTION_CYCLES};
use crate::stack::sp_dec;
use crate::execution_state::ExecutionState;
use crate::mappers::{Mapper, Mirroring};
use crate::opcode_map::{decode_spec, lemma_register_mode_ops, load};
use crate::options::Options;
use crate::ppu::{self, dot_index, tick, DOTS_PER_FRAME, PPU, VBLANK_ROW};

verus! {

/// Bytes of internal RAM.
pub const RAM_SIZE: usize = 2048;

/// CPU cycles counted at power-up.
pub const START_CYCLES: u64 = 7;

/// The cycle counter's working bound: one instruction never runs past twice this.
pub const CYCLE_LIMIT: u64 = 0x4000_0000_0000_0000;

/// Where the reset handler's address is stored.
pub const RESET_VECTOR: u16 = 0xfffc;

/// Where the NMI handler's address is stored.
pub const NMI_VECTOR: u16 = 0xfffa;

/// The beam's position within the frame.
pub open spec fn beam(s: &System) -> int {
    dot_index(s.ppu.scan_row, s.ppu.scan_line)
}

/// Dots from position `d` until the beam next enters row 241; a whole frame when it
/// is there already.
pub open spec fn dots_to_vblank(d: int) -> int {
    let target = VBLANK_ROW as int * 341;
    if d < target {
        target - d
    } else {
        DOTS_PER_FRAME - d + target
    }
}

/// The beam is `k` dots on from `d`, within one frame.
pub open spec fn beam_after(d: int, k: int) -> int {
    (d + k) % (DOTS_PER_FRAME as int)
}

/// The byte a trace shows at `a`: what the bus holds there without side effects, or
/// 0 where nothing answers.
pub open spec fn trace_byte(s: &System, a: u16) -> u8 {
    match peek_spec(s, a) {
        Ok(b) => b,
        Err(_) => 0,
    }
}

/// `st` is the trace of the instruction at PC of machine `s`, decoded with mode `am`.
pub open spec fn is_trace(st: &ExecutionState, s: &System, am: AddressMode) -> bool {
    &&& st.cpu == s.cpu
    &&& st.am == am
    &&& st.pc_bytes@ == Seq::new(
        (am.bytes_spec() + 1) as nat,
        |i: int| trace_byte(s, wrap16(s.cpu.pc.0 + i)),
    )
    &&& st.ppu == (s.ppu.scan_row, s.ppu.scan_line)
    &&& st.cycles == s.cycles
}

/// Holds of the machine before (`s`) and after (`t`) recording the trace of the
/// instruction at PC of `src` (mode `am`) in the history ring: appended while the
/// ring is not full, otherwise written over the oldest entry.
pub open spec fn record_post(s: &System, t: &System, src: &System, am: AddressMode) -> bool {
    let cap = s.opts.history_len;
    let h = s.history@;
    let n = h.len();
    &&& *t == (System { history: t.history, history_pos: t.history_pos, ..*s })
    &&& if cap == 0 {
        t.history == s.history && t.history_pos == s.history_pos
    } else if n < cap {
        &&& t.history@.len() == n + 1
        &&& t.history@.subrange(0, n as int) == h
        &&& is_trace(&t.history@[n as int], src, am)
        &&& t.history_pos == 0
    } else {
        &&& t.history@.len() == n
        &&& t.history_pos == (s.history_pos + 1) % (n as int)
        &&& is_trace(&t.history@[s.history_pos as int], src, am)
        &&& forall|j: int| 0 <= j < n && j != s.history_pos ==> #[trigger] t.history@[j] == h[j]
    }
}

/// Holds of the machine before and after taking a pending NMI: PC (high byte first)
/// and the status byte are pushed, PC is loaded from $FFFA, and the pending flag
/// is cleared. Without a pending NMI, or when the vector cannot be read, nothing
/// changes.
pub open spec fn nmi_post(s: &System, t: &System, r: Result<(), EmuError>) -> bool {
    if !s.nmi {
        r is Ok && *t == *s
    } else {
        match peek_word(s, NMI_VECTOR) {
            Err(e) => r == Err::<(), EmuError>(e) && *t == *s,
            Ok(h) => {
                &&& r is Ok
                &&& t.ram@ == interrupt_ram(s, s.cpu.pc.0, status_byte(s.cpu))
                &&& *t == (System {
                    ram: t.ram,
                    cpu: CPU {
                        pc: Addr(h),
                        sp: sp_dec(sp_dec(sp_dec(s.cpu.sp))),
                        ..s.cpu
                    },
                    nmi: false,
                    ..*s
                })
            },
        }
    }
}

/// Holds of the machine before and after one instruction step that returned `r`:
/// a pending NMI is taken, the opcode at PC is fetched and decoded, the trace is
/// recorded, and the instruction executes. The first stage that fails gives the
/// error, and the machine is as that stage left it.
pub open spec fn step_post(s: &System, t: &System, r: Result<(ExecutionState, u64), EmuError>) -> bool {
    exists|s1: System, rn: Result<(), EmuError>|
        #[trigger] nmi_post(s, &s1, rn) && match rn {
            Err(e) => r == Err::<(ExecutionState, u64), EmuError>(e) && *t == s1,
            Ok(_) => {
                let pc = s1.cpu.pc.0;
                match peek_spec(&s1, pc) {
                    Err(e) => r == Err::<(ExecutionState, u64), EmuError>(e) && *t == s1,
                    Ok(b) => match decode_spec(b) {
                        None => r == Err::<(ExecutionState, u64), EmuError>(
                            EmuError::UnknownOpcode { pc, opcode: b },
                        ) && *t == with_pc(&s1, wrap16(pc + 1)),
                        Some((op, am)) => exists|s3: System|
                            #[trigger] record_post(&with_pc(&s1, wrap16(pc + 1)), &s3, &s1, am)
                                && exists|re: Result<u64, EmuError>|
                                #[trigger] execute_post(&s3, t, op, am, re) && match re {
                                    Err(e) => r == Err::<(ExecutionState, u64), EmuError>(e),
                                    Ok(c) => match r {
                                        Ok((st, c2)) => c2 == c && is_trace(&st, &s1, am),
                                        Err(_) => false,
                                    },
                                },
                    },
                }
            },
        }
}

/// Holds of the machine before and after running `c` cycles' worth of PPU dots:
/// exactly 3c dots, nothing but the PPU (and a raised NMI) changing.
pub open spec fn ppu_run_post(m: &System, t: &System, c: u64) -> bool {
    &&& t.cycles == m.cycles
    &&& t.cpu == m.cpu
    &&& t.ram == m.ram
    &&& t.history == m.history
    &&& t.history_pos == m.history_pos
    &&& t.cart == m.cart
    &&& t.oam == m.oam
    &&& t.ppu.dots == (m.ppu.dots + 3 * c) % 0x1_0000_0000_0000_0000
    &&& beam(t) == beam_after(beam(m), 3 * c)
}

/// Holds of the machine before and after `run_instruction` returned `r`: one step,
/// then 3 dots for each of its cycles, all before anything else is fetched.
pub open spec fn instruction_post(s: &System, t: &System, r: Result<(ExecutionState, bool), EmuError>) -> bool {
    exists|m: System, rs: Result<(ExecutionState, u64), EmuError>|
        #[trigger] step_post(s, &m, rs) && match rs {
            Err(e) => r == Err::<(ExecutionState, bool), EmuError>(e) && *t == m,
            Ok((st, c)) => ppu_run_post(&m, t, c) && r == Ok::<(ExecutionState, bool), EmuError>(
                (st, m.ppu.scan_row < VBLANK_ROW && t.ppu.scan_row >= VBLANK_ROW),
            ),
        }
}

/// An instruction result that did not end the frame.
pub open spec fn unfinished(x: Result<(ExecutionState, bool), EmuError>) -> bool {
    match x {
        Ok((_, done)) => !done,
        Err(_) => false,
    }
}

/// `run_cycle` as a run of instructions: `states[i]` to `states[i + 1]` is one
/// `run_instruction` with result `results[i]`, each begun below the cycle bound.
/// All but the last leave the frame unfinished. The call returns the trace of the
/// instruction that finished it, the error of the instruction that failed, or
/// `ClockLimit` when the cycle counter reached its bound first.
pub open spec fn frame_run(
    s: &System,
    t: &System,
    states: Seq<System>,
    results: Seq<Result<(ExecutionState, bool), EmuError>>,
    r: Result<ExecutionState, EmuError>,
) -> bool {
    let n = results.len() as int;
    &&& states.len() == n + 1
    &&& states[0] == *s
    &&& states[n] == *t
    &&& forall|i: int| 0 <= i < n ==> (#[trigger] states[i]).cycles < CYCLE_LIMIT
    &&& forall|i: int| 0 <= i < n ==> #[trigger] instruction_post(&states[i], &states[i + 1], results[i])
    &&& forall|i: int| 0 <= i < n - 1 ==> unfinished(#[trigger] results[i])
    &&& match r {
        Ok(st) => n > 0 && results[n - 1] == Ok::<(ExecutionState, bool), EmuError>((st, true)),
        Err(e) => (n > 0 && results[n - 1] == Err::<(ExecutionState, bool), EmuError>(e)) || (e
            == EmuError::ClockLimit && t.cycles >= CYCLE_LIMIT && (n > 0 ==> unfinished(
            results[n - 1],
        ))),
    }
}

/// The status byte an NMI pushes has the break bit clear and bit 5 set.
pub proof fn lemma_nmi_status_bits(c: CPU)
    requires
        !c.soft_break,
    ensures
        status_byte(c) & 0x10 == 0,
        status_byte(c) & 0x20 == 0x20,
{
    let (b0, b1, b2, b3, b6, b7) = (c.carry, c.zero, c.interrupt, c.decimal, c.overflow, c.sign);
    let v = status_byte(c);
    assert(v & 0x10 == 0 && v & 0x20 == 0x20) by (bit_vector)
        requires
            v == (if b0 { 1u8 } else { 0u8 }) | (if b1 { 2u8 } else { 0u8 }) | (if b2 { 4u8 } else {
                0u8
            }) | (if b3 { 8u8 } else { 0u8 }) | 0u8 | 32u8 | (if b6 { 64u8 } else { 0u8 }) | (if b7 {
                128u8
            } else {
                0u8
            }),
    ;
}

/// The whole machine: CPU, PPU, I/O chip, RAM, sprite memory and cartridge.
pub struct System {
    pub ram: Vec<u8>,
    pub ppu: PPU,
    pub apu: APU,
    pub cpu: CPU,
    pub cart: Option<Cart>,
    pub cycles: u64,
    pub oam: Vec<u8>,
    pub opts: Options,
    pub nmi: bool,
    pub history: Vec<ExecutionState>,
    pub history_pos: usize,
}

impl System {
    pub open spec fn wf(&self) -> bool {
        &&& self.ram@.len() == RAM_SIZE
        &&& self.oam@.len() == ppu::OAM_SIZE
        &&& self.ppu.wf()
        &&& self.apu.wf()
        &&& (self.cart is Some ==> self.cart->0.wf())
        &&& !self.cpu.soft_break
        &&& self.history@.len() <= self.opts.history_len
        &&& (self.history@.len() > 0 ==> self.history_pos < self.history@.len())
    }

    /// A machine at power-up with no cartridge.
    pub fn new(opts: Options) -> (r: Self)
        ensures
            r.wf(),
            r.ram@ == Seq::new(RAM_SIZE as nat, |i: int| 0u8),
            r.oam@ == Seq::new(ppu::OAM_SIZE as nat, |i: int| 0u8),
            r.cpu == crate::cpu::power_up_cpu(),
            r.cart is None,
            r.cycles == START_CYCLES,
            r.opts == opts,
            !r.nmi,
            r.history@.len() == 0,
            r.ppu.scan_row == 0 && r.ppu.scan_line == 21,
    {
        let ram = vec![0u8; RAM_SIZE];
        let oam = vec![0u8; ppu::OAM_SIZE];
        assert(ram@ =~= Seq::new(RAM_SIZE as nat, |i: int| 0u8));
        assert(oam@ =~= Seq::new(ppu::OAM_SIZE as nat, |i: int| 0u8));
        System {
            ram,
            ppu: PPU::init(),
            apu: APU::init(),
            cpu: CPU::init(),
            cart: None,
            cycles: START_CYCLES,
            oam,
            opts,
            nmi: false,
            history: Vec::new(),
            history_pos: 0,
        }
    }

    pub fn has_cartridge(&self) -> (r: bool)
        ensures
            r == self.cart is Some,
    {
        self.cart.is_some()
    }

    /// Loads a cartridge image. On failure the machine is left as it was.
    pub fn load_cart(&mut self, bytes: &[u8]) -> (r: Result<(), EmuError>)
        requires
            old(self).wf(),
        ensures
            final(self).wf(),
            r is Ok <==> cart_ok(bytes@),
            r is Err ==> r == Err::<(), EmuError>(cart_error(bytes@)) && *final(self) == *old(self),
            r is Ok ==> final(self).cart is Some && cart_built(final(self).cart->0, bytes@) && *final(self)
                == (System { cart: final(self).cart, ..*old(self) }),
    {
        match Cart::new(bytes) {
            Ok(cart) => {
                self.cart = Some(cart);
                Ok(())
            },
            Err(e) => Err(e),
        }
    }

    /// Loads PC from the reset vector at $FFFC, leaving the rest as it is.
    pub fn reset(&mut self) -> (r: Result<(), EmuError>)
        requires
            old(self).wf(),
        ensures
            final(self).wf(),
            match peek_word(old(self), RESET_VECTOR) {
                Ok(w) => r is Ok && *final(self) == with_pc(old(self), w),
                Err(e) => r == Err::<(), EmuError>(e) && *final(self) == *old(self),
            },
    {
        let lo = match self.peek_byte(Addr(RESET_VECTOR)) {
            Ok(b) => b,
            Err(e) => return Err(e),
        };
        let hi = match self.peek_byte(Addr(RESET_VECTOR + 1)) {
            Ok(b) => b,
            Err(e) => return Err(e),
        };
        self.cpu.pc = Addr::from_bytes(hi, lo);
        Ok(())
    }

    /// A copy of the frame buffer: 240 rows of 256 packed RGB pixels.
    pub fn get_frame(&self) -> (r: Vec<u32>)
        requires
            self.wf(),
        ensures
            r@ == self.ppu.frame_buffer@,
            r@.len() == ppu::WIDTH * ppu::HEIGHT,
            ppu::frame_in_palette(r@),
    {
        copy_words(&self.ppu.frame_buffer)
    }

    /// The 32 palette entries.
    pub fn dump_palette(&self) -> (r: Vec<u8>)
        ensures
            r@ == self.ppu.palette@,
    {
        copy_bytes(&self.ppu.palette, 0, self.ppu.palette.len())
    }

    /// The PPU's memory.
    pub fn dump_vram(&self) -> (r: Vec<u8>)
        ensures
            r@ == self.ppu.vram@,
    {
        copy_bytes(&self.ppu.vram, 0, self.ppu.vram.len())
    }

    /// RAM page zero.
    pub fn dump_zero_page(&self) -> (r: Vec<u8>)
        requires
            self.wf(),
        ensures
            r@ == self.ram@.subrange(0, 256),
    {
        copy_bytes(&self.ram, 0, 256)
    }

    /// Sprite memory and the OAM latch.
    pub fn dump_oam(&self) -> (r: (Vec<u8>, u8))
        ensures
            r.0@ == self.oam@,
            r.1 == self.ppu.oam_addr,
    {
        (copy_bytes(&self.oam, 0, self.oam.len()), self.ppu.oam_addr)
    }

    /// The stack page and the stack pointer.
    pub fn dump_stack(&self) -> (r: (Vec<u8>, u8))
        requires
            self.wf(),
        ensures
            r.0@ == self.ram@.subrange(0x100, 0x200),
            r.1 == self.cpu.sp,
    {
        (copy_bytes(&self.ram, 0x100, 0x100), self.cpu.sp)
    }

    /// Takes a pending NMI: pushes PC and the status (break bit clear), loads PC from
    /// the vector at $FFFA and clears the pending flag. Nothing happens without one.
    pub fn take_nmi(&mut self) -> (r: Result<(), EmuError>)
        requires
            old(self).wf(),
        ensures
            final(self).wf(),
            nmi_post(old(self), final(self), r),
    {
        if !self.nmi {
            return Ok(());
        }
        let status = self.cpu.status();
        match enter_interrupt(self, NMI_VECTOR, status, false) {
            Ok(()) => {
                self.nmi = false;
                Ok(())
            },
            Err(e) => Err(e),
        }
    }

    /// Takes a pending NMI, records a trace of the next instruction, and executes it.
    /// Returns the trace and the cycles the instruction took. The PPU does not move.
    pub fn step_instruction(&mut self) -> (r: Result<(ExecutionState, u64), EmuError>)
        requires
            old(self).wf(),
            old(self).cycles < CYCLE_LIMIT,
        ensures
            final(self).wf(),
            step_post(old(self), final(self), r),
            final(self).ppu.scan_row == old(self).ppu.scan_row,
            final(self).ppu.scan_line == old(self).ppu.scan_line,
            match r {
                Ok((_, c)) => final(self).cycles == old(self).cycles + c && 2 <= c
                    <= MAX_INSTRUCTION_CYCLES,
                Err(_) => final(self).cycles == old(self).cycles,
            },
    {
        let ghost s0 = *self;
        let rn = self.take_nmi();
        let ghost s1 = *self;
        assert(nmi_post(&s0, &s1, rn));
        match rn {
            Ok(()) => {},
            Err(e) => return Err(e),
        }
        let cpu = self.cpu;
        let ghost b = peek_spec(&*self, self.cpu.pc.0)->Ok_0;
        let (op, am) = match load(self) {
            Ok(x) => x,
            Err(e) => return Err(e),
        };
        proof {
            lemma_register_mode_ops(b);
        }
        let ghost s2 = *self;
        let count = am.bytes() + 1;
        let mut pc_bytes: Vec<u8> = Vec::new();
        let mut i: usize = 0;
        while i < count
            invariant
                *self == s2,
                s2 == with_pc(&s1, wrap16(s1.cpu.pc.0 + 1)),
                cpu == s1.cpu,
                self.wf(),
                count <= 3,
                i <= count,
                pc_bytes@ == Seq::new(i as nat, |j: int| trace_byte(&s1, wrap16(s1.cpu.pc.0 + j))),
            decreases count - i,
        {
            let a = cpu.pc.offset(i as u16);
            let v = match self.peek_byte(a) {
                Ok(v) => v,
                Err(_) => 0,
            };
            assert(peek_spec(&s2, a.0) == peek_spec(&s1, a.0));
            pc_bytes.push(v);
            i = i + 1;
            assert(pc_bytes@ =~= Seq::new(i as nat, |j: int| trace_byte(&s1, wrap16(s1.cpu.pc.0 + j))));
        }
        let state = ExecutionState {
            cpu,
            am,
            pc_bytes,
            ppu: (self.ppu.scan_row, self.ppu.scan_line),
            cycles: self.cycles,
        };
        assert(is_trace(&state, &s1, am));
        self.record(&state, Ghost(s1), Ghost(am));
        let ghost s3 = *self;
        assert(record_post(&s2, &s3, &s1, am));
        let re = op.execute(self, &am);
        assert(execute_post(&s3, self, op, am, re));
        match re {
            Ok(c) => Ok((state, c)),
            Err(e) => Err(e),
        }
    }

    /// Keeps `state` in the history ring, overwriting the oldest entry once the ring
    /// is full; `history_pos` is the oldest entry's slot.
    fn record(&mut self, state: &ExecutionState, Ghost(src): Ghost<System>, Ghost(am): Ghost<AddressMode>)
        requires
            old(self).wf(),
            is_trace(state, &src, am),
        ensures
            final(self).wf(),
            record_post(old(self), final(self), &src, am),
    {
        let cap = self.opts.history_len;
        if cap > 0 {
            if self.history.len() < cap {
                let ghost h0 = self.history@;
                self.history.push(state.clone());
                self.history_pos = 0;
                assert(self.history@.subrange(0, h0.len() as int) =~= h0);
            } else {
                let pos = self.history_pos;
                self.history.set(pos, state.clone());
                self.history_pos = (pos + 1) % self.history.len();
            }
        }
    }

    /// Runs the PPU `c` CPU cycles' worth of dots: three per cycle.
    fn run_ppu(&mut self, c: u64)
        requires
            old(self).wf(),
            c <= MAX_INSTRUCTION_CYCLES,
        ensures
            final(self).wf(),
            ppu_run_post(old(self), final(self), c),
    {
        let ticks = 3 * c;
        let ghost d0 = beam(self);
        let mut k: u64 = 0;
        proof {
            lemma_beam_range(self.ppu.scan_row, self.ppu.scan_line);
            vstd::arithmetic::div_mod::lemma_small_mod(d0 as nat, DOTS_PER_FRAME as nat);
        }
        while k < ticks
            invariant
                self.wf(),
                k <= ticks,
                ticks == 3 * c,
                self.cycles == old(self).cycles,
                self.cpu == old(self).cpu,
                self.ram == old(self).ram,
                self.history == old(self).history,
                self.history_pos == old(self).history_pos,
                self.cart == old(self).cart,
                self.oam == old(self).oam,
                self.ppu.dots == (old(self).ppu.dots + k) % 0x1_0000_0000_0000_0000,
                beam(self) == beam_after(d0, k as int),
                d0 == beam(old(self)),
                0 <= d0,
            decreases ticks - k,
        {
            let ghost before = self.ppu.dots;
            tick(self);
            proof {
                vstd::arithmetic::div_mod::lemma_add_mod_noop(d0 + k, 1, DOTS_PER_FRAME as int);
                vstd::arithmetic::div_mod::lemma_small_mod(1, DOTS_PER_FRAME as nat);
                vstd::arithmetic::div_mod::lemma_add_mod_noop(
                    old(self).ppu.dots + k,
                    1,
                    0x1_0000_0000_0000_0000,
                );
                vstd::arithmetic::div_mod::lemma_small_mod(1, 0x1_0000_0000_0000_0000);
            }
            k = k + 1;
        }
    }

    /// Runs one instruction (taking a pending NMI first), then three PPU dots for
    /// each cycle it took. Returns its trace and whether those dots carried the beam
    /// from a row above 241 into v-blank.
    pub fn run_instruction(&mut self) -> (r: Result<(ExecutionState, bool), EmuError>)
        requires
            old(self).wf(),
            old(self).cycles < CYCLE_LIMIT,
        ensures
            final(self).wf(),
            instruction_post(old(self), final(self), r),
            match r {
                Ok((_, done)) => {
                    &&& old(self).cycles + 2 <= final(self).cycles <= old(self).cycles
                        + MAX_INSTRUCTION_CYCLES
                    &&& beam(final(self)) == beam_after(
                        beam(old(self)),
                        3 * (final(self).cycles - old(self).cycles),
                    )
                    &&& done == (old(self).ppu.scan_row < VBLANK_ROW && final(self).ppu.scan_row
                        >= VBLANK_ROW)
                },
                Err(_) => final(self).cycles == old(self).cycles && beam(final(self)) == beam(old(self)),
            },
    {
        let rs = self.step_instruction();
        let ghost m = *self;
        assert(step_post(old(self), &m, rs));
        match rs {
            Err(e) => Err(e),
            Ok((st, c)) => {
                let row_before = self.ppu.scan_row;
                self.run_ppu(c);
                let done = row_before < VBLANK_ROW && self.ppu.scan_row >= VBLANK_ROW;
                Ok((st, done))
            },
        }
    }

    /// Runs instructions, each followed by three PPU dots per cycle it took, until
    /// the dots of one carry the beam into v-blank (row 241). Returns that
    /// instruction's trace. An NMI raised by the PPU is taken before the next
    /// instruction. Stops with `ClockLimit` once the cycle counter reaches its bound.
    pub fn run_cycle(&mut self) -> (r: Result<ExecutionState, EmuError>)
        requires
            old(self).wf(),
        ensures
            final(self).wf(),
            exists|states: Seq<System>, results: Seq<Result<(ExecutionState, bool), EmuError>>|
                #[trigger] frame_run(old(self), final(self), states, results, r),
            final(self).cycles >= old(self).cycles,
            beam(final(self)) == beam_after(beam(old(self)), 3 * (final(self).cycles - old(self).cycles)),
            r is Ok ==> final(self).ppu.scan_row >= VBLANK_ROW,
    {
        let ghost c0 = self.cycles as int;
        let ghost d0 = beam(self);
        let ghost mut states: Seq<System> = seq![*self];
        let ghost mut results: Seq<Result<(ExecutionState, bool), EmuError>> = Seq::empty();
        proof {
            lemma_beam_range(self.ppu.scan_row, self.ppu.scan_line);
            vstd::arithmetic::div_mod::lemma_small_mod(d0 as nat, DOTS_PER_FRAME as nat);
        }
        loop
            invariant
                self.wf(),
                self.cycles >= c0,
                c0 == old(self).cycles,
                d0 == beam(old(self)),
                0 <= d0 < DOTS_PER_FRAME,
                beam(self) == beam_after(d0, 3 * (self.cycles - c0)),
                states.len() == results.len() + 1,
                states[0] == *old(self),
                states[results.len() as int] == *self,
                forall|i: int| 0 <= i < results.len() ==> (#[trigger] states[i]).cycles < CYCLE_LIMIT,
                forall|i: int|
                    0 <= i < results.len() ==> #[trigger] instruction_post(&states[i], &states[i + 1], results[i]),
                forall|i: int| 0 <= i < results.len() ==> unfinished(#[trigger] results[i]),
            decreases dots_to_vblank(beam(self)),
        {
            if self.cycles >= CYCLE_LIMIT {
                proof {
                    let n = results.len() as int;
                    assert(states.len() == n + 1);
                    assert(states[0] == *old(self));
                    assert(states[n] == *self);
                    assert(n > 0 ==> unfinished(results[n - 1]));
                    assert(forall|i: int| 0 <= i < n - 1 ==> unfinished(#[trigger] results[i]));
                    assert(self.cycles >= CYCLE_LIMIT);
                }
                assert(frame_run(old(self), self, states, results, Err(EmuError::ClockLimit)));
                return Err(EmuError::ClockLimit);
            }
            let ghost before = *self;
            let ghost d_b = beam(self);
            let ghost cycles_before = self.cycles as int;
            let ghost row_before = self.ppu.scan_row;
            let ghost col_before = self.ppu.scan_line;
            let ri = self.run_instruction();
            proof {
                let old_states = states;
                let old_results = results;
                states = states.push(*self);
                results = results.push(ri);
                let n = results.len() as int;
                assert(states[n - 1] == before);
                assert(states[n] == *self);
                assert(results[n - 1] == ri);
                assert forall|i: int| 0 <= i < n implies (#[trigger] states[i]).cycles < CYCLE_LIMIT by {
                    if i < n - 1 {
                        assert(states[i] == old_states[i]);
                    } else {
                        assert(states[i] == before);
                    }
                }
                assert forall|i: int| 0 <= i < n implies #[trigger] instruction_post(&states[i], &states[i + 1], results[i]) by {
                    if i < n - 1 {
                        assert(states[i] == old_states[i]);
                        assert(states[i + 1] == old_states[i + 1]);
                        assert(results[i] == old_results[i]);
                    } else {
                        assert(states[i] == before);
                        assert(before.cycles < CYCLE_LIMIT);
                    }
                }
                assert forall|i: int| 0 <= i < n - 1 implies unfinished(#[trigger] results[i]) by {
                    assert(results[i] == old_results[i]);
                }
            }
            let (st, done) = match ri {
                Ok(x) => x,
                Err(e) => {
                    assert(frame_run(old(self), self, states, results, Err(e)));
                    return Err(e);
                },
            };
            proof {
                lemma_beam_range(row_before, col_before);
                lemma_beam_range(self.ppu.scan_row, self.ppu.scan_line);
                let k = 3 * (self.cycles - cycles_before);
                vstd::arithmetic::div_mod::lemma_add_mod_noop(
                    d0 + 3 * (cycles_before - c0),
                    k,
                    DOTS_PER_FRAME as int,
                );
                vstd::arithmetic::div_mod::lemma_small_mod(k as nat, DOTS_PER_FRAME as nat);
                assert(3 * (cycles_before - c0) + k == 3 * (self.cycles - c0));
            }
            if done {
                assert(frame_run(old(self), self, states, results, Ok(st)));
                return Ok(st);
            }
            proof {
                let k = 3 * (self.cycles - cycles_before);
                let f = DOTS_PER_FRAME as int;
                if d_b + k < f {
                    vstd::arithmetic::div_mod::lemma_small_mod((d_b + k) as nat, f as nat);
                } else {
                    assert((d_b + k) % f == d_b + k - f) by {
                        vstd::arithmetic::div_mod::lemma_fundamental_div_mod(d_b + k, f);
                        vstd::arithmetic::div_mod::lemma_small_mod((d_b + k - f) as nat, f as nat);
                        vstd::arithmetic::div_mod::lemma_mod_sub_multiples_vanish(d_b + k, f);
                    }
                }
            }
        }
    }

    /// Marks a non-maskable interrupt as pending.
    pub fn trigger_nmi(&mut self)
        ensures
            *final(self) == (System { nmi: true, ..*old(self) }),
    {
        self.nmi = true;
    }

    pub fn mirroring(&self) -> (r: Mirroring)
        requires
            self.wf(),
        ensures
            r == ppu::mirroring_of(self),
    {
        match &self.cart {
            Some(c) => c.mapper.mirroring(),
            None => Mirroring::Horizontal,
        }
    }
}

/// After a successful reset, PC holds the little-endian word that the bus shows at
/// $FFFC-$FFFD: for a loaded cartridge, the reset vector of its program ROM.
pub proof fn lemma_reset_vector(s: &System, t: &System)
    requires
        s.wf(),
        peek_word(s, RESET_VECTOR) is Ok,
        *t == with_pc(s, peek_word(s, RESET_VECTOR)->Ok_0),
    ensures
        t.cpu.pc.0 == crate::addr::word_of(
            crate::bus::peek_spec(s, 0xfffd)->Ok_0,
            crate::bus::peek_spec(s, 0xfffc)->Ok_0,
        ),
{
}

/// A beam position lies within the frame, and it is before row 241 exactly when
/// its index is before 241 scanlines' worth of dots.
proof fn lemma_beam_range(row: u16, col: u16)
    requires
        row < 262,
        col < 341,
    ensures
        0 <= dot_index(row, col) < DOTS_PER_FRAME,
        (row < VBLANK_ROW) == (dot_index(row, col) < VBLANK_ROW as int * 341),
{
    assert(0 <= row * 341 + col < 341 * 262) by (nonlinear_arith)
        requires
            row < 262,
            col < 341,
    ;
    assert((row < 241) == (row * 341 + col < 241 * 341)) by (nonlinear_arith)
        requires
            row < 262,
            col < 341,
    ;
}

fn copy_bytes(v: &Vec<u8>, start: usize, len: usize) -> (r: Vec<u8>)
    requires
        start + len <= v@.len(),
    ensures
        r@ == v@.subrange(start as int, start + len),
{
    let n = v.len();
    let mut out: Vec<u8> = Vec::with_capacity(len);
    let mut i: usize = 0;
    while i < len
        invariant
            i <= len,
            n == v@.len(),
            start + len <= v@.len(),
            out@ == v@.subrange(start as int, start + i),
        decreases len - i,
    {
        out.push(v[start + i]);
        i = i + 1;
        assert(out@ =~= v@.subrange(start as int, start + i));
    }
    out
}

fn copy_words(v: &Vec<u32>) -> (r: Vec<u32>)
    ensures
        r@ == v@,
{
    let mut out: Vec<u32> = Vec::with_capacity(v.len());
    let mut i: usize = 0;
    while i < v.len()
        invariant
            i <= v@.len(),
            out@ == v@.subrange(0, i as int),
        decreases v@.len() - i,
    {
        out.push(v[i]);
        i = i + 1;
        assert(out@ =~= v@.subrange(0, i as int));
    }
    assert(out@ =~= v@);
    out
}

} // verus!
