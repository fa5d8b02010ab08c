use vstd::prelude::*;

use crate::system::System;

verus! {

/// Whether bit `i` of `b` is set.
pub open spec fn bit_of(b: u8, i: u8) -> bool {
    (b >> i) & 1 == 1
}

/// The byte `b` with bit `i` set to `v`, all other bits kept.
pub open spec fn with_bit(b: u8, i: u8, v: bool) -> u8 {
    if v {
        b | (1u8 << i)
    } else {
        b & !(1u8 << i)
    }
}

proof fn lemma_with_bit(b: u8, i: u8, v: bool, j: u8)
    requires
        i < 8,
        j < 8,
    ensures
        bit_of(with_bit(b, i, v), j) == if j == i { v } else { bit_of(b, j) },
{
    if v {
        assert(((b | (1u8 << i)) >> j) & 1 == 1 <==> (if j == i { true } else { (b >> j) & 1 == 1 }))
            by (bit_vector)
            requires
                i < 8,
                j < 8,
        ;
    } else {
        assert(((b & !(1u8 << i)) >> j) & 1 == 1 <==> (if j == i { false } else { (b >> j) & 1 == 1 }))
            by (bit_vector)
            requires
                i < 8,
                j < 8,
        ;
    }
}

/// The eight buttons of a game pad. The bit each one occupies in the button byte is
/// given by `index`: right is bit 7, A is bit 0.
#[derive(Clone, Copy, PartialEq, Eq, Structural, Debug)]
pub enum ControllerButton {
    Right,
    Left,
    Down,
    Up,
    Start,
    Select,
    B,
    A,
}

impl ControllerButton {
    pub open spec fn index_spec(self) -> u8 {
        match self {
            ControllerButton::Right => 7,
            ControllerButton::Left => 6,
            ControllerButton::Down => 5,
            ControllerButton::Up => 4,
            ControllerButton::Start => 3,
            ControllerButton::Select => 2,
            ControllerButton::B => 1,
            ControllerButton::A => 0,
        }
    }

    pub fn index(&self) -> (r: u8)
        ensures
            r == self.index_spec(),
            r < 8,
    {
        match self {
            ControllerButton::Right => 7,
            ControllerButton::Left => 6,
            ControllerButton::Down => 5,
            ControllerButton::Up => 4,
            ControllerButton::Start => 3,
            ControllerButton::Select => 2,
            ControllerButton::B => 1,
            ControllerButton::A => 0,
        }
    }
}

/// One game pad: the live button byte, the byte latched for shifting out, and how many
/// bits of the latch have been shifted out so far.
#[derive(Clone, Copy, PartialEq, Eq, Structural, Debug)]
pub struct ControllerState {
    pub buttons: u8,
    pub latch: u8,
    pub step: u8,
}

/// The byte with only bit `index` set.
pub fn mask(index: u8) -> (r: u8)
    requires
        index < 8,
    ensures
        r == 1u8 << index,
{
    1u8 << index
}

impl ControllerState {
    pub open spec fn wf(self) -> bool {
        self.step < 8
    }

    pub fn new() -> (r: Self)
        ensures
            r.buttons == 0,
            r.latch == 0,
            r.step == 0,
    {
        ControllerState { buttons: 0, latch: 0, step: 0 }
    }

    pub fn right(&self) -> (r: bool)
        ensures
            r == bit_of(self.buttons, 7),
    {
        self.get(7)
    }

    pub fn left(&self) -> (r: bool)
        ensures
            r == bit_of(self.buttons, 6),
    {
        self.get(6)
    }

    pub fn down(&self) -> (r: bool)
        ensures
            r == bit_of(self.buttons, 5),
    {
        self.get(5)
    }

    pub fn up(&self) -> (r: bool)
        ensures
            r == bit_of(self.buttons, 4),
    {
        self.get(4)
    }

    pub fn start(&self) -> (r: bool)
        ensures
            r == bit_of(self.buttons, 3),
    {
        self.get(3)
    }

    pub fn select(&self) -> (r: bool)
        ensures
            r == bit_of(self.buttons, 2),
    {
        self.get(2)
    }

    pub fn b(&self) -> (r: bool)
        ensures
            r == bit_of(self.buttons, 1),
    {
        self.get(1)
    }

    pub fn a(&self) -> (r: bool)
        ensures
            r == bit_of(self.buttons, 0),
    {
        self.get(0)
    }

    pub fn set_right(&mut self, v: bool)
        ensures
            *final(self) == (ControllerState { buttons: with_bit(old(self).buttons, 7, v), ..*old(self) }),
    {
        self.set(7, v)
    }

    pub fn set_left(&mut self, v: bool)
        ensures
            *final(self) == (ControllerState { buttons: with_bit(old(self).buttons, 6, v), ..*old(self) }),
    {
        self.set(6, v)
    }

    pub fn set_down(&mut self, v: bool)
        ensures
            *final(self) == (ControllerState { buttons: with_bit(old(self).buttons, 5, v), ..*old(self) }),
    {
        self.set(5, v)
    }

    pub fn set_up(&mut self, v: bool)
        ensures
            *final(self) == (ControllerState { buttons: with_bit(old(self).buttons, 4, v), ..*old(self) }),
    {
        self.set(4, v)
    }

    pub fn set_start(&mut self, v: bool)
        ensures
            *final(self) == (ControllerState { buttons: with_bit(old(self).buttons, 3, v), ..*old(self) }),
    {
        self.set(3, v)
    }

    pub fn set_select(&mut self, v: bool)
        ensures
            *final(self) == (ControllerState { buttons: with_bit(old(self).buttons, 2, v), ..*old(self) }),
    {
        self.set(2, v)
    }

    pub fn set_b(&mut self, v: bool)
        ensures
            *final(self) == (ControllerState { buttons: with_bit(old(self).buttons, 1, v), ..*old(self) }),
    {
        self.set(1, v)
    }

    pub fn set_a(&mut self, v: bool)
        ensures
            *final(self) == (ControllerState { buttons: with_bit(old(self).buttons, 0, v), ..*old(self) }),
    {
        self.set(0, v)
    }

    /// Shifts out the next latched bit, least significant first; after the eighth
    /// read the shift starts again at bit 0.
    pub fn poll(&mut self) -> (r: bool)
        requires
            old(self).wf(),
        ensures
            r == bit_of(old(self).latch, old(self).step),
            final(self).step == (old(self).step + 1) % 8,
            final(self).buttons == old(self).buttons,
            final(self).latch == old(self).latch,
            final(self).wf(),
    {
        let value = (self.latch >> self.step) & 1 == 1;
        self.step = if self.step == 7 {
            0
        } else {
            self.step + 1
        };
        value
    }

    /// Presses or releases one button of the live state.
    pub fn set_button(&mut self, button: ControllerButton, pressed: bool)
        ensures
            *final(self) == (ControllerState {
                buttons: with_bit(old(self).buttons, button.index_spec(), pressed),
                ..*old(self)
            }),
            forall|j: u8|
                j < 8 ==> #[trigger] bit_of(final(self).buttons, j) == if j == button.index_spec() {
                    pressed
                } else {
                    bit_of(old(self).buttons, j)
                },
    {
        let i = button.index();
        self.set(i, pressed);
    }

    pub fn set(&mut self, index: u8, value: bool)
        requires
            index < 8,
        ensures
            *final(self) == (ControllerState { buttons: with_bit(old(self).buttons, index, value), ..*old(self) }),
            forall|j: u8|
                j < 8 ==> #[trigger] bit_of(final(self).buttons, j) == if j == index {
                    value
                } else {
                    bit_of(old(self).buttons, j)
                },
    {
        let ghost b0 = self.buttons;
        if value {
            self.buttons = self.buttons | mask(index);
        } else {
            self.buttons = self.buttons & (0xff ^ mask(index));
            assert(b0 & (0xffu8 ^ (1u8 << index)) == b0 & !(1u8 << index)) by (bit_vector);
        }
        assert forall|j: u8| j < 8 implies #[trigger] bit_of(self.buttons, j) == if j == index {
            value
        } else {
            bit_of(b0, j)
        } by {
            lemma_with_bit(b0, index, value, j);
        }
    }

    pub fn get(&self, index: u8) -> (r: bool)
        requires
            index < 8,
        ensures
            r == bit_of(self.buttons, index),
    {
        let m = mask(index);
        let b = self.buttons;
        assert((b & (1u8 << index) != 0) == ((b >> index) & 1 == 1)) by (bit_vector)
            requires
                index < 8,
        ;
        b & m != 0
    }
}

/// The I/O chip as far as this machine needs it: a plain register file for the sound
/// registers, and the two game pads behind $4016 and $4017.
pub struct APU {
    pub mem: Vec<u8>,
    pub polling_controller: bool,
    pub polling_expansion: bool,
    pub controller1: ControllerState,
    pub controller2: ControllerState,
}

/// Number of I/O registers, $4000 to $4017.
pub const APU_REGISTERS: usize = 0x18;

impl APU {
    pub open spec fn wf(&self) -> bool {
        &&& self.mem@.len() == APU_REGISTERS
        &&& self.controller1.wf()
        &&& self.controller2.wf()
    }

    pub fn init() -> (r: Self)
        ensures
            r.wf(),
            r.mem@ == Seq::new(APU_REGISTERS as nat, |i: int| 0u8),
            !r.polling_controller,
            !r.polling_expansion,
            r.controller1 == (ControllerState { buttons: 0, latch: 0, step: 0 }),
            r.controller2 == (ControllerState { buttons: 0, latch: 0, step: 0 }),
    {
        let mem = vec![0u8; APU_REGISTERS];
        assert(mem@ =~= Seq::new(APU_REGISTERS as nat, |i: int| 0u8));
        Self {
            mem,
            polling_controller: false,
            polling_expansion: false,
            controller1: ControllerState::new(),
            controller2: ControllerState::new(),
        }
    }

    /// Presses or releases a button of pad 0 or pad 1.
    pub fn set_controller_button(&mut self, controller: usize, button: ControllerButton, pressed: bool)
        requires
            controller < 2,
        ensures
            final(self).mem == old(self).mem,
            final(self).polling_controller == old(self).polling_controller,
            final(self).polling_expansion == old(self).polling_expansion,
            controller == 0 ==> final(self).controller1 == (ControllerState {
                buttons: with_bit(old(self).controller1.buttons, button.index_spec(), pressed),
                ..old(self).controller1
            }) && final(self).controller2 == old(self).controller2,
            controller == 1 ==> final(self).controller2 == (ControllerState {
                buttons: with_bit(old(self).controller2.buttons, button.index_spec(), pressed),
                ..old(self).controller2
            }) && final(self).controller1 == old(self).controller1,
    {
        if controller == 0 {
            self.controller1.set_button(button, pressed);
        } else {
            self.controller2.set_button(button, pressed);
        }
    }

    /// A read of I/O register `reg` ($4000 + reg): the pads answer at $16 and $17, one
    /// bit per read; the other registers read back what was written.
    pub fn read_register(&mut self, reg: u8) -> (r: u8)
        requires
            old(self).wf(),
            reg < APU_REGISTERS,
        ensures
            final(self).wf(),
            (final(self).controller1, final(self).controller2, r) == apu_read_spec(*old(self), reg),
            final(self).mem == old(self).mem,
            final(self).polling_controller == old(self).polling_controller,
            final(self).polling_expansion == old(self).polling_expansion,
    {
        if reg == 0x16 {
            pad_read(&mut self.controller1, self.polling_controller)
        } else if reg == 0x17 {
            pad_read(&mut self.controller2, self.polling_controller)
        } else {
            self.mem[reg as usize]
        }
    }

    /// A write of `value` to I/O register `reg`. At $16, bit 0 switches polling on or
    /// off, and both pads latch their live buttons; elsewhere the value is stored.
    pub fn write_register(&mut self, reg: u8, value: u8)
        requires
            old(self).wf(),
            reg < APU_REGISTERS,
        ensures
            final(self).wf(),
            apu_write_post(old(self), final(self), reg, value),
    {
        if reg == 0x16 {
            self.polling_controller = (value & 1) != 0;
            self.polling_expansion = (value & 2) != 0;
            self.controller1 = ControllerState { latch: self.controller1.buttons, step: 0, ..self.controller1 };
            self.controller2 = ControllerState { latch: self.controller2.buttons, step: 0, ..self.controller2 };
        } else {
            self.mem.set(reg as usize, value);
        }
    }
}

/// Holds of the I/O chip before and after a write of `value` to register `reg`.
pub open spec fn apu_write_post(a: &APU, b: &APU, reg: u8, value: u8) -> bool {
    if reg == 0x16 {
        &&& b.mem == a.mem
        &&& b.polling_controller == (value & 1 != 0)
        &&& b.polling_expansion == (value & 2 != 0)
        &&& b.controller1 == latched(a.controller1)
        &&& b.controller2 == latched(a.controller2)
    } else {
        &&& b.mem@ == a.mem@.update(reg as int, value)
        &&& b.polling_controller == a.polling_controller
        &&& b.polling_expansion == a.polling_expansion
        &&& b.controller1 == a.controller1
        &&& b.controller2 == a.controller2
    }
}

/// The pad with its live buttons latched and the shift restarted.
pub open spec fn latched(c: ControllerState) -> ControllerState {
    ControllerState { latch: c.buttons, step: 0, ..c }
}

/// What a read of a pad returns, and the pad afterwards: while polling, the live A
/// button; otherwise the next latched bit.
pub open spec fn pad_read_spec(c: ControllerState, polling: bool) -> (ControllerState, u8) {
    if polling {
        (c, if bit_of(c.buttons, 0) { 1u8 } else { 0u8 })
    } else {
        (
            ControllerState { step: ((c.step + 1) % 8) as u8, ..c },
            if bit_of(c.latch, c.step) { 1u8 } else { 0u8 },
        )
    }
}

/// The two pads and the byte after a read of I/O register `reg`.
pub open spec fn apu_read_spec(a: APU, reg: u8) -> (ControllerState, ControllerState, u8) {
    if reg == 0x16 {
        let (c, v) = pad_read_spec(a.controller1, a.polling_controller);
        (c, a.controller2, v)
    } else if reg == 0x17 {
        let (c, v) = pad_read_spec(a.controller2, a.polling_controller);
        (a.controller1, c, v)
    } else {
        (a.controller1, a.controller2, a.mem@[reg as int])
    }
}

/// A CPU read of I/O register `addr` ($4000 + addr).
pub fn read(sys: &mut System, addr: u8) -> (r: u8)
    requires
        old(sys).wf(),
        addr < APU_REGISTERS,
    ensures
        final(sys).wf(),
        ({
            let (c1, c2, v) = apu_read_spec(old(sys).apu, addr);
            &&& r == v
            &&& *final(sys) == (System {
                apu: APU { controller1: c1, controller2: c2, ..old(sys).apu },
                ..*old(sys)
            })
        }),
{
    sys.apu.read_register(addr)
}

/// A CPU write of `value` to I/O register `addr` ($4000 + addr).
pub fn write(sys: &mut System, addr: u8, value: u8)
    requires
        old(sys).wf(),
        addr < APU_REGISTERS,
    ensures
        final(sys).wf(),
        apu_write_post(&old(sys).apu, &final(sys).apu, addr, value),
        *final(sys) == (System { apu: final(sys).apu, ..*old(sys) }),
{
    sys.apu.write_register(addr, value);
}

fn pad_read(c: &mut ControllerState, polling: bool) -> (r: u8)
    requires
        old(c).wf(),
    ensures
        (*final(c), r) == pad_read_spec(*old(c), polling),
        final(c).wf(),
{
    if polling {
        if c.get(0) {
            1
        } else {
            0
        }
    } else {
        if c.poll() {
            1
        } else {
            0
        }
    }
}

} // verus!
