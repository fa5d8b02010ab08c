use vstd::prelude::*;

use crate::error::EmuError;
use crate::mappers::{Mapper, Mirroring};
use crate::system::System;
use registers::{control_of, mask_of, status_bits, Control, Mask, Status};

pub mod colors;
pub mod draw;
pub mod registers;

verus! {

/// Dots per scanline.
pub const COLS: u16 = 341;

/// Scanlines per frame.
pub const ROWS: u16 = 262;

/// Dots per frame.
pub const DOTS_PER_FRAME: u64 = 341 * 262;

/// First scanline of v-blank.
pub const VBLANK_ROW: u16 = 241;

/// The pre-render scanline, where the status flags are cleared.
pub const PRE_RENDER_ROW: u16 = 261;

/// Visible pixels per scanline.
pub const WIDTH: usize = 256;

/// Visible scanlines.
pub const HEIGHT: usize = 240;

/// Size of the PPU's own memory.
pub const VRAM_SIZE: usize = 0x4000;

/// Entries of palette memory.
pub const PALETTE_SIZE: usize = 32;

/// Bytes of sprite attribute memory.
pub const OAM_SIZE: usize = 256;

/// Most sprites drawn on one scanline.
pub const MAX_LINE_SPRITES: usize = 8;

/// A sprite chosen for the current scanline, with its pattern row already fetched.
#[derive(Clone, Copy, PartialEq, Eq, Structural, Debug)]
pub struct ActiveSprite {
    pub index: u8,
    pub x: u8,
    pub attrs: u8,
    pub lo: u8,
    pub hi: u8,
}

/// The picture processor's registers, memories and beam position.
pub struct PPU {
    pub control: Control,
    pub mask: Mask,
    pub status: Status,
    pub oam_addr: u8,
    pub data: u8,
    pub scroll_x: u8,
    pub scroll_y: u8,
    pub addr: u16,
    pub scroll_second: bool,
    pub addr_lsb: bool,
    pub scan_line: u16,
    pub scan_row: u16,
    /// Dots run since power-up, wrapping at 2^64.
    pub dots: u64,
    pub frame_buffer: Vec<u32>,
    pub vram: Vec<u8>,
    pub palette: Vec<u8>,
    pub sprite_outputs: Vec<ActiveSprite>,
}

/// Whether `c` is one of the 64 palette colours.
pub open spec fn is_palette_color(c: u32) -> bool {
    exists|j: int| 0 <= j < 64 && #[trigger] colors::palette_colors()[j] == c
}

/// Whether every pixel of a frame buffer is one of the 64 palette colours.
#[verifier::opaque]
pub open spec fn frame_in_palette(fb: Seq<u32>) -> bool {
    forall|i: int| 0 <= i < fb.len() ==> #[trigger] is_palette_color(fb[i])
}

/// Position of a dot within the frame, counted from row 0, column 0.
pub open spec fn dot_index(row: u16, col: u16) -> int {
    row * COLS + col
}

impl PPU {
    pub open spec fn wf(&self) -> bool {
        &&& self.control.wf()
        &&& self.frame_buffer@.len() == WIDTH * HEIGHT
        &&& frame_in_palette(self.frame_buffer@)
        &&& self.vram@.len() == VRAM_SIZE
        &&& self.palette@.len() == PALETTE_SIZE
        &&& self.sprite_outputs@.len() <= MAX_LINE_SPRITES
        &&& self.scan_line < COLS
        &&& self.scan_row < ROWS
        &&& self.addr < 0x4000
    }

    /// The PPU at power-up, 21 dots into the first scanline.
    pub fn init() -> (r: Self)
        ensures
            r.wf(),
            r.control == control_of(0),
            r.mask == mask_of(0),
            !r.status.sprite_overflow && !r.status.sprite_zero_hit && !r.status.vertical_blank,
            r.oam_addr == 0 && r.data == 0 && r.scroll_x == 0 && r.scroll_y == 0 && r.addr == 0,
            !r.scroll_second && !r.addr_lsb,
            r.scan_line == 21 && r.scan_row == 0 && r.dots == 21,
            r.vram@ == Seq::new(VRAM_SIZE as nat, |i: int| 0u8),
            r.palette@ == Seq::new(PALETTE_SIZE as nat, |i: int| 0u8),
            r.frame_buffer@ == Seq::new((WIDTH * HEIGHT) as nat, |i: int| 0u32),
            r.sprite_outputs@.len() == 0,
    {
        let vram = vec![0u8; VRAM_SIZE];
        let palette = vec![0u8; PALETTE_SIZE];
        let frame_buffer = vec![0u32; WIDTH * HEIGHT];
        assert(vram@ =~= Seq::new(VRAM_SIZE as nat, |i: int| 0u8));
        assert(palette@ =~= Seq::new(PALETTE_SIZE as nat, |i: int| 0u8));
        assert(frame_buffer@ =~= Seq::new((WIDTH * HEIGHT) as nat, |i: int| 0u32));
        proof {
            reveal(frame_in_palette);
            assert(colors::palette_colors()[0x0d] == 0u32);
            assert forall|i: int| 0 <= i < frame_buffer@.len() implies #[trigger] is_palette_color(frame_buffer@[i]) by {
                assert(colors::palette_colors()[0x0d] == frame_buffer@[i]);
            }
        }
        Self {
            control: Control::default(),
            mask: Mask::default(),
            status: Status::default(),
            oam_addr: 0,
            data: 0,
            scroll_x: 0,
            scroll_y: 0,
            addr: 0,
            scroll_second: false,
            addr_lsb: false,
            scan_line: 21,
            scan_row: 0,
            dots: 21,
            frame_buffer,
            vram,
            palette,
            sprite_outputs: Vec::new(),
        }
    }
}

/// Where nametable offset `base` ($000-$FFF, relative to $2000) lands in the two
/// physical nametables.
pub open spec fn nametable_index(m: Mirroring, base: u16) -> u16 {
    match m {
        Mirroring::Vertical => base % 0x800,
        Mirroring::Horizontal => if base < 0x800 {
            base % 0x400
        } else {
            (0x400 + base % 0x400) as u16
        },
        Mirroring::OneScreenLower => base % 0x400,
        Mirroring::OneScreenUpper => (0x400 + base % 0x400) as u16,
    }
}

pub fn mirrored_addr(m: Mirroring, base: u16) -> (r: u16)
    requires
        base < 0x1000,
    ensures
        r == nametable_index(m, base),
        r < 0x800,
{
    match m {
        Mirroring::Vertical => base % 0x800,
        Mirroring::Horizontal => if base < 0x800 {
            base % 0x400
        } else {
            0x400 + base % 0x400
        },
        Mirroring::OneScreenLower => base % 0x400,
        Mirroring::OneScreenUpper => 0x400 + base % 0x400,
    }
}

/// The palette entry that PPU address `a` ($3F00-$3FFF) reaches: the 32 entries repeat,
/// and entries $10, $14, $18 and $1C are the same as $00, $04, $08 and $0C.
pub open spec fn palette_index(a: u16) -> int {
    let i = (a - 0x3f00) % 32;
    if i >= 16 && i % 4 == 0 {
        i - 16
    } else {
        i
    }
}

pub fn palette_slot(a: u16) -> (r: usize)
    requires
        0x3f00 <= a < 0x4000,
    ensures
        r == palette_index(a),
        r < PALETTE_SIZE,
{
    let i = ((a - 0x3f00) % 32) as usize;
    if i >= 16 && i % 4 == 0 {
        i - 16
    } else {
        i
    }
}

/// The mirroring in force: the mapper's, or horizontal with no cartridge.
pub open spec fn mirroring_of(s: &System) -> Mirroring {
    match s.cart {
        Some(c) => c.mapper.mirroring_spec(),
        None => Mirroring::Horizontal,
    }
}

/// What the PPU reads at address `a` of its own bus.
pub open spec fn vram_read_spec(s: &System, a: u16) -> u8 {
    if a < 0x2000 {
        match s.cart {
            Some(c) => c.mapper.ppu_read_spec(a),
            None => 0,
        }
    } else if a < 0x3f00 {
        s.ppu.vram@[nametable_index(mirroring_of(s), ((a - 0x2000) % 0x1000) as u16) as int]
    } else {
        s.ppu.palette@[palette_index(a)]
    }
}

/// Holds of the machine before (`s`) and after (`t`) the PPU writes `v` at address `a`
/// of its own bus; nothing but the written memory changes.
pub open spec fn vram_write_post(s: &System, t: &System, a: u16, v: u8) -> bool {
    if a < 0x2000 {
        &&& t.ppu.vram == s.ppu.vram
        &&& t.ppu.palette == s.ppu.palette
        &&& match s.cart {
            Some(c) => t.cart is Some && t.cart->0.header == c.header && t.cart->0.is_empty
                == c.is_empty && c.mapper.ppu_write_spec(&t.cart->0.mapper, a, v),
            None => t.cart is None,
        }
    } else if a < 0x3f00 {
        &&& t.ppu.vram@ == s.ppu.vram@.update(
            nametable_index(mirroring_of(s), ((a - 0x2000) % 0x1000) as u16) as int,
            v,
        )
        &&& t.ppu.palette == s.ppu.palette
        &&& t.cart == s.cart
    } else {
        &&& t.ppu.vram == s.ppu.vram
        &&& t.ppu.palette@ == s.ppu.palette@.update(palette_index(a), v)
        &&& t.cart == s.cart
    }
}

/// The VRAM address after a PPUDATA access: on by 1 or 32, within 14 bits.
pub open spec fn bumped(p: &PPU) -> u16 {
    ((p.addr + p.control.vram_incr) % 0x4000) as u16
}

pub fn bump_addr(sys: &mut System)
    requires
        old(sys).wf(),
    ensures
        final(sys).wf(),
        *final(sys) == (System { ppu: PPU { addr: bumped(&old(sys).ppu), ..old(sys).ppu }, ..*old(sys) }),
{
    sys.ppu.addr = (sys.ppu.addr + sys.ppu.control.vram_incr) % 0x4000;
}

pub fn vram_read(sys: &System, a: u16) -> (r: u8)
    requires
        sys.wf(),
        a < 0x4000,
    ensures
        r == vram_read_spec(sys, a),
{
    if a < 0x2000 {
        match &sys.cart {
            Some(c) => c.mapper.ppu_read(crate::addr::Addr(a)),
            None => 0,
        }
    } else if a < 0x3f00 {
        let m = sys.mirroring();
        let i = mirrored_addr(m, (a - 0x2000) % 0x1000);
        sys.ppu.vram[i as usize]
    } else {
        sys.ppu.palette[palette_slot(a)]
    }
}

pub fn vram_write(sys: &mut System, a: u16, v: u8)
    requires
        old(sys).wf(),
        a < 0x4000,
    ensures
        final(sys).wf(),
        vram_write_post(old(sys), final(sys), a, v),
        *final(sys) == (System {
            ppu: PPU { vram: final(sys).ppu.vram, palette: final(sys).ppu.palette, ..old(sys).ppu },
            cart: final(sys).cart,
            ..*old(sys)
        }),
{
    if a < 0x2000 {
        match &mut sys.cart {
            Some(c) => c.mapper.ppu_write(crate::addr::Addr(a), v),
            None => {},
        }
    } else if a < 0x3f00 {
        let m = sys.mirroring();
        let i = mirrored_addr(m, (a - 0x2000) % 0x1000);
        sys.ppu.vram.set(i as usize, v);
    } else {
        let i = palette_slot(a);
        sys.ppu.palette.set(i, v);
    }
}

/// Holds of the machine before and after a CPU read of PPU register `reg`, and of
/// the value read.
pub open spec fn ppu_read_post(s: &System, t: &System, reg: u8, r: Result<u8, EmuError>) -> bool {
    if reg == 2 {
        &&& r == Ok::<u8, EmuError>(status_bits(s.ppu.status))
        &&& *t == (System {
            ppu: PPU {
                status: Status { vertical_blank: false, ..s.ppu.status },
                scroll_second: false,
                addr_lsb: false,
                ..s.ppu
            },
            ..*s
        })
    } else if reg == 4 {
        &&& r == Ok::<u8, EmuError>(s.oam@[s.ppu.oam_addr as int])
        &&& *t == *s
    } else if reg == 7 {
        &&& r == Ok::<u8, EmuError>(s.ppu.data)
        &&& *t == (System {
            ppu: PPU { data: vram_read_spec(s, s.ppu.addr), addr: bumped(&s.ppu), ..s.ppu },
            ..*s
        })
    } else {
        &&& r == Err::<u8, EmuError>(EmuError::WriteOnlyRead { addr: (0x2000 + reg) as u16 })
        &&& *t == *s
    }
}

/// A CPU read of PPU register `reg` (0 to 7).
pub fn read(sys: &mut System, reg: u8) -> (r: Result<u8, EmuError>)
    requires
        old(sys).wf(),
        reg < 8,
    ensures
        final(sys).wf(),
        ppu_read_post(old(sys), final(sys), reg, r),
{
    if reg == 2 {
        let value = sys.ppu.status.bits();
        sys.ppu.status.vertical_blank = false;
        sys.ppu.scroll_second = false;
        sys.ppu.addr_lsb = false;
        Ok(value)
    } else if reg == 4 {
        Ok(sys.oam[sys.ppu.oam_addr as usize])
    } else if reg == 7 {
        let value = sys.ppu.data;
        let fresh = vram_read(sys, sys.ppu.addr);
        sys.ppu.data = fresh;
        bump_addr(sys);
        Ok(value)
    } else {
        Err(EmuError::WriteOnlyRead { addr: 0x2000 + reg as u16 })
    }
}

/// Holds of the machine before and after a CPU write of `v` to PPU register `reg`.
pub open spec fn ppu_write_post(s: &System, t: &System, reg: u8, v: u8) -> bool {
    if reg == 0 {
        *t == (System { ppu: PPU { control: control_of(v), ..s.ppu }, ..*s })
    } else if reg == 1 {
        *t == (System { ppu: PPU { mask: mask_of(v), ..s.ppu }, ..*s })
    } else if reg == 3 {
        *t == (System { ppu: PPU { oam_addr: v, ..s.ppu }, ..*s })
    } else if reg == 4 {
        &&& t.oam@ == s.oam@.update(s.ppu.oam_addr as int, v)
        &&& *t == (System {
            oam: t.oam,
            ppu: PPU { oam_addr: ((s.ppu.oam_addr + 1) % 256) as u8, ..s.ppu },
            ..*s
        })
    } else if reg == 5 {
        *t == (System {
            ppu: if s.ppu.scroll_second {
                PPU { scroll_y: v, scroll_second: false, ..s.ppu }
            } else {
                PPU { scroll_x: v, scroll_second: true, ..s.ppu }
            },
            ..*s
        })
    } else if reg == 6 {
        *t == (System {
            ppu: if s.ppu.addr_lsb {
                PPU { addr: ((s.ppu.addr / 256) * 256 + v) as u16, addr_lsb: false, ..s.ppu }
            } else {
                PPU { addr: ((v % 64) * 256) as u16, addr_lsb: true, ..s.ppu }
            },
            ..*s
        })
    } else if reg == 7 {
        &&& vram_write_post(s, t, s.ppu.addr, v)
        &&& *t == (System {
            ppu: PPU {
                vram: t.ppu.vram,
                palette: t.ppu.palette,
                addr: bumped(&s.ppu),
                ..s.ppu
            },
            cart: t.cart,
            ..*s
        })
    } else {
        *t == *s
    }
}

/// A CPU write of `v` to PPU register `reg` (0 to 7). Writes to the status register
/// are ignored.
pub fn write(sys: &mut System, reg: u8, v: u8)
    requires
        old(sys).wf(),
        reg < 8,
    ensures
        final(sys).wf(),
        ppu_write_post(old(sys), final(sys), reg, v),
{
    if reg == 0 {
        sys.ppu.control = Control::from(v);
    } else if reg == 1 {
        sys.ppu.mask = Mask::from(v);
    } else if reg == 3 {
        sys.ppu.oam_addr = v;
    } else if reg == 4 {
        write_oam_data(sys, v);
    } else if reg == 5 {
        write_scroll(sys, v);
    } else if reg == 6 {
        write_addr(sys, v);
    } else if reg == 7 {
        write_data(sys, v);
    }
}

/// A CPU write to OAMDATA: the byte goes to sprite memory at the latch, which then
/// moves on by one.
fn write_oam_data(sys: &mut System, v: u8)
    requires
        old(sys).wf(),
    ensures
        final(sys).wf(),
        ppu_write_post(old(sys), final(sys), 4, v),
{
    sys.oam.set(sys.ppu.oam_addr as usize, v);
    sys.ppu.oam_addr = sys.ppu.oam_addr.wrapping_add(1);
}

/// A CPU write to PPUSCROLL: the first of a pair sets x, the second y.
fn write_scroll(sys: &mut System, v: u8)
    requires
        old(sys).wf(),
    ensures
        final(sys).wf(),
        ppu_write_post(old(sys), final(sys), 5, v),
{
    if sys.ppu.scroll_second {
        sys.ppu.scroll_y = v;
        sys.ppu.scroll_second = false;
    } else {
        sys.ppu.scroll_x = v;
        sys.ppu.scroll_second = true;
    }
}

/// A CPU write to PPUADDR: the first of a pair sets the high six bits of the 14-bit
/// address, the second the low byte.
fn write_addr(sys: &mut System, v: u8)
    requires
        old(sys).wf(),
    ensures
        final(sys).wf(),
        ppu_write_post(old(sys), final(sys), 6, v),
{
    if sys.ppu.addr_lsb {
        sys.ppu.addr = (sys.ppu.addr / 256) * 256 + v as u16;
        sys.ppu.addr_lsb = false;
    } else {
        sys.ppu.addr = (v % 64) as u16 * 256;
        sys.ppu.addr_lsb = true;
    }
}

/// A CPU write to PPUDATA: the byte goes to the current VRAM address, which then
/// moves on.
fn write_data(sys: &mut System, v: u8)
    requires
        old(sys).wf(),
    ensures
        final(sys).wf(),
        ppu_write_post(old(sys), final(sys), 7, v),
{
    let a = sys.ppu.addr;
    vram_write(sys, a, v);
    bump_addr(sys);
}

/// The machine with the beam at (row, col).
pub open spec fn with_beam(s: &System, row: u16, col: u16) -> System {
    System {
        ppu: PPU { scan_row: row, scan_line: col, dots: ((s.ppu.dots + 1) % 0x1_0000_0000_0000_0000) as u64, ..s.ppu },
        ..*s
    }
}

/// The dot after (row, col): one column on, or the start of the next scanline, the
/// frame wrapping after row 261.
pub open spec fn next_dot(row: u16, col: u16) -> (u16, u16) {
    if col >= 340 {
        (if row >= 261 { 0 } else { (row + 1) as u16 }, 0)
    } else {
        (row, (col + 1) as u16)
    }
}

/// Advances the PPU by one dot: moves the beam, sets v-blank (and raises the NMI
/// when enabled) at the start of row 241, clears the status flags at the start of
/// row 261, picks the sprites of each visible row at its column 0, and draws the
/// visible dots.
pub fn tick(sys: &mut System)
    requires
        old(sys).wf(),
    ensures
        final(sys).wf(),
        (final(sys).ppu.scan_row, final(sys).ppu.scan_line) == next_dot(
            old(sys).ppu.scan_row,
            old(sys).ppu.scan_line,
        ),
        dot_index(final(sys).ppu.scan_row, final(sys).ppu.scan_line) == (dot_index(
            old(sys).ppu.scan_row,
            old(sys).ppu.scan_line,
        ) + 1) % (DOTS_PER_FRAME as int),
        ({
            let at_vblank = final(sys).ppu.scan_row == VBLANK_ROW && final(sys).ppu.scan_line == 0;
            let at_pre_render = final(sys).ppu.scan_row == PRE_RENDER_ROW && final(sys).ppu.scan_line
                == 0;
            &&& final(sys).nmi == (old(sys).nmi || (at_vblank && old(sys).ppu.control.enable_nmi))
            &&& final(sys).ppu.status.vertical_blank == if at_vblank {
                true
            } else if at_pre_render {
                false
            } else {
                old(sys).ppu.status.vertical_blank
            }
            &&& at_pre_render ==> !final(sys).ppu.status.sprite_zero_hit
                && !final(sys).ppu.status.sprite_overflow
        }),
        final(sys).cpu == old(sys).cpu,
        final(sys).cycles == old(sys).cycles,
        final(sys).ram == old(sys).ram,
        final(sys).cart == old(sys).cart,
        final(sys).oam == old(sys).oam,
        final(sys).apu == old(sys).apu,
        final(sys).opts == old(sys).opts,
        final(sys).history == old(sys).history,
        final(sys).history_pos == old(sys).history_pos,
        final(sys).ppu.control == old(sys).ppu.control,
        final(sys).ppu.mask == old(sys).ppu.mask,
        final(sys).ppu.dots == (old(sys).ppu.dots + 1) % 0x1_0000_0000_0000_0000,
        ({
            let (row, col) = next_dot(old(sys).ppu.scan_row, old(sys).ppu.scan_line);
            let mid = with_beam(old(sys), row, col);
            let visible = row < 240 && 1 <= col <= 256;
            &&& visible ==> final(sys).ppu.frame_buffer@ == old(sys).ppu.frame_buffer@.update(
                row * WIDTH + col - 1,
                draw::pixel_rgb(
                    &mid,
                    draw::bg_pixel_spec(&mid, col - 1, row as int),
                    draw::fg_layer(&mid, col - 1),
                ),
            )
            &&& visible ==> final(sys).ppu.status.sprite_zero_hit == (old(sys).ppu.status.sprite_zero_hit
                || draw::sprite_zero_hit_at(&mid, col - 1, row as int))
            &&& !visible ==> final(sys).ppu.frame_buffer == old(sys).ppu.frame_buffer
            &&& col == 0 && row < 240 ==> draw::eval_post(&mid, final(sys), row as int)
            &&& !(col == 0 && row < 240) ==> final(sys).ppu.sprite_outputs == old(sys).ppu.sprite_outputs
            &&& !(col == 0 && (row < 240 || row == PRE_RENDER_ROW)) ==> final(sys).ppu.status.sprite_overflow
                == old(sys).ppu.status.sprite_overflow
            &&& !visible && !(col == 0 && row == PRE_RENDER_ROW) ==> final(sys).ppu.status.sprite_zero_hit
                == old(sys).ppu.status.sprite_zero_hit
        }),
{
    advance_beam(sys);
    let col = sys.ppu.scan_line;
    let row = sys.ppu.scan_row;
    if col == 0 {
        line_start(sys);
    }
    if row < 240 && col >= 1 && col <= 256 {
        draw::draw(sys, (col - 1) as usize, row as usize);
    }
}

/// Moves the beam one dot on.
fn advance_beam(sys: &mut System)
    requires
        old(sys).wf(),
    ensures
        final(sys).wf(),
        (final(sys).ppu.scan_row, final(sys).ppu.scan_line) == next_dot(
            old(sys).ppu.scan_row,
            old(sys).ppu.scan_line,
        ),
        dot_index(final(sys).ppu.scan_row, final(sys).ppu.scan_line) == (dot_index(
            old(sys).ppu.scan_row,
            old(sys).ppu.scan_line,
        ) + 1) % (DOTS_PER_FRAME as int),
        final(sys).ppu.dots == (old(sys).ppu.dots + 1) % 0x1_0000_0000_0000_0000,
        *final(sys) == (System {
            ppu: PPU {
                scan_row: final(sys).ppu.scan_row,
                scan_line: final(sys).ppu.scan_line,
                dots: final(sys).ppu.dots,
                ..old(sys).ppu
            },
            ..*old(sys)
        }),
{
    sys.ppu.dots = sys.ppu.dots.wrapping_add(1);
    let ghost row0 = sys.ppu.scan_row as int;
    let ghost col0 = sys.ppu.scan_line as int;
    if sys.ppu.scan_line >= 340 {
        sys.ppu.scan_line = 0;
        sys.ppu.scan_row = if sys.ppu.scan_row >= 261 {
            0
        } else {
            sys.ppu.scan_row + 1
        };
    } else {
        sys.ppu.scan_line = sys.ppu.scan_line + 1;
    }
    proof {
        assert(0 <= row0 * 341 + col0 < 341 * 262) by (nonlinear_arith)
            requires
                0 <= row0 < 262,
                0 <= col0 < 341,
        ;
        if col0 >= 340 && row0 < 261 {
            assert((row0 + 1) * 341 == row0 * 341 + 341) by (nonlinear_arith);
            assert(row0 * 341 + 341 < 341 * 262) by (nonlinear_arith)
                requires
                    row0 < 261,
            ;
        }
    }
}

/// What happens at column 0 of a scanline: status flags at rows 241 and 261, and
/// sprite selection on the visible rows.
fn line_start(sys: &mut System)
    requires
        old(sys).wf(),
        old(sys).ppu.scan_line == 0,
    ensures
        final(sys).wf(),
        ({
            let row = old(sys).ppu.scan_row;
            &&& final(sys).nmi == (old(sys).nmi || (row == VBLANK_ROW && old(sys).ppu.control.enable_nmi))
            &&& final(sys).ppu.status.vertical_blank == if row == VBLANK_ROW {
                true
            } else if row == PRE_RENDER_ROW {
                false
            } else {
                old(sys).ppu.status.vertical_blank
            }
            &&& row == PRE_RENDER_ROW ==> !final(sys).ppu.status.sprite_zero_hit
                && !final(sys).ppu.status.sprite_overflow
            &&& row != PRE_RENDER_ROW ==> final(sys).ppu.status.sprite_zero_hit
                == old(sys).ppu.status.sprite_zero_hit
            &&& row < 240 ==> draw::eval_post(old(sys), final(sys), row as int)
            &&& row >= 240 ==> final(sys).ppu.sprite_outputs == old(sys).ppu.sprite_outputs
            &&& row >= 240 && row != PRE_RENDER_ROW ==> final(sys).ppu.status.sprite_overflow
                == old(sys).ppu.status.sprite_overflow
        }),
        *final(sys) == (System {
            ppu: PPU {
                status: final(sys).ppu.status,
                sprite_outputs: final(sys).ppu.sprite_outputs,
                ..old(sys).ppu
            },
            nmi: final(sys).nmi,
            ..*old(sys)
        }),
{
    let row = sys.ppu.scan_row;
    if row == PRE_RENDER_ROW {
        sys.ppu.status.sprite_zero_hit = false;
        sys.ppu.status.vertical_blank = false;
        sys.ppu.status.sprite_overflow = false;
    }
    if row == VBLANK_ROW {
        sys.ppu.status.vertical_blank = true;
        if sys.ppu.control.enable_nmi {
            sys.trigger_nmi();
        }
    }
    if row < 240 {
        draw::eval_fg(sys, row as usize);
    }
}

} // verus!
