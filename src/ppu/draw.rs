use vstd::prelude::*;

use super::colors::{palette_color, palette_colors};
use super::{vram_read, vram_read_spec, ActiveSprite, MAX_LINE_SPRITES, PPU, WIDTH};
use crate::system::System;

verus! {

/// The nametable (0-3) that a base nametable address selects.
pub open spec fn nametable_number(a: u16) -> int {
    (a - 0x2000) / 0x400
}

/// Scrolled background coordinates of screen pixel (nx, ny): which nametable, and
/// the x and y within it, after wrapping into the neighbouring tables.
pub open spec fn scrolled(p: &PPU, nx: int, ny: int) -> (int, int, int) {
    let x0 = nx + p.scroll_x;
    let y0 = ny + p.scroll_y;
    let nt0 = nametable_number(p.control.nametable_address);
    let (nt1, x) = if x0 >= 256 {
        (if nt0 % 2 == 0 { nt0 + 1 } else { nt0 - 1 }, x0 - 256)
    } else {
        (nt0, x0)
    };
    let (nt, y) = if y0 >= 240 {
        (if nt1 >= 2 { nt1 - 2 } else { nt1 + 2 }, y0 - 240)
    } else {
        (nt1, y0)
    };
    (nt, x, y)
}

/// Whether the background shows at screen column `nx`.
pub open spec fn bg_enabled(p: &PPU, nx: int) -> bool {
    p.mask.enable_bg && (nx >= 8 || p.mask.enable_start_bg)
}

/// Whether sprites show at screen column `nx`.
pub open spec fn fg_enabled(p: &PPU, nx: int) -> bool {
    p.mask.enable_fg && (nx >= 8 || p.mask.enable_start_fg)
}

/// The two-bit colour of pixel `bit` (7 is leftmost) of a pattern row.
pub open spec fn pattern_bits(lo: u8, hi: u8, bit: u8) -> u8 {
    ((lo >> bit) & 1) | (((hi >> bit) & 1) << 1u8)
}

/// The background's palette index (0-15) at screen pixel (nx, ny); 0 where the
/// background is transparent or hidden.
pub open spec fn bg_pixel_spec(s: &System, nx: int, ny: int) -> u8 {
    let p = &s.ppu;
    let (nt, x, y) = scrolled(p, nx, ny);
    let table = 0x2000 + nt * 0x400;
    let tile = vram_read_spec(s, (table + (y / 8) * 32 + x / 8) as u16);
    let attr = vram_read_spec(s, (table + 0x3c0 + (y / 32) * 8 + x / 32) as u16);
    let shift = (((y % 32) / 16) * 4 + ((x % 32) / 16) * 2) as u8;
    let pal = (attr >> shift) & 3;
    let row_addr = p.control.pattern_base_bg + tile * 16 + y % 8;
    let lo = vram_read_spec(s, row_addr as u16);
    let hi = vram_read_spec(s, (row_addr + 8) as u16);
    let bits = pattern_bits(lo, hi, (7 - x % 8) as u8);
    if !bg_enabled(p, nx) || bits == 0 {
        0
    } else {
        (pal * 4 + bits) as u8
    }
}

/// The background's palette index at screen pixel (nx, ny).
#[verifier::spinoff_prover]
#[verifier::rlimit(80)]
pub fn draw_bg(sys: &System, nx: usize, ny: usize) -> (r: u8)
    requires
        sys.wf(),
        nx < 256,
        ny < 240,
    ensures
        r == bg_pixel_spec(sys, nx as int, ny as int),
        r < 16,
{
    let p = &sys.ppu;
    let x0 = nx + p.scroll_x as usize;
    let y0 = ny + p.scroll_y as usize;
    let nt0 = ((p.control.nametable_address - 0x2000) / 0x400) as usize;
    let (nt1, x) = if x0 >= 256 {
        (if nt0 % 2 == 0 {
            nt0 + 1
        } else {
            nt0 - 1
        }, x0 - 256)
    } else {
        (nt0, x0)
    };
    let (nt, y) = if y0 >= 240 {
        (if nt1 >= 2 {
            nt1 - 2
        } else {
            nt1 + 2
        }, y0 - 240)
    } else {
        (nt1, y0)
    };
    let table = 0x2000 + nt * 0x400;
    let tile = vram_read(sys, (table + (y / 8) * 32 + x / 8) as u16);
    let attr = vram_read(sys, (table + 0x3c0 + (y / 32) * 8 + x / 32) as u16);
    let shift = (((y % 32) / 16) * 4 + ((x % 32) / 16) * 2) as u8;
    let pal = (attr >> shift) & 3;
    let row_addr = p.control.pattern_base_bg as usize + tile as usize * 16 + y % 8;
    let lo = vram_read(sys, row_addr as u16);
    let hi = vram_read(sys, (row_addr + 8) as u16);
    let bit = (7 - x % 8) as u8;
    let bits = ((lo >> bit) & 1) | (((hi >> bit) & 1) << 1u8);
    assert(bits < 4 && pal < 4) by (bit_vector)
        requires
            bits == ((lo >> bit) & 1) | (((hi >> bit) & 1) << 1u8),
            pal == (attr >> shift) & 3,
    ;
    let enabled = p.mask.enable_bg && (nx >= 8 || p.mask.enable_start_bg);
    if !enabled || bits == 0 {
        0
    } else {
        pal * 4 + bits
    }
}

/// Height of sprites in pixels.
pub open spec fn sprite_height(p: &PPU) -> int {
    if p.control.tall_sprites { 16 } else { 8 }
}

/// Whether sprite `i` of sprite memory covers scanline `row`.
pub open spec fn on_line(s: &System, i: int, row: int) -> bool {
    let y = s.oam@[4 * i] as int;
    y <= row < y + sprite_height(&s.ppu)
}

/// The indices, in order, of the sprites from `i` on that cover scanline `row`.
pub open spec fn line_sprites(s: &System, row: int, i: int) -> Seq<u8>
    decreases 64 - i,
{
    if i >= 64 || i < 0 {
        Seq::empty()
    } else if on_line(s, i, row) {
        seq![i as u8] + line_sprites(s, row, i + 1)
    } else {
        line_sprites(s, row, i + 1)
    }
}

/// The pattern-row address of sprite `i` on scanline `row`, flips applied.
pub open spec fn sprite_row_addr(s: &System, i: int, row: int) -> int {
    let tile = s.oam@[4 * i + 1] as int;
    let attrs = s.oam@[4 * i + 2];
    let h = sprite_height(&s.ppu);
    let r0 = row - s.oam@[4 * i] as int;
    let r = if attrs & 0x80 != 0 { h - 1 - r0 } else { r0 };
    if !s.ppu.control.tall_sprites {
        s.ppu.control.pattern_base_fg + tile * 16 + r
    } else {
        let table = (tile % 2) * 0x1000;
        let t = tile - tile % 2;
        if r >= 8 {
            table + (t + 1) * 16 + (r - 8)
        } else {
            table + t * 16 + r
        }
    }
}

/// Sprite `i` as chosen for scanline `row`, with its pattern row fetched.
pub open spec fn active_sprite(s: &System, i: int, row: int) -> ActiveSprite {
    let a = sprite_row_addr(s, i, row);
    ActiveSprite {
        index: i as u8,
        x: s.oam@[4 * i + 3],
        attrs: s.oam@[4 * i + 2],
        lo: vram_read_spec(s, a as u16),
        hi: vram_read_spec(s, (a + 8) as u16),
    }
}

/// The active sprites and overflow flag of `t` are those chosen from `s` for
/// scanline `row`: the first eight sprites that cover it, their pattern rows
/// fetched, and overflow set when more than eight cover it.
#[verifier::opaque]
pub open spec fn eval_post(s: &System, t: &System, row: int) -> bool {
    let n = line_sprites(s, row, 0);
    &&& t.ppu.sprite_outputs@.len() == if n.len() > 8 { 8 } else { n.len() }
    &&& forall|k: int|
        0 <= k < t.ppu.sprite_outputs@.len() ==> #[trigger] t.ppu.sprite_outputs@[k] == active_sprite(
            s,
            n[k] as int,
            row,
        )
    &&& t.ppu.status.sprite_overflow == (s.ppu.status.sprite_overflow || n.len() > 8)
}

/// Chooses the first eight sprites that cover scanline `row`, fetches their pattern
/// rows, and sets the overflow flag when more than eight cover it.
#[verifier::spinoff_prover]
#[verifier::rlimit(80)]
pub fn eval_fg(sys: &mut System, row: usize)
    requires
        old(sys).wf(),
        row < 240,
    ensures
        final(sys).wf(),
        eval_post(old(sys), final(sys), row as int),
        *final(sys) == (System {
            ppu: PPU {
                sprite_outputs: final(sys).ppu.sprite_outputs,
                status: final(sys).ppu.status,
                ..old(sys).ppu
            },
            ..*old(sys)
        }),
        final(sys).ppu.status.sprite_zero_hit == old(sys).ppu.status.sprite_zero_hit,
        final(sys).ppu.status.vertical_blank == old(sys).ppu.status.vertical_blank,
{
    reveal(eval_post);
    let (list, total) = select_sprites(sys, row);
    let ghost fb = sys.ppu.frame_buffer@;
    sys.ppu.sprite_outputs = list;
    if total > MAX_LINE_SPRITES {
        sys.ppu.status.sprite_overflow = true;
    }
    assert(sys.ppu.frame_buffer@ == fb);
}

/// The active sprites for scanline `row`, and how many sprites cover it in all.
#[verifier::spinoff_prover]
#[verifier::rlimit(60)]
fn select_sprites(sys: &System, row: usize) -> (r: (Vec<ActiveSprite>, usize))
    requires
        sys.wf(),
        row < 240,
    ensures
        ({
            let n = line_sprites(sys, row as int, 0);
            &&& r.1 == n.len()
            &&& r.0@.len() == if n.len() > 8 { 8 } else { n.len() }
            &&& forall|k: int|
                0 <= k < r.0@.len() ==> #[trigger] r.0@[k] == active_sprite(sys, n[k] as int, row as int)
        }),
{
    let ghost all = line_sprites(sys, row as int, 0);
    let mut list: Vec<ActiveSprite> = Vec::new();
    let h: usize = if sys.ppu.control.tall_sprites {
        16
    } else {
        8
    };
    let mut count: usize = 0;
    let mut i: usize = 0;
    while i < 64
        invariant
            sys.wf(),
            i <= 64,
            count <= i,
            h == sprite_height(&sys.ppu),
            row < 240,
            all == line_sprites(sys, row as int, 0),
            all == all.subrange(0, count as int) + line_sprites(sys, row as int, i as int),
            count <= all.len(),
            list@.len() == if count > 8 { 8 } else { count },
            forall|k: int|
                0 <= k < list@.len() ==> #[trigger] list@[k] == active_sprite(sys, all[k] as int, row as int),
        decreases 64 - i,
    {
        let ghost rest = line_sprites(sys, row as int, i as int);
        let y = sys.oam[4 * i] as usize;
        if y <= row && row < y + h {
            assert(rest == seq![i as u8] + line_sprites(sys, row as int, i + 1));
            assert(all[count as int] == i as u8) by {
                assert(all[count as int] == (all.subrange(0, count as int) + rest)[count as int]);
            }
            if count < MAX_LINE_SPRITES {
                let spr = fetch_sprite(sys, i, row);
                list.push(spr);
            }
            assert(all =~= all.subrange(0, count + 1) + line_sprites(sys, row as int, i + 1)) by {
                assert(all.subrange(0, count + 1) =~= all.subrange(0, count as int) + seq![i as u8]);
            }
            count = count + 1;
        } else {
            assert(rest == line_sprites(sys, row as int, i + 1));
        }
        i = i + 1;
    }
    assert(all =~= all.subrange(0, count as int));
    (list, count)
}

/// Sprite `i` with its pattern row for scanline `row` fetched.
fn fetch_sprite(sys: &System, i: usize, row: usize) -> (r: ActiveSprite)
    requires
        sys.wf(),
        i < 64,
        row < 240,
        on_line(sys, i as int, row as int),
    ensures
        r == active_sprite(sys, i as int, row as int),
{
    let a = sprite_row_addr_exec(sys, i, row);
    let lo = vram_read(sys, a);
    let hi = vram_read(sys, a + 8);
    ActiveSprite { index: i as u8, x: sys.oam[4 * i + 3], attrs: sys.oam[4 * i + 2], lo, hi }
}

fn sprite_row_addr_exec(sys: &System, i: usize, row: usize) -> (r: u16)
    requires
        sys.wf(),
        i < 64,
        row < 240,
        on_line(sys, i as int, row as int),
    ensures
        r == sprite_row_addr(sys, i as int, row as int),
        r + 8 < 0x2000,
{
    let tile = sys.oam[4 * i + 1] as usize;
    let attrs = sys.oam[4 * i + 2];
    let h: usize = if sys.ppu.control.tall_sprites {
        16
    } else {
        8
    };
    let r0 = row - sys.oam[4 * i] as usize;
    let r = if attrs & 0x80 != 0 {
        h - 1 - r0
    } else {
        r0
    };
    if !sys.ppu.control.tall_sprites {
        (sys.ppu.control.pattern_base_fg as usize + tile * 16 + r) as u16
    } else {
        let table = (tile % 2) * 0x1000;
        let t = tile - tile % 2;
        if r >= 8 {
            (table + (t + 1) * 16 + (r - 8)) as u16
        } else {
            (table + t * 16 + r) as u16
        }
    }
}

/// The sprite pixel at screen column `nx`: the first sprite of `list` from `k` on
/// that covers the column with a non-transparent pixel, as (its place in the list,
/// its palette index).
pub open spec fn fg_pixel_spec(list: Seq<ActiveSprite>, nx: int, k: int) -> Option<(int, u8)>
    decreases list.len() - k,
{
    if k >= list.len() || k < 0 {
        None
    } else {
        let sp = list[k];
        let col = nx - sp.x;
        let bit = if sp.attrs & 0x40 != 0 { col } else { 7 - col };
        let bits = pattern_bits(sp.lo, sp.hi, bit as u8);
        if 0 <= col < 8 && bits != 0 {
            Some((k, (0x10 + (sp.attrs & 3) * 4 + bits) as u8))
        } else {
            fg_pixel_spec(list, nx, k + 1)
        }
    }
}

proof fn lemma_fg_pixel_in_list(list: Seq<ActiveSprite>, nx: int, j: int)
    requires
        0 <= j,
    ensures
        fg_pixel_spec(list, nx, j) matches Some((k, _)) ==> j <= k < list.len(),
    decreases list.len() - j,
{
    if j < list.len() {
        lemma_fg_pixel_in_list(list, nx, j + 1);
    }
}

/// The sprite pixel at screen column `nx` among the active sprites, when sprites
/// show there.
pub fn draw_fg(sys: &System, nx: usize) -> (r: Option<(usize, u8)>)
    requires
        sys.wf(),
        nx < 256,
    ensures
        r == (if fg_enabled(&sys.ppu, nx as int) {
            match fg_pixel_spec(sys.ppu.sprite_outputs@, nx as int, 0) {
                Some((k, c)) => Some((k as usize, c)),
                None => None,
            }
        } else {
            None
        }),
        r matches Some((k, c)) ==> k < sys.ppu.sprite_outputs@.len() && 0x10 <= c < 0x20,
{
    if !(sys.ppu.mask.enable_fg && (nx >= 8 || sys.ppu.mask.enable_start_fg)) {
        return None;
    }
    let n = sys.ppu.sprite_outputs.len();
    let mut k: usize = 0;
    while k < n
        invariant
            sys.wf(),
            n == sys.ppu.sprite_outputs@.len(),
            k <= n,
            nx < 256,
            fg_enabled(&sys.ppu, nx as int),
            fg_pixel_spec(sys.ppu.sprite_outputs@, nx as int, 0) == fg_pixel_spec(
                sys.ppu.sprite_outputs@,
                nx as int,
                k as int,
            ),
        decreases n - k,
    {
        let sp = sys.ppu.sprite_outputs[k];
        if nx >= sp.x as usize && nx < sp.x as usize + 8 {
            let col = (nx - sp.x as usize) as u8;
            let lo = sp.lo;
            let hi = sp.hi;
            let attrs = sp.attrs;
            let bit: u8 = if attrs & 0x40 != 0 {
                col
            } else {
                7 - col
            };
            let bits = ((lo >> bit) & 1) | (((hi >> bit) & 1) << 1u8);
            let pal = attrs & 3;
            assert(bits < 4 && pal < 4) by (bit_vector)
                requires
                    bits == ((lo >> bit) & 1) | (((hi >> bit) & 1) << 1u8),
                    pal == attrs & 3,
            ;
            if bits != 0 {
                assert(fg_pixel_spec(sys.ppu.sprite_outputs@, nx as int, k as int) == Some(
                    (k as int, (0x10 + pal * 4 + bits) as u8),
                ));
                return Some((k, 0x10 + pal * 4 + bits));
            }
            assert(fg_pixel_spec(sys.ppu.sprite_outputs@, nx as int, k as int) == fg_pixel_spec(
                sys.ppu.sprite_outputs@,
                nx as int,
                k + 1,
            ));
        } else {
            assert(fg_pixel_spec(sys.ppu.sprite_outputs@, nx as int, k as int) == fg_pixel_spec(
                sys.ppu.sprite_outputs@,
                nx as int,
                k + 1,
            ));
        }
        k = k + 1;
    }
    None
}

/// The palette-memory index that the compositor picks from the background index
/// `bg` and the sprite pixel `fg` (palette index, behind-background flag).
pub open spec fn composite(bg: u8, fg: Option<(u8, bool)>) -> int {
    match fg {
        None => if bg % 4 == 0 { 0 } else { bg as int },
        Some((c, behind)) => if bg % 4 != 0 && behind { bg as int } else { c as int },
    }
}

/// The colour of screen pixel (nx, ny), given the background and sprite pixels.
pub open spec fn pixel_rgb(s: &System, bg: u8, fg: Option<(u8, bool)>) -> u32 {
    palette_colors()[(s.ppu.palette@[composite(bg, fg)] % 64) as int]
}

/// The sprite pixel, with its behind-background flag, that the compositor sees.
pub open spec fn fg_layer(s: &System, nx: int) -> Option<(u8, bool)> {
    if fg_enabled(&s.ppu, nx) {
        match fg_pixel_spec(s.ppu.sprite_outputs@, nx, 0) {
            Some((k, c)) => Some((c, s.ppu.sprite_outputs@[k].attrs & 0x20 != 0)),
            None => None,
        }
    } else {
        None
    }
}

/// Whether drawing (nx, ny) detects a sprite-0 hit: sprite 0 supplies the sprite
/// pixel over an opaque background, both layers are shown, and x is not 255.
pub open spec fn sprite_zero_hit_at(s: &System, nx: int, ny: int) -> bool {
    &&& fg_enabled(&s.ppu, nx)
    &&& bg_enabled(&s.ppu, nx)
    &&& nx != 255
    &&& bg_pixel_spec(s, nx, ny) % 4 != 0
    &&& match fg_pixel_spec(s.ppu.sprite_outputs@, nx, 0) {
        Some((k, _)) => s.ppu.sprite_outputs@[k].index == 0,
        None => false,
    }
}

/// Draws screen pixel (nx, ny) into the frame buffer.
pub fn draw(sys: &mut System, nx: usize, ny: usize)
    requires
        old(sys).wf(),
        nx < 256,
        ny < 240,
    ensures
        final(sys).wf(),
        final(sys).ppu.frame_buffer@ == old(sys).ppu.frame_buffer@.update(
            (ny * WIDTH + nx) as int,
            pixel_rgb(old(sys), bg_pixel_spec(old(sys), nx as int, ny as int), fg_layer(old(sys), nx as int)),
        ),
        final(sys).ppu.status.sprite_zero_hit == (old(sys).ppu.status.sprite_zero_hit
            || sprite_zero_hit_at(old(sys), nx as int, ny as int)),
        *final(sys) == (System {
            ppu: PPU {
                frame_buffer: final(sys).ppu.frame_buffer,
                status: crate::ppu::registers::Status {
                    sprite_zero_hit: final(sys).ppu.status.sprite_zero_hit,
                    ..old(sys).ppu.status
                },
                ..old(sys).ppu
            },
            ..*old(sys)
        }),
{
    let (index, hit) = compose(sys, nx, ny);
    if hit {
        sys.ppu.status.sprite_zero_hit = true;
    }
    let rgb = palette_color(sys.ppu.palette[index as usize]);
    let ghost fb0 = sys.ppu.frame_buffer@;
    sys.ppu.frame_buffer.set(ny * WIDTH + nx, rgb);
    proof {
        reveal(super::frame_in_palette);
        let k = (old(sys).ppu.palette@[index as int] % 64) as int;
        assert forall|i: int| 0 <= i < sys.ppu.frame_buffer@.len() implies #[trigger] super::is_palette_color(sys.ppu.frame_buffer@[i]) by {
            if i == (ny * WIDTH + nx) as int {
                assert(palette_colors()[k] == sys.ppu.frame_buffer@[i]);
            } else {
                assert(fb0[i] == sys.ppu.frame_buffer@[i]);
            }
        }
    }
}

/// The palette-memory index of screen pixel (nx, ny), and whether it is a sprite-0
/// hit.
#[verifier::spinoff_prover]
#[verifier::rlimit(40)]
fn compose(sys: &System, nx: usize, ny: usize) -> (r: (u8, bool))
    requires
        sys.wf(),
        nx < 256,
        ny < 240,
    ensures
        r.0 as int == composite(bg_pixel_spec(sys, nx as int, ny as int), fg_layer(sys, nx as int)),
        r.0 < 32,
        r.1 == sprite_zero_hit_at(sys, nx as int, ny as int),
{
    let bg = draw_bg(sys, nx, ny);
    let fg = draw_fg(sys, nx);
    let bg_opaque = bg % 4 != 0;
    match fg {
        None => {
            assert(fg_layer(sys, nx as int) is None);
            assert(!sprite_zero_hit_at(sys, nx as int, ny as int));
            (if bg_opaque {
                bg
            } else {
                0
            }, false)
        },
        Some((k, c)) => {
            let spr = sys.ppu.sprite_outputs[k];
            let behind = spr.attrs & 0x20 != 0;
            assert(fg_enabled(&sys.ppu, nx as int));
            proof {
                lemma_fg_pixel_in_list(sys.ppu.sprite_outputs@, nx as int, 0);
            }
            assert(fg_pixel_spec(sys.ppu.sprite_outputs@, nx as int, 0) == Some((k as int, c)));
            assert(fg_layer(sys, nx as int) == Some((c, behind)));
            let hit = spr.index == 0 && bg_opaque && nx != 255 && sys.ppu.mask.enable_bg && (nx >= 8
                || sys.ppu.mask.enable_start_bg);
            (if bg_opaque && behind {
                bg
            } else {
                c
            }, hit)
        },
    }
}

} // verus!
