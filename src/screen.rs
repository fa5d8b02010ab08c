use vstd::prelude::*;

use crate::font::{glyph_of, Font, COLS, ROWS};

verus! {

/// A host-side RGB canvas, row-major.
pub struct Screen {
    pub width: usize,
    pub height: usize,
    pub buffer: Vec<u32>,
}

/// The colour a glyph pixel of grey level `mono` is drawn in: grey, or its
/// complement for colour 1.
pub open spec fn glyph_rgb(mono: u8, color: u8) -> u32 {
    let pixel = ((mono as int) * 0x10101) as u32;
    if color == 1 { !pixel } else { pixel }
}

/// Whether canvas pixel `q` (row-major, `width` wide) lies in the glyph cell whose
/// top-left corner is (ox, oy), within its first `rows` rows and, in row `rows`,
/// its first `cols` columns.
pub open spec fn in_cell(q: int, width: int, font: &Font, ox: int, oy: int, rows: int, cols: int) -> bool {
    let py = q / width;
    let px = q % width;
    &&& ox <= px < ox + font.width
    &&& oy <= py < oy + font.height
    &&& (py - oy < rows || (py - oy == rows && px - ox < cols))
}

/// The canvas `buf` after painting glyph `glyph` at (ox, oy): every non-zero pixel
/// of the glyph that falls on the canvas, limited to the part given by `rows` and
/// `cols` (see `in_cell`).
pub open spec fn painted(
    buf: Seq<u32>,
    width: int,
    font: &Font,
    glyph: int,
    ox: int,
    oy: int,
    color: u8,
    rows: int,
    cols: int,
) -> Seq<u32> {
    Seq::new(
        buf.len(),
        |q: int|
            {
                let mono = font.pixel_spec(glyph, q % width - ox, q / width - oy);
                if in_cell(q, width, font, ox, oy, rows, cols) && mono != 0 {
                    glyph_rgb(mono, color)
                } else {
                    buf[q]
                }
            },
    )
}

/// The line and column of the glyph cell that character `k` of `text` lands in.
pub open spec fn cell_of(text: Seq<char>, k: int) -> (int, int)
    decreases k,
{
    if k <= 0 {
        (0, 0)
    } else {
        let (li, ci) = cell_of(text, k - 1);
        if text[k - 1] == '\n' {
            (li + 1, 0)
        } else {
            (li, ci + 1)
        }
    }
}

/// The canvas `buf` after drawing the first `k` characters of `text` at (x, y).
pub open spec fn text_painted(
    buf: Seq<u32>,
    width: int,
    font: &Font,
    x: int,
    y: int,
    text: Seq<char>,
    color: u8,
    k: int,
) -> Seq<u32>
    decreases k,
{
    if k <= 0 {
        buf
    } else {
        let before = text_painted(buf, width, font, x, y, text, color, k - 1);
        let c = text[k - 1];
        let (li, ci) = cell_of(text, k - 1);
        if c == '\n' {
            before
        } else {
            painted(
                before,
                width,
                font,
                glyph_of(c) as int,
                x + ci * font.width,
                y + li * font.height,
                color,
                font.height as int,
                0,
            )
        }
    }
}

impl Screen {
    pub open spec fn wf(&self) -> bool {
        self.buffer@.len() == self.width * self.height
    }

    pub fn new(width: usize, height: usize, base_color: u32) -> (r: Self)
        requires
            width * height <= usize::MAX,
        ensures
            r.wf(),
            r.width == width,
            r.height == height,
            r.buffer@ == Seq::new((width * height) as nat, |i: int| base_color),
    {
        let buffer = vec![base_color; width * height];
        assert(buffer@ =~= Seq::new((width * height) as nat, |i: int| base_color));
        Self { width, height, buffer }
    }

    /// Sets pixel (bx, by); a position off the canvas is ignored.
    pub fn set_pixel(&mut self, by: usize, bx: usize, pixel: u32)
        requires
            old(self).wf(),
        ensures
            final(self).wf(),
            final(self).width == old(self).width,
            final(self).height == old(self).height,
            final(self).buffer@ == if bx < old(self).width && by < old(self).height {
                old(self).buffer@.update(by * old(self).width + bx, pixel)
            } else {
                old(self).buffer@
            },
    {
        if bx >= self.width || by >= self.height {
            return;
        }
        let n = self.buffer.len();
        assert(by * self.width + bx < self.width * self.height) by (nonlinear_arith)
            requires
                bx < self.width,
                by < self.height,
        ;
        assert(by * self.width + bx < n);
        let offset = by * self.width + bx;
        self.buffer.set(offset, pixel);
    }

    /// Draws `text` with its top-left corner at (x, y): one glyph cell per character,
    /// a new line after each '\n'. Zero (transparent) glyph pixels are not drawn;
    /// the others are grey, or inverted for colour 1. What falls off the canvas is
    /// dropped.
    pub fn draw_text(&mut self, font: &Font, x: usize, y: usize, text: &[char], color: u8)
        requires
            old(self).wf(),
            font.wf(),
            x + (text@.len() + 1) * font.width < usize::MAX,
            y + (text@.len() + 1) * font.height < usize::MAX,
            old(self).width > 0,
        ensures
            final(self).wf(),
            final(self).width == old(self).width,
            final(self).height == old(self).height,
            final(self).buffer@ == text_painted(
                old(self).buffer@,
                old(self).width as int,
                font,
                x as int,
                y as int,
                text@,
                color,
                text@.len() as int,
            ),
    {
        let mut li: usize = 0;
        let mut ci: usize = 0;
        let mut k: usize = 0;
        while k < text.len()
            invariant
                self.wf(),
                font.wf(),
                self.width == old(self).width,
                self.height == old(self).height,
                k <= text@.len(),
                li <= k,
                ci <= k,
                k <= text@.len(),
                (li as int, ci as int) == cell_of(text@, k as int),
                self.width > 0,
                self.buffer@ == text_painted(
                    old(self).buffer@,
                    old(self).width as int,
                    font,
                    x as int,
                    y as int,
                    text@,
                    color,
                    k as int,
                ),
                x + (text@.len() + 1) * font.width < usize::MAX,
                y + (text@.len() + 1) * font.height < usize::MAX,
            decreases text@.len() - k,
        {
            let c = text[k];
            if c == '\n' {
                li = li + 1;
                ci = 0;
            } else {
                let glyph = font.char_index(c);
                assert(glyph == glyph_of(c));
                assert(x + (ci + 1) * font.width < usize::MAX && y + (li + 1) * font.height < usize::MAX)
                    by (nonlinear_arith)
                    requires
                        ci < text@.len(),
                        li < text@.len(),
                        x + (text@.len() + 1) * font.width < usize::MAX,
                        y + (text@.len() + 1) * font.height < usize::MAX,
                ;
                self.draw_glyph(font, glyph, x, y, li, ci, color);
                ci = ci + 1;
            }
            k = k + 1;
        }
    }

    fn draw_glyph(&mut self, font: &Font, glyph: usize, x: usize, y: usize, li: usize, ci: usize, color: u8)
        requires
            old(self).wf(),
            font.wf(),
            glyph < COLS * ROWS,
            x + (ci + 1) * font.width < usize::MAX,
            y + (li + 1) * font.height < usize::MAX,
            old(self).width > 0,
        ensures
            final(self).wf(),
            final(self).width == old(self).width,
            final(self).height == old(self).height,
            final(self).buffer@ == painted(
                old(self).buffer@,
                old(self).width as int,
                font,
                glyph as int,
                x + ci * font.width,
                y + li * font.height,
                color,
                font.height as int,
                0,
            ),
    {
        assert(x + ci * font.width + font.width < usize::MAX && y + li * font.height + font.height
            < usize::MAX) by (nonlinear_arith)
            requires
                x + (ci + 1) * font.width < usize::MAX,
                y + (li + 1) * font.height < usize::MAX,
        ;
        let ox = x + ci * font.width;
        let oy = y + li * font.height;
        let ghost w = self.width as int;
        let ghost buf0 = old(self).buffer@;
        let mut cy: usize = 0;
        assert(self.buffer@ =~= painted(buf0, w, font, glyph as int, ox as int, oy as int, color, 0, 0));
        while cy < font.height
            invariant
                self.wf(),
                w == self.width,
                w > 0,
                buf0 == old(self).buffer@,
                cy <= font.height,
                ox == x + ci * font.width,
                oy == y + li * font.height,
                self.buffer@ == painted(buf0, w, font, glyph as int, ox as int, oy as int, color, cy as int, 0),
                font.wf(),
                self.width == old(self).width,
                self.height == old(self).height,
                glyph < COLS * ROWS,
                ox + font.width < usize::MAX,
                oy + font.height < usize::MAX,
            decreases font.height - cy,
        {
            let mut cx: usize = 0;
            while cx < font.width
                invariant
                    self.wf(),
                    w == self.width,
                    w > 0,
                    cx <= font.width,
                    self.buffer@ == painted(buf0, w, font, glyph as int, ox as int, oy as int, color, cy as int, cx as int),
                    font.wf(),
                    self.width == old(self).width,
                    self.height == old(self).height,
                    glyph < COLS * ROWS,
                    cy < font.height,
                    ox + font.width < usize::MAX,
                    oy + font.height < usize::MAX,
                decreases font.width - cx,
            {
                let mono = font.get_pixel(glyph, cx, cy);
                let ghost before = self.buffer@;
                if mono != 0 {
                    let grey = (mono as u32) * 0x10101;
                    let pixel = if color == 1 {
                        !grey
                    } else {
                        grey
                    };
                    self.set_pixel(oy + cy, ox + cx, pixel);
                }
                proof {
                    lemma_paint_step(buf0, before, self.buffer@, w, font, glyph as int, ox as int, oy as int, color, cy as int, cx as int, self.height as int);
                }
                cx = cx + 1;
            }
            proof {
                assert(self.buffer@ =~= painted(buf0, w, font, glyph as int, ox as int, oy as int, color, cy + 1, 0)) by {
                    assert forall|q: int| 0 <= q < buf0.len() implies in_cell(q, w, font, ox as int, oy as int, cy as int, font.width as int)
                        == in_cell(q, w, font, ox as int, oy as int, cy + 1, 0) by {}
                }
            }
            cy = cy + 1;
        }
    }
}

/// Painting one more glyph pixel, (ox + cx, oy + cy), moves `painted` one column on.
proof fn lemma_paint_step(
    buf0: Seq<u32>,
    before: Seq<u32>,
    after: Seq<u32>,
    w: int,
    font: &Font,
    glyph: int,
    ox: int,
    oy: int,
    color: u8,
    cy: int,
    cx: int,
    height: int,
)
    requires
        w > 0,
        height >= 0,
        buf0.len() == w * height,
        0 <= cx < font.width,
        0 <= cy < font.height,
        ox >= 0,
        oy >= 0,
        before == painted(buf0, w, font, glyph, ox, oy, color, cy, cx),
        ({
            let mono = font.pixel_spec(glyph, cx, cy);
            let px = ox + cx;
            let py = oy + cy;
            after == if mono != 0 && px < w && py < height {
                before.update(py * w + px, glyph_rgb(mono, color))
            } else {
                before
            }
        }),
    ensures
        after == painted(buf0, w, font, glyph, ox, oy, color, cy, cx + 1),
{
    let px = ox + cx;
    let py = oy + cy;
    let mono = font.pixel_spec(glyph, cx, cy);
    let target = painted(buf0, w, font, glyph, ox, oy, color, cy, cx + 1);
    if px < w && py < height {
        assert(0 <= py * w + px < w * height) by (nonlinear_arith)
            requires
                0 <= px < w,
                0 <= py < height,
        ;
    }
    assert forall|q: int| 0 <= q < buf0.len() implies after[q] == target[q] by {
        let qy = q / w;
        let qx = q % w;
        vstd::arithmetic::div_mod::lemma_fundamental_div_mod(q, w);
        vstd::arithmetic::div_mod::lemma_mod_bound(q, w);
        assert(q == w * qy + qx);
        assert(0 <= qy < height) by (nonlinear_arith)
            requires
                q == w * qy + qx,
                0 <= qx < w,
                0 <= q < w * height,
                w > 0,
        ;
        let m = font.pixel_spec(glyph, qx - ox, qy - oy);
        assert(target[q] == if in_cell(q, w, font, ox, oy, cy, cx + 1) && m != 0 {
            glyph_rgb(m, color)
        } else {
            buf0[q]
        });
        assert(before[q] == if in_cell(q, w, font, ox, oy, cy, cx) && m != 0 {
            glyph_rgb(m, color)
        } else {
            buf0[q]
        });
        if qy == py && qx == px {
            assert(m == mono);
            assert(q == py * w + px) by (nonlinear_arith)
                requires
                    q == w * qy + qx,
                    qy == py,
                    qx == px,
            ;
            assert(in_cell(q, w, font, ox, oy, cy, cx + 1));
            assert(!in_cell(q, w, font, ox, oy, cy, cx));
            if mono != 0 {
                assert(after == before.update(q, glyph_rgb(mono, color)));
                assert(after[q] == glyph_rgb(mono, color));
            } else {
                assert(after[q] == before[q]);
            }
        } else {
            assert(in_cell(q, w, font, ox, oy, cy, cx + 1) == in_cell(q, w, font, ox, oy, cy, cx));
            if mono != 0 && px < w && py < height {
                assert(q != py * w + px) by {
                    if q == py * w + px {
                        vstd::arithmetic::div_mod::lemma_fundamental_div_mod_converse(q, w, py, px);
                    }
                }
            }
            assert(after[q] == before[q]);
        }
    }
    assert(after =~= target);
}

} // verus!
