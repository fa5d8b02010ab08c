use vstd::prelude::*;

verus! {

/// Why a bitmap font file was refused.
#[derive(Clone, Copy, PartialEq, Eq, Structural, Debug)]
pub enum FontError {
    /// Fewer than three bytes.
    TooSmall,
    /// The first three bytes are not "BMF".
    BadMagic,
    /// The header ends before all five fields.
    MissingField,
    /// A colour mode other than 0 (mono) or 1 (outlined).
    UnsupportedColorMode(u8),
    UnsupportedVersion(u8),
    UnsupportedOutline(u8),
    /// Glyphs of another size than 10 by 18.
    UnsupportedSize,
    /// The pixel data ends early.
    Truncated,
}

#[derive(Clone, Copy, PartialEq, Eq, Structural, Debug)]
pub enum ColorMode {
    Mono,
    Outlined,
}

impl ColorMode {
    pub open spec fn code(self) -> u8 {
        match self {
            ColorMode::Mono => 0,
            ColorMode::Outlined => 1,
        }
    }

    pub fn try_from(value: u8) -> (r: Result<ColorMode, FontError>)
        ensures
            value == 0 ==> r == Ok::<ColorMode, FontError>(ColorMode::Mono),
            value == 1 ==> r == Ok::<ColorMode, FontError>(ColorMode::Outlined),
            value > 1 ==> r == Err::<ColorMode, FontError>(FontError::UnsupportedColorMode(value)),
    {
        if value == 0 {
            Ok(ColorMode::Mono)
        } else if value == 1 {
            Ok(ColorMode::Outlined)
        } else {
            Err(FontError::UnsupportedColorMode(value))
        }
    }
}

/// The eight-byte header of a bitmap font: "BMF", version, glyph width and height,
/// outline width, colour mode.
#[derive(Clone, Copy, PartialEq, Eq, Structural, Debug)]
pub struct BitmapFontHeader {
    pub version: u8,
    pub width: u8,
    pub height: u8,
    pub outline: u8,
    pub color_mode: ColorMode,
}

/// The header that `b` starts with, or why there is none.
pub open spec fn header_spec(b: Seq<u8>) -> Result<BitmapFontHeader, FontError> {
    if b.len() < 3 {
        Err(FontError::TooSmall)
    } else if !(b[0] == 0x42 && b[1] == 0x4d && b[2] == 0x46) {
        Err(FontError::BadMagic)
    } else if b.len() < 8 {
        Err(FontError::MissingField)
    } else if b[7] > 1 {
        Err(FontError::UnsupportedColorMode(b[7]))
    } else {
        Ok(
            BitmapFontHeader {
                version: b[3],
                width: b[4],
                height: b[5],
                outline: b[6],
                color_mode: if b[7] == 0 { ColorMode::Mono } else { ColorMode::Outlined },
            },
        )
    }
}

impl BitmapFontHeader {
    /// Reads the header at the start of `bytes`.
    pub fn try_from_iter(bytes: &[u8]) -> (r: Result<Self, FontError>)
        ensures
            r == header_spec(bytes@),
    {
        if bytes.len() < 3 {
            return Err(FontError::TooSmall);
        }
        if !(bytes[0] == 0x42 && bytes[1] == 0x4d && bytes[2] == 0x46) {
            return Err(FontError::BadMagic);
        }
        if bytes.len() < 8 {
            return Err(FontError::MissingField);
        }
        let color_mode = match ColorMode::try_from(bytes[7]) {
            Ok(m) => m,
            Err(e) => return Err(e),
        };
        Ok(BitmapFontHeader { version: bytes[3], width: bytes[4], height: bytes[5], outline: bytes[6], color_mode })
    }

    /// The header as its eight bytes.
    pub fn to_bytes(&self) -> (r: [u8; 8])
        ensures
            r@ == seq![0x42u8, 0x4du8, 0x46u8, self.version, self.width, self.height, self.outline, self.color_mode.code()],
    {
        let mode: u8 = match self.color_mode {
            ColorMode::Mono => 0,
            ColorMode::Outlined => 1,
        };
        let r = [0x42u8, 0x4d, 0x46, self.version, self.width, self.height, self.outline, mode];
        assert(r@ =~= seq![0x42u8, 0x4du8, 0x46u8, self.version, self.width, self.height, self.outline, self.color_mode.code()]);
        r
    }
}

/// The glyph that shows character `c`.
pub open spec fn glyph_of(c: char) -> usize {
    if c == '\u{2588}' {
        0x1f
    } else if c == '\u{2593}' {
        0x1e
    } else if c == '\u{2592}' {
        0x1d
    } else if c == '\u{2591}' {
        0x1c
    } else if c == '\u{2584}' {
        0x1b
    } else if c == '\u{2580}' {
        0x1a
    } else if (c as u32) < 128 {
        c as u32 as usize
    } else {
        0
    }
}

/// Glyph rows in a font sheet.
pub const ROWS: usize = 4;

/// Glyph columns in a font sheet.
pub const COLS: usize = 32;

/// Glyph width this renderer accepts.
pub const GLYPH_WIDTH: usize = 10;

/// Glyph height this renderer accepts.
pub const GLYPH_HEIGHT: usize = 18;

/// A sheet of 4 rows of 32 glyphs, grey levels in row-major order.
pub struct Font {
    pub bitmap: Vec<u8>,
    pub width: usize,
    pub height: usize,
}

impl Font {
    pub open spec fn wf(&self) -> bool {
        &&& self.width == GLYPH_WIDTH
        &&& self.height == GLYPH_HEIGHT
        &&& self.bitmap@.len() == GLYPH_WIDTH * COLS * GLYPH_HEIGHT * ROWS
    }

    /// The grey level of pixel (x, y) of glyph `char_index`.
    pub open spec fn pixel_spec(&self, char_index: int, x: int, y: int) -> u8 {
        let row = (char_index / COLS as int) * self.height + y;
        let col = (char_index % COLS as int) * self.width + x;
        self.bitmap@[row * (self.width * COLS) + col]
    }

    /// Reads a font file: an outlined version-1 header with 10 by 18 glyphs and an
    /// outline of 1, then the sheet's pixels.
    pub fn try_from_bytes(bytes: &[u8]) -> (r: Result<Font, FontError>)
        ensures
            header_spec(bytes@) is Err ==> r == Err::<Font, FontError>(header_spec(bytes@)->Err_0),
            r is Ok ==> {
                let h = header_spec(bytes@)->Ok_0;
                let n = (GLYPH_WIDTH * COLS * GLYPH_HEIGHT * ROWS) as int;
                &&& h.version == 1 && h.color_mode == ColorMode::Outlined && h.outline == 1
                &&& h.width == GLYPH_WIDTH && h.height == GLYPH_HEIGHT
                &&& bytes@.len() >= 8 + n
                &&& r->Ok_0.wf()
                &&& r->Ok_0.bitmap@ == bytes@.subrange(8, 8 + n)
            },
            header_spec(bytes@) matches Ok(h) ==> (h.version == 1 && h.color_mode == ColorMode::Outlined
                && h.outline == 1 && h.width == GLYPH_WIDTH && h.height == GLYPH_HEIGHT
                && bytes@.len() >= 8 + GLYPH_WIDTH * COLS * GLYPH_HEIGHT * ROWS ==> r is Ok),
    {
        let header = match BitmapFontHeader::try_from_iter(bytes) {
            Ok(h) => h,
            Err(e) => return Err(e),
        };
        if header.version != 1 {
            return Err(FontError::UnsupportedVersion(header.version));
        }
        match header.color_mode {
            ColorMode::Outlined => {},
            ColorMode::Mono => return Err(FontError::UnsupportedColorMode(0)),
        }
        if header.outline != 1 {
            return Err(FontError::UnsupportedOutline(header.outline));
        }
        if header.width as usize != GLYPH_WIDTH || header.height as usize != GLYPH_HEIGHT {
            return Err(FontError::UnsupportedSize);
        }
        let n = GLYPH_WIDTH * COLS * GLYPH_HEIGHT * ROWS;
        if bytes.len() < 8 + n {
            return Err(FontError::Truncated);
        }
        let mut bitmap: Vec<u8> = Vec::with_capacity(n);
        let mut i: usize = 0;
        while i < n
            invariant
                i <= n,
                n == GLYPH_WIDTH * COLS * GLYPH_HEIGHT * ROWS,
                bytes@.len() >= 8 + n,
                bitmap@ == bytes@.subrange(8, 8 + i),
            decreases n - i,
        {
            bitmap.push(bytes[8 + i]);
            i = i + 1;
            assert(bitmap@ =~= bytes@.subrange(8, 8 + i));
        }
        Ok(Font { bitmap, width: GLYPH_WIDTH, height: GLYPH_HEIGHT })
    }

    /// The grey level of pixel (x, y) of glyph `char_index`.
    pub fn get_pixel(&self, char_index: usize, x: usize, y: usize) -> (r: u8)
        requires
            self.wf(),
            char_index < COLS * ROWS,
            x < self.width,
            y < self.height,
        ensures
            r == self.pixel_spec(char_index as int, x as int, y as int),
    {
        let row = (char_index / COLS) * self.height + y;
        let col = (char_index % COLS) * self.width + x;
        assert(row < GLYPH_HEIGHT * ROWS && col < GLYPH_WIDTH * COLS) by (nonlinear_arith)
            requires
                row == (char_index / COLS) * GLYPH_HEIGHT + y,
                col == (char_index % COLS) * GLYPH_WIDTH + x,
                char_index < COLS * ROWS,
                x < GLYPH_WIDTH,
                y < GLYPH_HEIGHT,
        ;
        assert(row * (GLYPH_WIDTH * COLS) + col < GLYPH_WIDTH * COLS * GLYPH_HEIGHT * ROWS) by (nonlinear_arith)
            requires
                row < GLYPH_HEIGHT * ROWS,
                col < GLYPH_WIDTH * COLS,
        ;
        self.bitmap[row * (self.width * COLS) + col]
    }

    /// The glyph that shows character `c`: the shade blocks sit at $1A-$1F, ASCII at
    /// its own code, anything else at glyph 0.
    pub fn char_index(&self, c: char) -> (r: usize)
        ensures
            r < COLS * ROWS,
            r == glyph_of(c),
    {
        if c == '\u{2588}' {
            0x1f
        } else if c == '\u{2593}' {
            0x1e
        } else if c == '\u{2592}' {
            0x1d
        } else if c == '\u{2591}' {
            0x1c
        } else if c == '\u{2584}' {
            0x1b
        } else if c == '\u{2580}' {
            0x1a
        } else if (c as u32) < 128 {
            c as u32 as usize
        } else {
            0
        }
    }
}

} // verus!
