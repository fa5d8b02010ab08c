use vstd::prelude::*;

verus! {

/// PPUMASK, decoded.
#[derive(Clone, Copy, PartialEq, Eq, Structural, Debug)]
pub struct Mask {
    pub greyscale: bool,
    pub enable_start_bg: bool,
    pub enable_start_fg: bool,
    pub enable_bg: bool,
    pub enable_fg: bool,
    pub emphasis_red: bool,
    pub emphasis_green: bool,
    pub emphasis_blue: bool,
}

pub open spec fn mask_of(value: u8) -> Mask {
    Mask {
        greyscale: value & 0x01 != 0,
        enable_start_bg: value & 0x02 != 0,
        enable_start_fg: value & 0x04 != 0,
        enable_bg: value & 0x08 != 0,
        enable_fg: value & 0x10 != 0,
        emphasis_red: value & 0x20 != 0,
        emphasis_green: value & 0x40 != 0,
        emphasis_blue: value & 0x80 != 0,
    }
}

impl Default for Mask {
    fn default() -> (r: Self)
        ensures
            r == mask_of(0),
    {
        let r = Mask {
            greyscale: false,
            enable_start_bg: false,
            enable_start_fg: false,
            enable_bg: false,
            enable_fg: false,
            emphasis_red: false,
            emphasis_green: false,
            emphasis_blue: false,
        };
        assert(r == mask_of(0)) by {
            assert(0u8 & 0x01 == 0 && 0u8 & 0x02 == 0 && 0u8 & 0x04 == 0 && 0u8 & 0x08 == 0 && 0u8
                & 0x10 == 0 && 0u8 & 0x20 == 0 && 0u8 & 0x40 == 0 && 0u8 & 0x80 == 0) by (bit_vector);
        }
        r
    }
}

impl From<u8> for Mask {
    fn from(value: u8) -> (r: Self)
        ensures
            r == mask_of(value),
    {
        Mask {
            greyscale: value & 0x01 != 0,
            enable_start_bg: value & 0x02 != 0,
            enable_start_fg: value & 0x04 != 0,
            enable_bg: value & 0x08 != 0,
            enable_fg: value & 0x10 != 0,
            emphasis_red: value & 0x20 != 0,
            emphasis_green: value & 0x40 != 0,
            emphasis_blue: value & 0x80 != 0,
        }
    }
}

impl vstd::std_specs::convert::FromSpecImpl<u8> for Mask {
    open spec fn obeys_from_spec() -> bool {
        true
    }

    open spec fn from_spec(v: u8) -> Mask {
        mask_of(v)
    }
}

/// PPUCTRL, decoded.
#[derive(Clone, Copy, PartialEq, Eq, Structural, Debug)]
pub struct Control {
    pub nametable_address: u16,
    pub vram_incr: u16,
    pub tall_sprites: bool,
    pub pattern_base_fg: u16,
    pub pattern_base_bg: u16,
    pub ppu_bg_out: bool,
    pub enable_nmi: bool,
}

pub open spec fn control_of(value: u8) -> Control {
    let tall = value & 0x20 != 0;
    Control {
        nametable_address: (0x2000 + (value & 3) as int * 0x400) as u16,
        vram_incr: if value & 0x04 != 0 { 32 } else { 1 },
        tall_sprites: tall,
        pattern_base_fg: if value & 0x08 != 0 && !tall { 0x1000 } else { 0 },
        pattern_base_bg: if value & 0x10 != 0 { 0x1000 } else { 0 },
        ppu_bg_out: value & 0x40 != 0,
        enable_nmi: value & 0x80 != 0,
    }
}

impl Control {
    /// Whether the fields are ones that some control byte decodes to.
    pub open spec fn wf(self) -> bool {
        &&& (self.nametable_address == 0x2000 || self.nametable_address == 0x2400
            || self.nametable_address == 0x2800 || self.nametable_address == 0x2c00)
        &&& (self.vram_incr == 1 || self.vram_incr == 32)
        &&& (self.pattern_base_fg == 0 || self.pattern_base_fg == 0x1000)
        &&& (self.pattern_base_bg == 0 || self.pattern_base_bg == 0x1000)
    }
}

impl Default for Control {
    fn default() -> (r: Self)
        ensures
            r == control_of(0),
            r.wf(),
    {
        let r = Control {
            nametable_address: 0x2000,
            vram_incr: 1,
            tall_sprites: false,
            pattern_base_fg: 0,
            pattern_base_bg: 0,
            ppu_bg_out: false,
            enable_nmi: false,
        };
        assert(r == control_of(0)) by {
            assert(0u8 & 3 == 0 && 0u8 & 0x04 == 0 && 0u8 & 0x08 == 0 && 0u8 & 0x10 == 0 && 0u8 & 0x20
                == 0 && 0u8 & 0x40 == 0 && 0u8 & 0x80 == 0) by (bit_vector);
        }
        r
    }
}

impl From<u8> for Control {
    fn from(value: u8) -> (r: Self)
        ensures
            r == control_of(value),
            r.wf(),
    {
        let tall_sprites = value & 0x20 != 0;
        let nt = value & 3;
        assert(nt < 4) by (bit_vector)
            requires
                nt == value & 3,
        ;
        Control {
            nametable_address: 0x2000 + nt as u16 * 0x400,
            vram_incr: if value & 0x04 != 0 {
                32
            } else {
                1
            },
            tall_sprites,
            pattern_base_fg: if value & 0x08 != 0 && !tall_sprites {
                0x1000
            } else {
                0
            },
            pattern_base_bg: if value & 0x10 != 0 {
                0x1000
            } else {
                0
            },
            ppu_bg_out: value & 0x40 != 0,
            enable_nmi: value & 0x80 != 0,
        }
    }
}

impl vstd::std_specs::convert::FromSpecImpl<u8> for Control {
    open spec fn obeys_from_spec() -> bool {
        true
    }

    open spec fn from_spec(v: u8) -> Control {
        control_of(v)
    }
}

/// PPUSTATUS: the three flags it reports.
#[derive(Clone, Copy, PartialEq, Eq, Structural, Debug)]
pub struct Status {
    pub sprite_overflow: bool,
    pub sprite_zero_hit: bool,
    pub vertical_blank: bool,
}

pub open spec fn status_of(value: u8) -> Status {
    Status {
        sprite_overflow: value & 0x20 != 0,
        sprite_zero_hit: value & 0x40 != 0,
        vertical_blank: value & 0x80 != 0,
    }
}

/// The byte a read of PPUSTATUS returns: overflow in bit 5, sprite-0 hit in bit 6,
/// v-blank in bit 7.
pub open spec fn status_bits(s: Status) -> u8 {
    (if s.sprite_overflow { 0x20u8 } else { 0u8 }) | (if s.sprite_zero_hit { 0x40u8 } else { 0u8 })
        | (if s.vertical_blank { 0x80u8 } else { 0u8 })
}

impl Status {
    pub fn bits(&self) -> (r: u8)
        ensures
            r == status_bits(*self),
    {
        (if self.sprite_overflow {
            0x20u8
        } else {
            0u8
        }) | (if self.sprite_zero_hit {
            0x40u8
        } else {
            0u8
        }) | (if self.vertical_blank {
            0x80u8
        } else {
            0u8
        })
    }
}

impl Default for Status {
    fn default() -> (r: Self)
        ensures
            !r.sprite_overflow && !r.sprite_zero_hit && !r.vertical_blank,
    {
        Status { sprite_overflow: false, sprite_zero_hit: false, vertical_blank: false }
    }
}

impl From<u8> for Status {
    fn from(value: u8) -> (r: Self)
        ensures
            r == status_of(value),
    {
        Status {
            sprite_overflow: value & 0x20 != 0,
            sprite_zero_hit: value & 0x40 != 0,
            vertical_blank: value & 0x80 != 0,
        }
    }
}

impl vstd::std_specs::convert::FromSpecImpl<u8> for Status {
    open spec fn obeys_from_spec() -> bool {
        true
    }

    open spec fn from_spec(v: u8) -> Status {
        status_of(v)
    }
}

} // verus!
