use vstd::prelude::*;

use crate::addr::Addr;
use crate::error::EmuError;
use crate::mappers::{self, fresh_mapper, roms_fit, CartMapper, Mapper};

verus! {

/// Length of the header at the start of a cartridge image.
pub const HEADER_SIZE: usize = 16;

/// Length of the optional trainer that follows the header.
pub const TRAINER_SIZE: usize = 512;

/// Character RAM given to a cartridge without character ROM.
pub const CHR_RAM_SIZE: usize = 0x2000;

/// What the 16-byte iNES header says of a cartridge.
#[derive(Clone, Copy, PartialEq, Eq, Structural, Debug)]
pub struct Header {
    pub vertical_mirroring: bool,
    pub battery_ram: bool,
    pub trainer: bool,
    pub no_mirror: bool,
    pub prg_rom_size: usize,
    pub chr_rom_size: usize,
    pub prg_ram_size: usize,
    pub mapper_id: u16,
}

/// Whether the image starts with "NES" and $1A.
pub open spec fn magic_ok(b: Seq<u8>) -> bool {
    b[0] == 0x4e && b[1] == 0x45 && b[2] == 0x53 && b[3] == 0x1a
}

/// The header that the first 16 bytes of `b` describe, or why there is none.
pub open spec fn header_spec(b: Seq<u8>) -> Result<Header, EmuError> {
    if b.len() < HEADER_SIZE {
        Err(EmuError::CartTooShort)
    } else if !magic_ok(b) {
        Err(EmuError::CartBadMagic)
    } else if (b[7] >> 2u8) & 3 == 2 {
        Err(EmuError::CartNes2Unsupported)
    } else {
        Ok(
            Header {
                vertical_mirroring: b[6] & 1 != 0,
                battery_ram: b[6] & 2 != 0,
                trainer: b[6] & 4 != 0,
                no_mirror: b[6] & 8 != 0,
                prg_rom_size: (b[4] * 16384) as usize,
                chr_rom_size: (b[5] * 8192) as usize,
                prg_ram_size: ((if b[8] == 0 { 1int } else { b[8] as int }) * 8192) as usize,
                mapper_id: ((b[6] >> 4u8) as u16 | (b[7] & 0xf0u8) as u16) as u16,
            },
        )
    }
}

/// Where the program ROM starts in an image with header `h`.
pub open spec fn prg_start(h: Header) -> int {
    HEADER_SIZE + if h.trainer { TRAINER_SIZE as int } else { 0 }
}

/// The program ROM and character memory of the image `b` whose header is `h`, or why
/// the image cannot be a cartridge.
pub open spec fn roms_spec(b: Seq<u8>, h: Header) -> Result<(Seq<u8>, Seq<u8>), EmuError> {
    let start = prg_start(h);
    if h.prg_rom_size == 0 {
        Err(EmuError::CartNoProgram)
    } else if b.len() < start + h.prg_rom_size + h.chr_rom_size {
        Err(EmuError::CartTooShort)
    } else {
        let prg = b.subrange(start, start + h.prg_rom_size);
        let chr = if h.chr_rom_size == 0 {
            Seq::new(CHR_RAM_SIZE as nat, |i: int| 0u8)
        } else {
            b.subrange(start + h.prg_rom_size, start + h.prg_rom_size + h.chr_rom_size)
        };
        Ok((prg, chr))
    }
}

impl Header {
    /// Reads the header at the start of a cartridge image.
    pub fn from_bytes(bytes: &[u8]) -> (r: Result<Header, EmuError>)
        ensures
            r == header_spec(bytes@),
    {
        if bytes.len() < HEADER_SIZE {
            return Err(EmuError::CartTooShort);
        }
        if !(bytes[0] == 0x4e && bytes[1] == 0x45 && bytes[2] == 0x53 && bytes[3] == 0x1a) {
            return Err(EmuError::CartBadMagic);
        }
        let flags6 = bytes[6];
        let flags7 = bytes[7];
        if (flags7 >> 2) & 3 == 2 {
            return Err(EmuError::CartNes2Unsupported);
        }
        let flags8 = bytes[8];
        let ram_banks: usize = if flags8 == 0 {
            1
        } else {
            flags8 as usize
        };
        let mapper_id: u16 = (flags6 >> 4) as u16 | (flags7 & 0xf0) as u16;
        Ok(
            Header {
                vertical_mirroring: flags6 & 1 != 0,
                battery_ram: flags6 & 2 != 0,
                trainer: flags6 & 4 != 0,
                no_mirror: flags6 & 8 != 0,
                prg_rom_size: bytes[4] as usize * 16384,
                chr_rom_size: bytes[5] as usize * 8192,
                prg_ram_size: ram_banks * 8192,
                mapper_id,
            },
        )
    }
}

/// `len` bytes of `b` from `start` on.
fn copy_range(b: &[u8], start: usize, len: usize) -> (r: Vec<u8>)
    requires
        start + len <= b@.len(),
    ensures
        r@ == b@.subrange(start as int, start + len),
{
    let n = b.len();
    let mut out: Vec<u8> = Vec::with_capacity(len);
    let mut i: usize = 0;
    while i < len
        invariant
            i <= len,
            n == b@.len(),
            start + len <= b@.len(),
            out@ == b@.subrange(start as int, start + i),
        decreases len - i,
    {
        out.push(b[start + i]);
        i = i + 1;
        assert(out@ =~= b@.subrange(start as int, start + i));
    }
    out
}

/// A loaded cartridge: its header and its mapper, which owns the ROM.
pub struct Cart {
    pub header: Header,
    pub mapper: CartMapper,
    pub is_empty: bool,
}

impl Cart {
    pub open spec fn wf(&self) -> bool {
        self.mapper.wf()
    }

    /// Builds a cartridge from a whole image.
    pub fn new(bytes: &[u8]) -> (r: Result<Cart, EmuError>)
        ensures
            r is Ok <==> cart_ok(bytes@),
            r is Err ==> r == Err::<Cart, EmuError>(cart_error(bytes@)),
            r is Ok ==> cart_built(r->Ok_0, bytes@) && !r->Ok_0.is_empty,
    {
        Self::init(bytes, false)
    }

    pub fn init(bytes: &[u8], is_empty: bool) -> (r: Result<Cart, EmuError>)
        ensures
            r is Ok <==> cart_ok(bytes@),
            r is Err ==> r == Err::<Cart, EmuError>(cart_error(bytes@)),
            r is Ok ==> cart_built(r->Ok_0, bytes@) && r->Ok_0.is_empty == is_empty,
    {
        let header = match Header::from_bytes(bytes) {
            Ok(h) => h,
            Err(e) => return Err(e),
        };
        let start: usize = if header.trainer {
            HEADER_SIZE + TRAINER_SIZE
        } else {
            HEADER_SIZE
        };
        if header.prg_rom_size == 0 {
            return Err(EmuError::CartNoProgram);
        }
        if bytes.len() < start + header.prg_rom_size + header.chr_rom_size {
            return Err(EmuError::CartTooShort);
        }
        let prg_rom = copy_range(bytes, start, header.prg_rom_size);
        let chr = if header.chr_rom_size == 0 {
            let v = vec![0u8; CHR_RAM_SIZE];
            assert(v@ =~= Seq::new(CHR_RAM_SIZE as nat, |i: int| 0u8));
            v
        } else {
            copy_range(bytes, start + header.prg_rom_size, header.chr_rom_size)
        };
        proof {
            let b = bytes@;
            assert(header.prg_rom_size == b[4] as int * 16384);
            assert((b[4] as int * 16384) % 16384 == 0) by (nonlinear_arith);
            assert(roms_spec(bytes@, header) == Ok::<(Seq<u8>, Seq<u8>), EmuError>((prg_rom@, chr@)));
        }
        match mappers::new(&header, prg_rom, chr) {
            Ok(mapper) => Ok(Cart { header, mapper, is_empty }),
            Err(e) => Err(e),
        }
    }

    /// Forwards a CPU write in cartridge space to the mapper.
    pub fn write_byte(&mut self, addr: Addr, value: u8)
        requires
            old(self).wf(),
        ensures
            final(self).wf(),
            final(self).header == old(self).header,
            final(self).is_empty == old(self).is_empty,
            old(self).mapper.cpu_write_spec(&final(self).mapper, addr.0, value),
    {
        self.mapper.cpu_write(addr, value);
    }

    /// The two bit planes of one pattern row: the bytes at `addr` and `addr + 8`.
    pub fn get_tile(&self, addr: u16) -> (r: (u8, u8))
        requires
            self.wf(),
            addr < 0x1ff8,
        ensures
            r == (self.mapper.ppu_read_spec(addr), self.mapper.ppu_read_spec((addr + 8) as u16)),
    {
        let upper = self.mapper.ppu_read(Addr(addr));
        let lower = self.mapper.ppu_read(Addr(addr + 8));
        (upper, lower)
    }

    pub fn is_empty(&self) -> (r: bool)
        ensures
            r == self.is_empty,
    {
        self.is_empty
    }
}

/// Whether the image `b` makes a cartridge.
pub open spec fn cart_ok(b: Seq<u8>) -> bool {
    &&& header_spec(b) is Ok
    &&& roms_spec(b, header_spec(b)->Ok_0) is Ok
    &&& header_spec(b)->Ok_0.mapper_id <= 2
}

/// Why the image `b` does not make a cartridge: the first of the header's, the
/// ROM sizes' and the mapper's complaints.
pub open spec fn cart_error(b: Seq<u8>) -> EmuError {
    if header_spec(b) is Err {
        header_spec(b)->Err_0
    } else if roms_spec(b, header_spec(b)->Ok_0) is Err {
        roms_spec(b, header_spec(b)->Ok_0)->Err_0
    } else {
        EmuError::UnsupportedMapper { id: header_spec(b)->Ok_0.mapper_id }
    }
}

/// Holds of a cartridge freshly built from the image `b`.
pub open spec fn cart_built(c: Cart, b: Seq<u8>) -> bool {
    let h = header_spec(b)->Ok_0;
    let roms = roms_spec(b, h)->Ok_0;
    &&& c.wf()
    &&& c.header == h
    &&& mappers::mapper_id_of(c.mapper) == h.mapper_id
    &&& fresh_mapper(c.mapper, h, roms.0, roms.1)
}

} // verus!
