use vstd::prelude::*;

use crate::addr::Addr;
use crate::cart::Header;
use crate::error::EmuError;

pub mod mmc1;
pub mod nrom;
pub mod uxrom;

pub use mmc1::MMC1;
pub use nrom::NROM;
pub use uxrom::UxROM;

verus! {

/// Size of one switchable program bank.
pub const PRG_BANK: usize = 0x4000;

/// Largest program or character ROM a header can describe (255 banks of 16 KiB).
pub const MAX_ROM: usize = 255 * 0x4000;

/// How the four logical nametables fold onto the two physical ones.
#[derive(Clone, Copy, PartialEq, Eq, Structural, Debug)]
pub enum Mirroring {
    Horizontal,
    Vertical,
    OneScreenLower,
    OneScreenUpper,
}

/// The cartridge's bank-switching logic, seen from the CPU bus ($4020-$FFFF) and from
/// the PPU bus ($0000-$1FFF).
pub trait Mapper: Sized {
    spec fn wf(&self) -> bool;

    spec fn cpu_read_spec(&self, addr: u16) -> Result<u8, EmuError>;

    spec fn ppu_read_spec(&self, addr: u16) -> u8;

    spec fn mirroring_spec(&self) -> Mirroring;

    /// Holds of the mapper before and after a CPU write of `value` at `addr`.
    spec fn cpu_write_spec(&self, after: &Self, addr: u16, value: u8) -> bool;

    /// Holds of the mapper before and after a PPU write of `value` at `addr`.
    spec fn ppu_write_spec(&self, after: &Self, addr: u16, value: u8) -> bool;

    fn cpu_read(&self, addr: Addr) -> (r: Result<u8, EmuError>)
        requires
            self.wf(),
        ensures
            r == self.cpu_read_spec(addr.0),
    ;

    fn ppu_read(&self, addr: Addr) -> (r: u8)
        requires
            self.wf(),
            addr.0 < 0x2000,
        ensures
            r == self.ppu_read_spec(addr.0),
    ;

    fn cpu_write(&mut self, addr: Addr, value: u8)
        requires
            old(self).wf(),
        ensures
            final(self).wf(),
            old(self).cpu_write_spec(final(self), addr.0, value),
    ;

    fn ppu_write(&mut self, addr: Addr, value: u8)
        requires
            old(self).wf(),
            addr.0 < 0x2000,
        ensures
            final(self).wf(),
            old(self).ppu_write_spec(final(self), addr.0, value),
    ;

    fn mirroring(&self) -> (r: Mirroring)
        requires
            self.wf(),
        ensures
            r == self.mirroring_spec(),
    ;
}

/// The mapper of a loaded cartridge: one of the three this machine has.
pub enum CartMapper {
    Nrom(NROM),
    Mmc1(MMC1),
    Uxrom(UxROM),
}

/// The mapper id a value of `CartMapper` answers to.
pub open spec fn mapper_id_of(m: CartMapper) -> u16 {
    match m {
        CartMapper::Nrom(_) => 0,
        CartMapper::Mmc1(_) => 1,
        CartMapper::Uxrom(_) => 2,
    }
}

impl Mapper for CartMapper {
    open spec fn wf(&self) -> bool {
        match self {
            CartMapper::Nrom(m) => m.wf(),
            CartMapper::Mmc1(m) => m.wf(),
            CartMapper::Uxrom(m) => m.wf(),
        }
    }

    open spec fn cpu_read_spec(&self, addr: u16) -> Result<u8, EmuError> {
        match self {
            CartMapper::Nrom(m) => m.cpu_read_spec(addr),
            CartMapper::Mmc1(m) => m.cpu_read_spec(addr),
            CartMapper::Uxrom(m) => m.cpu_read_spec(addr),
        }
    }

    open spec fn ppu_read_spec(&self, addr: u16) -> u8 {
        match self {
            CartMapper::Nrom(m) => m.ppu_read_spec(addr),
            CartMapper::Mmc1(m) => m.ppu_read_spec(addr),
            CartMapper::Uxrom(m) => m.ppu_read_spec(addr),
        }
    }

    open spec fn mirroring_spec(&self) -> Mirroring {
        match self {
            CartMapper::Nrom(m) => m.mirroring_spec(),
            CartMapper::Mmc1(m) => m.mirroring_spec(),
            CartMapper::Uxrom(m) => m.mirroring_spec(),
        }
    }

    open spec fn cpu_write_spec(&self, after: &Self, addr: u16, value: u8) -> bool {
        match (self, after) {
            (CartMapper::Nrom(m), CartMapper::Nrom(n)) => m.cpu_write_spec(n, addr, value),
            (CartMapper::Mmc1(m), CartMapper::Mmc1(n)) => m.cpu_write_spec(n, addr, value),
            (CartMapper::Uxrom(m), CartMapper::Uxrom(n)) => m.cpu_write_spec(n, addr, value),
            _ => false,
        }
    }

    open spec fn ppu_write_spec(&self, after: &Self, addr: u16, value: u8) -> bool {
        match (self, after) {
            (CartMapper::Nrom(m), CartMapper::Nrom(n)) => m.ppu_write_spec(n, addr, value),
            (CartMapper::Mmc1(m), CartMapper::Mmc1(n)) => m.ppu_write_spec(n, addr, value),
            (CartMapper::Uxrom(m), CartMapper::Uxrom(n)) => m.ppu_write_spec(n, addr, value),
            _ => false,
        }
    }

    fn cpu_read(&self, addr: Addr) -> (r: Result<u8, EmuError>) {
        match self {
            CartMapper::Nrom(m) => m.cpu_read(addr),
            CartMapper::Mmc1(m) => m.cpu_read(addr),
            CartMapper::Uxrom(m) => m.cpu_read(addr),
        }
    }

    fn ppu_read(&self, addr: Addr) -> (r: u8) {
        match self {
            CartMapper::Nrom(m) => m.ppu_read(addr),
            CartMapper::Mmc1(m) => m.ppu_read(addr),
            CartMapper::Uxrom(m) => m.ppu_read(addr),
        }
    }

    fn cpu_write(&mut self, addr: Addr, value: u8) {
        match self {
            CartMapper::Nrom(m) => m.cpu_write(addr, value),
            CartMapper::Mmc1(m) => m.cpu_write(addr, value),
            CartMapper::Uxrom(m) => m.cpu_write(addr, value),
        }
    }

    fn ppu_write(&mut self, addr: Addr, value: u8) {
        match self {
            CartMapper::Nrom(m) => m.ppu_write(addr, value),
            CartMapper::Mmc1(m) => m.ppu_write(addr, value),
            CartMapper::Uxrom(m) => m.ppu_write(addr, value),
        }
    }

    fn mirroring(&self) -> (r: Mirroring) {
        match self {
            CartMapper::Nrom(m) => m.mirroring(),
            CartMapper::Mmc1(m) => m.mirroring(),
            CartMapper::Uxrom(m) => m.mirroring(),
        }
    }
}

/// The ROM sizes a mapper can be built from: a non-empty program ROM made of whole
/// 16 KiB banks, and at least 8 KiB of character memory.
pub open spec fn roms_fit(prg_rom: Seq<u8>, chr: Seq<u8>) -> bool {
    &&& 0 < prg_rom.len() <= MAX_ROM
    &&& prg_rom.len() as int % PRG_BANK as int == 0
    &&& 0x2000 <= chr.len() <= MAX_ROM
}

/// Builds the mapper that the header names. `chr` is the character ROM, or 8 KiB of
/// zeroed character RAM when the cartridge has none.
pub fn new(header: &Header, prg_rom: Vec<u8>, chr: Vec<u8>) -> (r: Result<CartMapper, EmuError>)
    requires
        roms_fit(prg_rom@, chr@),
    ensures
        header.mapper_id > 2 <==> r == Err::<CartMapper, EmuError>(
            EmuError::UnsupportedMapper { id: header.mapper_id },
        ),
        r is Err ==> header.mapper_id > 2,
        r is Ok ==> r->Ok_0.wf() && mapper_id_of(r->Ok_0) == header.mapper_id
            && fresh_mapper(r->Ok_0, *header, prg_rom@, chr@),
{
    if header.mapper_id == 0 {
        Ok(CartMapper::Nrom(NROM::new(header, prg_rom, chr)))
    } else if header.mapper_id == 1 {
        Ok(CartMapper::Mmc1(MMC1::new(header, prg_rom, chr)))
    } else if header.mapper_id == 2 {
        Ok(CartMapper::Uxrom(UxROM::new(header, prg_rom, chr)))
    } else {
        Err(EmuError::UnsupportedMapper { id: header.mapper_id })
    }
}

} // verus!

verus! {

/// Holds of a mapper just built by `new` from `header` and the two ROM images.
pub open spec fn fresh_mapper(m: CartMapper, h: Header, prg: Seq<u8>, chr: Seq<u8>) -> bool {
    match m {
        CartMapper::Nrom(n) => {
            &&& n.prg_rom@ == prg
            &&& n.chr@ == chr
            &&& n.chr_is_ram == (h.chr_rom_size == 0)
            &&& n.prg_ram@ == Seq::new(nrom::NROM_PRG_RAM as nat, |i: int| 0u8)
            &&& n.mirror == nrom::header_mirroring(h)
        },
        CartMapper::Mmc1(n) => {
            &&& n.prg_rom@ == prg
            &&& n.chr@ == chr
            &&& n.chr_is_ram == (h.chr_rom_size == 0)
            &&& n.prg_ram@ == Seq::new(mmc1::MMC1_PRG_RAM as nat, |i: int| 0u8)
            &&& n.regs == (mmc1::Mmc1Registers {
                shift: mmc1::LOAD_EMPTY,
                control: 0x0c,
                chr_bank0: 0,
                chr_bank1: 0,
                prg_bank: 0,
            })
        },
        CartMapper::Uxrom(n) => {
            &&& n.prg_rom@ == prg
            &&& n.chr@ == chr
            &&& n.bank == 0
            &&& n.mirror == nrom::header_mirroring(h)
        },
    }
}

} // verus!
