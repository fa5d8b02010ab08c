use vstd::prelude::*;

use super::{roms_fit, Mapper, Mirroring};
use crate::addr::Addr;
use crate::cart::Header;
use crate::error::EmuError;

verus! {

/// Size of the program RAM at $6000-$7FFF.
pub const NROM_PRG_RAM: usize = 0x2000;

/// Mapper 0: program ROM of 16 or 32 KiB at $8000 (a 16 KiB ROM appears twice),
/// 8 KiB of program RAM at $6000, and character memory addressed directly.
pub struct NROM {
    pub prg_rom: Vec<u8>,
    pub prg_ram: Vec<u8>,
    pub chr: Vec<u8>,
    pub chr_is_ram: bool,
    pub mirror: Mirroring,
}

/// The nametable mirroring that a header's flag asks for.
pub open spec fn header_mirroring(h: Header) -> Mirroring {
    if h.vertical_mirroring {
        Mirroring::Vertical
    } else {
        Mirroring::Horizontal
    }
}

impl NROM {
    pub fn new(header: &Header, prg_rom: Vec<u8>, chr: Vec<u8>) -> (r: Self)
        requires
            roms_fit(prg_rom@, chr@),
        ensures
            r.wf(),
            r.prg_rom@ == prg_rom@,
            r.chr@ == chr@,
            r.chr_is_ram == (header.chr_rom_size == 0),
            r.prg_ram@ == Seq::new(NROM_PRG_RAM as nat, |i: int| 0u8),
            r.mirror == header_mirroring(*header),
    {
        let prg_ram = vec![0u8; NROM_PRG_RAM];
        assert(prg_ram@ =~= Seq::new(NROM_PRG_RAM as nat, |i: int| 0u8));
        let mirror = if header.vertical_mirroring {
            Mirroring::Vertical
        } else {
            Mirroring::Horizontal
        };
        Self { prg_rom, prg_ram, chr, chr_is_ram: header.chr_rom_size == 0, mirror }
    }
}

impl Mapper for NROM {
    open spec fn wf(&self) -> bool {
        roms_fit(self.prg_rom@, self.chr@) && self.prg_ram@.len() == NROM_PRG_RAM
    }

    open spec fn cpu_read_spec(&self, addr: u16) -> Result<u8, EmuError> {
        if addr < 0x6000 {
            Err(EmuError::UnmappedRead { addr })
        } else if addr < 0x8000 {
            Ok(self.prg_ram@[addr - 0x6000])
        } else {
            Ok(self.prg_rom@[(addr - 0x8000) % (self.prg_rom@.len() as int)])
        }
    }

    open spec fn ppu_read_spec(&self, addr: u16) -> u8 {
        self.chr@[addr as int]
    }

    open spec fn mirroring_spec(&self) -> Mirroring {
        self.mirror
    }

    open spec fn cpu_write_spec(&self, after: &Self, addr: u16, value: u8) -> bool {
        &&& after.prg_rom@ == self.prg_rom@
        &&& after.chr@ == self.chr@
        &&& after.chr_is_ram == self.chr_is_ram
        &&& after.mirror == self.mirror
        &&& after.prg_ram@ == if 0x6000 <= addr < 0x8000 {
            self.prg_ram@.update(addr - 0x6000, value)
        } else {
            self.prg_ram@
        }
    }

    open spec fn ppu_write_spec(&self, after: &Self, addr: u16, value: u8) -> bool {
        &&& after.prg_rom@ == self.prg_rom@
        &&& after.prg_ram@ == self.prg_ram@
        &&& after.chr_is_ram == self.chr_is_ram
        &&& after.mirror == self.mirror
        &&& after.chr@ == if self.chr_is_ram {
            self.chr@.update(addr as int, value)
        } else {
            self.chr@
        }
    }

    fn cpu_read(&self, addr: Addr) -> (r: Result<u8, EmuError>) {
        if addr.0 < 0x6000 {
            Err(EmuError::UnmappedRead { addr: addr.0 })
        } else if addr.0 < 0x8000 {
            Ok(self.prg_ram[(addr.0 - 0x6000) as usize])
        } else {
            Ok(self.prg_rom[(addr.0 - 0x8000) as usize % self.prg_rom.len()])
        }
    }

    fn ppu_read(&self, addr: Addr) -> (r: u8) {
        self.chr[addr.0 as usize]
    }

    /// Writes to the program ROM carry no meaning here and are ignored.
    fn cpu_write(&mut self, addr: Addr, value: u8) {
        if 0x6000 <= addr.0 && addr.0 < 0x8000 {
            self.prg_ram.set((addr.0 - 0x6000) as usize, value);
        }
    }

    /// Character ROM ignores writes; character RAM takes them.
    fn ppu_write(&mut self, addr: Addr, value: u8) {
        if self.chr_is_ram {
            self.chr.set(addr.0 as usize, value);
        }
    }

    fn mirroring(&self) -> (r: Mirroring) {
        self.mirror
    }
}

} // verus!
