use vstd::prelude::*;

use super::nrom::header_mirroring;
use super::{roms_fit, Mapper, Mirroring, PRG_BANK};
use crate::addr::Addr;
use crate::cart::Header;
use crate::error::EmuError;

verus! {

/// Mapper 2: a switchable 16 KiB program bank at $8000, the last bank fixed at $C000,
/// and character RAM written through the PPU bus.
pub struct UxROM {
    pub prg_rom: Vec<u8>,
    pub chr: Vec<u8>,
    pub bank: u8,
    pub mirror: Mirroring,
}

impl UxROM {
    pub fn new(header: &Header, prg_rom: Vec<u8>, chr: Vec<u8>) -> (r: Self)
        requires
            roms_fit(prg_rom@, chr@),
        ensures
            r.wf(),
            r.prg_rom@ == prg_rom@,
            r.chr@ == chr@,
            r.bank == 0,
            r.mirror == header_mirroring(*header),
    {
        let mirror = if header.vertical_mirroring {
            Mirroring::Vertical
        } else {
            Mirroring::Horizontal
        };
        Self { prg_rom, chr, bank: 0, mirror }
    }

    /// Number of 16 KiB banks in the program ROM.
    pub open spec fn banks(&self) -> int {
        self.prg_rom@.len() as int / PRG_BANK as int
    }
}

impl Mapper for UxROM {
    open spec fn wf(&self) -> bool {
        roms_fit(self.prg_rom@, self.chr@)
    }

    open spec fn cpu_read_spec(&self, addr: u16) -> Result<u8, EmuError> {
        if addr < 0x8000 {
            Err(EmuError::UnmappedRead { addr })
        } else if addr < 0xc000 {
            Ok(self.prg_rom@[(self.bank * PRG_BANK + (addr - 0x8000)) % (self.prg_rom@.len() as int)])
        } else {
            Ok(self.prg_rom@[self.prg_rom@.len() as int - PRG_BANK as int + (addr - 0xc000)])
        }
    }

    open spec fn ppu_read_spec(&self, addr: u16) -> u8 {
        self.chr@[addr as int]
    }

    open spec fn mirroring_spec(&self) -> Mirroring {
        self.mirror
    }

    /// A write anywhere in $8000-$FFFF selects the bank at $8000, when the value names
    /// one of the banks; other values leave the bank as it was.
    open spec fn cpu_write_spec(&self, after: &Self, addr: u16, value: u8) -> bool {
        &&& after.prg_rom@ == self.prg_rom@
        &&& after.chr@ == self.chr@
        &&& after.mirror == self.mirror
        &&& after.bank == if addr >= 0x8000 && value < self.banks() {
            value
        } else {
            self.bank
        }
    }

    open spec fn ppu_write_spec(&self, after: &Self, addr: u16, value: u8) -> bool {
        &&& after.prg_rom@ == self.prg_rom@
        &&& after.bank == self.bank
        &&& after.mirror == self.mirror
        &&& after.chr@ == self.chr@.update(addr as int, value)
    }

    fn cpu_read(&self, addr: Addr) -> (r: Result<u8, EmuError>) {
        if addr.0 < 0x8000 {
            Err(EmuError::UnmappedRead { addr: addr.0 })
        } else if addr.0 < 0xc000 {
            let offset = self.bank as usize * PRG_BANK + (addr.0 - 0x8000) as usize;
            Ok(self.prg_rom[offset % self.prg_rom.len()])
        } else {
            let last = self.prg_rom.len() - PRG_BANK;
            Ok(self.prg_rom[last + (addr.0 - 0xc000) as usize])
        }
    }

    fn ppu_read(&self, addr: Addr) -> (r: u8) {
        self.chr[addr.0 as usize]
    }

    fn cpu_write(&mut self, addr: Addr, value: u8) {
        if addr.0 >= 0x8000 {
            let banks = self.prg_rom.len() / PRG_BANK;
            if (value as usize) < banks {
                self.bank = value;
            }
        }
    }

    fn ppu_write(&mut self, addr: Addr, value: u8) {
        self.chr.set(addr.0 as usize, value);
    }

    fn mirroring(&self) -> (r: Mirroring) {
        self.mirror
    }
}

} // verus!
