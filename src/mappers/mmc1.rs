use vstd::prelude::*;

use super::{roms_fit, Mapper, Mirroring, PRG_BANK};
use crate::addr::Addr;
use crate::cart::Header;
use crate::error::EmuError;

verus! {

/// Size of the program RAM at $6000-$7FFF.
pub const MMC1_PRG_RAM: usize = 0x2000;

/// The load register's empty value: only the sentinel bit, which reaches bit 0 once
/// four data bits have come in.
pub const LOAD_EMPTY: u8 = 0x10;

/// The five internal registers of mapper 1.
#[derive(Clone, Copy, PartialEq, Eq, Structural, Debug)]
pub struct Mmc1Registers {
    pub shift: u8,
    pub control: u8,
    pub chr_bank0: u8,
    pub chr_bank1: u8,
    pub prg_bank: u8,
}

/// Which program bank stays fixed.
#[derive(Clone, Copy, PartialEq, Eq, Structural, Debug)]
pub enum PrgFixedBank {
    /// 32 KiB switched at $8000, the low bit of the bank number ignored.
    Neither,
    /// First bank fixed at $8000, 16 KiB switched at $C000.
    First,
    /// Last bank fixed at $C000, 16 KiB switched at $8000.
    Last,
}

/// The registers after a CPU write of `value` to `addr` in $8000-$FFFF. A value with
/// bit 7 set empties the load register and fixes the last bank; any other value shifts
/// its bit 0 in, and the fifth such write stores the five bits, first one lowest, in
/// the register that address bits 13-14 select (control, chr0, chr1, prg).
pub open spec fn load_write(r: Mmc1Registers, addr: u16, value: u8) -> Mmc1Registers {
    if value & 0x80 != 0 {
        Mmc1Registers { shift: LOAD_EMPTY, control: r.control | 0x0c, ..r }
    } else {
        let next = ((r.shift >> 1u8) | ((value & 1) << 4u8)) as u8;
        if r.shift & 1 == 1 {
            let data = next & 0x1f;
            let sel = (addr >> 13u16) & 3;
            let r2 = Mmc1Registers { shift: LOAD_EMPTY, ..r };
            if sel == 0 {
                Mmc1Registers { control: data, ..r2 }
            } else if sel == 1 {
                Mmc1Registers { chr_bank0: data, ..r2 }
            } else if sel == 2 {
                Mmc1Registers { chr_bank1: data, ..r2 }
            } else {
                Mmc1Registers { prg_bank: data, ..r2 }
            }
        } else {
            Mmc1Registers { shift: next, ..r }
        }
    }
}

/// The program bank mapped at $8000 (`upper` false) or $C000 (`upper` true) when the
/// ROM holds `banks` banks of 16 KiB.
pub open spec fn prg_bank_at(r: Mmc1Registers, upper: bool, banks: int) -> int {
    let mode = (r.control >> 2u8) & 3;
    let sel = (r.prg_bank & 0x0f) as int;
    if mode == 2 {
        if upper { sel } else { 0 }
    } else if mode == 3 {
        if upper { banks - 1 } else { sel }
    } else {
        (r.prg_bank & 0x0e) as int + if upper { 1int } else { 0int }
    }
}

/// The offset in character memory that PPU address `addr` reaches: one 8 KiB bank
/// (low bit of chr0 ignored), or two 4 KiB banks chosen by chr0 and chr1.
pub open spec fn chr_offset(r: Mmc1Registers, addr: u16) -> int {
    if r.control & 0x10 != 0 {
        if addr < 0x1000 {
            r.chr_bank0 * 0x1000 + addr
        } else {
            r.chr_bank1 * 0x1000 + (addr - 0x1000)
        }
    } else {
        (r.chr_bank0 & 0x1e) * 0x1000 + addr
    }
}

/// Mapper 1: a serial load register that feeds four internal registers, which
/// choose the program banks, the character banks and the mirroring.
pub struct MMC1 {
    pub prg_rom: Vec<u8>,
    pub prg_ram: Vec<u8>,
    pub chr: Vec<u8>,
    pub chr_is_ram: bool,
    pub regs: Mmc1Registers,
}

impl MMC1 {
    /// A mapper at power-up: load register empty, last bank fixed at $C000.
    pub fn new(header: &Header, prg_rom: Vec<u8>, chr: Vec<u8>) -> (r: Self)
        requires
            roms_fit(prg_rom@, chr@),
        ensures
            r.wf(),
            r.prg_rom@ == prg_rom@,
            r.chr@ == chr@,
            r.chr_is_ram == (header.chr_rom_size == 0),
            r.prg_ram@ == Seq::new(MMC1_PRG_RAM as nat, |i: int| 0u8),
            r.regs == (Mmc1Registers {
                shift: LOAD_EMPTY,
                control: 0x0c,
                chr_bank0: 0,
                chr_bank1: 0,
                prg_bank: 0,
            }),
    {
        let prg_ram = vec![0u8; MMC1_PRG_RAM];
        assert(prg_ram@ =~= Seq::new(MMC1_PRG_RAM as nat, |i: int| 0u8));
        Self {
            prg_rom,
            prg_ram,
            chr,
            chr_is_ram: header.chr_rom_size == 0,
            regs: Mmc1Registers { shift: LOAD_EMPTY, control: 0x0c, chr_bank0: 0, chr_bank1: 0, prg_bank: 0 },
        }
    }

    pub open spec fn banks(&self) -> int {
        self.prg_rom@.len() as int / PRG_BANK as int
    }

    pub fn prg_fixed_bank(&self) -> (r: PrgFixedBank)
        ensures
            r == (if (self.regs.control >> 2u8) & 3 == 2 {
                PrgFixedBank::First
            } else if (self.regs.control >> 2u8) & 3 == 3 {
                PrgFixedBank::Last
            } else {
                PrgFixedBank::Neither
            }),
    {
        let mode = (self.regs.control >> 2) & 3;
        if mode == 2 {
            PrgFixedBank::First
        } else if mode == 3 {
            PrgFixedBank::Last
        } else {
            PrgFixedBank::Neither
        }
    }

    /// Whether character memory is switched as two 4 KiB banks.
    pub fn chr_dual_bank(&self) -> (r: bool)
        ensures
            r == (self.regs.control & 0x10 != 0),
    {
        (self.regs.control & 0x10) != 0
    }

    fn prg_bank_for(&self, upper: bool) -> (r: usize)
        requires
            self.wf(),
        ensures
            r == prg_bank_at(self.regs, upper, self.banks()),
    {
        let sel = (self.regs.prg_bank & 0x0f) as usize;
        match self.prg_fixed_bank() {
            PrgFixedBank::Neither => (self.regs.prg_bank & 0x0e) as usize + if upper {
                1
            } else {
                0
            },
            PrgFixedBank::First => if upper {
                sel
            } else {
                0
            },
            PrgFixedBank::Last => if upper {
                self.prg_rom.len() / PRG_BANK - 1
            } else {
                sel
            },
        }
    }

    fn chr_index(&self, addr: u16) -> (r: usize)
        requires
            addr < 0x2000,
        ensures
            r == chr_offset(self.regs, addr),
    {
        if self.chr_dual_bank() {
            if addr < 0x1000 {
                self.regs.chr_bank0 as usize * 0x1000 + addr as usize
            } else {
                self.regs.chr_bank1 as usize * 0x1000 + (addr - 0x1000) as usize
            }
        } else {
            (self.regs.chr_bank0 & 0x1e) as usize * 0x1000 + addr as usize
        }
    }
}

impl Mapper for MMC1 {
    open spec fn wf(&self) -> bool {
        &&& roms_fit(self.prg_rom@, self.chr@)
        &&& self.prg_ram@.len() == MMC1_PRG_RAM
    }

    open spec fn cpu_read_spec(&self, addr: u16) -> Result<u8, EmuError> {
        if addr < 0x6000 {
            Err(EmuError::UnmappedRead { addr })
        } else if addr < 0x8000 {
            Ok(self.prg_ram@[addr - 0x6000])
        } else {
            let bank = prg_bank_at(self.regs, addr >= 0xc000, self.banks());
            Ok(self.prg_rom@[(bank * PRG_BANK + (addr % 0x4000)) % (self.prg_rom@.len() as int)])
        }
    }

    open spec fn ppu_read_spec(&self, addr: u16) -> u8 {
        self.chr@[chr_offset(self.regs, addr) % (self.chr@.len() as int)]
    }

    open spec fn mirroring_spec(&self) -> Mirroring {
        let m = self.regs.control & 3;
        if m == 0 {
            Mirroring::OneScreenLower
        } else if m == 1 {
            Mirroring::OneScreenUpper
        } else if m == 2 {
            Mirroring::Vertical
        } else {
            Mirroring::Horizontal
        }
    }

    open spec fn cpu_write_spec(&self, after: &Self, addr: u16, value: u8) -> bool {
        &&& after.prg_rom@ == self.prg_rom@
        &&& after.chr@ == self.chr@
        &&& after.chr_is_ram == self.chr_is_ram
        &&& after.prg_ram@ == if 0x6000 <= addr < 0x8000 {
            self.prg_ram@.update(addr - 0x6000, value)
        } else {
            self.prg_ram@
        }
        &&& after.regs == if addr >= 0x8000 {
            load_write(self.regs, addr, value)
        } else {
            self.regs
        }
    }

    open spec fn ppu_write_spec(&self, after: &Self, addr: u16, value: u8) -> bool {
        &&& after.prg_rom@ == self.prg_rom@
        &&& after.prg_ram@ == self.prg_ram@
        &&& after.chr_is_ram == self.chr_is_ram
        &&& after.regs == self.regs
        &&& after.chr@ == if self.chr_is_ram {
            self.chr@.update(chr_offset(self.regs, addr) % (self.chr@.len() as int), value)
        } else {
            self.chr@
        }
    }

    fn cpu_read(&self, addr: Addr) -> (r: Result<u8, EmuError>) {
        if addr.0 < 0x6000 {
            Err(EmuError::UnmappedRead { addr: addr.0 })
        } else if addr.0 < 0x8000 {
            Ok(self.prg_ram[(addr.0 - 0x6000) as usize])
        } else {
            let bank = self.prg_bank_for(addr.0 >= 0xc000);
            let offset = bank * PRG_BANK + (addr.0 % 0x4000) as usize;
            Ok(self.prg_rom[offset % self.prg_rom.len()])
        }
    }

    fn ppu_read(&self, addr: Addr) -> (r: u8) {
        let i = self.chr_index(addr.0);
        self.chr[i % self.chr.len()]
    }

    fn cpu_write(&mut self, addr: Addr, value: u8) {
        if 0x6000 <= addr.0 && addr.0 < 0x8000 {
            self.prg_ram.set((addr.0 - 0x6000) as usize, value);
        } else if addr.0 >= 0x8000 {
            if value & 0x80 != 0 {
                self.regs.shift = LOAD_EMPTY;
                self.regs.control = self.regs.control | 0x0c;
            } else {
                let next: u8 = (self.regs.shift >> 1) | ((value & 1) << 4);
                if self.regs.shift & 1 == 1 {
                    let data = next & 0x1f;
                    let sel = (addr.0 >> 13) & 3;
                    self.regs.shift = LOAD_EMPTY;
                    if sel == 0 {
                        self.regs.control = data;
                    } else if sel == 1 {
                        self.regs.chr_bank0 = data;
                    } else if sel == 2 {
                        self.regs.chr_bank1 = data;
                    } else {
                        self.regs.prg_bank = data;
                    }
                } else {
                    self.regs.shift = next;
                }
            }
        }
    }

    fn ppu_write(&mut self, addr: Addr, value: u8) {
        if self.chr_is_ram {
            let i = self.chr_index(addr.0);
            let n = self.chr.len();
            self.chr.set(i % n, value);
        }
    }

    fn mirroring(&self) -> (r: Mirroring) {
        let m = self.regs.control & 3;
        if m == 0 {
            Mirroring::OneScreenLower
        } else if m == 1 {
            Mirroring::OneScreenUpper
        } else if m == 2 {
            Mirroring::Vertical
        } else {
            Mirroring::Horizontal
        }
    }
}

/// Five writes without bit 7, from an empty load register, leave it empty again; and a
/// single write with bit 7 empties it from any state.
pub proof fn lemma_load_register_cycle(r0: Mmc1Registers, addrs: Seq<u16>, values: Seq<u8>, v: u8, a: u16)
    requires
        r0.shift == LOAD_EMPTY,
        addrs.len() == 5,
        values.len() == 5,
        forall|i: int| 0 <= i < 5 ==> #[trigger] values[i] & 0x80 == 0,
    ensures
        load_write(
            load_write(
                load_write(
                    load_write(load_write(r0, addrs[0], values[0]), addrs[1], values[1]),
                    addrs[2],
                    values[2],
                ),
                addrs[3],
                values[3],
            ),
            addrs[4],
            values[4],
        ).shift == LOAD_EMPTY,
        v & 0x80 != 0 ==> load_write(r0, a, v).shift == LOAD_EMPTY,
{
    let r1 = load_write(r0, addrs[0], values[0]);
    let r2 = load_write(r1, addrs[1], values[1]);
    let r3 = load_write(r2, addrs[2], values[2]);
    let r4 = load_write(r3, addrs[3], values[3]);
    assert(values[0] & 0x80 == 0);
    assert(values[1] & 0x80 == 0);
    assert(values[2] & 0x80 == 0);
    assert(values[3] & 0x80 == 0);
    assert(values[4] & 0x80 == 0);
    let (b0, b1, b2, b3) = (values[0], values[1], values[2], values[3]);
    assert(0x10u8 & 1 == 0) by (bit_vector);
    let s1 = r1.shift;
    assert(s1 & 0x0f == 0x08 && s1 & 1 == 0) by (bit_vector)
        requires
            s1 == ((0x10u8 >> 1u8) | ((b0 & 1) << 4u8)),
    ;
    let s2 = r2.shift;
    assert(s2 & 0x07 == 0x04 && s2 & 1 == 0) by (bit_vector)
        requires
            s1 & 0x0f == 0x08,
            s2 == ((s1 >> 1u8) | ((b1 & 1) << 4u8)),
    ;
    let s3 = r3.shift;
    assert(s3 & 0x03 == 0x02 && s3 & 1 == 0) by (bit_vector)
        requires
            s2 & 0x07 == 0x04,
            s3 == ((s2 >> 1u8) | ((b2 & 1) << 4u8)),
    ;
    let s4 = r4.shift;
    assert(s4 & 0x01 == 0x01) by (bit_vector)
        requires
            s3 & 0x03 == 0x02,
            s4 == ((s3 >> 1u8) | ((b3 & 1) << 4u8)),
    ;
    assert(r4.shift & 1 == 1);
}

/// The five bits loaded serially, first one lowest, land whole in the register that
/// the fifth write's address selects; the first four writes change no register.
pub proof fn lemma_load_register_value(r0: Mmc1Registers, addrs: Seq<u16>, values: Seq<u8>)
    requires
        r0.shift == LOAD_EMPTY,
        addrs.len() == 5,
        values.len() == 5,
        forall|i: int| 0 <= i < 5 ==> #[trigger] values[i] & 0x80 == 0,
    ensures
        ({
            let r1 = load_write(r0, addrs[0], values[0]);
            let r2 = load_write(r1, addrs[1], values[1]);
            let r3 = load_write(r2, addrs[2], values[2]);
            let r4 = load_write(r3, addrs[3], values[3]);
            let r5 = load_write(r4, addrs[4], values[4]);
            let data = (values[0] & 1) | ((values[1] & 1) << 1u8) | ((values[2] & 1) << 2u8) | ((
            values[3] & 1) << 3u8) | ((values[4] & 1) << 4u8);
            let sel = (addrs[4] >> 13u16) & 3;
            &&& r4 == Mmc1Registers { shift: r4.shift, ..r0 }
            &&& r1.shift != LOAD_EMPTY && r2.shift != LOAD_EMPTY && r3.shift != LOAD_EMPTY
                && r4.shift != LOAD_EMPTY
            &&& r5.shift == LOAD_EMPTY
            &&& r5 == if sel == 0 {
                Mmc1Registers { control: data, shift: LOAD_EMPTY, ..r4 }
            } else if sel == 1 {
                Mmc1Registers { chr_bank0: data, shift: LOAD_EMPTY, ..r4 }
            } else if sel == 2 {
                Mmc1Registers { chr_bank1: data, shift: LOAD_EMPTY, ..r4 }
            } else {
                Mmc1Registers { prg_bank: data, shift: LOAD_EMPTY, ..r4 }
            }
        }),
{
    let r1 = load_write(r0, addrs[0], values[0]);
    let r2 = load_write(r1, addrs[1], values[1]);
    let r3 = load_write(r2, addrs[2], values[2]);
    let r4 = load_write(r3, addrs[3], values[3]);
    assert(values[0] & 0x80 == 0);
    assert(values[1] & 0x80 == 0);
    assert(values[2] & 0x80 == 0);
    assert(values[3] & 0x80 == 0);
    assert(values[4] & 0x80 == 0);
    let (b0, b1, b2, b3, b4) = (values[0], values[1], values[2], values[3], values[4]);
    assert(0x10u8 & 1 == 0) by (bit_vector);
    let s1 = r1.shift;
    let s2 = r2.shift;
    let s3 = r3.shift;
    let s4 = r4.shift;
    assert(s1 & 1 == 0 && s1 != 0x10 && s1 == (0x08u8 | ((b0 & 1) << 4u8))) by (bit_vector)
        requires
            s1 == ((0x10u8 >> 1u8) | ((b0 & 1) << 4u8)),
    ;
    assert(s2 & 1 == 0 && s2 != 0x10 && s2 == (0x04u8 | ((b0 & 1) << 3u8) | ((b1 & 1) << 4u8)))
        by (bit_vector)
        requires
            s1 == (0x08u8 | ((b0 & 1) << 4u8)),
            s2 == ((s1 >> 1u8) | ((b1 & 1) << 4u8)),
    ;
    assert(s3 & 1 == 0 && s3 != 0x10 && s3 == (0x02u8 | ((b0 & 1) << 2u8) | ((b1 & 1) << 3u8) | ((b2
        & 1) << 4u8))) by (bit_vector)
        requires
            s2 == (0x04u8 | ((b0 & 1) << 3u8) | ((b1 & 1) << 4u8)),
            s3 == ((s2 >> 1u8) | ((b2 & 1) << 4u8)),
    ;
    assert(s4 & 1 == 1 && s4 != 0x10 && (((s4 >> 1u8) | ((b4 & 1) << 4u8)) & 0x1f) == ((b0 & 1) | ((
    b1 & 1) << 1u8) | ((b2 & 1) << 2u8) | ((b3 & 1) << 3u8) | ((b4 & 1) << 4u8))) by (bit_vector)
        requires
            s3 == (0x02u8 | ((b0 & 1) << 2u8) | ((b1 & 1) << 3u8) | ((b2 & 1) << 4u8)),
            s4 == ((s3 >> 1u8) | ((b3 & 1) << 4u8)),
    ;
}

/// Starting from power-up (control 0b01100, load register empty), writing 1, 0, 0,
/// 0, 0 to $E000 sets the program bank to 1 and leaves the rest as it was.
pub proof fn lemma_select_program_bank_one(r0: Mmc1Registers)
    requires
        r0 == (Mmc1Registers { shift: LOAD_EMPTY, control: 0x0c, chr_bank0: 0, chr_bank1: 0, prg_bank: 0 }),
    ensures
        load_write(
            load_write(
                load_write(load_write(load_write(r0, 0xe000, 1), 0xe000, 0), 0xe000, 0),
                0xe000,
                0,
            ),
            0xe000,
            0,
        ) == (Mmc1Registers { shift: LOAD_EMPTY, control: 0x0c, chr_bank0: 0, chr_bank1: 0, prg_bank: 1 }),
{
    let addrs = seq![0xe000u16, 0xe000, 0xe000, 0xe000, 0xe000];
    let values = seq![1u8, 0, 0, 0, 0];
    assert(1u8 & 0x80 == 0 && 0u8 & 0x80 == 0) by (bit_vector);
    lemma_load_register_value(r0, addrs, values);
    assert(((0xe000u16 >> 13u16) & 3) == 3) by (bit_vector);
    assert(((1u8 & 1) | ((0u8 & 1) << 1u8) | ((0u8 & 1) << 2u8) | ((0u8 & 1) << 3u8) | ((0u8 & 1)
        << 4u8)) == 1) by (bit_vector);
}

} // verus!
