use vstd::prelude::*;

use crate::addr::{high_byte, low_byte, word_of, wrap16, Addr};
use crate::apu::{apu_read_spec, apu_write_post, APU};
use crate::error::EmuError;
use crate::mappers::Mapper;
use crate::ppu;
use crate::system::{System, CYCLE_LIMIT};

verus! {

/// CPU cycles an OAM-DMA transfer costs.
pub const DMA_CYCLES: u64 = 513;

/// What answers a CPU address.
#[derive(Clone, Copy, PartialEq, Eq, Structural, Debug)]
pub enum BusTarget {
    /// Internal RAM, at this offset.
    RAM(usize),
    /// PPU register 0 to 7.
    PPU(usize),
    /// I/O register $00 to $17.
    APU(usize),
    /// The cartridge.
    PRG,
    /// The OAM-DMA port, $4014.
    OAMDMA,
    /// $4018-$401F, which nothing answers.
    Reserved,
}

pub open spec fn map_addr_spec(a: u16) -> BusTarget {
    if a < 0x2000 {
        BusTarget::RAM((a % 0x800) as usize)
    } else if a < 0x4000 {
        BusTarget::PPU(((a - 0x2000) % 8) as usize)
    } else if a == 0x4014 {
        BusTarget::OAMDMA
    } else if a < 0x4018 {
        BusTarget::APU((a - 0x4000) as usize)
    } else if a < 0x4020 {
        BusTarget::Reserved
    } else {
        BusTarget::PRG
    }
}

/// What the cartridge answers to a CPU read of `a`.
pub open spec fn cart_read_spec(s: &System, a: u16) -> Result<u8, EmuError> {
    match s.cart {
        Some(c) => c.mapper.cpu_read_spec(a),
        None => Err(EmuError::NoCartridge),
    }
}

/// Holds of the machine before (`s`) and after (`t`) a CPU read of `a` that returned `r`.
pub open spec fn read_post(s: &System, t: &System, a: u16, r: Result<u8, EmuError>) -> bool {
    match map_addr_spec(a) {
        BusTarget::RAM(i) => r == Ok::<u8, EmuError>(s.ram@[i as int]) && *t == *s,
        BusTarget::PPU(reg) => ppu::ppu_read_post(s, t, reg as u8, r),
        BusTarget::APU(reg) => {
            let (c1, c2, v) = apu_read_spec(s.apu, reg as u8);
            &&& r == Ok::<u8, EmuError>(v)
            &&& *t == (System { apu: APU { controller1: c1, controller2: c2, ..s.apu }, ..*s })
        },
        BusTarget::PRG => r == cart_read_spec(s, a) && *t == *s,
        BusTarget::OAMDMA => r == Err::<u8, EmuError>(EmuError::WriteOnlyRead { addr: a }) && *t
            == *s,
        BusTarget::Reserved => r == Err::<u8, EmuError>(EmuError::UnmappedRead { addr: a }) && *t
            == *s,
    }
}

/// What a read of `a` gives without side effects: RAM and cartridge only.
pub open spec fn peek_spec(s: &System, a: u16) -> Result<u8, EmuError> {
    match map_addr_spec(a) {
        BusTarget::RAM(i) => Ok(s.ram@[i as int]),
        BusTarget::PRG => cart_read_spec(s, a),
        _ => Err(EmuError::UnmappedRead { addr: a }),
    }
}

/// The first failing read of the DMA source page from byte `i` on, if any.
pub open spec fn dma_scan(s: &System, page: u8, i: int) -> Result<(), EmuError>
    decreases 256 - i,
{
    if i >= 256 || i < 0 {
        Ok(())
    } else {
        match peek_spec(s, word_of(page, i as u8)) {
            Err(e) => Err(e),
            Ok(_) => dma_scan(s, page, i + 1),
        }
    }
}

/// Byte `i` of the DMA source page.
pub open spec fn dma_byte(s: &System, page: u8, i: int) -> u8 {
    peek_spec(s, word_of(page, i as u8))->Ok_0
}

/// Sprite memory after a DMA of page `page` with the latch at `l`: byte `i` of the
/// page lands at `(l + i) mod 256`.
pub open spec fn dma_oam(s: &System, page: u8, l: u8) -> Seq<u8> {
    Seq::new(256, |j: int| dma_byte(s, page, (j - l) % 256))
}

/// Holds of the machine before and after a CPU write of `v` to `a` that returned `r`.
pub open spec fn write_post(s: &System, t: &System, a: u16, v: u8, r: Result<(), EmuError>) -> bool {
    match map_addr_spec(a) {
        BusTarget::RAM(i) => {
            &&& r is Ok
            &&& t.ram@ == s.ram@.update(i as int, v)
            &&& *t == (System { ram: t.ram, ..*s })
        },
        BusTarget::PPU(reg) => r is Ok && ppu::ppu_write_post(s, t, reg as u8, v),
        BusTarget::APU(reg) => {
            &&& r is Ok
            &&& apu_write_post(&s.apu, &t.apu, reg as u8, v)
            &&& *t == (System { apu: t.apu, ..*s })
        },
        BusTarget::PRG => match s.cart {
            None => r == Err::<(), EmuError>(EmuError::NoCartridge) && *t == *s,
            Some(c) => {
                &&& r is Ok
                &&& t.cart is Some
                &&& t.cart->0.header == c.header
                &&& t.cart->0.is_empty == c.is_empty
                &&& c.mapper.cpu_write_spec(&t.cart->0.mapper, a, v)
                &&& *t == (System { cart: t.cart, ..*s })
            },
        },
        BusTarget::OAMDMA => match dma_scan(s, v, 0) {
            Err(e) => r == Err::<(), EmuError>(e) && *t == *s,
            Ok(_) => {
                &&& r is Ok
                &&& t.oam@ == dma_oam(s, v, s.ppu.oam_addr)
                &&& *t == (System { oam: t.oam, cycles: (s.cycles + DMA_CYCLES) as u64, ..*s })
            },
        },
        BusTarget::Reserved => r == Err::<(), EmuError>(EmuError::UnmappedWrite { addr: a }) && *t
            == *s,
    }
}

/// Whether both `a` and the address after it are internal RAM.
pub open spec fn ram_pair(a: u16) -> bool {
    a < 0x1fff
}

/// Whether reads of `a` and the address after it have no side effects.
pub open spec fn quiet_pair(a: u16) -> bool {
    let b = wrap16(a + 1);
    (map_addr_spec(a) is RAM || map_addr_spec(a) is PRG) && (map_addr_spec(b) is RAM
        || map_addr_spec(b) is PRG)
}

/// The little-endian word at `a` and the address after it, read without side effects.
pub open spec fn peek_word(s: &System, a: u16) -> Result<u16, EmuError> {
    match (peek_spec(s, a), peek_spec(s, wrap16(a + 1))) {
        (Ok(lo), Ok(hi)) => Ok(word_of(hi, lo)),
        (Err(e), _) => Err(e),
        (_, Err(e)) => Err(e),
    }
}

/// Holds of the machine before (`s`) and after (`t`) reading the little-endian word at
/// `a`: the low byte through the bus, then the byte after it, each with its side
/// effects; the first error ends the read.
pub open spec fn read_word_post(s: &System, t: &System, a: u16, r: Result<u16, EmuError>) -> bool {
    exists|m: System, rl: Result<u8, EmuError>|
        #[trigger] read_post(s, &m, a, rl) && match rl {
            Err(e) => r == Err::<u16, EmuError>(e) && *t == m,
            Ok(lo) => exists|rh: Result<u8, EmuError>|
                #[trigger] read_post(&m, t, wrap16(a + 1), rh) && match rh {
                    Err(e) => r == Err::<u16, EmuError>(e),
                    Ok(hi) => r == Ok::<u16, EmuError>(word_of(hi, lo)),
                },
        }
}

/// The parts of the machine that no bus read changes.
pub open spec fn read_keeps(s: &System, t: &System) -> bool {
    &&& t.cpu == s.cpu
    &&& t.cycles == s.cycles
    &&& t.ram == s.ram
    &&& t.nmi == s.nmi
    &&& t.cart == s.cart
    &&& t.oam == s.oam
    &&& t.opts == s.opts
    &&& t.history == s.history
    &&& t.history_pos == s.history_pos
}

/// The parts of the machine that no bus write changes.
pub open spec fn write_keeps(s: &System, t: &System) -> bool {
    &&& t.cpu == s.cpu
    &&& t.nmi == s.nmi
    &&& t.opts == s.opts
    &&& t.history == s.history
    &&& t.history_pos == s.history_pos
    &&& (t.cycles == s.cycles || t.cycles == s.cycles + DMA_CYCLES)
}

proof fn lemma_read_keeps_all(s: System, a: u16)
    ensures
        forall|t: System, r: Result<u8, EmuError>|
            #[trigger] read_post(&s, &t, a, r) ==> read_keeps(&s, &t),
{
}

proof fn lemma_write_keeps_all(s: System, a: u16, v: u8)
    requires
        s.cycles < 2 * CYCLE_LIMIT,
    ensures
        forall|t: System, r: Result<(), EmuError>|
            #[trigger] write_post(&s, &t, a, v, r) ==> write_keeps(&s, &t),
{
}

impl System {
    pub fn map_addr(&self, addr: Addr) -> (r: BusTarget)
        ensures
            r == map_addr_spec(addr.0),
    {
        let a = addr.0;
        if a < 0x2000 {
            BusTarget::RAM((a % 0x800) as usize)
        } else if a < 0x4000 {
            BusTarget::PPU(((a - 0x2000) % 8) as usize)
        } else if a == 0x4014 {
            BusTarget::OAMDMA
        } else if a < 0x4018 {
            BusTarget::APU((a - 0x4000) as usize)
        } else if a < 0x4020 {
            BusTarget::Reserved
        } else {
            BusTarget::PRG
        }
    }

    fn cart_read(&self, addr: Addr) -> (r: Result<u8, EmuError>)
        requires
            self.wf(),
        ensures
            r == cart_read_spec(self, addr.0),
    {
        match &self.cart {
            None => Err(EmuError::NoCartridge),
            Some(cart) => cart.mapper.cpu_read(addr),
        }
    }

    /// A CPU read of one byte, with the side effects the target has on reads.
    pub fn read_byte(&mut self, addr: Addr) -> (r: Result<u8, EmuError>)
        requires
            old(self).wf(),
        ensures
            final(self).wf(),
            read_post(old(self), final(self), addr.0, r),
            read_keeps(old(self), final(self)),
    {
        proof {
            lemma_read_keeps_all(*old(self), addr.0);
        }
        match self.map_addr(addr) {
            BusTarget::RAM(ra) => Ok(self.ram[ra]),
            BusTarget::PPU(reg) => ppu::read(self, reg as u8),
            BusTarget::APU(reg) => Ok(crate::apu::read(self, reg as u8)),
            BusTarget::PRG => self.cart_read(addr),
            BusTarget::OAMDMA => Err(EmuError::WriteOnlyRead { addr: addr.0 }),
            BusTarget::Reserved => Err(EmuError::UnmappedRead { addr: addr.0 }),
        }
    }

    /// A read without side effects: RAM and cartridge answer, anything else is an error.
    pub fn peek_byte(&self, addr: Addr) -> (r: Result<u8, EmuError>)
        requires
            self.wf(),
        ensures
            r == peek_spec(self, addr.0),
    {
        match self.map_addr(addr) {
            BusTarget::RAM(ra) => Ok(self.ram[ra]),
            BusTarget::PRG => self.cart_read(addr),
            _ => Err(EmuError::UnmappedRead { addr: addr.0 }),
        }
    }

    /// A CPU write of one byte to whatever answers `addr`.
    pub fn write_byte(&mut self, addr: Addr, value: u8) -> (r: Result<(), EmuError>)
        requires
            old(self).wf(),
            old(self).cycles < 2 * CYCLE_LIMIT,
        ensures
            final(self).wf(),
            write_post(old(self), final(self), addr.0, value, r),
            write_keeps(old(self), final(self)),
            final(self).cycles < 2 * CYCLE_LIMIT + DMA_CYCLES,
    {
        proof {
            lemma_write_keeps_all(*old(self), addr.0, value);
        }
        match self.map_addr(addr) {
            BusTarget::RAM(ra) => {
                self.ram.set(ra, value);
                Ok(())
            },
            BusTarget::PPU(reg) => {
                ppu::write(self, reg as u8, value);
                Ok(())
            },
            BusTarget::APU(reg) => {
                crate::apu::write(self, reg as u8, value);
                Ok(())
            },
            BusTarget::PRG => match &mut self.cart {
                None => Err(EmuError::NoCartridge),
                Some(cart) => {
                    cart.write_byte(addr, value);
                    Ok(())
                },
            },
            BusTarget::OAMDMA => self.oam_dma(value),
            BusTarget::Reserved => Err(EmuError::UnmappedWrite { addr: addr.0 }),
        }
    }

    /// The little-endian word at `addr`: low byte first, then the byte after it.
    pub fn read_word(&mut self, addr: Addr) -> (r: Result<u16, EmuError>)
        requires
            old(self).wf(),
        ensures
            final(self).wf(),
            read_keeps(old(self), final(self)),
            read_word_post(old(self), final(self), addr.0, r),
            quiet_pair(addr.0) ==> *final(self) == *old(self) && r == peek_word(old(self), addr.0),
    {
        let rl = self.read_byte(addr);
        let ghost m = *self;
        assert(read_post(old(self), &m, addr.0, rl));
        let low = match rl {
            Ok(b) => b,
            Err(e) => return Err(e),
        };
        let rh = self.read_byte(addr.offset(1));
        assert(read_post(&m, self, wrap16(addr.0 + 1), rh));
        let high = match rh {
            Ok(b) => b,
            Err(e) => return Err(e),
        };
        Ok(Addr::from_bytes(high, low).0)
    }

    /// The word at zero-page address `addr`; the high byte comes from `addr + 1`
    /// within page zero.
    pub fn read_zero_word(&mut self, addr: u8) -> (r: Result<u16, EmuError>)
        requires
            old(self).wf(),
        ensures
            *final(self) == *old(self),
            r == Ok::<u16, EmuError>(
                word_of(old(self).ram@[((addr + 1) % 256) as int], old(self).ram@[addr as int]),
            ),
    {
        let low = self.ram[addr as usize];
        let high = self.ram[addr.wrapping_add(1) as usize];
        Ok(Addr::from_bytes(high, low).0)
    }

    /// Writes `value` little-endian: low byte at `addr`, high byte after it.
    pub fn write_word(&mut self, addr: Addr, value: u16) -> (r: Result<(), EmuError>)
        requires
            old(self).wf(),
            old(self).cycles < CYCLE_LIMIT,
        ensures
            final(self).wf(),
            final(self).cpu == old(self).cpu,
            final(self).nmi == old(self).nmi,
            final(self).cycles < CYCLE_LIMIT + 2 * DMA_CYCLES,
            ram_pair(addr.0) ==> {
                &&& r is Ok
                &&& final(self).ram@ == old(self).ram@.update(
                    (addr.0 % 0x800) as int,
                    low_byte(value),
                ).update(((addr.0 + 1) % 0x800) as int, high_byte(value))
                &&& *final(self) == (System { ram: final(self).ram, ..*old(self) })
            },
    {
        let lo = Addr(value).lsb();
        let hi = Addr(value).msb();
        match self.write_byte(addr, lo) {
            Ok(()) => {},
            Err(e) => return Err(e),
        }
        self.write_byte(addr.offset(1), hi)
    }

    pub fn read_addr(&mut self, addr: Addr) -> (r: Result<Addr, EmuError>)
        requires
            old(self).wf(),
        ensures
            final(self).wf(),
            read_keeps(old(self), final(self)),
            exists|w: Result<u16, EmuError>|
                #[trigger] read_word_post(old(self), final(self), addr.0, w) && match w {
                    Ok(v) => r == Ok::<Addr, EmuError>(Addr(v)),
                    Err(e) => r == Err::<Addr, EmuError>(e),
                },
            quiet_pair(addr.0) ==> *final(self) == *old(self) && match peek_word(old(self), addr.0) {
                Ok(w) => r == Ok::<Addr, EmuError>(Addr(w)),
                Err(e) => r == Err::<Addr, EmuError>(e),
            },
    {
        let w = self.read_word(addr);
        assert(read_word_post(old(self), self, addr.0, w));
        match w {
            Ok(w) => Ok(Addr(w)),
            Err(e) => Err(e),
        }
    }

    pub fn read_zero_addr(&mut self, addr: u8) -> (r: Addr)
        requires
            old(self).wf(),
        ensures
            *final(self) == *old(self),
            r.0 == word_of(old(self).ram@[((addr + 1) % 256) as int], old(self).ram@[addr as int]),
    {
        let low = self.ram[addr as usize];
        let high = self.ram[addr.wrapping_add(1) as usize];
        Addr::from_bytes(high, low)
    }

    /// Copies page `page` into sprite memory from the OAM latch on, wrapping, and
    /// charges 513 cycles. Nothing changes when a byte of the page cannot be read.
    fn oam_dma(&mut self, page: u8) -> (r: Result<(), EmuError>)
        requires
            old(self).wf(),
            old(self).cycles < 2 * CYCLE_LIMIT,
        ensures
            final(self).wf(),
            write_post(old(self), final(self), 0x4014, page, r),
    {
        let ghost s0 = *self;
        let mut buf: Vec<u8> = Vec::with_capacity(256);
        let mut i: u16 = 0;
        while i < 256
            invariant
                *self == s0,
                self.wf(),
                i <= 256,
                buf@.len() == i,
                dma_scan(&s0, page, 0) == dma_scan(&s0, page, i as int),
                forall|j: int| 0 <= j < i ==> #[trigger] buf@[j] == dma_byte(&s0, page, j),
            decreases 256 - i,
        {
            let a = Addr::from_bytes(page, i as u8);
            match self.peek_byte(a) {
                Err(e) => {
                    return Err(e);
                },
                Ok(b) => {
                    buf.push(b);
                },
            }
            i = i + 1;
        }
        let l = self.ppu.oam_addr;
        let mut k: usize = 0;
        while k < 256
            invariant
                self.wf(),
                k <= 256,
                buf@.len() == 256,
                s0.wf(),
                forall|j: int| 0 <= j < 256 ==> #[trigger] buf@[j] == dma_byte(&s0, page, j),
                l == s0.ppu.oam_addr,
                *self == (System { oam: self.oam, ..s0 }),
                forall|j: int| 0 <= j < 256 ==> #[trigger] self.oam@[j] == if ((j - l) % 256) < k {
                    dma_byte(&s0, page, (j - l) % 256)
                } else {
                    s0.oam@[j]
                },
            decreases 256 - k,
        {
            let slot = (l as usize + k) % 256;
            let ghost before = self.oam@;
            self.oam.set(slot, buf[k]);
            proof {
                assert forall|j: int| 0 <= j < 256 implies #[trigger] self.oam@[j] == if ((j - l) % 256)
                    < k + 1 {
                    dma_byte(&s0, page, (j - l) % 256)
                } else {
                    s0.oam@[j]
                } by {
                    if j == slot as int {
                        assert((j - l) % 256 == k);
                    } else {
                        assert(before[j] == self.oam@[j]);
                        assert((j - l) % 256 != k);
                    }
                }
            }
            k = k + 1;
        }
        assert(self.oam@ =~= dma_oam(&s0, page, l));
        self.cycles = self.cycles + DMA_CYCLES;
        Ok(())
    }
}

/// Reading a RAM address, or any of its mirrors, gives back the byte last written
/// there.
pub proof fn lemma_ram_write_read(
    s: &System,
    t: &System,
    u: &System,
    a: u16,
    b: u16,
    v: u8,
    w: Result<(), EmuError>,
    r: Result<u8, EmuError>,
)
    requires
        s.wf(),
        a < 0x2000,
        b < 0x2000,
        a % 0x800 == b % 0x800,
        write_post(s, t, a, v, w),
        read_post(t, u, b, r),
    ensures
        r == Ok::<u8, EmuError>(v),
        *u == *t,
{
}

/// A word written at a RAM address (whose next address is RAM too) reads back whole.
pub proof fn lemma_ram_word_round_trip(s: &System, t: &System, a: u16, v: u16)
    requires
        s.wf(),
        ram_pair(a),
        t.ram@ == s.ram@.update((a % 0x800) as int, low_byte(v)).update(
            ((a + 1) % 0x800) as int,
            high_byte(v),
        ),
    ensures
        quiet_pair(a),
        peek_word(t, a) == Ok::<u16, EmuError>(v),
{
    assert(wrap16(a + 1) == a + 1);
    assert(((a + 1) % 0x800) != (a % 0x800));
    assert(word_of(high_byte(v), low_byte(v)) == v);
}

proof fn lemma_dma_scan_ram(s: &System, page: u8, i: int)
    requires
        s.wf(),
        page < 0x20,
        0 <= i <= 256,
    ensures
        dma_scan(s, page, i) is Ok,
    decreases 256 - i,
{
    if i < 256 {
        assert(word_of(page, i as u8) < 0x2000);
        lemma_dma_scan_ram(s, page, i + 1);
    }
}

/// OAM-DMA from a RAM page leaves byte `i` of the page at slot `(L + i) mod 256`
/// of sprite memory, where `L` is the OAM latch: the page, rotated by `L`.
pub proof fn lemma_dma_rotation(s: &System, t: &System, page: u8, r: Result<(), EmuError>)
    requires
        s.wf(),
        page < 0x20,
        write_post(s, t, 0x4014, page, r),
    ensures
        r is Ok,
        forall|i: int|
            0 <= i < 256 ==> #[trigger] t.oam@[(s.ppu.oam_addr + i) % 256] == s.ram@[(page * 256
                + i) % 0x800],
{
    lemma_dma_scan_ram(s, page, 0);
    assert forall|i: int| 0 <= i < 256 implies #[trigger] t.oam@[(s.ppu.oam_addr + i) % 256]
        == s.ram@[(page * 256 + i) % 0x800] by {
        let j = (s.ppu.oam_addr + i) % 256;
        assert((j - s.ppu.oam_addr) % 256 == i);
        assert(word_of(page, i as u8) == page * 256 + i);
    }
}

} // verus!
