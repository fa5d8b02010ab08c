use vstd::prelude::*;

verus! {

/// A 16-bit CPU address. Arithmetic on it wraps modulo 2^16.
#[derive(Clone, Copy, PartialEq, Eq, Structural, Debug)]
pub struct Addr(pub u16);

/// The address made of a high byte and a low byte.
pub open spec fn word_of(msb: u8, lsb: u8) -> u16 {
    (msb as int * 256 + lsb as int) as u16
}

/// Bits 8..16 of a 16-bit value.
pub open spec fn high_byte(v: u16) -> u8 {
    (v as int / 256) as u8
}

/// Bits 0..8 of a 16-bit value.
pub open spec fn low_byte(v: u16) -> u8 {
    (v as int % 256) as u8
}

/// `a + b` modulo 2^16.
pub open spec fn wrap16(v: int) -> u16 {
    (v % 65536) as u16
}

impl Addr {
    pub fn from_zero(lsb: u8) -> (r: Self)
        ensures
            r.0 == lsb as u16,
    {
        Self(lsb as u16)
    }

    pub fn from_bytes(msb: u8, lsb: u8) -> (r: Self)
        ensures
            r.0 == word_of(msb, lsb),
            high_byte(r.0) == msb,
            low_byte(r.0) == lsb,
    {
        let v = ((msb as u16) << 8) | lsb as u16;
        assert(v == msb as u16 * 256 + lsb as u16) by (bit_vector)
            requires
                v == ((msb as u16) << 8) | lsb as u16,
        ;
        Self(v)
    }

    pub fn same_page_as(&self, other: Addr) -> (r: bool)
        ensures
            r == (high_byte(self.0) == high_byte(other.0)),
    {
        self.msb() == other.msb()
    }

    pub fn msb(&self) -> (r: u8)
        ensures
            r == high_byte(self.0),
    {
        (self.0 / 256) as u8
    }

    pub fn lsb(&self) -> (r: u8)
        ensures
            r == low_byte(self.0),
    {
        (self.0 % 256) as u8
    }

    /// The address `n` bytes further on, wrapping past $FFFF.
    pub fn offset(&self, n: u16) -> (r: Addr)
        ensures
            r.0 == wrap16(self.0 + n),
    {
        Addr(self.0.wrapping_add(n))
    }

    /// The address moved by a signed displacement, wrapping at both ends.
    pub fn displace(&self, d: i8) -> (r: Addr)
        ensures
            r.0 == wrap16(self.0 + d + 65536),
    {
        let v: i32 = self.0 as i32 + d as i32 + 65536;
        Addr((v % 65536) as u16)
    }
}

} // verus!
