use vstd::prelude::*;

verus! {

/// Adds two bytes and an incoming carry; returns the low eight bits of the sum and
/// whether the sum overflowed eight bits.
pub fn carrying_add(lhs: u8, rhs: u8, carry: bool) -> (r: (u8, bool))
    ensures
        r.0 == (lhs + rhs + (if carry { 1int } else { 0int })) % 256,
        r.1 == (lhs + rhs + (if carry { 1int } else { 0int }) > 255),
{
    let sum: u16 = lhs as u16 + rhs as u16 + if carry { 1u16 } else { 0u16 };
    ((sum % 256) as u8, sum > 255)
}

/// A value that flips between two states.
pub trait Toggle {
    fn toggle(&mut self);
}

impl Toggle for bool {
    fn toggle(&mut self) {
        *self = !*self;
    }
}

} // verus!
