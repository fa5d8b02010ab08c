use vstd::prelude::*;

use crate::cpu::{AddressMode, CPU};

verus! {

/// A snapshot taken before an instruction runs: the processor, the instruction's
/// bytes and addressing mode, the cycle count and the PPU's (row, column).
pub struct ExecutionState {
    pub cpu: CPU,
    pub am: AddressMode,
    pub pc_bytes: Vec<u8>,
    pub ppu: (u16, u16),
    pub cycles: u64,
}

impl Clone for ExecutionState {
    fn clone(&self) -> (r: Self)
        ensures
            r.cpu == self.cpu && r.am == self.am && r.pc_bytes@ == self.pc_bytes@ && r.ppu == self.ppu
                && r.cycles == self.cycles,
    {
        let mut pc_bytes: Vec<u8> = Vec::new();
        let mut i: usize = 0;
        while i < self.pc_bytes.len()
            invariant
                i <= self.pc_bytes@.len(),
                pc_bytes@ == self.pc_bytes@.subrange(0, i as int),
            decreases self.pc_bytes@.len() - i,
        {
            pc_bytes.push(self.pc_bytes[i]);
            i = i + 1;
            assert(pc_bytes@ =~= self.pc_bytes@.subrange(0, i as int));
        }
        assert(pc_bytes@ =~= self.pc_bytes@);
        ExecutionState { cpu: self.cpu, am: self.am, pc_bytes, ppu: self.ppu, cycles: self.cycles }
    }
}

} // verus!
