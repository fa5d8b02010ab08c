use vstd::prelude::*;

verus! {

/// Everything that can go wrong in the machine.
#[derive(Clone, Copy, PartialEq, Eq, Structural, Debug)]
pub enum EmuError {
    /// The image is shorter than its header says.
    CartTooShort,
    /// The first four bytes are not "NES" and $1A.
    CartBadMagic,
    /// The header is in the NES 2.0 format.
    CartNes2Unsupported,
    /// The header asks for no program ROM.
    CartNoProgram,
    /// The header names a mapper that this machine does not have.
    UnsupportedMapper { id: u16 },
    /// The opcode byte at `pc` is not in the decode table.
    UnknownOpcode { pc: u16, opcode: u8 },
    /// A read from an address that nothing answers.
    UnmappedRead { addr: u16 },
    /// A write to an address that nothing answers.
    UnmappedWrite { addr: u16 },
    /// A read of a write-only PPU register, or of the OAM-DMA port.
    WriteOnlyRead { addr: u16 },
    /// A cartridge access with no cartridge loaded.
    NoCartridge,
    /// The cycle counter reached its working bound.
    ClockLimit,
    /// Operand text in a disassembly line that names no addressing mode.
    OperandSyntax,
}

} // verus!
