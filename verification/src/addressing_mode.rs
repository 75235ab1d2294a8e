use vstd::prelude::*;

verus! {

/// The MOS 6502 memory addressing modes, plus a marker for opcodes outside
/// the documented instruction set.
#[derive(Clone, Copy, Debug, PartialEq, Eq, Structural)]
pub enum AddrMode {
    /// Accumulator (implied operand)
    Accumulator,
    /// Absolute
    Abs,
    /// Absolute, indexed by X
    AbsX,
    /// Absolute, indexed by Y
    AbsY,
    /// Immediate
    Immediate,
    /// Implied
    Impl,
    /// Indirect (JMP only)
    Ind,
    /// Indexed indirect: (zero page, X)
    IndX,
    /// Indirect indexed: (zero page), Y
    IndY,
    /// Relative (branches)
    Rel,
    /// Zero page
    ZeroPage,
    /// Zero page, indexed by X
    ZeroPageX,
    /// Zero page, indexed by Y
    ZeroPageY,
    /// The opcode is not part of the documented instruction set
    Unsupported,
}

/// The addressing mode of each documented opcode; every other byte decodes
/// to the `Unsupported` marker.
pub open spec fn spec_addr_mode(opcode: u8) -> AddrMode {
    match opcode {
        0x0A | 0x2A | 0x4A | 0x6A => AddrMode::Accumulator,
        0x00 | 0x08 | 0x18 | 0x28 | 0x38 | 0x40 | 0x48 | 0x58 | 0x60 | 0x68 | 0x78 | 0x88
        | 0x8A | 0x98 | 0x9A | 0xA8 | 0xAA | 0xB8 | 0xBA | 0xC8 | 0xCA | 0xD8 | 0xE8 | 0xEA
        | 0xF8 => AddrMode::Impl,
        0x09 | 0x29 | 0x49 | 0x69 | 0xA0 | 0xA2 | 0xA9 | 0xC0 | 0xC9 | 0xE0 | 0xE9
            => AddrMode::Immediate,
        0x05 | 0x06 | 0x24 | 0x25 | 0x26 | 0x45 | 0x46 | 0x65 | 0x66 | 0x84 | 0x85 | 0x86
        | 0xA4 | 0xA5 | 0xA6 | 0xC4 | 0xC5 | 0xC6 | 0xE4 | 0xE5 | 0xE6 => AddrMode::ZeroPage,
        0x15 | 0x16 | 0x35 | 0x36 | 0x55 | 0x56 | 0x75 | 0x76 | 0x94 | 0x95 | 0xB4 | 0xB5
        | 0xD5 | 0xD6 | 0xF5 | 0xF6 => AddrMode::ZeroPageX,
        0x96 | 0xB6 => AddrMode::ZeroPageY,
        0x10 | 0x30 | 0x50 | 0x70 | 0x90 | 0xB0 | 0xD0 | 0xF0 => AddrMode::Rel,
        0x0D | 0x0E | 0x20 | 0x2C | 0x2D | 0x2E | 0x4C | 0x4D | 0x4E | 0x6D | 0x6E | 0x8C
        | 0x8D | 0x8E | 0xAC | 0xAD | 0xAE | 0xCC | 0xCD | 0xCE | 0xEC | 0xED | 0xEE
            => AddrMode::Abs,
        0x1D | 0x1E | 0x3D | 0x3E | 0x5D | 0x5E | 0x7D | 0x7E | 0x9D | 0xBC | 0xBD | 0xDD
        | 0xDE | 0xFD | 0xFE => AddrMode::AbsX,
        0x19 | 0x39 | 0x59 | 0x79 | 0x99 | 0xB9 | 0xBE | 0xD9 | 0xF9 => AddrMode::AbsY,
        0x6C => AddrMode::Ind,
        0x01 | 0x21 | 0x41 | 0x61 | 0x81 | 0xA1 | 0xC1 | 0xE1 => AddrMode::IndX,
        0x11 | 0x31 | 0x51 | 0x71 | 0x91 | 0xB1 | 0xD1 | 0xF1 => AddrMode::IndY,
        _ => AddrMode::Unsupported,
    }
}

/// Decode an opcode byte to its addressing mode: the 256-entry lookup of
/// the hardware, with `Unsupported` for every undocumented opcode.
pub fn get_addr_mode(opcode: u8) -> (r: AddrMode)
    ensures
        r == spec_addr_mode(opcode),
{
    match opcode {
        0x0A | 0x2A | 0x4A | 0x6A => AddrMode::Accumulator,
        0x00 | 0x08 | 0x18 | 0x28 | 0x38 | 0x40 | 0x48 | 0x58 | 0x60 | 0x68 | 0x78 | 0x88
        | 0x8A | 0x98 | 0x9A | 0xA8 | 0xAA | 0xB8 | 0xBA | 0xC8 | 0xCA | 0xD8 | 0xE8 | 0xEA
        | 0xF8 => AddrMode::Impl,
        0x09 | 0x29 | 0x49 | 0x69 | 0xA0 | 0xA2 | 0xA9 | 0xC0 | 0xC9 | 0xE0 | 0xE9
            => AddrMode::Immediate,
        0x05 | 0x06 | 0x24 | 0x25 | 0x26 | 0x45 | 0x46 | 0x65 | 0x66 | 0x84 | 0x85 | 0x86
        | 0xA4 | 0xA5 | 0xA6 | 0xC4 | 0xC5 | 0xC6 | 0xE4 | 0xE5 | 0xE6 => AddrMode::ZeroPage,
        0x15 | 0x16 | 0x35 | 0x36 | 0x55 | 0x56 | 0x75 | 0x76 | 0x94 | 0x95 | 0xB4 | 0xB5
        | 0xD5 | 0xD6 | 0xF5 | 0xF6 => AddrMode::ZeroPageX,
        0x96 | 0xB6 => AddrMode::ZeroPageY,
        0x10 | 0x30 | 0x50 | 0x70 | 0x90 | 0xB0 | 0xD0 | 0xF0 => AddrMode::Rel,
        0x0D | 0x0E | 0x20 | 0x2C | 0x2D | 0x2E | 0x4C | 0x4D | 0x4E | 0x6D | 0x6E | 0x8C
        | 0x8D | 0x8E | 0xAC | 0xAD | 0xAE | 0xCC | 0xCD | 0xCE | 0xEC | 0xED | 0xEE
            => AddrMode::Abs,
        0x1D | 0x1E | 0x3D | 0x3E | 0x5D | 0x5E | 0x7D | 0x7E | 0x9D | 0xBC | 0xBD | 0xDD
        | 0xDE | 0xFD | 0xFE => AddrMode::AbsX,
        0x19 | 0x39 | 0x59 | 0x79 | 0x99 | 0xB9 | 0xBE | 0xD9 | 0xF9 => AddrMode::AbsY,
        0x6C => AddrMode::Ind,
        0x01 | 0x21 | 0x41 | 0x61 | 0x81 | 0xA1 | 0xC1 | 0xE1 => AddrMode::IndX,
        0x11 | 0x31 | 0x51 | 0x71 | 0x91 | 0xB1 | 0xD1 | 0xF1 => AddrMode::IndY,
        _ => AddrMode::Unsupported,
    }
}

} // verus!
